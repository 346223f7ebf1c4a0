use task_runtime::poll::Poll;
use task_runtime::pool_model::AfterPoll;
use task_runtime::pool_model::TaskStatus;
use task_runtime::pool_model::WorkerStep;
use task_runtime::thread_pool::Cancelled;
use task_runtime::thread_pool::JoinHandle;
use task_runtime::thread_pool::SpawnError;
use task_runtime::thread_pool::WorkerPoolExecutor;

#[test]
fn build_makes_idle_workers() {
    let pool = WorkerPoolExecutor::<u32>::build(4, Some(String::from("worker-")));
    assert_eq!(pool.worker_count(), 4);
    assert_eq!(pool.task_count(), 0);
    assert_eq!(pool.queued_count(), 0);
    assert!(!pool.is_shutting_down());
    assert_eq!(pool.name_prefix(), &Some(String::from("worker-")));
}

#[test]
fn hundred_tasks_resolve_to_their_index() {
    let mut pool = WorkerPoolExecutor::<usize>::build(4, None);
    let mut handles: Vec<JoinHandle> = Vec::new();
    for index in 0..100usize {
        let handle = pool.spawn().unwrap();
        assert_eq!(handle.id(), index);
        handles.push(handle);
    }
    assert_eq!(pool.queued_count(), 100);
    let mut finished = 0;
    while finished < 100 {
        let mut held: Vec<(usize, usize)> = Vec::new();
        for worker in 0..4usize {
            match pool.next_task(worker) {
                WorkerStep::Run(id) => held.push((worker, id)),
                WorkerStep::Park => {}
                other => panic!("{:?}", other),
            }
        }
        for (worker, id) in held {
            assert_eq!(
                pool.finish_poll(worker, Poll::Ready(id)),
                AfterPoll::Completed { notify: None }
            );
            finished += 1;
        }
    }
    assert_eq!(pool.queued_count(), 0);
    for (index, handle) in handles.iter().enumerate() {
        assert_eq!(pool.poll_handle(handle, 1), Poll::Ready(Ok(&index)));
        assert_eq!(pool.poll_handle(handle, 2), Poll::Ready(Ok(&index)));
        assert_eq!(pool.status(index), Some(TaskStatus::Finished));
    }
}

#[test]
fn tasks_are_handed_out_in_spawn_order() {
    let mut pool = WorkerPoolExecutor::<u8>::build(3, None);
    pool.spawn().unwrap();
    pool.spawn().unwrap();
    pool.spawn().unwrap();
    assert_eq!(pool.next_task(2), WorkerStep::Run(0));
    assert_eq!(pool.next_task(0), WorkerStep::Run(1));
    assert_eq!(pool.next_task(1), WorkerStep::Run(2));
    assert_eq!(pool.status(1), Some(TaskStatus::Polling));
}

#[test]
fn empty_queue_parks_the_worker() {
    let mut pool = WorkerPoolExecutor::<u8>::build(2, None);
    assert_eq!(pool.next_task(0), WorkerStep::Park);
    assert_eq!(pool.next_task(1), WorkerStep::Park);
}

#[test]
fn unknown_or_busy_worker_is_refused() {
    let mut pool = WorkerPoolExecutor::<u8>::build(2, None);
    pool.spawn().unwrap();
    pool.spawn().unwrap();
    assert_eq!(pool.next_task(2), WorkerStep::Refused);
    assert_eq!(pool.next_task(0), WorkerStep::Run(0));
    assert_eq!(pool.next_task(0), WorkerStep::Refused);
    assert_eq!(pool.queued_count(), 1);
    assert_eq!(pool.finish_poll(1, Poll::Ready(0)), AfterPoll::Refused);
    assert_eq!(pool.finish_poll(5, Poll::Ready(0)), AfterPoll::Refused);
    assert_eq!(pool.abort_poll(1), AfterPoll::Refused);
    assert_eq!(pool.status(0), Some(TaskStatus::Polling));
}

#[test]
fn pending_task_is_suspended_until_woken() {
    let mut pool = WorkerPoolExecutor::<u8>::build(1, None);
    let handle = pool.spawn().unwrap();
    assert_eq!(pool.next_task(0), WorkerStep::Run(0));
    assert_eq!(pool.finish_poll(0, Poll::Pending), AfterPoll::Suspended);
    assert_eq!(pool.status(0), Some(TaskStatus::Idle));
    assert_eq!(pool.next_task(0), WorkerStep::Park);
    assert!(pool.wake(handle.id()));
    assert_eq!(pool.status(0), Some(TaskStatus::Queued));
    assert_eq!(pool.next_task(0), WorkerStep::Run(0));
    assert_eq!(pool.finish_poll(0, Poll::Ready(9)), AfterPoll::Completed { notify: None });
    assert_eq!(pool.poll_handle(&handle, 1), Poll::Ready(Ok(&9)));
}

#[test]
fn wake_during_poll_forces_one_more_poll() {
    let mut pool = WorkerPoolExecutor::<u8>::build(2, None);
    pool.spawn().unwrap();
    assert_eq!(pool.next_task(0), WorkerStep::Run(0));
    assert!(!pool.wake(0));
    assert!(!pool.wake(0));
    assert!(!pool.wake(0));
    assert_eq!(pool.queued_count(), 0);
    assert_eq!(pool.next_task(1), WorkerStep::Park);
    assert_eq!(pool.finish_poll(0, Poll::Pending), AfterPoll::Requeued);
    assert_eq!(pool.queued_count(), 1);
    assert_eq!(pool.next_task(1), WorkerStep::Run(0));
    assert_eq!(pool.finish_poll(1, Poll::Pending), AfterPoll::Suspended);
    assert_eq!(pool.queued_count(), 0);
}

#[test]
fn repeated_wakes_queue_the_task_once() {
    let mut pool = WorkerPoolExecutor::<u8>::build(1, None);
    pool.spawn().unwrap();
    assert!(!pool.wake(0));
    assert!(!pool.wake(0));
    assert_eq!(pool.queued_count(), 1);
    pool.next_task(0);
    pool.finish_poll(0, Poll::Pending);
    assert!(pool.wake(0));
    assert!(!pool.wake(0));
    assert!(!pool.wake(0));
    assert_eq!(pool.queued_count(), 1);
}

#[test]
fn held_task_is_given_to_no_other_worker() {
    let mut pool = WorkerPoolExecutor::<u8>::build(3, None);
    pool.spawn().unwrap();
    assert_eq!(pool.next_task(0), WorkerStep::Run(0));
    pool.wake(0);
    assert_eq!(pool.next_task(1), WorkerStep::Park);
    assert_eq!(pool.next_task(2), WorkerStep::Park);
    assert_eq!(pool.status(0), Some(TaskStatus::Polling));
}

#[test]
fn wake_of_finished_or_unknown_task_does_nothing() {
    let mut pool = WorkerPoolExecutor::<u8>::build(1, None);
    pool.spawn().unwrap();
    pool.next_task(0);
    pool.finish_poll(0, Poll::Ready(1));
    assert!(!pool.wake(0));
    assert!(!pool.wake(17));
    assert_eq!(pool.queued_count(), 0);
    assert_eq!(pool.status(0), Some(TaskStatus::Finished));
    assert_eq!(pool.status(17), None);
}

#[test]
fn handle_is_pending_then_ready_with_the_same_output() {
    let mut pool = WorkerPoolExecutor::<String>::build(1, None);
    let handle = pool.spawn().unwrap();
    assert_eq!(pool.poll_handle(&handle, 40), Poll::Pending);
    assert_eq!(pool.poll_handle(&handle, 41), Poll::Pending);
    pool.next_task(0);
    assert_eq!(
        pool.finish_poll(0, Poll::Ready(String::from("done"))),
        AfterPoll::Completed { notify: Some(41) }
    );
    let expected = String::from("done");
    assert_eq!(pool.poll_handle(&handle, 42), Poll::Ready(Ok(&expected)));
    assert_eq!(pool.poll_handle(&handle, 43), Poll::Ready(Ok(&expected)));
    pool.wake(handle.id());
    pool.shutdown_discard();
    assert_eq!(pool.poll_handle(&handle, 44), Poll::Ready(Ok(&expected)));
}

#[test]
fn spawn_after_shutdown_fails() {
    let mut pool = WorkerPoolExecutor::<u8>::build(1, None);
    pool.spawn().unwrap();
    pool.shutdown();
    assert!(pool.is_shutting_down());
    assert_eq!(pool.spawn(), Err(SpawnError::ShutDown));
    assert_eq!(pool.task_count(), 1);
}

#[test]
fn graceful_shutdown_drains_the_queue() {
    let mut pool = WorkerPoolExecutor::<u8>::build(2, None);
    let first = pool.spawn().unwrap();
    let second = pool.spawn().unwrap();
    pool.shutdown();
    assert_eq!(pool.next_task(0), WorkerStep::Run(0));
    assert_eq!(pool.next_task(1), WorkerStep::Run(1));
    pool.finish_poll(0, Poll::Ready(10));
    assert_eq!(pool.next_task(0), WorkerStep::Park);
    pool.finish_poll(1, Poll::Ready(11));
    assert_eq!(pool.next_task(0), WorkerStep::Exit);
    assert_eq!(pool.next_task(1), WorkerStep::Exit);
    assert_eq!(pool.poll_handle(&first, 1), Poll::Ready(Ok(&10)));
    assert_eq!(pool.poll_handle(&second, 1), Poll::Ready(Ok(&11)));
}

#[test]
fn workers_do_not_exit_before_shutdown() {
    let mut pool = WorkerPoolExecutor::<u8>::build(1, None);
    assert_eq!(pool.next_task(0), WorkerStep::Park);
    pool.shutdown();
    assert_eq!(pool.next_task(0), WorkerStep::Exit);
}

#[test]
fn discarded_task_reports_cancelled() {
    let mut pool = WorkerPoolExecutor::<u8>::build(1, None);
    let queued = pool.spawn().unwrap();
    let idle = pool.spawn().unwrap();
    pool.next_task(0);
    pool.next_task(0);
    assert_eq!(pool.poll_handle(&queued, 30), Poll::Pending);
    assert_eq!(pool.poll_handle(&idle, 31), Poll::Pending);
    assert_eq!(pool.finish_poll(0, Poll::Pending), AfterPoll::Suspended);
    assert_eq!(pool.next_task(0), WorkerStep::Run(1));
    assert_eq!(pool.finish_poll(0, Poll::Pending), AfterPoll::Suspended);
    pool.wake(1);
    let third = pool.spawn().unwrap();
    assert_eq!(pool.shutdown_discard(), vec![30, 31]);
    assert_eq!(pool.queued_count(), 0);
    assert_eq!(pool.poll_handle(&queued, 1), Poll::Ready(Err(Cancelled {})));
    assert_eq!(pool.poll_handle(&idle, 1), Poll::Ready(Err(Cancelled {})));
    assert_eq!(pool.poll_handle(&third, 1), Poll::Ready(Err(Cancelled {})));
    assert_eq!(pool.spawn(), Err(SpawnError::ShutDown));
    assert_eq!(pool.next_task(0), WorkerStep::Exit);
}

#[test]
fn task_in_flight_at_discard_is_dropped_when_its_poll_returns_pending() {
    let mut pool = WorkerPoolExecutor::<u8>::build(2, None);
    let running = pool.spawn().unwrap();
    let finishing = pool.spawn().unwrap();
    pool.next_task(0);
    pool.next_task(1);
    pool.poll_handle(&running, 8);
    assert_eq!(pool.shutdown_discard(), Vec::<u64>::new());
    assert_eq!(pool.poll_handle(&running, 8), Poll::Pending);
    assert_eq!(pool.next_task(0), WorkerStep::Refused);
    pool.wake(0);
    assert_eq!(pool.finish_poll(0, Poll::Pending), AfterPoll::Discarded { notify: Some(8) });
    assert_eq!(pool.finish_poll(1, Poll::Ready(3)), AfterPoll::Completed { notify: None });
    assert_eq!(pool.poll_handle(&running, 8), Poll::Ready(Err(Cancelled {})));
    assert_eq!(pool.poll_handle(&finishing, 8), Poll::Ready(Ok(&3)));
    assert_eq!(pool.next_task(0), WorkerStep::Exit);
}

#[test]
fn failed_poll_cancels_only_its_own_task() {
    let mut pool = WorkerPoolExecutor::<u8>::build(2, None);
    let faulty = pool.spawn().unwrap();
    let sound = pool.spawn().unwrap();
    pool.poll_handle(&faulty, 60);
    pool.next_task(0);
    pool.next_task(1);
    assert_eq!(pool.abort_poll(0), AfterPoll::Discarded { notify: Some(60) });
    assert_eq!(pool.poll_handle(&faulty, 1), Poll::Ready(Err(Cancelled {})));
    assert_eq!(pool.status(1), Some(TaskStatus::Polling));
    assert_eq!(pool.finish_poll(1, Poll::Ready(5)), AfterPoll::Completed { notify: None });
    assert_eq!(pool.poll_handle(&sound, 1), Poll::Ready(Ok(&5)));
    assert!(pool.spawn().is_ok());
    assert_eq!(pool.next_task(0), WorkerStep::Run(2));
}

#[test]
fn handle_of_another_pool_reports_cancelled() {
    let mut first = WorkerPoolExecutor::<u8>::build(1, None);
    let mut second = WorkerPoolExecutor::<u8>::build(1, None);
    let handle = first.spawn().unwrap();
    assert_eq!(second.poll_handle(&handle, 1), Poll::Ready(Err(Cancelled {})));
    assert_eq!(first.poll_handle(&handle, 1), Poll::Pending);
}
