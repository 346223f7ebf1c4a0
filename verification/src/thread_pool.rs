//! The state that the workers of a pool share, and the decisions taken on
//! it.
//!
//! The pool owns no thread and no task object. Whoever runs the workers
//! keeps this state behind one lock, keeps the task objects by id, and calls
//! in at each decision: a worker asks [`WorkerPoolExecutor::next_task`] for
//! work, polls the task it is given, and reports what came back with
//! [`WorkerPoolExecutor::finish_poll`]; a waker calls
//! [`WorkerPoolExecutor::wake`].

use crate::poll::Poll;
use crate::pool_laws::lemma_abort_poll_wf;
use crate::pool_laws::lemma_finish_poll_wf;
use crate::pool_laws::lemma_initial_wf;
use crate::pool_laws::lemma_next_task_wf;
use crate::pool_laws::lemma_poll_handle_wf;
use crate::pool_laws::lemma_shutdown_discard_wf;
use crate::pool_laws::lemma_shutdown_wf;
use crate::pool_laws::lemma_spawn_wf;
use crate::pool_laws::lemma_wake_wf;
use crate::pool_model::discard_notifications;
use crate::pool_model::AfterPoll;
use crate::pool_model::HandleState;
use crate::pool_model::PoolState;
use crate::pool_model::TaskModel;
use crate::pool_model::TaskStatus;
use crate::pool_model::WorkerStep;
use crate::wake_slot::WakeSlot;
use std::collections::VecDeque;
use vstd::prelude::*;

verus! {

/// The task behind a handle was discarded before it completed.
#[derive(Debug, PartialEq, Eq)]
pub struct Cancelled {}

/// Why a task was not accepted.
#[derive(Debug, PartialEq, Eq)]
pub enum SpawnError {
    /// The pool has begun to shut down.
    ShutDown,
}

/// The handle on a spawned task's result.
#[derive(Debug, PartialEq, Eq)]
pub struct JoinHandle {
    id: usize,
}

impl JoinHandle {
    /// The id of the task behind the handle.
    pub closed spec fn task(&self) -> usize {
        self.id
    }

    /// The id of the task behind the handle.
    pub fn id(&self) -> (id: usize)
        ensures
            id == self.task(),
    {
        self.id
    }
}

struct TaskEntry<T> {
    status: TaskStatus,
    repoll: bool,
    cell: HandleState<T>,
    waiter: WakeSlot,
}

impl<T> TaskEntry<T> {
    spec fn model(self) -> TaskModel<T> {
        TaskModel {
            status: self.status,
            repoll: self.repoll,
            cell: self.cell,
            waiter: self.waiter@,
        }
    }
}

/// The shared state of a pool of workers.
pub struct WorkerPoolExecutor<T> {
    queue: VecDeque<usize>,
    tasks: Vec<TaskEntry<T>>,
    running: Vec<Option<usize>>,
    shutting_down: bool,
    discarding: bool,
    name_prefix: Option<String>,
}

impl<T> View for WorkerPoolExecutor<T> {
    type V = PoolState<T>;

    closed spec fn view(&self) -> PoolState<T> {
        PoolState {
            queue: self.queue@,
            tasks: self.tasks@.map_values(|e: TaskEntry<T>| e.model()),
            running: self.running@,
            shutting_down: self.shutting_down,
            discarding: self.discarding,
        }
    }
}

impl<T> WorkerPoolExecutor<T> {
    /// The invariant of the pool.
    pub open spec fn wf(&self) -> bool {
        self@.wf()
    }

    /// The prefix that the workers' thread names get.
    pub closed spec fn prefix(&self) -> Option<String> {
        self.name_prefix
    }

    /// A pool of `worker_count` idle workers and no task.
    pub fn build(worker_count: usize, name_prefix: Option<String>) -> (pool: Self)
        requires
            worker_count > 0,
        ensures
            pool@ == PoolState::<T>::initial(worker_count as nat),
            pool.wf(),
            pool.prefix() == name_prefix,
    {
        let mut running: Vec<Option<usize>> = Vec::new();
        let mut w: usize = 0;
        while w < worker_count
            invariant
                w <= worker_count,
                running@.len() == w,
                forall|i: int| 0 <= i < w ==> running@[i] is None,
            decreases worker_count - w,
        {
            running.push(None);
            w += 1;
        }
        let pool = WorkerPoolExecutor {
            queue: VecDeque::new(),
            tasks: Vec::new(),
            running,
            shutting_down: false,
            discarding: false,
            name_prefix,
        };
        proof {
            let init = PoolState::<T>::initial(worker_count as nat);
            assert(pool@.running =~= init.running);
            assert(pool@.tasks =~= init.tasks);
            assert(pool@.queue =~= init.queue);
            lemma_initial_wf::<T>(worker_count as nat);
        }
        pool
    }

    /// The number of workers.
    pub fn worker_count(&self) -> (n: usize)
        ensures
            n == self@.running.len(),
    {
        self.running.len()
    }

    /// The prefix that the workers' thread names get.
    pub fn name_prefix(&self) -> (p: &Option<String>)
        ensures
            *p == self.prefix(),
    {
        &self.name_prefix
    }

    /// The number of tasks spawned so far.
    pub fn task_count(&self) -> (n: usize)
        ensures
            n == self@.tasks.len(),
    {
        self.tasks.len()
    }

    /// The number of tasks in the run queue.
    pub fn queued_count(&self) -> (n: usize)
        ensures
            n == self@.queue.len(),
    {
        self.queue.len()
    }

    /// Whether the pool has begun to shut down.
    pub fn is_shutting_down(&self) -> (b: bool)
        ensures
            b == self@.shutting_down,
    {
        self.shutting_down
    }

    /// Where the task `id` stands, if the pool has such a task.
    pub fn status(&self, id: usize) -> (s: Option<TaskStatus>)
        ensures
            s == (if self@.known(id) {
                Some(self@.tasks[id as int].status)
            } else {
                None
            }),
    {
        if id < self.tasks.len() {
            Some(self.tasks[id].status)
        } else {
            None
        }
    }

    /// Accepts a task: it gets the next id, is queued, and its handle is
    /// returned. Fails once the pool has begun to shut down.
    pub fn spawn(&mut self) -> (r: Result<JoinHandle, SpawnError>)
        requires
            old(self).wf(),
        ensures
            final(self).wf(),
            final(self)@ == old(self)@.spawn(),
            final(self).prefix() == old(self).prefix(),
            match r {
                Ok(handle) => old(self)@.spawn_result() == Some(handle.task()),
                Err(e) => old(self)@.spawn_result() is None && e is ShutDown,
            },
    {
        if self.shutting_down {
            return Err(SpawnError::ShutDown);
        }
        let id = self.tasks.len();
        self.tasks.push(
            TaskEntry {
                status: TaskStatus::Queued,
                repoll: false,
                cell: HandleState::Pending,
                waiter: WakeSlot::new(),
            },
        );
        self.queue.push_back(id);
        proof {
            assert(self.tasks.len() == id + 1);
            assert(self@.tasks =~= old(self)@.spawn().tasks);
            assert(self@.queue =~= old(self)@.spawn().queue);
            lemma_spawn_wf(old(self)@);
        }
        Ok(JoinHandle { id })
    }

    /// Requests that the task `id` be polled again. A suspended task is
    /// queued; a task that is being polled is marked for one more poll; a
    /// task that is queued or finished, and an id that names no task, are
    /// left alone. Returns whether the task was queued, that is whether a
    /// parked worker has to be released.
    pub fn wake(&mut self, id: usize) -> (enqueued: bool)
        requires
            old(self).wf(),
        ensures
            final(self).wf(),
            final(self)@ == old(self)@.wake(id),
            final(self).prefix() == old(self).prefix(),
            enqueued == old(self)@.wake_enqueues(id),
    {
        if id >= self.tasks.len() {
            return false;
        }
        let mut enqueued = false;
        match self.tasks[id].status {
            TaskStatus::Idle => {
                self.tasks[id].status = TaskStatus::Queued;
                self.tasks[id].repoll = false;
                self.queue.push_back(id);
                enqueued = true;
            },
            TaskStatus::Polling => {
                self.tasks[id].repoll = true;
            },
            TaskStatus::Queued => {},
            TaskStatus::Finished => {},
        }
        proof {
            assert(self@.tasks =~= old(self)@.wake(id).tasks);
            assert(self@.queue =~= old(self)@.wake(id).queue);
            lemma_wake_wf(old(self)@, id);
        }
        enqueued
    }

    /// Whether some worker holds a task.
    fn any_running(&self) -> (b: bool)
        ensures
            b == self@.any_running(),
    {
        let mut w: usize = 0;
        while w < self.running.len()
            invariant
                w <= self.running@.len(),
                forall|i: int| 0 <= i < w ==> self.running@[i] is None,
            decreases self.running@.len() - w,
        {
            if self.running[w].is_some() {
                return true;
            }
            w += 1;
        }
        false
    }

    /// Called by `worker` when it has nothing in hand. Hands out the task at
    /// the front of the queue, which from now on is being polled by that
    /// worker; with an empty queue, tells the worker to leave if the pool is
    /// shutting down and no task is being polled, and to park otherwise.
    pub fn next_task(&mut self, worker: usize) -> (step: WorkerStep)
        requires
            old(self).wf(),
        ensures
            final(self).wf(),
            final(self)@ == old(self)@.next_task(worker),
            final(self).prefix() == old(self).prefix(),
            step == old(self)@.next_task_result(worker),
    {
        if worker >= self.running.len() || self.running[worker].is_some() {
            return WorkerStep::Refused;
        }
        match self.queue.pop_front() {
            Some(id) => {
                proof {
                    assert(old(self)@.is_queued(old(self)@.queue[0]));
                }
                self.tasks[id].status = TaskStatus::Polling;
                self.tasks[id].repoll = false;
                self.running[worker] = Some(id);
                proof {
                    assert(self@.tasks =~= old(self)@.next_task(worker).tasks);
                    assert(self@.queue =~= old(self)@.next_task(worker).queue);
                    assert(self@.running =~= old(self)@.next_task(worker).running);
                    lemma_next_task_wf(old(self)@, worker);
                }
                WorkerStep::Run(id)
            },
            None => {
                if self.shutting_down && !self.any_running() {
                    WorkerStep::Exit
                } else {
                    WorkerStep::Park
                }
            },
        }
    }

    /// Called by `worker` with the outcome of polling the task it holds. A
    /// result completes the task and settles its handle. Without a result
    /// the task goes back to the queue if it was woken meanwhile, and is
    /// suspended otherwise; after a discarding shutdown it is dropped. The
    /// worker holds nothing afterwards.
    pub fn finish_poll(&mut self, worker: usize, outcome: Poll<T>) -> (after: AfterPoll)
        requires
            old(self).wf(),
        ensures
            final(self).wf(),
            final(self)@ == old(self)@.finish_poll(worker, outcome),
            final(self).prefix() == old(self).prefix(),
            after == old(self)@.finish_poll_result(worker, outcome),
    {
        if worker >= self.running.len() {
            return AfterPoll::Refused;
        }
        let id = match self.running[worker] {
            Some(id) => id,
            None => {
                return AfterPoll::Refused;
            },
        };
        proof {
            assert(old(self)@.holds_polling(worker as int));
        }
        self.running[worker] = None;
        let after = match outcome {
            Poll::Ready(value) => {
                self.tasks[id].status = TaskStatus::Finished;
                self.tasks[id].repoll = false;
                self.tasks[id].cell = HandleState::Ready(value);
                let notify = self.tasks[id].waiter.wake();
                AfterPoll::Completed { notify }
            },
            Poll::Pending => {
                if self.discarding {
                    self.tasks[id].status = TaskStatus::Finished;
                    self.tasks[id].repoll = false;
                    self.tasks[id].cell = HandleState::Cancelled;
                    let notify = self.tasks[id].waiter.wake();
                    AfterPoll::Discarded { notify }
                } else if self.tasks[id].repoll {
                    self.tasks[id].status = TaskStatus::Queued;
                    self.tasks[id].repoll = false;
                    self.queue.push_back(id);
                    AfterPoll::Requeued
                } else {
                    self.tasks[id].status = TaskStatus::Idle;
                    AfterPoll::Suspended
                }
            },
        };
        proof {
            assert(self@.tasks =~= old(self)@.finish_poll(worker, outcome).tasks);
            assert(self@.queue =~= old(self)@.finish_poll(worker, outcome).queue);
            assert(self@.running =~= old(self)@.finish_poll(worker, outcome).running);
            lemma_finish_poll_wf(old(self)@, worker, outcome);
        }
        after
    }

    /// Called for `worker` when the poll of the task it holds did not
    /// return: the task is dropped and its handle reports `Cancelled`. The
    /// rest of the pool is untouched.
    pub fn abort_poll(&mut self, worker: usize) -> (after: AfterPoll)
        requires
            old(self).wf(),
        ensures
            final(self).wf(),
            final(self)@ == old(self)@.abort_poll(worker),
            final(self).prefix() == old(self).prefix(),
            after == old(self)@.abort_poll_result(worker),
    {
        if worker >= self.running.len() {
            return AfterPoll::Refused;
        }
        let id = match self.running[worker] {
            Some(id) => id,
            None => {
                return AfterPoll::Refused;
            },
        };
        proof {
            assert(old(self)@.holds_polling(worker as int));
        }
        self.running[worker] = None;
        self.tasks[id].status = TaskStatus::Finished;
        self.tasks[id].repoll = false;
        self.tasks[id].cell = HandleState::Cancelled;
        let notify = self.tasks[id].waiter.wake();
        proof {
            assert(self@.tasks =~= old(self)@.abort_poll(worker).tasks);
            assert(self@.running =~= old(self)@.abort_poll(worker).running);
            lemma_abort_poll_wf(old(self)@, worker);
        }
        AfterPoll::Discarded { notify }
    }

    /// Polls the handle for `interest`. While the task is unfinished,
    /// `interest` is recorded as the one to notify and the answer is
    /// `Pending`. Afterwards the answer is the task's output, the same at
    /// every poll, or `Cancelled`; the pool is then left as it is.
    pub fn poll_handle(&mut self, handle: &JoinHandle, interest: u64) -> (r: Poll<
        Result<&T, Cancelled>,
    >)
        requires
            old(self).wf(),
        ensures
            final(self).wf(),
            final(self)@ == old(self)@.poll_handle(handle.task(), interest),
            final(self).prefix() == old(self).prefix(),
            match old(self)@.handle_state(handle.task()) {
                HandleState::Pending => r is Pending,
                HandleState::Ready(value) => r matches Poll::Ready(Ok(out)) && *out == value,
                HandleState::Cancelled => r matches Poll::Ready(Err(_)),
            },
    {
        let id = handle.id;
        if id >= self.tasks.len() {
            return Poll::Ready(Err(Cancelled {}));
        }
        if let HandleState::Pending = self.tasks[id].cell {
            self.tasks[id].waiter.register(interest);
            proof {
                assert(self@.tasks =~= old(self)@.poll_handle(id, interest).tasks);
                lemma_poll_handle_wf(old(self)@, id, interest);
            }
            return Poll::Pending;
        }
        match &self.tasks[id].cell {
            HandleState::Ready(value) => Poll::Ready(Ok(value)),
            _ => Poll::Ready(Err(Cancelled {})),
        }
    }

    /// Begins a graceful shutdown: no task is accepted any more, and the
    /// tasks that the pool has are run to their end.
    pub fn shutdown(&mut self)
        requires
            old(self).wf(),
        ensures
            final(self).wf(),
            final(self)@ == old(self)@.shutdown(),
            final(self).prefix() == old(self).prefix(),
    {
        self.shutting_down = true;
        proof {
            lemma_shutdown_wf(old(self)@);
        }
    }

    /// Begins a discarding shutdown: no task is accepted any more, the queue
    /// is emptied, and every task that is queued or suspended is dropped,
    /// its handle reporting `Cancelled`. Returns whoever waits on the
    /// handles of the dropped tasks, by task id, to be notified.
    pub fn shutdown_discard(&mut self) -> (notify: Vec<u64>)
        requires
            old(self).wf(),
        ensures
            final(self).wf(),
            final(self)@ == old(self)@.shutdown_discard(),
            final(self).prefix() == old(self).prefix(),
            notify@ == discard_notifications(old(self)@.tasks),
    {
        self.shutting_down = true;
        self.discarding = true;
        self.queue.clear();
        let mut notify: Vec<u64> = Vec::new();
        let mut id: usize = 0;
        let ghost before = old(self)@.tasks;
        while id < self.tasks.len()
            invariant
                id <= self.tasks@.len(),
                self.tasks@.len() == before.len(),
                before == old(self)@.tasks,
                self.running@ == old(self).running@,
                self.name_prefix == old(self).name_prefix,
                self.queue@.len() == 0,
                self.shutting_down,
                self.discarding,
                forall|j: int| 0 <= j < id ==> (#[trigger] self.tasks@[j]).model() == before[j].after_discard(),
                forall|j: int| id <= j < before.len() ==> (#[trigger] self.tasks@[j]).model() == before[j],
                notify@ == discard_notifications(before.take(id as int)),
            decreases self.tasks@.len() - id,
        {
            proof {
                assert(before.take(id as int + 1).drop_last() =~= before.take(id as int));
                assert(before.take(id as int + 1).last() == before[id as int]);
            }
            match self.tasks[id].status {
                TaskStatus::Idle | TaskStatus::Queued => {
                    self.tasks[id].status = TaskStatus::Finished;
                    self.tasks[id].repoll = false;
                    self.tasks[id].cell = HandleState::Cancelled;
                    match self.tasks[id].waiter.wake() {
                        Some(waiting) => {
                            notify.push(waiting);
                        },
                        None => {},
                    }
                },
                _ => {},
            }
            id += 1;
        }
        proof {
            assert(before.take(before.len() as int) =~= before);
            assert(self@.tasks =~= old(self)@.shutdown_discard().tasks);
            assert(self@.queue =~= old(self)@.shutdown_discard().queue);
            lemma_shutdown_discard_wf(old(self)@);
        }
        notify
    }
}

} // verus!
