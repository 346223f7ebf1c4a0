use task_runtime::collect::Collect;
use task_runtime::collect::CollectStep;
use task_runtime::compat::future_poll;
use task_runtime::compat::stream_poll;
use task_runtime::compat::Compat;
use task_runtime::compat::Future01CompatExt;
use task_runtime::compat::Stream01CompatExt;
use task_runtime::option_future::OptionFuture;
use task_runtime::poll::Poll;

#[test]
fn poll_tells_ready_from_pending() {
    assert!(Poll::Ready(1).is_ready());
    assert!(!Poll::Ready(1).is_pending());
    assert!(Poll::<u8>::Pending.is_pending());
    assert!(!Poll::<u8>::Pending.is_ready());
}

#[test]
fn option_future_with_a_ready_task_gives_its_value() {
    let mut a: OptionFuture<u32> = Some(123).into();
    assert!(a.is_some());
    let polled = a.as_mut().map(|task| Poll::Ready(*task));
    assert_eq!(OptionFuture::<u32>::poll(polled), Poll::Ready(Some(123)));
}

#[test]
fn option_future_without_a_task_is_ready_with_none() {
    let mut a: OptionFuture<u32> = None.into();
    assert!(!a.is_some());
    let polled = a.as_mut().map(|task| Poll::Ready(*task));
    assert_eq!(OptionFuture::<u32>::poll(polled), Poll::Ready(None));
}

#[test]
fn option_future_with_a_pending_task_is_pending() {
    assert_eq!(OptionFuture::<u32>::poll(Some(Poll::<u8>::Pending)), Poll::Pending);
}

#[test]
fn option_future_lets_the_task_inside_change() {
    let mut a = OptionFuture::from(Some(1u8));
    match a.as_mut() {
        Some(task) => *task = 2,
        None => panic!("no task inside"),
    }
    assert_eq!(a.into_inner(), Some(2));
}

#[test]
fn collect_gathers_the_values_in_order() {
    let mut collect: Collect<(), u32> = Collect::new(());
    assert_eq!(collect.poll(Poll::Ready(Some(1))), CollectStep::Continue);
    assert_eq!(collect.poll(Poll::Pending), CollectStep::Suspend);
    assert_eq!(collect.poll(Poll::Ready(Some(2))), CollectStep::Continue);
    assert_eq!(collect.poll(Poll::Ready(Some(3))), CollectStep::Continue);
    assert_eq!(collect.poll(Poll::Ready(None)), CollectStep::Complete(vec![1, 2, 3]));
}

#[test]
fn collect_of_an_empty_stream_is_empty() {
    let mut collect: Collect<(), u32> = Collect::new(());
    assert_eq!(collect.poll(Poll::Ready(None)), CollectStep::Complete(vec![]));
}

#[test]
fn collect_is_empty_after_finish() {
    let mut collect: Collect<(), u8> = Collect::new(());
    collect.poll(Poll::Ready(Some(9)));
    assert_eq!(collect.finish(), vec![9]);
    assert_eq!(collect.finish(), Vec::<u8>::new());
    assert_eq!(collect.poll(Poll::Ready(None)), CollectStep::Complete(vec![]));
}

#[test]
fn collect_hands_out_its_stream() {
    let mut collect: Collect<Vec<u8>, u8> = Collect::new(vec![4, 5]);
    let next = collect.stream_mut().pop();
    assert_eq!(collect.poll(Poll::Ready(next)), CollectStep::Continue);
    let next = collect.stream_mut().pop();
    assert_eq!(collect.poll(Poll::Ready(next)), CollectStep::Continue);
    let next = collect.stream_mut().pop();
    assert_eq!(collect.poll(Poll::Ready(next)), CollectStep::Complete(vec![5, 4]));
}

#[test]
fn compat_wraps_a_future_without_executor() {
    let wrapped: Compat<futures::future::FutureResult<u32, ()>, ()> =
        Future01CompatExt::compat(futures::future::ok::<u32, ()>(7));
    assert_eq!(wrapped.executor_ref(), &None);
    let mut inner = wrapped.into_inner();
    assert_eq!(futures::Future::poll(&mut inner), Ok(futures::Async::Ready(7)));
}

#[test]
fn compat_wraps_a_stream_without_executor() {
    let wrapped = Stream01CompatExt::compat(futures::stream::once::<u32, ()>(Ok(7)));
    assert_eq!(wrapped.executor_ref(), &None);
    let mut inner = wrapped.into_inner();
    assert_eq!(futures::Stream::poll(&mut inner), Ok(futures::Async::Ready(Some(7))));
}

#[test]
fn compat_new_keeps_what_it_is_given() {
    let wrapped = Compat::new(5u8, Some("executor"));
    assert_eq!(wrapped.executor_ref(), &Some("executor"));
    assert_eq!(wrapped.get_ref(), &5);
    assert_eq!(wrapped.into_inner(), 5);
}

#[test]
fn finished_future_of_the_older_protocol_is_ready_with_ok() {
    let mut inner = Future01CompatExt::compat(futures::future::ok::<u32, u8>(7)).into_inner();
    assert_eq!(future_poll(futures::Future::poll(&mut inner)), Poll::Ready(Ok(7)));
}

#[test]
fn failed_future_of_the_older_protocol_is_ready_with_err() {
    let mut inner = Future01CompatExt::compat(futures::future::err::<u32, u8>(3)).into_inner();
    assert_eq!(future_poll(futures::Future::poll(&mut inner)), Poll::Ready(Err(3)));
}

#[test]
fn unfinished_future_of_the_older_protocol_is_pending() {
    let mut inner = Future01CompatExt::compat(futures::future::empty::<u32, u8>()).into_inner();
    assert_eq!(future_poll(futures::Future::poll(&mut inner)), Poll::Pending);
    assert_eq!(future_poll::<u32, u8>(Ok(futures::Async::NotReady)), Poll::Pending);
}

#[test]
fn stream_of_the_older_protocol_yields_items_then_ends() {
    let source = futures::stream::iter_result::<_, u32, u8>(vec![Ok(1), Err(9), Ok(2)]);
    let mut inner = Stream01CompatExt::compat(source).into_inner();
    assert_eq!(stream_poll(futures::Stream::poll(&mut inner)), Poll::Ready(Some(Ok(1))));
    assert_eq!(stream_poll(futures::Stream::poll(&mut inner)), Poll::Ready(Some(Err(9))));
    assert_eq!(stream_poll(futures::Stream::poll(&mut inner)), Poll::Ready(Some(Ok(2))));
    assert_eq!(stream_poll(futures::Stream::poll(&mut inner)), Poll::Ready(None));
}

#[test]
fn unready_stream_of_the_older_protocol_is_pending() {
    assert_eq!(stream_poll::<u32, u8>(Ok(futures::Async::NotReady)), Poll::Pending);
    assert_eq!(stream_poll::<u32, u8>(Err(4)), Poll::Ready(Some(Err(4))));
}

#[test]
fn collect_gathers_a_stream_of_the_older_protocol() {
    let source = futures::stream::iter_ok::<_, u8>(vec![10u32, 20, 30]);
    let mut collect: Collect<_, Result<u32, u8>> = Collect::new(source);
    loop {
        let next = stream_poll(futures::Stream::poll(collect.stream_mut()));
        match collect.poll(next) {
            CollectStep::Continue => {}
            CollectStep::Suspend => panic!("the stream is never pending"),
            CollectStep::Complete(values) => {
                assert_eq!(values, vec![Ok(10), Ok(20), Ok(30)]);
                break;
            }
        }
    }
}
