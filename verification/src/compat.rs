//! Adapters from the older poll protocol to this runtime's.

use crate::poll::Poll;
use futures::Async;
use vstd::prelude::*;

verus! {

/// A task of the older protocol, wrapped so that it can be driven by this
/// runtime, together with the executor it spawns onto, if it has one.
pub struct Compat<T, E> {
    inner: T,
    executor: Option<E>,
}

impl<T, E> Compat<T, E> {
    /// The wrapped task.
    pub closed spec fn inner(&self) -> T {
        self.inner
    }

    /// The executor handed over at construction.
    pub closed spec fn executor(&self) -> Option<E> {
        self.executor
    }

    /// Wraps `inner`, remembering `executor`.
    pub fn new(inner: T, executor: Option<E>) -> (c: Self)
        ensures
            c.inner() == inner,
            c.executor() == executor,
    {
        Compat { inner, executor }
    }

    /// The wrapped task.
    pub fn get_ref(&self) -> (t: &T)
        ensures
            *t == self.inner(),
    {
        &self.inner
    }

    /// The executor handed over at construction.
    pub fn executor_ref(&self) -> (e: &Option<E>)
        ensures
            *e == self.executor(),
    {
        &self.executor
    }

    /// Gives the wrapped task back.
    pub fn into_inner(self) -> (t: T)
        ensures
            t == self.inner(),
    {
        self.inner
    }
}

/// Adds `compat` to the futures of the older protocol. Wrapping asks nothing
/// of what is wrapped, so the method is there for every type.
pub trait Future01CompatExt: Sized {
    /// Wraps the future, with no executor.
    fn compat(self) -> (c: Compat<Self, ()>)
        ensures
            c.inner() == self,
            c.executor() is None,
    {
        Compat::new(self, None)
    }
}

impl<Fut> Future01CompatExt for Fut {}

/// Adds `compat` to the streams of the older protocol. Wrapping asks nothing
/// of what is wrapped, so the method is there for every type.
pub trait Stream01CompatExt: Sized {
    /// Wraps the stream, with no executor.
    fn compat(self) -> (c: Compat<Self, ()>)
        ensures
            c.inner() == self,
            c.executor() is None,
    {
        Compat::new(self, None)
    }
}

impl<St> Stream01CompatExt for St {}

/// `futures::Async`, the readiness of the older protocol: `Ready` with a
/// value, or `NotReady`. The two variants are read from that crate's own
/// declaration; nothing is claimed of the type beyond them.
#[verifier::external_type_specification]
#[verifier::reject_recursive_types(T)]
pub struct ExAsync<T>(Async<T>);

/// What a poll of the wrapper reports, given what the poll of the wrapped
/// future reported in the older protocol: its value or its failure when it
/// has finished, and `Pending` when it is not ready.
pub open spec fn future_outcome<T, E>(polled: Result<Async<T>, E>) -> Poll<Result<T, E>> {
    match polled {
        Ok(Async::Ready(value)) => Poll::Ready(Ok(value)),
        Ok(Async::NotReady) => Poll::Pending,
        Err(error) => Poll::Ready(Err(error)),
    }
}

/// What a poll of the wrapper reports, given what the poll of the wrapped
/// stream reported in the older protocol: the next value or a failure as an
/// item, the end of the stream, or `Pending` when it is not ready.
pub open spec fn stream_outcome<T, E>(polled: Result<Async<Option<T>>, E>) -> Poll<
    Option<Result<T, E>>,
> {
    match polled {
        Ok(Async::Ready(Some(value))) => Poll::Ready(Some(Ok(value))),
        Ok(Async::Ready(None)) => Poll::Ready(None),
        Ok(Async::NotReady) => Poll::Pending,
        Err(error) => Poll::Ready(Some(Err(error))),
    }
}

/// One poll of a wrapped future, on the answer `polled` of the future
/// inside.
pub fn future_poll<T, E>(polled: Result<Async<T>, E>) -> (r: Poll<Result<T, E>>)
    ensures
        r == future_outcome(polled),
{
    match polled {
        Ok(Async::Ready(value)) => Poll::Ready(Ok(value)),
        Ok(Async::NotReady) => Poll::Pending,
        Err(error) => Poll::Ready(Err(error)),
    }
}

/// One poll of a wrapped stream, on the answer `polled` of the stream
/// inside.
pub fn stream_poll<T, E>(polled: Result<Async<Option<T>>, E>) -> (r: Poll<Option<Result<T, E>>>)
    ensures
        r == stream_outcome(polled),
{
    match polled {
        Ok(Async::Ready(Some(value))) => Poll::Ready(Some(Ok(value))),
        Ok(Async::Ready(None)) => Poll::Ready(None),
        Ok(Async::NotReady) => Poll::Pending,
        Err(error) => Poll::Ready(Some(Err(error))),
    }
}

} // verus!
