//! A task that may or may not be there.

use crate::poll::Poll;
use vstd::prelude::*;
use vstd::std_specs::convert::FromSpec;
use vstd::std_specs::convert::FromSpecImpl;

verus! {

/// A task representing a value which may or may not be present: with a task
/// inside it is ready when that task is, and without one it is ready at
/// once, with nothing.
#[derive(Debug)]
#[must_use]
pub struct OptionFuture<F> {
    option: Option<F>,
}

impl<F> View for OptionFuture<F> {
    type V = Option<F>;

    closed spec fn view(&self) -> Option<F> {
        self.option
    }
}

impl<F> OptionFuture<F> {
    /// What a poll of the wrapper reports, given what the poll of the task
    /// inside reported, if there is a task inside.
    pub open spec fn outcome<T>(inner: Option<Poll<T>>) -> Poll<Option<T>> {
        match inner {
            Some(Poll::Ready(value)) => Poll::Ready(Some(value)),
            Some(Poll::Pending) => Poll::Pending,
            None => Poll::Ready(None),
        }
    }

    /// Whether there is a task inside.
    pub fn is_some(&self) -> (b: bool)
        ensures
            b == (self@ is Some),
    {
        self.option.is_some()
    }

    /// The task inside, to be polled.
    pub fn as_mut(&mut self) -> (inner: Option<&mut F>)
        ensures
            match old(self)@ {
                None => final(self)@ is None && inner is None,
                Some(task) => {
                    &&& inner is Some
                    &&& *inner->0 == task
                    &&& final(self)@ == Some(*final(inner->0))
                },
            },
    {
        self.option.as_mut()
    }

    /// Gives back what was wrapped.
    pub fn into_inner(self) -> (inner: Option<F>)
        ensures
            inner == self@,
    {
        self.option
    }

    /// One poll of the wrapper. `inner` is what the poll of the task inside
    /// reported, or `None` when there is no task inside.
    pub fn poll<T>(inner: Option<Poll<T>>) -> (r: Poll<Option<T>>)
        ensures
            r == Self::outcome(inner),
    {
        match inner {
            Some(x) => match x {
                Poll::Ready(value) => Poll::Ready(Some(value)),
                Poll::Pending => Poll::Pending,
            },
            None => Poll::Ready(None),
        }
    }
}

impl<T> From<Option<T>> for OptionFuture<T> {
    fn from(option: Option<T>) -> (r: Self) {
        OptionFuture { option }
    }
}

impl<T> FromSpecImpl<Option<T>> for OptionFuture<T> {
    open spec fn obeys_from_spec() -> bool {
        true
    }

    closed spec fn from_spec(option: Option<T>) -> Self {
        OptionFuture { option }
    }
}

/// The wrapper made from an option holds that option.
pub proof fn lemma_from_keeps_option<T>(option: Option<T>)
    ensures
        <OptionFuture<T> as FromSpec<Option<T>>>::from_spec(option)@ == option,
{
}

} // verus!
