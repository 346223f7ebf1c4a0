//! Collecting the values of a stream into a vector.

use crate::poll::Poll;
use vstd::prelude::*;

verus! {

/// What the collector asks for after one answer of the stream.
#[derive(Debug, PartialEq, Eq)]
pub enum CollectStep<T> {
    /// A value was taken in: ask the stream again.
    Continue,
    /// The stream has nothing yet: suspend until it wakes the task.
    Suspend,
    /// The stream is exhausted: these are all its values, in order.
    Complete(Vec<T>),
}

/// What the collector holds after the stream's answer `next`, when it held
/// `collected` before.
pub open spec fn taken_in<T>(collected: Seq<T>, next: Poll<Option<T>>) -> Seq<T> {
    match next {
        Poll::Ready(Some(value)) => collected.push(value),
        Poll::Ready(None) => Seq::empty(),
        Poll::Pending => collected,
    }
}

/// What the collector holds after the stream's answers `answers`, first to
/// last.
pub open spec fn taken_in_all<T>(collected: Seq<T>, answers: Seq<Poll<Option<T>>>) -> Seq<T>
    decreases answers.len(),
{
    if answers.len() == 0 {
        collected
    } else {
        taken_in(taken_in_all(collected, answers.drop_last()), answers.last())
    }
}

/// The values that a run of answers carries, in order.
pub open spec fn values_of<T>(answers: Seq<Poll<Option<T>>>) -> Seq<T>
    decreases answers.len(),
{
    if answers.len() == 0 {
        Seq::empty()
    } else {
        match answers.last() {
            Poll::Ready(Some(value)) => values_of(answers.drop_last()).push(value),
            _ => values_of(answers.drop_last()),
        }
    }
}

/// Whether the stream has not ended within `answers`.
pub open spec fn unfinished<T>(answers: Seq<Poll<Option<T>>>) -> bool {
    forall|i: int| 0 <= i < answers.len() ==> answers[i] != Poll::Ready(None::<T>)
}

/// Until the stream ends the collector holds every value that the stream
/// has given, in the order of arrival, however often the stream was not
/// ready in between. The end of the stream then hands out exactly these.
pub proof fn lemma_collects_every_value<T>(collected: Seq<T>, answers: Seq<Poll<Option<T>>>)
    requires
        unfinished(answers),
    ensures
        taken_in_all(collected, answers) == collected + values_of(answers),
    decreases answers.len(),
{
    if answers.len() == 0 {
        assert(collected + values_of(answers) =~= collected);
    } else {
        let front = answers.drop_last();
        assert forall|i: int| 0 <= i < front.len() implies front[i] != Poll::Ready(
            None::<T>,
        ) by {
            assert(front[i] == answers[i]);
        }
        lemma_collects_every_value(collected, front);
        assert(answers.last() == answers[answers.len() - 1]);
        match answers.last() {
            Poll::Ready(Some(value)) => {
                assert((collected + values_of(front)).push(value) =~= collected + values_of(
                    front,
                ).push(value));
            },
            _ => {},
        }
    }
}

/// A task which collects all of the values of a stream into a vector.
#[derive(Debug)]
#[must_use]
pub struct Collect<St, T> {
    stream: St,
    collection: Vec<T>,
}

impl<St, T> Collect<St, T> {
    /// The stream that is being collected.
    pub closed spec fn stream(&self) -> St {
        self.stream
    }

    /// The values collected so far, in the order of their arrival.
    pub closed spec fn collected(&self) -> Seq<T> {
        self.collection@
    }

    /// A collector that has taken nothing from `stream` yet.
    pub fn new(stream: St) -> (c: Self)
        ensures
            c.stream() == stream,
            c.collected() == Seq::<T>::empty(),
    {
        Collect { stream, collection: Vec::new() }
    }

    /// The stream, to be asked for its next value.
    pub fn stream_mut(&mut self) -> (stream: &mut St)
        ensures
            *stream == old(self).stream(),
            final(self).stream() == *final(stream),
            final(self).collected() == old(self).collected(),
    {
        &mut self.stream
    }

    /// Takes the collected values out and leaves the collector empty.
    pub fn finish(&mut self) -> (values: Vec<T>)
        ensures
            values@ == old(self).collected(),
            final(self).collected() == Seq::<T>::empty(),
            final(self).stream() == old(self).stream(),
    {
        let mut values: Vec<T> = Vec::new();
        std::mem::swap(&mut self.collection, &mut values);
        values
    }

    /// One step of the collector's poll, on the stream's answer `next`. A
    /// value is appended and the stream is to be asked again; the end of the
    /// stream completes the task with everything collected; a stream that is
    /// not ready suspends it, with nothing changed.
    pub fn poll(&mut self, next: Poll<Option<T>>) -> (step: CollectStep<T>)
        ensures
            final(self).stream() == old(self).stream(),
            final(self).collected() == taken_in(old(self).collected(), next),
            match next {
                Poll::Ready(Some(_)) => step is Continue,
                Poll::Ready(None) => {
                    &&& step matches CollectStep::Complete(values)
                    &&& values@ == old(self).collected()
                },
                Poll::Pending => step is Suspend,
            },
    {
        match next {
            Poll::Ready(item) => match item {
                Some(value) => {
                    self.collection.push(value);
                    CollectStep::Continue
                },
                None => CollectStep::Complete(self.finish()),
            },
            Poll::Pending => CollectStep::Suspend,
        }
    }
}

} // verus!
