//! A single-waiter signal for a thread that has nothing to poll.
//!
//! Blocking itself is the caller's business: [`ParkSignal::park`] decides
//! whether the thread may go on or has to block, and [`ParkSignal::unpark`]
//! tells which blocked thread to release.

use crate::wake_slot::SlotState;
use crate::wake_slot::WakeSlot;
use vstd::prelude::*;

verus! {

/// What a thread that wants to park has to do.
#[derive(Debug, PartialEq, Eq)]
pub enum ParkOutcome {
    /// An unpark had already occurred and has been consumed: go on.
    Resumed,
    /// Nothing is pending: block until an unpark names this thread, then
    /// call `park` again.
    MustBlock,
}

/// A single-waiter signal built on a wake slot.
#[derive(Debug)]
pub struct ParkSignal {
    slot: WakeSlot,
}

impl View for ParkSignal {
    type V = SlotState;

    closed spec fn view(&self) -> SlotState {
        self.slot@
    }
}

impl ParkSignal {
    /// The state that `park` leaves behind.
    pub open spec fn after_park(s: SlotState, thread: u64) -> SlotState {
        if s.notified {
            s.take_wake()
        } else {
            SlotState { waiting: Some(thread), notified: false }
        }
    }

    /// A signal with no unpark pending and no thread waiting.
    pub fn new() -> (signal: Self)
        ensures
            signal@ == SlotState::empty(),
    {
        ParkSignal { slot: WakeSlot::new() }
    }

    /// Called by `thread` when it has nothing to do. If an unpark is pending
    /// it is consumed and the thread goes on at once; otherwise the thread is
    /// recorded as the waiter and has to block.
    pub fn park(&mut self, thread: u64) -> (outcome: ParkOutcome)
        ensures
            final(self)@ == Self::after_park(old(self)@, thread),
            (outcome is Resumed) == old(self)@.notified,
    {
        if self.slot.take_wake() {
            ParkOutcome::Resumed
        } else {
            self.slot.register(thread);
            ParkOutcome::MustBlock
        }
    }

    /// Records one unpark. Returns the thread that is blocked on the signal,
    /// which the caller must release.
    pub fn unpark(&mut self) -> (blocked: Option<u64>)
        ensures
            final(self)@ == old(self)@.wake(),
            blocked == old(self)@.waiting,
    {
        self.slot.wake()
    }

    /// Whether an unpark is pending.
    pub fn is_pending(&self) -> (pending: bool)
        ensures
            pending == self@.notified,
    {
        self.slot.is_notified()
    }
}

/// No signal is missed: an unpark that comes before the park lets the park
/// return at once, and an unpark that comes after a blocking park names the
/// blocked thread, whose next park returns at once.
pub proof fn lemma_no_missed_unpark(s: SlotState, thread: u64)
    ensures
        s.wake().notified,
        !s.notified ==> ParkSignal::after_park(s, thread).wake().notified
            && ParkSignal::after_park(s, thread).waiting == Some(thread),
{
}

/// One pending unpark satisfies one park: the park that consumes it leaves
/// nothing pending, so the next one has to block.
pub proof fn lemma_unpark_satisfies_one_park(s: SlotState, first: u64, second: u64)
    ensures
        !ParkSignal::after_park(s.wake(), first).notified,
        ParkSignal::after_park(ParkSignal::after_park(s.wake(), first), second).waiting
            == Some(second),
{
}

} // verus!
