//! A cell that holds at most one pending wake signal.
//!
//! Producers call [`WakeSlot::wake`]; the owning task calls
//! [`WakeSlot::register`] and [`WakeSlot::take_wake`]. Every operation takes
//! the slot exclusively, so concurrent callers are serialised by whatever
//! shares the slot between them, and a history of the slot is a sequence of
//! whole operations.

use vstd::prelude::*;

verus! {

/// The mathematical content of a slot.
pub struct SlotState {
    /// Who must be notified by the next wake, if anybody.
    pub waiting: Option<u64>,
    /// Whether a wake has occurred that the owner has not consumed yet.
    pub notified: bool,
}

/// An operation of a producer or of the owner that consumes nothing.
pub enum SlotOp {
    /// The owner records who must be notified.
    Register(u64),
    /// A producer signals.
    Wake,
}

impl SlotState {
    /// The slot as it is created: nobody waits, nothing is pending.
    pub open spec fn empty() -> SlotState {
        SlotState { waiting: None, notified: false }
    }

    /// The slot after the owner has registered `interest`.
    pub open spec fn register(self, interest: u64) -> SlotState {
        SlotState { waiting: Some(interest), notified: self.notified }
    }

    /// The slot after one wake: the signal is pending and the waiting
    /// context has been handed to the producer.
    pub open spec fn wake(self) -> SlotState {
        SlotState { waiting: None, notified: true }
    }

    /// The slot after the owner has consumed the pending signal.
    pub open spec fn take_wake(self) -> SlotState {
        SlotState { waiting: self.waiting, notified: false }
    }

    /// The slot after one operation.
    pub open spec fn step(self, op: SlotOp) -> SlotState {
        match op {
            SlotOp::Register(interest) => self.register(interest),
            SlotOp::Wake => self.wake(),
        }
    }

    /// The slot after the operations of `ops`, first to last.
    pub open spec fn run(self, ops: Seq<SlotOp>) -> SlotState
        decreases ops.len(),
    {
        if ops.len() == 0 {
            self
        } else {
            self.run(ops.drop_last()).step(ops.last())
        }
    }

    /// The slot after `n` wakes in a row.
    pub open spec fn wake_times(self, n: nat) -> SlotState
        decreases n,
    {
        if n == 0 {
            self
        } else {
            self.wake_times((n - 1) as nat).wake()
        }
    }
}

/// Whether a `Wake` occurs in `ops`.
pub open spec fn has_wake(ops: Seq<SlotOp>) -> bool {
    exists|i: int| 0 <= i < ops.len() && ops[i] is Wake
}

/// A cell with at most one pending wake signal.
#[derive(Debug)]
pub struct WakeSlot {
    waiting: Option<u64>,
    notified: bool,
}

impl View for WakeSlot {
    type V = SlotState;

    closed spec fn view(&self) -> SlotState {
        SlotState { waiting: self.waiting, notified: self.notified }
    }
}

impl WakeSlot {
    /// A slot on which nobody waits and nothing is pending.
    pub fn new() -> (slot: Self)
        ensures
            slot@ == SlotState::empty(),
    {
        WakeSlot { waiting: None, notified: false }
    }

    /// Records that `interest` must be notified by the next wake. A signal
    /// that is already pending stays pending.
    pub fn register(&mut self, interest: u64)
        ensures
            final(self)@ == old(self)@.register(interest),
    {
        self.waiting = Some(interest);
    }

    /// Records that a wake occurred. Returns the context that was waiting,
    /// which the caller must now notify; later wakes find nobody waiting
    /// until the owner registers again.
    pub fn wake(&mut self) -> (target: Option<u64>)
        ensures
            final(self)@ == old(self)@.wake(),
            target == old(self)@.waiting,
    {
        let target = self.waiting;
        self.waiting = None;
        self.notified = true;
        target
    }

    /// Consumes the pending signal and tells whether there was one.
    pub fn take_wake(&mut self) -> (pending: bool)
        ensures
            final(self)@ == old(self)@.take_wake(),
            pending == old(self)@.notified,
    {
        let pending = self.notified;
        self.notified = false;
        pending
    }

    /// Whether a signal is pending, without consuming it.
    pub fn is_notified(&self) -> (pending: bool)
        ensures
            pending == self@.notified,
    {
        self.notified
    }

    /// The context that the next wake would notify.
    pub fn waiting(&self) -> (w: Option<u64>)
        ensures
            w == self@.waiting,
    {
        self.waiting
    }
}

/// A wake is never lost: whatever the slot held, and in whichever order one
/// `register` and one `wake` arrive, the owner's next `take_wake` reports a
/// pending signal, and the one after it reports none. When the registration
/// came first, the wake also hands out the registered context.
pub proof fn lemma_no_lost_wakeup(s: SlotState, interest: u64)
    ensures
        s.register(interest).wake().notified,
        !s.register(interest).wake().take_wake().notified,
        s.register(interest).waiting == Some(interest),
        s.wake().register(interest).notified,
        !s.wake().register(interest).take_wake().notified,
        s.wake().register(interest).take_wake().waiting == Some(interest),
{
}

/// The general form: after any history of registrations and wakes in which
/// at least one wake occurs, exactly one signal is pending.
pub proof fn lemma_wake_survives_history(s: SlotState, ops: Seq<SlotOp>)
    requires
        has_wake(ops),
    ensures
        s.run(ops).notified,
        !s.run(ops).take_wake().notified,
    decreases ops.len(),
{
    let i = choose|i: int| 0 <= i < ops.len() && ops[i] is Wake;
    if ops.last() is Wake {
    } else {
        assert(i < ops.len() - 1);
        assert(ops.drop_last()[i] is Wake);
        lemma_wake_survives_history(s, ops.drop_last());
    }
}

/// Without a wake nothing becomes pending: a history of registrations alone
/// leaves the signal as it was.
pub proof fn lemma_no_spurious_signal(s: SlotState, ops: Seq<SlotOp>)
    requires
        !has_wake(ops),
    ensures
        s.run(ops).notified == s.notified,
    decreases ops.len(),
{
    if ops.len() > 0 {
        assert(!(ops.last() is Wake)) by {
            if ops.last() is Wake {
                assert(ops[ops.len() - 1] is Wake);
            }
        }
        assert(!has_wake(ops.drop_last())) by {
            if has_wake(ops.drop_last()) {
                let i = choose|i: int| 0 <= i < ops.drop_last().len() && ops.drop_last()[i] is Wake;
                assert(ops[i] is Wake);
            }
        }
        lemma_no_spurious_signal(s, ops.drop_last());
    }
}

/// Wakes coalesce: any positive number of wakes in a row leaves the slot
/// exactly as one wake does, with one signal pending.
pub proof fn lemma_wake_coalesces(s: SlotState, n: nat)
    requires
        n >= 1,
    ensures
        s.wake_times(n) == s.wake(),
        s.wake_times(n).take_wake().notified == false,
    decreases n,
{
    if n > 1 {
        lemma_wake_coalesces(s, (n - 1) as nat);
    }
}

} // verus!
