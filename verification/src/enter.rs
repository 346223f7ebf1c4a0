//! The guard against nesting one blocking run inside another on a thread.
//!
//! The flag belongs to a thread; the caller keeps one [`EntryState`] per
//! thread and hands it to [`enter`].

use vstd::prelude::*;

verus! {

/// A thread's record of whether it is inside a blocking run.
#[derive(Debug)]
pub struct EntryState {
    entered: bool,
}

/// The permission to run a blocking loop on the current thread. It cannot be
/// copied, and only [`enter`] makes one.
#[derive(Debug)]
pub struct EntryGuard {
    token: (),
}

/// A blocking run was started on a thread that is inside one already.
#[derive(Debug, PartialEq, Eq)]
pub struct NestedEntryError {}

impl EntryState {
    /// Whether the thread is inside a blocking run.
    pub closed spec fn entered(&self) -> bool {
        self.entered
    }

    /// The flag of a thread that is in no blocking run.
    pub fn new() -> (state: Self)
        ensures
            !state.entered(),
    {
        EntryState { entered: false }
    }

    /// Whether the thread is inside a blocking run.
    pub fn is_entered(&self) -> (b: bool)
        ensures
            b == self.entered(),
    {
        self.entered
    }
}

/// Marks the thread as inside a blocking run and returns the guard, or fails
/// if the thread is inside one already, leaving the flag set.
pub fn enter(state: &mut EntryState) -> (r: Result<EntryGuard, NestedEntryError>)
    ensures
        r is Err <==> old(state).entered(),
        final(state).entered(),
        r is Err ==> *final(state) == *old(state),
{
    if state.entered {
        Err(NestedEntryError {})
    } else {
        state.entered = true;
        Ok(EntryGuard { token: () })
    }
}

impl EntryGuard {
    /// Gives the permission back: the thread's flag is cleared, whatever it
    /// was.
    pub fn release(self, state: &mut EntryState)
        ensures
            !final(state).entered(),
    {
        state.entered = false;
    }
}

} // verus!
