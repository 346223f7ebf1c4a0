//! The single-threaded cooperative executor.
//!
//! The executor decides what is polled next and when the thread has to
//! block; the caller keeps the task objects by id, performs each poll and
//! reports its outcome. One blocking run goes: [`CooperativeExecutor::run_until`],
//! then, as [`CooperativeExecutor::next_action`] says, polls reported with
//! [`CooperativeExecutor::primary_polled`] and
//! [`CooperativeExecutor::task_polled`], and parks with
//! [`CooperativeExecutor::park`], until the primary task is ready.

use crate::enter::enter;
use crate::enter::EntryGuard;
use crate::enter::EntryState;
use crate::enter::NestedEntryError;
use crate::park::ParkOutcome;
use crate::park::ParkSignal;
use crate::poll::Poll;
use crate::wake_slot::SlotState;
use vstd::prelude::*;

verus! {

/// Where a blocking run stands.
#[derive(Debug, Clone, Copy, PartialEq, Eq)]
pub enum RunPhase {
    /// No run is in progress.
    Idle,
    /// The primary task is due.
    Primary,
    /// The background task at the cursor is due.
    Background,
    /// The pass is over, nothing completed in it, and the primary task is
    /// still pending.
    Parking,
}

/// What the caller has to do next.
#[derive(Debug, PartialEq, Eq)]
pub enum Action {
    /// Nothing: no run is in progress.
    Idle,
    /// Poll the primary task.
    PollPrimary,
    /// Poll this background task.
    PollTask(u64),
    /// Park the thread.
    Park,
}

/// What a poll of the primary task led to.
#[derive(Debug, PartialEq, Eq)]
pub enum RunStep<T> {
    /// The primary task completed: the run is over, with this output.
    Finished(T),
    /// The primary task is pending: the run goes on.
    Continue,
    /// The primary task was not due; its outcome is handed back.
    OutOfTurn(Poll<T>),
}

/// The mathematical content of a cooperative executor.
pub struct CoopState {
    /// The background tasks, in the order in which they were spawned.
    pub queue: Seq<u64>,
    /// The number of ids given out.
    pub next_id: nat,
    /// The primary task of the run in progress.
    pub primary: Option<u64>,
    pub phase: RunPhase,
    /// The place in the queue that the current pass has reached.
    pub cursor: nat,
    /// A background task completed in the current pass.
    pub progress: bool,
    /// The signal on which the thread parks.
    pub signal: SlotState,
}

impl CoopState {
    /// An executor with no task and no run in progress.
    pub open spec fn initial() -> Self {
        CoopState {
            queue: Seq::empty(),
            next_id: 0,
            primary: None,
            phase: RunPhase::Idle,
            cursor: 0,
            progress: false,
            signal: SlotState::empty(),
        }
    }

    /// Whether the executor holds the task `id`.
    pub open spec fn owns(self, id: u64) -> bool {
        self.primary == Some(id) || self.queue.contains(id)
    }

    /// The invariant: ids are given out once, the queue holds no task twice
    /// and never the primary task, a run has a primary task, while a
    /// background task is due the cursor points at it, and progress is
    /// recorded only in the middle of a pass.
    pub open spec fn wf(self) -> bool {
        &&& self.next_id <= u64::MAX
        &&& self.queue.no_duplicates()
        &&& forall|i: int| 0 <= i < self.queue.len() ==> (#[trigger] self.queue[i]) < self.next_id
        &&& (self.primary matches Some(p) ==> p < self.next_id && !self.queue.contains(p))
        &&& (self.phase is Idle <==> self.primary is None)
        &&& (self.phase is Background ==> self.cursor < self.queue.len())
        &&& (self.progress ==> self.phase is Background)
    }

    /// The executor after `spawn`: with a new task behind the others.
    pub open spec fn spawn(self) -> Self {
        CoopState { queue: self.queue.push(self.next_id as u64), next_id: self.next_id + 1, ..self }
    }

    /// Whether a run may begin: none is in progress on this executor, and
    /// the thread is in none.
    pub open spec fn may_begin(self, entered: bool) -> bool {
        !entered && self.phase is Idle
    }

    /// The executor at the beginning of a run: the primary task has the next
    /// id and is due.
    pub open spec fn begin_run(self) -> Self {
        CoopState {
            next_id: self.next_id + 1,
            primary: Some(self.next_id as u64),
            phase: RunPhase::Primary,
            cursor: 0,
            progress: false,
            ..self
        }
    }

    /// What is to be done next.
    pub open spec fn next_action(self) -> Action {
        match self.phase {
            RunPhase::Idle => Action::Idle,
            RunPhase::Primary => Action::PollPrimary,
            RunPhase::Background => Action::PollTask(self.queue[self.cursor as int]),
            RunPhase::Parking => Action::Park,
        }
    }

    /// The executor after the primary task was polled. When it is ready the
    /// run ends and every other task is dropped; otherwise the pass goes on
    /// with the first background task, or ends at once, with nothing done,
    /// if there is none.
    pub open spec fn primary_polled(self, ready: bool) -> Self {
        if !(self.phase is Primary) {
            self
        } else if ready {
            CoopState {
                queue: Seq::empty(),
                primary: None,
                phase: RunPhase::Idle,
                cursor: 0,
                ..self
            }
        } else if self.queue.len() == 0 {
            CoopState { phase: RunPhase::Parking, cursor: 0, ..self }
        } else {
            CoopState { phase: RunPhase::Background, cursor: 0, ..self }
        }
    }

    /// The executor after the background task at the cursor was polled. A
    /// task that is ready leaves the queue; one that is pending keeps its
    /// place. The pass goes on with the task behind it, or ends: with the
    /// primary task due again if a task completed in the pass, and with a
    /// park if every task was pending.
    pub open spec fn task_polled(self, ready: bool) -> Self {
        if !(self.phase is Background) {
            self
        } else {
            let queue = if ready {
                self.queue.remove(self.cursor as int)
            } else {
                self.queue
            };
            let cursor = if ready {
                self.cursor
            } else {
                self.cursor + 1
            };
            let progress = self.progress || ready;
            if cursor < queue.len() {
                CoopState { queue, cursor, progress, ..self }
            } else if progress {
                CoopState { queue, cursor, progress: false, phase: RunPhase::Primary, ..self }
            } else {
                CoopState { queue, cursor, progress: false, phase: RunPhase::Parking, ..self }
            }
        }
    }

    /// Whether a park at the end of a pass returns at once.
    pub open spec fn park_resumes(self) -> bool {
        !(self.phase is Parking) || self.signal.notified
    }

    /// The executor after `thread` asked to park: a pending wake is consumed
    /// and the next pass begins, or the thread is recorded as blocked.
    pub open spec fn park(self, thread: u64) -> Self {
        if !(self.phase is Parking) {
            self
        } else {
            CoopState {
                phase: if self.signal.notified {
                    RunPhase::Primary
                } else {
                    RunPhase::Parking
                },
                signal: ParkSignal::after_park(self.signal, thread),
                ..self
            }
        }
    }

    /// The executor after a wake of `id`: recorded if the executor holds
    /// that task, ignored otherwise.
    pub open spec fn wake(self, id: u64) -> Self {
        if self.owns(id) {
            CoopState { signal: self.signal.wake(), ..self }
        } else {
            self
        }
    }

    /// Whom a wake of `id` releases.
    pub open spec fn wake_releases(self, id: u64) -> Option<u64> {
        if self.owns(id) {
            self.signal.waiting
        } else {
            None
        }
    }

    /// The executor after a run was given up: no run is in progress, and
    /// the background tasks are as they were.
    pub open spec fn abort_run(self) -> Self {
        CoopState { primary: None, phase: RunPhase::Idle, cursor: 0, progress: false, ..self }
    }
}

/// The single-threaded cooperative executor.
#[derive(Debug)]
pub struct CooperativeExecutor {
    queue: Vec<u64>,
    next_id: u64,
    primary: Option<u64>,
    phase: RunPhase,
    cursor: usize,
    progress: bool,
    signal: ParkSignal,
    guard: Option<EntryGuard>,
}

impl View for CooperativeExecutor {
    type V = CoopState;

    closed spec fn view(&self) -> CoopState {
        CoopState {
            queue: self.queue@,
            next_id: self.next_id as nat,
            primary: self.primary,
            phase: self.phase,
            cursor: self.cursor as nat,
            progress: self.progress,
            signal: self.signal@,
        }
    }
}

impl CooperativeExecutor {
    /// Whether the executor holds the permission for a blocking run.
    pub closed spec fn holds_guard(&self) -> bool {
        self.guard is Some
    }

    /// The invariant of the executor: that of its content, and that it
    /// holds the thread's permission exactly while a run is in progress.
    pub open spec fn wf(&self) -> bool {
        &&& self@.wf()
        &&& self.holds_guard() <==> !(self@.phase is Idle)
    }

    /// An executor with no task.
    pub fn new() -> (executor: Self)
        ensures
            executor.wf(),
            executor@ == CoopState::initial(),
    {
        CooperativeExecutor {
            queue: Vec::new(),
            next_id: 0,
            primary: None,
            phase: RunPhase::Idle,
            cursor: 0,
            progress: false,
            signal: ParkSignal::new(),
            guard: None,
        }
    }

    /// The number of ids given out so far.
    pub fn issued(&self) -> (n: u64)
        ensures
            n == self@.next_id,
    {
        self.next_id
    }

    /// The number of background tasks.
    pub fn task_count(&self) -> (n: usize)
        ensures
            n == self@.queue.len(),
    {
        self.queue.len()
    }

    /// Where the run stands.
    pub fn phase(&self) -> (p: RunPhase)
        ensures
            p == self@.phase,
    {
        self.phase
    }

    /// Whether the executor holds the task `id`.
    pub fn owns(&self, id: u64) -> (b: bool)
        ensures
            b == self@.owns(id),
    {
        if self.primary == Some(id) {
            return true;
        }
        let mut i: usize = 0;
        while i < self.queue.len()
            invariant
                i <= self.queue@.len(),
                forall|j: int| 0 <= j < i ==> self.queue@[j] != id,
            decreases self.queue@.len() - i,
        {
            if self.queue[i] == id {
                return true;
            }
            i += 1;
        }
        false
    }

    /// Adds a background task behind those that are there, and returns its
    /// id. Nothing else changes, during a run or outside one.
    pub fn spawn(&mut self) -> (id: u64)
        requires
            old(self).wf(),
            old(self)@.next_id < u64::MAX,
        ensures
            final(self).wf(),
            final(self)@ == old(self)@.spawn(),
            id == old(self)@.next_id,
    {
        let id = self.next_id;
        self.queue.push(id);
        self.next_id = id + 1;
        proof {
            lemma_spawn_wf(old(self)@);
        }
        id
    }

    /// Enters a blocking run, which lasts until the primary task completes,
    /// and returns the id of the primary task. Fails, changing nothing, if
    /// the thread is inside a blocking run already, or this executor is.
    pub fn run_until(&mut self, entry: &mut EntryState) -> (r: Result<u64, NestedEntryError>)
        requires
            old(self).wf(),
            old(self)@.next_id < u64::MAX,
        ensures
            final(self).wf(),
            r is Ok <==> old(self)@.may_begin(old(entry).entered()),
            match r {
                Ok(primary) => {
                    &&& final(self)@ == old(self)@.begin_run()
                    &&& primary == old(self)@.next_id
                    &&& final(entry).entered()
                },
                Err(_) => final(self)@ == old(self)@ && *final(entry) == *old(entry),
            },
    {
        match self.phase {
            RunPhase::Idle => {},
            _ => {
                return Err(NestedEntryError {});
            },
        }
        match enter(entry) {
            Err(e) => Err(e),
            Ok(guard) => {
                let id = self.next_id;
                self.guard = Some(guard);
                self.primary = Some(id);
                self.next_id = id + 1;
                self.phase = RunPhase::Primary;
                self.cursor = 0;
                self.progress = false;
                proof {
                    lemma_begin_run_wf(old(self)@);
                }
                Ok(id)
            },
        }
    }

    /// What the caller has to do next.
    pub fn next_action(&self) -> (action: Action)
        requires
            self.wf(),
        ensures
            action == self@.next_action(),
    {
        match self.phase {
            RunPhase::Idle => Action::Idle,
            RunPhase::Primary => Action::PollPrimary,
            RunPhase::Background => Action::PollTask(self.queue[self.cursor]),
            RunPhase::Parking => Action::Park,
        }
    }

    /// Reports the outcome of polling the primary task. When it is ready the
    /// run is over: its output is returned, every background task is dropped
    /// without being polled again, and the thread's permission is given
    /// back. When it is pending the pass goes on.
    pub fn primary_polled<T>(&mut self, outcome: Poll<T>, entry: &mut EntryState) -> (step:
        RunStep<T>)
        requires
            old(self).wf(),
        ensures
            final(self).wf(),
            final(self)@ == old(self)@.primary_polled(outcome is Ready),
            step == (if !(old(self)@.phase is Primary) {
                RunStep::OutOfTurn(outcome)
            } else {
                match outcome {
                    Poll::Ready(value) => RunStep::Finished(value),
                    Poll::Pending => RunStep::Continue,
                }
            }),
            old(self)@.phase is Primary && outcome is Ready ==> !final(entry).entered(),
            !(old(self)@.phase is Primary && outcome is Ready) ==> *final(entry) == *old(entry),
    {
        match self.phase {
            RunPhase::Primary => {},
            _ => {
                return RunStep::OutOfTurn(outcome);
            },
        }
        match outcome {
            Poll::Ready(value) => {
                self.queue.clear();
                self.primary = None;
                self.phase = RunPhase::Idle;
                self.cursor = 0;
                match self.guard.take() {
                    Some(guard) => {
                        guard.release(entry);
                    },
                    None => {},
                }
                proof {
                    assert(self@.queue =~= old(self)@.primary_polled(true).queue);
                }
                RunStep::Finished(value)
            },
            Poll::Pending => {
                self.cursor = 0;
                if self.queue.len() == 0 {
                    self.phase = RunPhase::Parking;
                } else {
                    self.phase = RunPhase::Background;
                }
                RunStep::Continue
            },
        }
    }

    /// Reports the outcome of polling the background task that was due.
    /// Returns whether a background task was due.
    pub fn task_polled(&mut self, outcome: Poll<()>) -> (accepted: bool)
        requires
            old(self).wf(),
        ensures
            final(self).wf(),
            final(self)@ == old(self)@.task_polled(outcome is Ready),
            accepted == (old(self)@.phase is Background),
    {
        match self.phase {
            RunPhase::Background => {},
            _ => {
                return false;
            },
        }
        let len = self.queue.len();
        let rest = match outcome {
            Poll::Ready(_) => {
                self.queue.remove(self.cursor);
                self.progress = true;
                len - 1
            },
            Poll::Pending => {
                self.cursor = self.cursor + 1;
                len
            },
        };
        if self.cursor >= rest {
            self.phase = if self.progress {
                RunPhase::Primary
            } else {
                RunPhase::Parking
            };
            self.progress = false;
        }
        proof {
            lemma_task_polled_wf(old(self)@, outcome is Ready);
        }
        true
    }

    /// Called by `thread` when the pass is over. If a wake arrived for a
    /// task of the executor since the last park, it is consumed and the next
    /// pass begins; otherwise the thread has to block until a wake releases
    /// it, and then to call `park` again. Outside the end of a pass there is
    /// nothing to wait for.
    pub fn park(&mut self, thread: u64) -> (outcome: ParkOutcome)
        requires
            old(self).wf(),
        ensures
            final(self).wf(),
            final(self)@ == old(self)@.park(thread),
            (outcome is Resumed) == old(self)@.park_resumes(),
    {
        match self.phase {
            RunPhase::Parking => {},
            _ => {
                return ParkOutcome::Resumed;
            },
        }
        match self.signal.park(thread) {
            ParkOutcome::Resumed => {
                self.phase = RunPhase::Primary;
                ParkOutcome::Resumed
            },
            ParkOutcome::MustBlock => ParkOutcome::MustBlock,
        }
    }

    /// A wake directed at the task `id`. If the executor holds that task,
    /// the wake is recorded and the blocked thread, if there is one, is
    /// returned to be released; a wake for a task that the executor does not
    /// hold any more does nothing.
    pub fn wake(&mut self, id: u64) -> (release: Option<u64>)
        requires
            old(self).wf(),
        ensures
            final(self).wf(),
            final(self)@ == old(self)@.wake(id),
            release == old(self)@.wake_releases(id),
    {
        if self.owns(id) {
            self.signal.unpark()
        } else {
            None
        }
    }

    /// Leaves a run that cannot go on. The background tasks stay, and the
    /// thread's permission is given back.
    pub fn abort_run(&mut self, entry: &mut EntryState)
        requires
            old(self).wf(),
        ensures
            final(self).wf(),
            final(self)@ == old(self)@.abort_run(),
            !(old(self)@.phase is Idle) ==> !final(entry).entered(),
            old(self)@.phase is Idle ==> *final(entry) == *old(entry),
    {
        self.primary = None;
        self.phase = RunPhase::Idle;
        self.cursor = 0;
        self.progress = false;
        match self.guard.take() {
            Some(guard) => {
                guard.release(entry);
            },
            None => {},
        }
    }
}

/// `spawn` keeps the invariant, as long as the ids do not run out.
pub proof fn lemma_spawn_wf(s: CoopState)
    requires
        s.wf(),
        s.next_id < u64::MAX,
    ensures
        s.spawn().wf(),
{
    let n = s.spawn();
    assert forall|i: int, j: int|
        0 <= i < n.queue.len() && 0 <= j < n.queue.len() && i != j implies n.queue[i]
        != n.queue[j] by {
        if i < s.queue.len() {
            assert(s.queue[i] < s.next_id);
        }
        if j < s.queue.len() {
            assert(s.queue[j] < s.next_id);
        }
    }
    if s.primary is Some && n.queue.contains(s.primary->0) {
        let i = choose|i: int| 0 <= i < n.queue.len() && n.queue[i] == s.primary->0;
        if i < s.queue.len() {
            assert(s.queue[i] == s.primary->0);
        }
    }
}

/// Beginning a run keeps the invariant, as long as the ids do not run out.
pub proof fn lemma_begin_run_wf(s: CoopState)
    requires
        s.wf(),
        s.next_id < u64::MAX,
    ensures
        s.begin_run().wf(),
{
    let n = s.begin_run();
    if n.queue.contains(s.next_id as u64) {
        let i = choose|i: int| 0 <= i < s.queue.len() && s.queue[i] == s.next_id as u64;
        assert(s.queue[i] < s.next_id);
    }
}

/// Reporting a background poll keeps the invariant, and what the queue
/// holds afterwards it held before, in the same order.
pub proof fn lemma_task_polled_wf(s: CoopState, ready: bool)
    requires
        s.wf(),
    ensures
        s.task_polled(ready).wf(),
{
    let n = s.task_polled(ready);
    if s.phase is Background && ready {
        let c = s.cursor as int;
        assert forall|i: int| 0 <= i < n.queue.len() implies n.queue[i] == s.queue[if i < c {
            i
        } else {
            i + 1
        }] by {}
        assert forall|i: int, j: int|
            0 <= i < n.queue.len() && 0 <= j < n.queue.len() && i != j implies n.queue[i]
            != n.queue[j] by {}
        assert forall|i: int| 0 <= i < n.queue.len() implies (#[trigger] n.queue[i])
            < n.next_id by {
            assert(n.queue[i] == s.queue[if i < c {
                i
            } else {
                i + 1
            }]);
        }
        if s.primary is Some && n.queue.contains(s.primary->0) {
            let i = choose|i: int| 0 <= i < n.queue.len() && n.queue[i] == s.primary->0;
            assert(s.queue[if i < c {
                i
            } else {
                i + 1
            }] == s.primary->0);
        }
    }
}

/// What happens during a run, between its beginning and its end.
pub enum CoopOp {
    Spawn,
    PrimaryPolled(bool),
    TaskPolled(bool),
    Park(u64),
    Wake(u64),
}

impl CoopState {
    /// The executor after one operation.
    pub open spec fn step(self, op: CoopOp) -> Self {
        match op {
            CoopOp::Spawn => self.spawn(),
            CoopOp::PrimaryPolled(ready) => self.primary_polled(ready),
            CoopOp::TaskPolled(ready) => self.task_polled(ready),
            CoopOp::Park(thread) => self.park(thread),
            CoopOp::Wake(id) => self.wake(id),
        }
    }

    /// The executor after `k` background polls in a row that are pending.
    pub open spec fn after_pending_polls(self, k: nat) -> Self
        decreases k,
    {
        if k == 0 {
            self
        } else {
            self.after_pending_polls((k - 1) as nat).task_polled(false)
        }
    }
}

/// Every operation keeps the invariant. Only `spawn` can fail to, and only
/// when the ids have run out.
pub proof fn lemma_step_wf(s: CoopState, op: CoopOp)
    requires
        s.wf(),
        op is Spawn ==> s.next_id < u64::MAX,
    ensures
        s.step(op).wf(),
{
    match op {
        CoopOp::Spawn => lemma_spawn_wf(s),
        CoopOp::TaskPolled(ready) => lemma_task_polled_wf(s, ready),
        _ => {},
    }
}

/// A run cannot be nested: from the moment a run has begun, and whatever
/// happens in it short of the primary task's completion, a further entry is
/// refused, on whichever thread it is tried.
pub proof fn lemma_nested_run_rejected(s: CoopState, op: CoopOp, entered: bool)
    requires
        s.wf(),
        !(s.phase is Idle),
        op != CoopOp::PrimaryPolled(true),
    ensures
        !s.may_begin(entered),
        !s.step(op).may_begin(entered),
        s.may_begin(false) ==> !s.begin_run().may_begin(entered),
{
}

/// The primary task's completion ends the run at once, whatever the
/// background tasks are doing: they are dropped, none of them is due any
/// more, and a new run may begin.
pub proof fn lemma_primary_completion_ends_run(s: CoopState)
    requires
        s.wf(),
        s.phase is Primary,
    ensures
        s.primary_polled(true).phase is Idle,
        s.primary_polled(true).queue.len() == 0,
        s.primary_polled(true).next_action() == Action::Idle,
        s.primary_polled(true).may_begin(false),
        s.primary_polled(true).wf(),
{
}

/// A pass polls the background tasks once each in the order of the queue:
/// after `k` pending polls the queue is as it was, and the task at place `k`
/// is due, or the pass is over when there is none.
pub proof fn lemma_pass_is_round_robin(s: CoopState, k: nat)
    requires
        s.wf(),
        s.phase is Background,
        s.cursor == 0,
        !s.progress,
        k <= s.queue.len(),
    ensures
        s.after_pending_polls(k).wf(),
        s.after_pending_polls(k).queue == s.queue,
        s.after_pending_polls(k).cursor == k,
        !s.after_pending_polls(k).progress,
        k < s.queue.len() ==> s.after_pending_polls(k).next_action() == Action::PollTask(
            s.queue[k as int],
        ),
        k == s.queue.len() ==> s.after_pending_polls(k).next_action() == Action::Park,
    decreases k,
{
    if k > 0 {
        lemma_pass_is_round_robin(s, (k - 1) as nat);
        lemma_task_polled_wf(s.after_pending_polls((k - 1) as nat), false);
    }
}

/// The thread parks only after a pass in which every task was pending: the
/// poll that completes a task never leads to a park, and neither does a
/// later poll of the same pass.
pub proof fn lemma_progress_defers_park(s: CoopState)
    requires
        s.wf(),
        s.phase is Background,
    ensures
        !(s.task_polled(true).phase is Parking),
        s.task_polled(true).phase is Background ==> s.task_polled(true).progress,
        s.progress ==> !(s.task_polled(false).phase is Parking),
        !s.progress && s.cursor + 1 == s.queue.len() ==> s.task_polled(false).phase is Parking,
{
}

/// A background task that completes leaves the queue, and the others keep
/// their order.
pub proof fn lemma_completed_task_leaves(s: CoopState)
    requires
        s.wf(),
        s.phase is Background,
    ensures
        !s.task_polled(true).queue.contains(s.queue[s.cursor as int]),
        s.task_polled(true).queue == s.queue.remove(s.cursor as int),
        !s.task_polled(true).owns(s.queue[s.cursor as int]),
{
    let n = s.task_polled(true);
    let c = s.cursor as int;
    let id = s.queue[c];
    if n.queue.contains(id) {
        let i = choose|i: int| 0 <= i < n.queue.len() && n.queue[i] == id;
        assert(n.queue[i] == s.queue[if i < c {
            i
        } else {
            i + 1
        }]);
    }
}

/// A wake for a task of the executor is not lost: it stays pending through
/// the rest of the pass, so that the park at its end returns at once.
pub proof fn lemma_wake_prevents_block(s: CoopState, id: u64, op: CoopOp)
    requires
        s.owns(id),
        !(op is Park),
    ensures
        s.wake(id).park_resumes(),
        s.wake(id).step(op).park_resumes(),
{
}

/// A park that has to block records the thread, and the next wake for a task
/// of the executor names that thread for release.
pub proof fn lemma_blocked_thread_is_released(s: CoopState, thread: u64, id: u64)
    requires
        s.phase is Parking,
        !s.signal.notified,
        s.owns(id),
    ensures
        s.park(thread).phase is Parking,
        s.park(thread).wake_releases(id) == Some(thread),
        s.park(thread).wake(id).park(thread).phase is Primary,
{
}

} // verus!
