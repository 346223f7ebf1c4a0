//! The mathematical model of the worker pool: its state, its transitions,
//! and the invariant that every transition keeps.

use crate::poll::Poll;
use crate::wake_slot::SlotState;
use vstd::prelude::*;

verus! {

/// Where a task of the pool stands.
#[derive(Debug, Clone, Copy, PartialEq, Eq)]
pub enum TaskStatus {
    /// Suspended, waiting for a wake.
    Idle,
    /// In the run queue.
    Queued,
    /// Held by a worker that is polling it.
    Polling,
    /// Completed or discarded: it is never polled again.
    Finished,
}

/// What a join handle has to report.
#[derive(Debug, PartialEq, Eq)]
pub enum HandleState<T> {
    /// The task has not finished.
    Pending,
    /// The task completed with this output.
    Ready(T),
    /// The task was discarded before it completed.
    Cancelled,
}

/// What a worker that asks for work has to do.
#[derive(Debug, PartialEq, Eq)]
pub enum WorkerStep {
    /// Poll the task with this id, then report the outcome.
    Run(usize),
    /// Nothing is queued: block until a task is queued or the pool shuts
    /// down.
    Park,
    /// The pool is shutting down, the queue is empty and no task is being
    /// polled: leave.
    Exit,
    /// The caller is no worker of this pool, or holds a task already.
    Refused,
}

/// What became of a task whose poll a worker reports.
#[derive(Debug, PartialEq, Eq)]
pub enum AfterPoll {
    /// It was woken while it was polled and is back in the queue.
    Requeued,
    /// It is suspended until a wake arrives.
    Suspended,
    /// It completed; `notify` is whoever waits on its handle.
    Completed { notify: Option<u64> },
    /// It is dropped unfinished; `notify` is whoever waits on its handle.
    Discarded { notify: Option<u64> },
    /// The worker held no task.
    Refused,
}

/// One task as the model sees it.
pub struct TaskModel<T> {
    pub status: TaskStatus,
    /// A wake arrived while the task was being polled.
    pub repoll: bool,
    /// What the task's join handle reports.
    pub cell: HandleState<T>,
    /// Who waits on the join handle.
    pub waiter: SlotState,
}

/// The state that the workers share.
pub struct PoolState<T> {
    /// The run queue, front first.
    pub queue: Seq<usize>,
    /// Every task ever spawned, by id.
    pub tasks: Seq<TaskModel<T>>,
    /// For each worker, the task it is polling.
    pub running: Seq<Option<usize>>,
    /// No new task is accepted.
    pub shutting_down: bool,
    /// Unfinished tasks are dropped instead of drained.
    pub discarding: bool,
}

/// A transition of the pool.
pub enum PoolOp<T> {
    Spawn,
    Wake(usize),
    NextTask(usize),
    FinishPoll(usize, Poll<T>),
    AbortPoll(usize),
    PollHandle(usize, u64),
    Shutdown,
    ShutdownDiscard,
}

impl<T> TaskModel<T> {
    /// A task as `spawn` creates it.
    pub open spec fn fresh() -> Self {
        TaskModel {
            status: TaskStatus::Queued,
            repoll: false,
            cell: HandleState::Pending,
            waiter: SlotState::empty(),
        }
    }

    /// The task after it completed with `value`.
    pub open spec fn completed(self, value: T) -> Self {
        TaskModel {
            status: TaskStatus::Finished,
            repoll: false,
            cell: HandleState::Ready(value),
            waiter: self.waiter.wake(),
        }
    }

    /// The task after it was dropped unfinished.
    pub open spec fn discarded(self) -> Self {
        TaskModel {
            status: TaskStatus::Finished,
            repoll: false,
            cell: HandleState::Cancelled,
            waiter: self.waiter.wake(),
        }
    }

    /// The task with another status and no re-poll request.
    pub open spec fn moved_to(self, status: TaskStatus) -> Self {
        TaskModel { status, repoll: false, cell: self.cell, waiter: self.waiter }
    }

    /// Whether a discarding shutdown drops the task: it is neither finished
    /// nor in a worker's hands.
    pub open spec fn abandoned_by_discard(self) -> bool {
        self.status is Idle || self.status is Queued
    }

    /// The task after a discarding shutdown.
    pub open spec fn after_discard(self) -> Self {
        if self.abandoned_by_discard() {
            self.discarded()
        } else {
            self
        }
    }
}

impl<T> PoolState<T> {
    /// A pool of `workers` workers with no task.
    pub open spec fn initial(workers: nat) -> Self {
        PoolState {
            queue: Seq::empty(),
            tasks: Seq::empty(),
            running: Seq::new(workers, |w: int| None::<usize>),
            shutting_down: false,
            discarding: false,
        }
    }

    /// Whether `id` names a task of the pool.
    pub open spec fn known(self, id: usize) -> bool {
        (id as int) < self.tasks.len()
    }

    /// Whether `worker` is a worker of the pool.
    pub open spec fn is_worker(self, worker: usize) -> bool {
        (worker as int) < self.running.len()
    }

    /// Whether some worker is polling a task.
    pub open spec fn any_running(self) -> bool {
        exists|w: int| 0 <= w < self.running.len() && (#[trigger] self.running[w]) is Some
    }

    /// How often `id` stands in the run queue.
    pub open spec fn times_queued(self, id: usize) -> nat {
        self.queue.filter(same_task(id)).len()
    }

    /// Whether `id` names a task whose status is `Queued`.
    pub open spec fn is_queued(self, id: usize) -> bool {
        self.known(id) && self.tasks[id as int].status is Queued
    }

    /// What the invariant asks of the task `id`.
    pub open spec fn task_wf(self, id: usize) -> bool {
        let t = self.tasks[id as int];
        &&& t.status is Queued ==> self.queue.contains(id)
        &&& t.repoll ==> t.status is Polling
        &&& t.status is Finished <==> !(t.cell is Pending)
        &&& self.discarding ==> t.status is Polling || t.status is Finished
    }

    /// What the worker `w` holds, if anything, is a task that is marked as
    /// being polled.
    pub open spec fn holds_polling(self, w: int) -> bool {
        self.running[w] matches Some(id) ==> self.known(id) && self.tasks[id as int].status
            is Polling
    }

    /// The workers `v` and `w`, if they are two, do not hold the same task.
    pub open spec fn holds_alone(self, v: int, w: int) -> bool {
        v != w && self.running[v] is Some ==> self.running[v] != self.running[w]
    }

    /// The invariant of the pool: the queue holds each queued task once and
    /// nothing else, a re-poll is requested only of a task that is being
    /// polled, a handle has a result exactly when its task is finished, no
    /// two workers hold the same task, and what a worker holds is marked as
    /// being polled.
    pub open spec fn wf(self) -> bool {
        &&& self.running.len() > 0
        &&& self.tasks.len() <= usize::MAX
        &&& (self.discarding ==> self.shutting_down)
        &&& self.queue.no_duplicates()
        &&& forall|i: int| 0 <= i < self.queue.len() ==> self.is_queued(#[trigger] self.queue[i])
        &&& forall|id: usize| self.known(id) ==> #[trigger] self.task_wf(id)
        &&& forall|w: int| 0 <= w < self.running.len() ==> #[trigger] self.holds_polling(w)
        &&& forall|v: int, w: int|
            0 <= v < self.running.len() && 0 <= w < self.running.len() ==> #[trigger] self.holds_alone(v, w)
    }

    /// The id that the next spawned task gets, or none once the pool shuts
    /// down.
    pub open spec fn spawn_result(self) -> Option<usize> {
        if self.shutting_down {
            None
        } else {
            Some(self.tasks.len() as usize)
        }
    }

    /// The pool after `spawn`: with a fresh task at the back of the queue,
    /// unless the pool is shutting down.
    pub open spec fn spawn(self) -> Self {
        if self.shutting_down {
            self
        } else {
            PoolState {
                queue: self.queue.push(self.tasks.len() as usize),
                tasks: self.tasks.push(TaskModel::fresh()),
                ..self
            }
        }
    }

    /// Whether a wake of `id` puts it into the queue.
    pub open spec fn wake_enqueues(self, id: usize) -> bool {
        self.known(id) && self.tasks[id as int].status is Idle
    }

    /// The pool after a wake of `id`: a suspended task is queued, a task
    /// that is being polled is marked for one more poll, and anything else
    /// is left alone.
    pub open spec fn wake(self, id: usize) -> Self {
        if !self.known(id) {
            self
        } else {
            let t = self.tasks[id as int];
            match t.status {
                TaskStatus::Idle => PoolState {
                    queue: self.queue.push(id),
                    tasks: self.tasks.update(id as int, t.moved_to(TaskStatus::Queued)),
                    ..self
                },
                TaskStatus::Polling => PoolState {
                    tasks: self.tasks.update(id as int, TaskModel { repoll: true, ..t }),
                    ..self
                },
                TaskStatus::Queued => self,
                TaskStatus::Finished => self,
            }
        }
    }

    /// What `worker` is told when it asks for work.
    pub open spec fn next_task_result(self, worker: usize) -> WorkerStep {
        if !self.is_worker(worker) || self.running[worker as int] is Some {
            WorkerStep::Refused
        } else if self.queue.len() > 0 {
            WorkerStep::Run(self.queue[0])
        } else if self.shutting_down && !self.any_running() {
            WorkerStep::Exit
        } else {
            WorkerStep::Park
        }
    }

    /// The pool after `worker` asked for work: the task at the front of the
    /// queue, if the worker gets it, is in the worker's hands.
    pub open spec fn next_task(self, worker: usize) -> Self {
        if self.next_task_result(worker) is Run {
            let id = self.queue[0];
            PoolState {
                queue: self.queue.drop_first(),
                tasks: self.tasks.update(
                    id as int,
                    self.tasks[id as int].moved_to(TaskStatus::Polling),
                ),
                running: self.running.update(worker as int, Some(id)),
                ..self
            }
        } else {
            self
        }
    }

    /// Whether `worker` holds a task.
    pub open spec fn is_busy(self, worker: usize) -> bool {
        self.is_worker(worker) && self.running[worker as int] is Some
    }

    /// What becomes of the task that `worker` holds, on the outcome of its
    /// poll.
    pub open spec fn finish_poll_result(self, worker: usize, outcome: Poll<T>) -> AfterPoll {
        if !self.is_busy(worker) {
            AfterPoll::Refused
        } else {
            let t = self.tasks[self.running[worker as int]->0 as int];
            match outcome {
                Poll::Ready(_) => AfterPoll::Completed { notify: t.waiter.waiting },
                Poll::Pending => if self.discarding {
                    AfterPoll::Discarded { notify: t.waiter.waiting }
                } else if t.repoll {
                    AfterPoll::Requeued
                } else {
                    AfterPoll::Suspended
                },
            }
        }
    }

    /// The pool after `worker` reported the outcome of its poll.
    pub open spec fn finish_poll(self, worker: usize, outcome: Poll<T>) -> Self {
        if !self.is_busy(worker) {
            self
        } else {
            let id = self.running[worker as int]->0;
            let t = self.tasks[id as int];
            let running = self.running.update(worker as int, None);
            match outcome {
                Poll::Ready(value) => PoolState {
                    tasks: self.tasks.update(id as int, t.completed(value)),
                    running,
                    ..self
                },
                Poll::Pending => if self.discarding {
                    PoolState { tasks: self.tasks.update(id as int, t.discarded()), running, ..self }
                } else if t.repoll {
                    PoolState {
                        queue: self.queue.push(id),
                        tasks: self.tasks.update(id as int, t.moved_to(TaskStatus::Queued)),
                        running,
                        ..self
                    }
                } else {
                    PoolState {
                        tasks: self.tasks.update(id as int, t.moved_to(TaskStatus::Idle)),
                        running,
                        ..self
                    }
                },
            }
        }
    }

    /// What becomes of the task that `worker` holds when its poll fails.
    pub open spec fn abort_poll_result(self, worker: usize) -> AfterPoll {
        if !self.is_busy(worker) {
            AfterPoll::Refused
        } else {
            AfterPoll::Discarded {
                notify: self.tasks[self.running[worker as int]->0 as int].waiter.waiting,
            }
        }
    }

    /// The pool after the poll of the task that `worker` holds failed.
    pub open spec fn abort_poll(self, worker: usize) -> Self {
        if !self.is_busy(worker) {
            self
        } else {
            let id = self.running[worker as int]->0;
            PoolState {
                tasks: self.tasks.update(id as int, self.tasks[id as int].discarded()),
                running: self.running.update(worker as int, None),
                ..self
            }
        }
    }

    /// What the handle of `id` reports. A handle that the pool never gave
    /// out reports a cancelled task.
    pub open spec fn handle_state(self, id: usize) -> HandleState<T> {
        if self.known(id) {
            self.tasks[id as int].cell
        } else {
            HandleState::Cancelled
        }
    }

    /// The pool after the handle of `id` was polled for `interest`: while
    /// the task is unfinished, `interest` waits on the handle.
    pub open spec fn poll_handle(self, id: usize, interest: u64) -> Self {
        if self.known(id) && self.tasks[id as int].cell is Pending {
            let t = self.tasks[id as int];
            PoolState {
                tasks: self.tasks.update(
                    id as int,
                    TaskModel { waiter: t.waiter.register(interest), ..t },
                ),
                ..self
            }
        } else {
            self
        }
    }

    /// The pool after a graceful shutdown began.
    pub open spec fn shutdown(self) -> Self {
        PoolState { shutting_down: true, ..self }
    }

    /// The pool after a discarding shutdown began: the queue is empty and
    /// every task that was queued or suspended is dropped.
    pub open spec fn shutdown_discard(self) -> Self {
        PoolState {
            queue: Seq::empty(),
            tasks: self.tasks.map_values(|t: TaskModel<T>| t.after_discard()),
            shutting_down: true,
            discarding: true,
            ..self
        }
    }

    /// The pool after one transition.
    pub open spec fn step(self, op: PoolOp<T>) -> Self {
        match op {
            PoolOp::Spawn => self.spawn(),
            PoolOp::Wake(id) => self.wake(id),
            PoolOp::NextTask(worker) => self.next_task(worker),
            PoolOp::FinishPoll(worker, outcome) => self.finish_poll(worker, outcome),
            PoolOp::AbortPoll(worker) => self.abort_poll(worker),
            PoolOp::PollHandle(id, interest) => self.poll_handle(id, interest),
            PoolOp::Shutdown => self.shutdown(),
            PoolOp::ShutdownDiscard => self.shutdown_discard(),
        }
    }

    /// The pool after the transitions of `ops`, first to last.
    pub open spec fn run(self, ops: Seq<PoolOp<T>>) -> Self
        decreases ops.len(),
    {
        if ops.len() == 0 {
            self
        } else {
            self.run(ops.drop_last()).step(ops.last())
        }
    }
}

/// The predicate that holds of `id` alone.
pub open spec fn same_task(id: usize) -> spec_fn(usize) -> bool {
    |q: usize| q == id
}

/// Whoever waits on the handles of the tasks that a discarding shutdown
/// drops, by task id.
pub open spec fn discard_notifications<T>(tasks: Seq<TaskModel<T>>) -> Seq<u64>
    decreases tasks.len(),
{
    if tasks.len() == 0 {
        Seq::empty()
    } else {
        let rest = discard_notifications(tasks.drop_last());
        let t = tasks.last();
        if t.abandoned_by_discard() && t.waiter.waiting is Some {
            rest.push(t.waiter.waiting->0)
        } else {
            rest
        }
    }
}

} // verus!
