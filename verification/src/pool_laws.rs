//! What holds of every state of the worker pool.

use crate::poll::Poll;
use crate::pool_model::HandleState;
use crate::pool_model::PoolOp;
use crate::pool_model::same_task;
use crate::pool_model::PoolState;
use crate::pool_model::WorkerStep;
use vstd::prelude::*;

verus! {

/// A pool without tasks satisfies the invariant.
pub proof fn lemma_initial_wf<T>(workers: nat)
    requires
        workers > 0,
    ensures
        PoolState::<T>::initial(workers).wf(),
{
    let s = PoolState::<T>::initial(workers);
    assert forall|w: int| 0 <= w < s.running.len() implies #[trigger] s.holds_polling(w) by {}
}

/// `spawn` keeps the invariant, as long as the ids do not run out.
pub proof fn lemma_spawn_wf<T>(s: PoolState<T>)
    requires
        s.wf(),
        s.tasks.len() < usize::MAX,
    ensures
        s.spawn().wf(),
{
    let n = s.spawn();
    if !s.shutting_down {
        let id = s.tasks.len() as usize;
        assert forall|i: int, j: int|
            0 <= i < n.queue.len() && 0 <= j < n.queue.len() && i != j implies n.queue[i]
            != n.queue[j] by {
            if i < s.queue.len() {
                assert(s.is_queued(s.queue[i]));
            }
            if j < s.queue.len() {
                assert(s.is_queued(s.queue[j]));
            }
        }
        assert forall|i: int| 0 <= i < n.queue.len() implies n.is_queued(#[trigger] n.queue[i]) by {
            if i < s.queue.len() {
                assert(s.is_queued(s.queue[i]));
            }
        }
        assert forall|t: usize| n.known(t) implies #[trigger] n.task_wf(t) by {
            if t == id {
                assert(n.queue[s.queue.len() as int] == id);
            } else {
                assert(s.task_wf(t));
                if s.tasks[t as int].status is Queued {
                    let i = choose|i: int| 0 <= i < s.queue.len() && s.queue[i] == t;
                    assert(n.queue[i] == t);
                }
            }
        }
        assert forall|w: int| 0 <= w < n.running.len() implies #[trigger] n.holds_polling(w) by {
            assert(s.holds_polling(w));
        }
        assert forall|v: int, w: int|
            0 <= v < n.running.len() && 0 <= w < n.running.len() implies #[trigger] n.holds_alone(
            v,
            w,
        ) by {
            assert(s.holds_alone(v, w));
        }
    }
}

/// `wake` keeps the invariant.
pub proof fn lemma_wake_wf<T>(s: PoolState<T>, id: usize)
    requires
        s.wf(),
    ensures
        s.wake(id).wf(),
{
    let n = s.wake(id);
    if s.known(id) {
        assert(s.task_wf(id));
        assert forall|i: int, j: int|
            0 <= i < n.queue.len() && 0 <= j < n.queue.len() && i != j implies n.queue[i]
            != n.queue[j] by {
            if i < s.queue.len() {
                assert(s.is_queued(s.queue[i]));
            }
            if j < s.queue.len() {
                assert(s.is_queued(s.queue[j]));
            }
        }
        assert forall|i: int| 0 <= i < n.queue.len() implies n.is_queued(#[trigger] n.queue[i]) by {
            if i < s.queue.len() {
                assert(s.is_queued(s.queue[i]));
            }
        }
        assert forall|t: usize| n.known(t) implies #[trigger] n.task_wf(t) by {
            assert(s.task_wf(t));
            if t == id {
                if s.tasks[id as int].status is Idle {
                    assert(n.queue[s.queue.len() as int] == id);
                }
            }
            if s.tasks[t as int].status is Queued {
                let i = choose|i: int| 0 <= i < s.queue.len() && s.queue[i] == t;
                assert(n.queue[i] == t);
            }
        }
        assert forall|w: int| 0 <= w < n.running.len() implies #[trigger] n.holds_polling(w) by {
            assert(s.holds_polling(w));
        }
        assert forall|v: int, w: int|
            0 <= v < n.running.len() && 0 <= w < n.running.len() implies #[trigger] n.holds_alone(
            v,
            w,
        ) by {
            assert(s.holds_alone(v, w));
        }
    }
}

/// `next_task` keeps the invariant.
pub proof fn lemma_next_task_wf<T>(s: PoolState<T>, worker: usize)
    requires
        s.wf(),
    ensures
        s.next_task(worker).wf(),
{
    let n = s.next_task(worker);
    if s.next_task_result(worker) is Run {
        let id = s.queue[0];
        assert(s.is_queued(s.queue[0]));
        assert forall|i: int| 0 <= i < n.queue.len() implies n.is_queued(#[trigger] n.queue[i]) by {
            assert(n.queue[i] == s.queue[i + 1]);
            assert(s.is_queued(s.queue[i + 1]));
        }
        assert forall|i: int, j: int|
            0 <= i < n.queue.len() && 0 <= j < n.queue.len() && i != j implies n.queue[i]
            != n.queue[j] by {
            assert(n.queue[i] == s.queue[i + 1]);
            assert(n.queue[j] == s.queue[j + 1]);
        }
        assert forall|t: usize| n.known(t) implies #[trigger] n.task_wf(t) by {
            assert(s.task_wf(t));
            if t != id && s.tasks[t as int].status is Queued {
                let i = choose|i: int| 0 <= i < s.queue.len() && s.queue[i] == t;
                assert(i != 0);
                assert(n.queue[i - 1] == t);
            }
        }
        assert forall|w: int| 0 <= w < n.running.len() implies #[trigger] n.holds_polling(w) by {
            assert(s.holds_polling(w));
        }
        assert forall|v: int, w: int|
            0 <= v < n.running.len() && 0 <= w < n.running.len() implies #[trigger] n.holds_alone(
            v,
            w,
        ) by {
            assert(s.holds_alone(v, w));
            assert(s.holds_polling(v));
            assert(s.holds_polling(w));
        }
    }
}

/// `finish_poll` keeps the invariant.
pub proof fn lemma_finish_poll_wf<T>(s: PoolState<T>, worker: usize, outcome: Poll<T>)
    requires
        s.wf(),
    ensures
        s.finish_poll(worker, outcome).wf(),
{
    let n = s.finish_poll(worker, outcome);
    if s.is_busy(worker) {
        let id = s.running[worker as int]->0;
        assert(s.holds_polling(worker as int));
        assert(s.task_wf(id));
        assert forall|i: int, j: int|
            0 <= i < n.queue.len() && 0 <= j < n.queue.len() && i != j implies n.queue[i]
            != n.queue[j] by {
            if i < s.queue.len() {
                assert(s.is_queued(s.queue[i]));
            }
            if j < s.queue.len() {
                assert(s.is_queued(s.queue[j]));
            }
        }
        assert forall|i: int| 0 <= i < n.queue.len() implies n.is_queued(#[trigger] n.queue[i]) by {
            if i < s.queue.len() {
                assert(s.is_queued(s.queue[i]));
            }
        }
        assert forall|t: usize| n.known(t) implies #[trigger] n.task_wf(t) by {
            assert(s.task_wf(t));
            if t == id {
                if n.tasks[t as int].status is Queued {
                    assert(n.queue[s.queue.len() as int] == id);
                }
            } else if s.tasks[t as int].status is Queued {
                let i = choose|i: int| 0 <= i < s.queue.len() && s.queue[i] == t;
                assert(n.queue[i] == t);
            }
        }
        assert forall|w: int| 0 <= w < n.running.len() implies #[trigger] n.holds_polling(w) by {
            assert(s.holds_polling(w));
            assert(s.holds_alone(w, worker as int));
        }
        assert forall|v: int, w: int|
            0 <= v < n.running.len() && 0 <= w < n.running.len() implies #[trigger] n.holds_alone(
            v,
            w,
        ) by {
            assert(s.holds_alone(v, w));
        }
    }
}

/// `abort_poll` keeps the invariant.
pub proof fn lemma_abort_poll_wf<T>(s: PoolState<T>, worker: usize)
    requires
        s.wf(),
    ensures
        s.abort_poll(worker).wf(),
{
    let n = s.abort_poll(worker);
    if s.is_busy(worker) {
        let id = s.running[worker as int]->0;
        assert(s.holds_polling(worker as int));
        assert(s.task_wf(id));
        assert forall|i: int| 0 <= i < n.queue.len() implies n.is_queued(#[trigger] n.queue[i]) by {
            assert(s.is_queued(s.queue[i]));
        }
        assert forall|t: usize| n.known(t) implies #[trigger] n.task_wf(t) by {
            assert(s.task_wf(t));
        }
        assert forall|w: int| 0 <= w < n.running.len() implies #[trigger] n.holds_polling(w) by {
            assert(s.holds_polling(w));
            assert(s.holds_alone(w, worker as int));
        }
        assert forall|v: int, w: int|
            0 <= v < n.running.len() && 0 <= w < n.running.len() implies #[trigger] n.holds_alone(
            v,
            w,
        ) by {
            assert(s.holds_alone(v, w));
        }
    }
}

/// `poll_handle` keeps the invariant.
pub proof fn lemma_poll_handle_wf<T>(s: PoolState<T>, id: usize, interest: u64)
    requires
        s.wf(),
    ensures
        s.poll_handle(id, interest).wf(),
{
    let n = s.poll_handle(id, interest);
    if s.known(id) && s.tasks[id as int].cell is Pending {
        assert forall|i: int| 0 <= i < n.queue.len() implies n.is_queued(#[trigger] n.queue[i]) by {
            assert(s.is_queued(s.queue[i]));
        }
        assert forall|t: usize| n.known(t) implies #[trigger] n.task_wf(t) by {
            assert(s.task_wf(t));
        }
        assert forall|w: int| 0 <= w < n.running.len() implies #[trigger] n.holds_polling(w) by {
            assert(s.holds_polling(w));
        }
        assert forall|v: int, w: int|
            0 <= v < n.running.len() && 0 <= w < n.running.len() implies #[trigger] n.holds_alone(
            v,
            w,
        ) by {
            assert(s.holds_alone(v, w));
        }
    }
}

/// `shutdown` keeps the invariant.
pub proof fn lemma_shutdown_wf<T>(s: PoolState<T>)
    requires
        s.wf(),
    ensures
        s.shutdown().wf(),
{
    let n = s.shutdown();
    assert forall|i: int| 0 <= i < n.queue.len() implies n.is_queued(#[trigger] n.queue[i]) by {
        assert(s.is_queued(s.queue[i]));
    }
    assert forall|t: usize| n.known(t) implies #[trigger] n.task_wf(t) by {
        assert(s.task_wf(t));
    }
    assert forall|w: int| 0 <= w < n.running.len() implies #[trigger] n.holds_polling(w) by {
        assert(s.holds_polling(w));
    }
    assert forall|v: int, w: int|
        0 <= v < n.running.len() && 0 <= w < n.running.len() implies #[trigger] n.holds_alone(
        v,
        w,
    ) by {
        assert(s.holds_alone(v, w));
    }
}

/// `shutdown_discard` keeps the invariant.
pub proof fn lemma_shutdown_discard_wf<T>(s: PoolState<T>)
    requires
        s.wf(),
    ensures
        s.shutdown_discard().wf(),
{
    let n = s.shutdown_discard();
    assert forall|t: usize| n.known(t) implies #[trigger] n.task_wf(t) by {
        assert(s.task_wf(t));
    }
    assert forall|w: int| 0 <= w < n.running.len() implies #[trigger] n.holds_polling(w) by {
        assert(s.holds_polling(w));
    }
    assert forall|v: int, w: int|
        0 <= v < n.running.len() && 0 <= w < n.running.len() implies #[trigger] n.holds_alone(
        v,
        w,
    ) by {
        assert(s.holds_alone(v, w));
    }
}

/// Every transition keeps the invariant. Only `spawn` can fail to, and only
/// when the ids have run out.
pub proof fn lemma_step_wf<T>(s: PoolState<T>, op: PoolOp<T>)
    requires
        s.wf(),
        op is Spawn ==> s.tasks.len() < usize::MAX,
    ensures
        s.step(op).wf(),
{
    match op {
        PoolOp::Spawn => lemma_spawn_wf(s),
        PoolOp::Wake(id) => lemma_wake_wf(s, id),
        PoolOp::NextTask(worker) => lemma_next_task_wf(s, worker),
        PoolOp::FinishPoll(worker, outcome) => lemma_finish_poll_wf(s, worker, outcome),
        PoolOp::AbortPoll(worker) => lemma_abort_poll_wf(s, worker),
        PoolOp::PollHandle(id, interest) => lemma_poll_handle_wf(s, id, interest),
        PoolOp::Shutdown => lemma_shutdown_wf(s),
        PoolOp::ShutdownDiscard => lemma_shutdown_discard_wf(s),
    }
}

/// A transition adds at most one task and forgets none.
pub proof fn lemma_step_task_count<T>(s: PoolState<T>, op: PoolOp<T>)
    requires
        s.wf(),
    ensures
        s.tasks.len() <= s.step(op).tasks.len() <= s.tasks.len() + 1,
{
    match op {
        PoolOp::NextTask(worker) => {
            if s.queue.len() > 0 {
                assert(s.is_queued(s.queue[0]));
            }
        },
        PoolOp::FinishPoll(worker, outcome) => {
            if s.is_busy(worker) {
                assert(s.holds_polling(worker as int));
            }
        },
        PoolOp::AbortPoll(worker) => {
            if s.is_busy(worker) {
                assert(s.holds_polling(worker as int));
            }
        },
        _ => {},
    }
}

/// Every state that a pool reaches satisfies the invariant, whatever the
/// workers, the wakers and the submitters do and in whatever order.
pub proof fn lemma_reachable_wf<T>(workers: nat, ops: Seq<PoolOp<T>>)
    requires
        workers > 0,
        ops.len() < usize::MAX,
    ensures
        PoolState::<T>::initial(workers).run(ops).wf(),
        PoolState::<T>::initial(workers).run(ops).tasks.len() <= ops.len(),
    decreases ops.len(),
{
    if ops.len() == 0 {
        lemma_initial_wf::<T>(workers);
    } else {
        lemma_reachable_wf::<T>(workers, ops.drop_last());
        lemma_step_wf(PoolState::<T>::initial(workers).run(ops.drop_last()), ops.last());
        lemma_step_task_count(PoolState::<T>::initial(workers).run(ops.drop_last()), ops.last());
    }
}

/// At most one poll of a task is in flight: two workers never hold the same
/// task.
pub proof fn lemma_single_poll_in_flight<T>(s: PoolState<T>, v: usize, w: usize)
    requires
        s.wf(),
        s.is_busy(v),
        s.is_busy(w),
        v != w,
    ensures
        s.running[v as int]->0 != s.running[w as int]->0,
{
    assert(s.holds_alone(v as int, w as int));
}

/// A task that a worker holds is handed to nobody else, however often it is
/// woken meanwhile: it is not in the queue, a wake does not put it there,
/// and no worker that asks for work gets it.
pub proof fn lemma_held_task_stays_held<T>(s: PoolState<T>, holder: usize, worker: usize)
    requires
        s.wf(),
        s.is_busy(holder),
    ensures
        !s.queue.contains(s.running[holder as int]->0),
        s.wake(s.running[holder as int]->0).queue == s.queue,
        s.wake(s.running[holder as int]->0).running == s.running,
        s.next_task_result(worker) != WorkerStep::Run(s.running[holder as int]->0),
{
    let id = s.running[holder as int]->0;
    assert(s.holds_polling(holder as int));
    if s.queue.contains(id) {
        let i = choose|i: int| 0 <= i < s.queue.len() && s.queue[i] == id;
        assert(s.is_queued(s.queue[i]));
    }
    if s.next_task_result(worker) == WorkerStep::Run(id) {
        assert(s.queue[0] == id);
    }
}

/// How often `id` occurs in a sequence without duplicates.
pub proof fn lemma_count_no_duplicates(q: Seq<usize>, id: usize)
    requires
        q.no_duplicates(),
    ensures
        q.filter(same_task(id)).len() == (if q.contains(id) { 1nat } else { 0nat }),
    decreases q.len(),
{
    reveal_with_fuel(Seq::filter, 2);
    if q.len() > 0 {
        let front = q.drop_last();
        assert forall|i: int, j: int|
            0 <= i < front.len() && 0 <= j < front.len() && i != j implies front[i] != front[j] by {
            assert(front[i] == q[i]);
            assert(front[j] == q[j]);
        }
        lemma_count_no_duplicates(front, id);
        if q.last() == id {
            if front.contains(id) {
                let i = choose|i: int| 0 <= i < front.len() && front[i] == id;
                assert(q[i] == q[q.len() - 1]);
            }
            assert(q[q.len() - 1] == id);
        } else {
            if q.contains(id) {
                let i = choose|i: int| 0 <= i < q.len() && q[i] == id;
                assert(front[i] == id);
            }
            if front.contains(id) {
                let i = choose|i: int| 0 <= i < front.len() && front[i] == id;
                assert(q[i] == id);
            }
        }
    }
}

/// No task is queued twice: it stands in the queue once while its status is
/// `Queued`, and not at all otherwise; and a wake of a task that is queued
/// or being polled adds nothing to the queue.
pub proof fn lemma_no_duplicate_queuing<T>(s: PoolState<T>, id: usize)
    requires
        s.wf(),
        s.known(id),
    ensures
        s.queue.no_duplicates(),
        s.times_queued(id) == (if s.tasks[id as int].status is Queued { 1nat } else { 0nat }),
        s.tasks[id as int].status is Queued || s.tasks[id as int].status is Polling ==> s.wake(
            id,
        ).queue == s.queue,
{
    lemma_count_no_duplicates(s.queue, id);
    assert(s.task_wf(id));
    if s.queue.contains(id) {
        let i = choose|i: int| 0 <= i < s.queue.len() && s.queue[i] == id;
        assert(s.is_queued(s.queue[i]));
    }
}

/// A handle is settled once: when it has a result, no transition changes
/// what it reports.
pub proof fn lemma_handle_settles_once<T>(s: PoolState<T>, op: PoolOp<T>, id: usize)
    requires
        s.wf(),
        s.known(id),
        !(s.handle_state(id) is Pending),
    ensures
        s.step(op).known(id),
        s.step(op).handle_state(id) == s.handle_state(id),
{
    assert(s.task_wf(id));
    match op {
        PoolOp::FinishPoll(worker, outcome) => {
            if s.is_busy(worker) {
                assert(s.holds_polling(worker as int));
            }
        },
        PoolOp::AbortPoll(worker) => {
            if s.is_busy(worker) {
                assert(s.holds_polling(worker as int));
            }
        },
        _ => {},
    }
}

/// The same over any history: a settled handle reports the same result
/// after every sequence of transitions.
pub proof fn lemma_handle_result_is_final<T>(s: PoolState<T>, ops: Seq<PoolOp<T>>, id: usize)
    requires
        s.wf(),
        s.known(id),
        !(s.handle_state(id) is Pending),
        s.tasks.len() + ops.len() <= usize::MAX,
    ensures
        s.run(ops).wf(),
        s.run(ops).tasks.len() <= s.tasks.len() + ops.len(),
        s.run(ops).known(id),
        s.run(ops).handle_state(id) == s.handle_state(id),
    decreases ops.len(),
{
    if ops.len() > 0 {
        lemma_handle_result_is_final(s, ops.drop_last(), id);
        let mid = s.run(ops.drop_last());
        lemma_step_wf(mid, ops.last());
        lemma_step_task_count(mid, ops.last());
        lemma_handle_settles_once(mid, ops.last(), id);
    }
}

/// Polling a settled handle changes nothing, so every later poll reports
/// the same result.
pub proof fn lemma_settled_poll_is_pure<T>(s: PoolState<T>, id: usize, interest: u64)
    requires
        !(s.handle_state(id) is Pending),
    ensures
        s.poll_handle(id, interest) == s,
{
}

/// A completed task's handle reports the output that the worker handed in.
pub proof fn lemma_completion_reaches_handle<T>(s: PoolState<T>, worker: usize, value: T)
    requires
        s.wf(),
        s.is_busy(worker),
    ensures
        s.finish_poll(worker, Poll::Ready(value)).handle_state(s.running[worker as int]->0)
            == HandleState::Ready(value),
        s.finish_poll_result(worker, Poll::Ready(value)) is Completed,
{
    assert(s.holds_polling(worker as int));
}

/// A discarding shutdown cancels what has not run to its end: the handle of
/// every task that is queued or suspended reports `Cancelled`, at once and
/// for good, and no handle is left pending but those of the tasks that a
/// worker holds.
pub proof fn lemma_discard_cancels<T>(s: PoolState<T>, id: usize)
    requires
        s.wf(),
        s.known(id),
    ensures
        s.tasks[id as int].abandoned_by_discard() ==> s.shutdown_discard().handle_state(id)
            is Cancelled,
        s.shutdown_discard().handle_state(id) is Pending ==> s.tasks[id as int].status
            is Polling,
        s.tasks[id as int].status is Finished ==> s.shutdown_discard().handle_state(id)
            == s.handle_state(id),
{
    assert(s.task_wf(id));
}

/// After a discarding shutdown a task that a worker still holds is dropped
/// as soon as its poll returns without a result, so its handle cannot stay
/// pending either.
pub proof fn lemma_discard_drops_pending_poll<T>(s: PoolState<T>, worker: usize)
    requires
        s.wf(),
        s.discarding,
        s.is_busy(worker),
    ensures
        s.finish_poll(worker, Poll::Pending).handle_state(s.running[worker as int]->0)
            is Cancelled,
        s.finish_poll_result(worker, Poll::Pending) is Discarded,
{
    assert(s.holds_polling(worker as int));
}

/// A task ends once: a finished task stays finished through every
/// transition, so it is never queued or polled again.
pub proof fn lemma_finished_is_final<T>(s: PoolState<T>, op: PoolOp<T>, id: usize, asker: usize)
    requires
        s.wf(),
        s.known(id),
        s.tasks[id as int].status is Finished,
        op is Spawn ==> s.tasks.len() < usize::MAX,
    ensures
        s.step(op).known(id),
        s.step(op).tasks[id as int].status is Finished,
        !s.step(op).queue.contains(id),
        s.step(op).next_task_result(asker) != WorkerStep::Run(id),
{
    assert(s.task_wf(id));
    match op {
        PoolOp::NextTask(worker) => {
            if s.queue.len() > 0 {
                assert(s.is_queued(s.queue[0]));
            }
        },
        PoolOp::FinishPoll(worker, outcome) => {
            if s.is_busy(worker) {
                assert(s.holds_polling(worker as int));
            }
        },
        PoolOp::AbortPoll(worker) => {
            if s.is_busy(worker) {
                assert(s.holds_polling(worker as int));
            }
        },
        _ => {},
    }
    lemma_step_wf(s, op);
    let n = s.step(op);
    if n.queue.contains(id) {
        let i = choose|i: int| 0 <= i < n.queue.len() && n.queue[i] == id;
        assert(n.is_queued(n.queue[i]));
    }
    if n.next_task_result(asker) == WorkerStep::Run(id) {
        assert(n.queue[0] == id);
    }
}

/// A fault is isolated: dropping the task whose poll failed changes no
/// other task, nor the queue, nor what another worker holds, and the pool
/// goes on accepting and running tasks as before.
pub proof fn lemma_fault_is_isolated<T>(s: PoolState<T>, worker: usize, other: usize)
    requires
        s.wf(),
        s.is_busy(worker),
        s.known(other),
        other != s.running[worker as int]->0,
    ensures
        s.abort_poll(worker).tasks[other as int] == s.tasks[other as int],
        s.abort_poll(worker).queue == s.queue,
        s.abort_poll(worker).shutting_down == s.shutting_down,
        s.abort_poll(worker).handle_state(s.running[worker as int]->0) is Cancelled,
        forall|w: usize|
            s.is_worker(w) && w != worker ==> s.abort_poll(worker).running[w as int]
                == #[trigger] s.running[w as int],
{
    assert(s.holds_polling(worker as int));
}

/// Once the pool shuts down it accepts no task, and it never reopens.
pub proof fn lemma_shutdown_is_final<T>(s: PoolState<T>, op: PoolOp<T>)
    requires
        s.shutting_down,
    ensures
        s.step(op).shutting_down,
        s.spawn_result() is None,
        s.spawn() == s,
{
}

} // verus!
