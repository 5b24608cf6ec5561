//! Background-task accounting.
//!
//! Tasks run on an outside executor, unordered relative to each other, and
//! the loop never blocks on them. What this crate owns is the bookkeeping:
//! every spawned task gets a fresh identity, and every terminal outcome —
//! success or failure alike — is wrapped as exactly one `AsyncResultEvent`,
//! so the application layer sees one event per task, carrying the right
//! discriminant, with nothing lost and nothing duplicated.

use vstd::prelude::*;

verus! {

/// The terminal outcome one background task reported.
#[derive(Clone, Debug)]
pub struct TaskOutcome {
    /// Identity of the task, as [`TaskPool::spawn`] assigned it.
    pub task_id: u64,
    /// Whether the task succeeded.
    pub success: bool,
    /// The success value or the failure value, as the application encoded
    /// it; opaque to the loop.
    pub payload: Vec<u8>,
}

/// The event the loop forwards to the application layer for one finished
/// task.
#[derive(Clone, Debug)]
pub struct AsyncResultEvent {
    pub task_id: u64,
    pub success: bool,
    pub payload: Vec<u8>,
}

/// The one event [`TaskOutcome`] `o` turns into.
pub open spec fn spec_wrap_outcome(o: TaskOutcome) -> AsyncResultEvent {
    AsyncResultEvent { task_id: o.task_id, success: o.success, payload: o.payload }
}

/// Wraps one terminal outcome as its event: same task, same discriminant,
/// same payload.
pub fn wrap_outcome(o: TaskOutcome) -> (e: AsyncResultEvent)
    ensures
        e == spec_wrap_outcome(o),
{
    AsyncResultEvent { task_id: o.task_id, success: o.success, payload: o.payload }
}

/// The events a batch of outcomes turns into, in arrival order.
pub open spec fn spec_wrap_all(outcomes: Seq<TaskOutcome>) -> Seq<AsyncResultEvent> {
    outcomes.map(|i: int, o: TaskOutcome| spec_wrap_outcome(o))
}

/// How many of these outcomes are successes.
pub open spec fn count_successes(outcomes: Seq<TaskOutcome>) -> nat
    decreases outcomes.len(),
{
    if outcomes.len() == 0 {
        0
    } else {
        count_successes(outcomes.drop_last()) + if outcomes.last().success {
            1nat
        } else {
            0nat
        }
    }
}

/// How many of these events carry the success discriminant.
pub open spec fn count_success_events(events: Seq<AsyncResultEvent>) -> nat
    decreases events.len(),
{
    if events.len() == 0 {
        0
    } else {
        count_success_events(events.drop_last()) + if events.last().success {
            1nat
        } else {
            0nat
        }
    }
}

/// Wraps a whole batch of terminal outcomes, one event each, in order.
pub fn wrap_outcomes(outcomes: Vec<TaskOutcome>) -> (events: Vec<AsyncResultEvent>)
    ensures
        events@ == spec_wrap_all(outcomes@),
        events@.len() == outcomes@.len(),
{
    let mut events: Vec<AsyncResultEvent> = Vec::new();
    let n = outcomes.len();
    let mut outcomes = outcomes;
    let ghost all: Seq<TaskOutcome> = outcomes@;
    let mut i: usize = 0;
    // Consume from the front so each outcome's payload moves, not clones.
    while i < n
        invariant
            n == all.len(),
            i <= n,
            outcomes@ =~= all.subrange(i as int, n as int),
            events@.len() == i,
            forall|j: int| 0 <= j < i ==> events@[j] == spec_wrap_outcome(all[j]),
        decreases n - i,
    {
        let o = outcomes.remove(0);
        events.push(wrap_outcome(o));
        i = i + 1;
    }
    proof {
        assert(events@ =~= spec_wrap_all(all));
    }
    events
}

/// Every spawned task posts exactly one terminal event: a batch of `N`
/// outcomes, of which `M` succeeded, becomes exactly `N` events — the event
/// at each position reporting the same task and the same discriminant as
/// the outcome at that position — and exactly `M` of them carry the success
/// discriminant.
pub proof fn lemma_one_event_per_task(outcomes: Seq<TaskOutcome>)
    ensures
        spec_wrap_all(outcomes).len() == outcomes.len(),
        forall|i: int| 0 <= i < outcomes.len() ==> #[trigger] spec_wrap_all(outcomes)[i].task_id
            == outcomes[i].task_id && spec_wrap_all(outcomes)[i].success == outcomes[i].success,
        count_success_events(spec_wrap_all(outcomes)) == count_successes(outcomes),
    decreases outcomes.len(),
{
    if outcomes.len() > 0 {
        lemma_one_event_per_task(outcomes.drop_last());
        assert(spec_wrap_all(outcomes).drop_last() =~= spec_wrap_all(outcomes.drop_last()));
    }
}

/// Hands out task identities; each spawn gets a fresh one.
///
/// The pool is fire-and-forget: it offers no cancellation and no bound on
/// how many tasks are outstanding. The executor that actually runs the
/// futures lives outside this crate; the pool only fixes which identity a
/// task carries, so its terminal event can be told from every other one.
#[derive(Clone, Copy, Debug, PartialEq, Eq, Structural)]
pub struct TaskPool {
    /// The identity the next spawn will get; identities below it are spent.
    pub next_task_id: u64,
}

impl TaskPool {
    /// A pool that has spawned nothing.
    pub fn new() -> (pool: TaskPool)
        ensures
            pool.next_task_id == 0,
    {
        TaskPool { next_task_id: 0 }
    }

    /// Registers one spawned task and returns its identity, which no
    /// earlier and no later spawn of this pool shares.
    pub fn spawn(&mut self) -> (task_id: u64)
        requires
            old(self).next_task_id < u64::MAX,
        ensures
            task_id == old(self).next_task_id,
            final(self).next_task_id == old(self).next_task_id + 1,
    {
        let id = self.next_task_id;
        self.next_task_id = self.next_task_id + 1;
        id
    }
}

} // verus!
