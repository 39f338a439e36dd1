//! The abstract protocol behind [`SpinMutex`](crate::SpinMutex), and the
//! safety laws the lock obeys.
//!
//! A lock configuration is reduced to what matters for correctness: the
//! binary flag, the number of live guards, and the protected value as the
//! shared cell holds it between critical sections. Exactly two transitions
//! exist: a successful compare-and-swap takes a clear flag and produces a
//! guard, and a release by a live guard writes a value back and clears the
//! flag. The lemmas below show that along every run of this protocol at
//! most one guard is ever live (mutual exclusion), that acquisitions and
//! releases strictly alternate, that a release leaves the flag clear and
//! cannot happen twice for the same guard, that the value a release writes
//! is exactly what every later observer sees until the next release
//! (visibility), and that serialized guarded increments of a counter lose
//! no update.

use vstd::prelude::*;

verus! {

/// The two states of the lock flag.
pub enum Flag {
    Unlocked,
    Locked,
}

/// An abstract configuration of one lock protecting a value of type `V`:
/// the flag, the number of guards currently live, and the value the shared
/// cell last received.
pub struct LockState<V> {
    pub flag: Flag,
    pub guards: nat,
    pub value: V,
}

/// The two transitions of the protocol. A release carries the value the
/// guard writes back into the cell.
pub enum Step<V> {
    Acquire,
    Release { written: V },
}

/// The initial configuration: flag clear, no guard live, the cell holding
/// whatever value the lock was created with.
pub open spec fn init<V>(s: LockState<V>) -> bool {
    s.flag is Unlocked && s.guards == 0
}

/// A compare-and-swap on the flag succeeds exactly when the flag is clear.
pub open spec fn acquire_enabled<V>(s: LockState<V>) -> bool {
    s.flag is Unlocked
}

/// A release is possible exactly while a guard is live.
pub open spec fn release_enabled<V>(s: LockState<V>) -> bool {
    s.guards > 0
}

/// When a step may be taken: no other transition exists.
pub open spec fn step_enabled<V>(s: LockState<V>, step: Step<V>) -> bool {
    match step {
        Step::Acquire => acquire_enabled(s),
        Step::Release { .. } => release_enabled(s),
    }
}

/// The effect of a step. A successful acquisition takes the flag and
/// brings a guard live; the value is untouched, so the new holder observes
/// exactly what the cell held. A release consumes the guard, stores the
/// written value and clears the flag.
pub open spec fn apply<V>(s: LockState<V>, step: Step<V>) -> LockState<V> {
    match step {
        Step::Acquire => LockState { flag: Flag::Locked, guards: s.guards + 1, value: s.value },
        Step::Release { written } => LockState {
            flag: Flag::Unlocked,
            guards: (s.guards - 1) as nat,
            value: written,
        },
    }
}

/// A run of the protocol: `states` records every configuration passed
/// through, `steps` the transition taken between each adjacent pair, each
/// taken only when enabled.
pub open spec fn valid_run<V>(states: Seq<LockState<V>>, steps: Seq<Step<V>>) -> bool {
    &&& states.len() == steps.len() + 1
    &&& init(states[0])
    &&& forall|i: int|
        0 <= i < steps.len() ==> step_enabled(states[i], #[trigger] steps[i]) && states[i + 1]
            == apply(states[i], steps[i])
}

/// The protocol invariant: never more than one live guard, and a guard is
/// live exactly while the flag is held.
pub open spec fn inv<V>(s: LockState<V>) -> bool {
    s.guards <= 1 && (s.guards == 1 <==> s.flag is Locked)
}

/// The initial configuration satisfies the invariant.
pub proof fn lemma_init_inv<V>(s: LockState<V>)
    requires
        init(s),
    ensures
        inv(s),
{
}

/// Both transitions preserve the invariant: an acquisition only happens on
/// a clear flag, where no guard is live, and a release only happens while
/// the unique guard is live.
pub proof fn lemma_step_preserves_inv<V>(s: LockState<V>, step: Step<V>)
    requires
        inv(s),
        step_enabled(s, step),
    ensures
        inv(apply(s, step)),
{
}

/// Mutual exclusion: every configuration of every run satisfies the
/// invariant; in particular at most one guard is live at any point, so two
/// critical sections never overlap.
pub proof fn lemma_mutual_exclusion<V>(states: Seq<LockState<V>>, steps: Seq<Step<V>>)
    requires
        valid_run(states, steps),
    ensures
        forall|i: int| 0 <= i < states.len() ==> inv(#[trigger] states[i]),
        forall|i: int| 0 <= i < states.len() ==> (#[trigger] states[i]).guards <= 1,
    decreases steps.len(),
{
    if steps.len() == 0 {
        lemma_init_inv(states[0]);
    } else {
        let state_prefix = states.drop_last();
        let step_prefix = steps.drop_last();
        assert forall|i: int| 0 <= i < step_prefix.len() implies step_enabled(
            state_prefix[i],
            #[trigger] step_prefix[i],
        ) && state_prefix[i + 1] == apply(state_prefix[i], step_prefix[i]) by {
            assert(step_enabled(states[i], steps[i]));
            assert(states[i + 1] == apply(states[i], steps[i]));
        }
        lemma_mutual_exclusion(state_prefix, step_prefix);
        let n = steps.len();
        assert(inv(states[n - 1])) by {
            assert(states[n - 1] == state_prefix[n - 1]);
        }
        assert(step_enabled(states[n - 1], steps[n - 1]) && states[(n - 1) + 1] == apply(
            states[n - 1],
            steps[n - 1],
        ));
        lemma_step_preserves_inv(states[n - 1], steps[n - 1]);
        assert forall|i: int| 0 <= i < states.len() implies inv(#[trigger] states[i]) by {
            if i < states.len() - 1 {
                assert(states[i] == state_prefix[i]);
            }
        }
    }
}

/// A run can only begin with an acquisition: in the initial configuration
/// no guard is live, so there is nothing to release.
pub proof fn lemma_first_step_acquires<V>(states: Seq<LockState<V>>, steps: Seq<Step<V>>)
    requires
        valid_run(states, steps),
        steps.len() > 0,
    ensures
        steps[0] is Acquire,
{
    assert(step_enabled(states[0], steps[0]));
}

/// Acquisitions and releases strictly alternate: while the unique guard is
/// live no second acquisition can succeed, and once it has released there
/// is no guard left to release again.
pub proof fn lemma_steps_alternate<V>(states: Seq<LockState<V>>, steps: Seq<Step<V>>, j: int)
    requires
        valid_run(states, steps),
        0 <= j < steps.len() - 1,
    ensures
        steps[j] is Acquire <==> steps[j + 1] is Release,
{
    lemma_mutual_exclusion(states, steps);
    assert(step_enabled(states[j], steps[j]) && states[j + 1] == apply(states[j], steps[j]));
    assert(step_enabled(states[j + 1], steps[j + 1]));
}

/// No double release: releasing the unique live guard leaves the flag
/// clear, and no further release is possible until another acquisition —
/// a second release of the same guard is not a step of the protocol.
pub proof fn lemma_no_double_release<V>(s: LockState<V>, written: V)
    requires
        inv(s),
        release_enabled(s),
    ensures
        apply(s, Step::Release { written }).flag is Unlocked,
        !release_enabled(apply(s, Step::Release { written })),
        inv(apply(s, Step::Release { written })),
{
}

/// Release re-enables acquisition: the holder's release clears the flag,
/// so a waiting caller's next compare-and-swap can succeed. An acquisition
/// followed by its release returns the lock to an unlocked configuration
/// holding the written value: the lock cycles and has no terminal state.
pub proof fn lemma_release_reenables_acquire<V>(s: LockState<V>, written: V)
    requires
        inv(s),
        acquire_enabled(s),
    ensures
        release_enabled(apply(s, Step::Acquire)),
        apply(apply(s, Step::Acquire), Step::Release { written }) == (LockState {
            flag: Flag::Unlocked,
            guards: s.guards,
            value: written,
        }),
        acquire_enabled(apply(apply(s, Step::Acquire), Step::Release { written })),
{
}

/// Visibility: the value a release writes is exactly what the cell holds
/// at every later point of the run up to and including the next release —
/// in particular, the next successful acquirer observes it.
pub proof fn lemma_release_visible<V>(
    states: Seq<LockState<V>>,
    steps: Seq<Step<V>>,
    i: int,
    k: int,
)
    requires
        valid_run(states, steps),
        0 <= i < k <= steps.len(),
        steps[i] is Release,
        forall|j: int| i < j < k ==> !((#[trigger] steps[j]) is Release),
    ensures
        states[k].value == steps[i]->written,
    decreases k - i,
{
    assert(states[i + 1] == apply(states[i], steps[i]));
    if k > i + 1 {
        lemma_release_visible(states, steps, i, k - 1);
        assert(!(steps[k - 1] is Release));
        assert(states[k] == apply(states[k - 1], steps[k - 1]));
    }
}

/// Visibility at the acquirer: an acquisition that follows a release with
/// no other release in between observes exactly the value that release
/// wrote, and still holds it once the flag is taken.
pub proof fn lemma_next_acquirer_sees_release<V>(
    states: Seq<LockState<V>>,
    steps: Seq<Step<V>>,
    i: int,
    k: int,
)
    requires
        valid_run(states, steps),
        0 <= i < k < steps.len(),
        steps[i] is Release,
        steps[k] is Acquire,
        forall|j: int| i < j < k ==> !((#[trigger] steps[j]) is Release),
    ensures
        states[k].value == steps[i]->written,
        states[k + 1].value == steps[i]->written,
{
    lemma_release_visible(states, steps, i, k);
    assert(states[k + 1] == apply(states[k], steps[k]));
}

/// How many releases — completed critical sections — a sequence of steps
/// contains.
pub open spec fn release_count<V>(steps: Seq<Step<V>>) -> int
    decreases steps.len(),
{
    if steps.len() == 0 {
        0
    } else {
        release_count(steps.drop_last()) + if steps.last() is Release {
            1int
        } else {
            0int
        }
    }
}

/// No lost updates, stated on the protocol itself: in a run of a counter
/// lock in which every critical section increments — every release writes
/// back one more than the value its guard found in the cell — the cell
/// finally holds exactly the number of completed critical sections.
pub proof fn lemma_no_lost_updates_in_run(states: Seq<LockState<int>>, steps: Seq<Step<int>>)
    requires
        valid_run(states, steps),
        states[0].value == 0,
        forall|j: int|
            0 <= j < steps.len() ==> ((#[trigger] steps[j]) is Release ==> steps[j]->written
                == states[j].value + 1),
    ensures
        states.last().value == release_count(steps),
    decreases steps.len(),
{
    if steps.len() > 0 {
        let state_prefix = states.drop_last();
        let step_prefix = steps.drop_last();
        assert forall|i: int| 0 <= i < step_prefix.len() implies step_enabled(
            state_prefix[i],
            #[trigger] step_prefix[i],
        ) && state_prefix[i + 1] == apply(state_prefix[i], step_prefix[i]) by {
            assert(step_enabled(states[i], steps[i]));
            assert(states[i + 1] == apply(states[i], steps[i]));
        }
        assert forall|j: int|
            0 <= j < step_prefix.len() && (#[trigger] step_prefix[j]) is Release implies step_prefix[j]->written
            == state_prefix[j].value + 1 by {
            assert(steps[j] is Release);
            assert(steps[j]->written == states[j].value + 1);
        }
        lemma_no_lost_updates_in_run(state_prefix, step_prefix);
        let n = steps.len() as int;
        assert(states[n] == apply(states[n - 1], steps[n - 1]));
        assert(states[n - 1] == state_prefix[n - 1]);
        if steps[n - 1] is Release {
            assert(steps[n - 1]->written == states[n - 1].value + 1);
        }
        assert(steps.last() == steps[n - 1]);
    }
}

/// No lost updates: a history of counter values in which every step writes
/// back exactly one more than the value it read — which is what a guarded
/// increment does, since mutual exclusion keeps any other writer out
/// between the read and the write — ends exactly `len - 1` above its start.
pub proof fn lemma_no_lost_updates(history: Seq<int>)
    requires
        history.len() > 0,
        forall|i: int| 0 <= i < history.len() - 1 ==> #[trigger] history[i + 1] == history[i] + 1,
    ensures
        history.last() == history[0] + history.len() - 1,
    decreases history.len(),
{
    if history.len() > 1 {
        let prefix = history.drop_last();
        assert forall|i: int| 0 <= i < prefix.len() - 1 implies #[trigger] prefix[i + 1] == prefix[i]
            + 1 by {
            assert(history[i + 1] == history[i] + 1);
        }
        lemma_no_lost_updates(prefix);
        assert(history[(history.len() - 2) + 1] == history[history.len() - 2] + 1);
        assert(history.last() == prefix.last() + 1);
    }
}

/// The counter law for a whole workload: `n` threads each performing `m`
/// guarded increments on a counter starting at `0` perform `n * m`
/// increments in some serial order, so the final value is exactly `n * m`.
pub proof fn lemma_guarded_increments(n: nat, m: nat, history: Seq<int>)
    requires
        history.len() == n * m + 1,
        history[0] == 0,
        forall|i: int| 0 <= i < history.len() - 1 ==> #[trigger] history[i + 1] == history[i] + 1,
    ensures
        history.last() == n * m,
{
    lemma_no_lost_updates(history);
}

} // verus!
