//! Properties that relate several operations, proved over the spec
//! functions that the operations' own contracts use.
use vstd::prelude::*;
use vstd::laws_eq::obeys_concrete_eq;
use vstd::pervasive::cloned;
use crate::lifecycle::{FromProperties, InstanceRecord, evaluated, mounted_once};
use crate::binding::{acquire_starts, after_acquire};
use crate::resource::{CellEvent, ResourceState, published, replay, step, tag_count};

verus! {

/// Whatever sequence of loads, clears and completions a cell goes through,
/// after every prefix of it exactly one of the four state tags describes the
/// cell; each event moves the state by `step`.
pub proof fn lemma_state_tag_totality<T>(s: ResourceState<T>, events: Seq<CellEvent<T>>)
    ensures
        forall|i: int| 0 <= i <= events.len() ==> #[trigger] tag_count(replay(s, events.take(i))) == 1,
        forall|i: int|
            0 <= i < events.len() ==> #[trigger] replay(s, events.take(i + 1)) == step(
                replay(s, events.take(i)),
                events[i],
            ),
{
    assert forall|i: int| 0 <= i < events.len() implies #[trigger] replay(s, events.take(i + 1))
        == step(replay(s, events.take(i)), events[i]) by {
        assert(events.take(i + 1).drop_last() =~= events.take(i));
    }
}

/// Two calls of `acquire_resource` in a row on an unloaded cell start
/// exactly one job: the first starts it, the second sees `Loading` and
/// starts nothing.
pub proof fn lemma_acquire_starts_once<T>(s: ResourceState<T>)
    requires
        s is Unloaded,
    ensures
        acquire_starts(s),
        after_acquire(s) is Loading,
        !acquire_starts(after_acquire(s)),
        after_acquire(after_acquire(s)) == after_acquire(s),
{
}

/// When job A is started, then job B, and B finishes before A, the cell ends
/// with A's outcome: the last job to finish wins, not the last to start.
pub proof fn lemma_last_completion_wins<T>(
    s: ResourceState<T>,
    outcome_a: Option<T>,
    outcome_b: Option<T>,
)
    ensures
        replay(
            s,
            seq![
                CellEvent::Load,
                CellEvent::Load,
                CellEvent::Complete(outcome_b),
                CellEvent::Complete(outcome_a),
            ],
        ) == published(outcome_a),
{
    reveal_with_fuel(replay, 5);
}

/// A clear while a job is in flight leaves the cell `Unloaded` at once, and
/// the job's later completion still publishes its outcome.
pub proof fn lemma_clear_does_not_cancel<T>(s: ResourceState<T>, outcome: Option<T>)
    ensures
        replay(s, seq![CellEvent::Load, CellEvent::Clear]) is Unloaded,
        replay(s, seq![CellEvent::Load, CellEvent::Clear, CellEvent::Complete(outcome)])
            == published(outcome),
        published(outcome) is Loaded || published(outcome) is Unavailable,
{
    reveal_with_fuel(replay, 4);
}

/// Where `==` on the properties is value equality, two evaluations in a row
/// with the same properties leave the instance built (or kept) by the first
/// untouched: the second builds nothing, and a mount hook that has run does
/// not fire again.
pub proof fn lemma_same_properties_keep_instance<P: PartialEq + Clone, C: FromProperties<P>>(
    before: Option<InstanceRecord<P, C>>,
    p: P,
    first: Option<InstanceRecord<P, C>>,
    first_rebuilt: bool,
    second: Option<InstanceRecord<P, C>>,
    second_rebuilt: bool,
)
    requires
        obeys_concrete_eq::<P>(),
        evaluated(before, p, first, first_rebuilt),
        evaluated(first, p, second, second_rebuilt),
    ensures
        first is Some,
        first->Some_0.properties == p,
        !second_rebuilt,
        second == first,
        forall|mounted: Option<InstanceRecord<P, C>>, fire: bool|
            #[trigger] mounted_once(second, mounted, fire) ==> (fire <==> !first->Some_0.mounted),
{
    reveal(obeys_concrete_eq);
}

/// Where `==` on the properties is value equality, evaluating a slot with
/// properties that differ from those of its instance builds a new,
/// unmounted instance from a clone of the new properties; nothing of the old
/// instance is kept.
pub proof fn lemma_changed_properties_rebuild<P: PartialEq + Clone, C: FromProperties<P>>(
    before: Option<InstanceRecord<P, C>>,
    p: P,
    after: Option<InstanceRecord<P, C>>,
    rebuilt: bool,
)
    requires
        obeys_concrete_eq::<P>(),
        before is Some,
        before->Some_0.properties != p,
        evaluated(before, p, after, rebuilt),
    ensures
        rebuilt,
        after is Some,
        after->Some_0.properties == p,
        !after->Some_0.mounted,
        exists|q: P| cloned(p, q) && after->Some_0.instance == C::built_from(q),
{
    reveal(obeys_concrete_eq);
}

} // verus!
