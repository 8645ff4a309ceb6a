use vstd::prelude::*;

use crate::policy::seq_ids;
use crate::policy::PolicyKind;
use crate::unit::Unit;

verus! {

/// The pending sequence left after inserting `units`, in order, into a fresh
/// batcher ruled by `policy`: each insertion grows the pending batch by one
/// unit, and the pending batch resets to empty whenever the policy releases
/// it. This is exactly the evolution that `Batcher::new_unit`'s contract
/// prescribes, starting from the empty state that `PolicyBatcher::new`
/// establishes.
pub open spec fn pending_after<U: Unit>(policy: PolicyKind<U::ID>, units: Seq<U>) -> Seq<U>
    decreases units.len(),
{
    if units.len() == 0 {
        Seq::empty()
    } else {
        let p = pending_after(policy, units.drop_last()).push(units.last());
        if policy.releases_on(p) {
            Seq::empty()
        } else {
            p
        }
    }
}

/// The batch released by the last insertion of `units` into a fresh batcher
/// ruled by `policy`, if that insertion triggered a release.
pub open spec fn released_by_last<U: Unit>(
    policy: PolicyKind<U::ID>,
    units: Seq<U>,
) -> Option<Seq<U>>
    recommends
        units.len() > 0,
{
    let p = pending_after(policy, units.drop_last()).push(units.last());
    if policy.releases_on(p) {
        Some(p)
    } else {
        None
    }
}

/// Under a size threshold of at least one, inserting fewer units than the
/// threshold releases nothing and keeps every unit pending in insertion
/// order, and the insertion that reaches the threshold releases all units
/// inserted so far, in insertion order, leaving the batcher empty.
pub proof fn lemma_by_size_threshold<U: Unit>(n: usize, units: Seq<U>)
    requires
        1 <= n,
        units.len() <= n,
    ensures
        units.len() < n ==> pending_after(PolicyKind::BySize(n), units) == units,
        0 < units.len() < n ==> released_by_last(PolicyKind::BySize(n), units) is None,
        units.len() == n ==> released_by_last(PolicyKind::BySize(n), units) == Some(units),
        units.len() == n ==> pending_after(PolicyKind::BySize(n), units) == Seq::<U>::empty(),
    decreases units.len(),
{
    if units.len() > 0 {
        lemma_by_size_threshold(n, units.drop_last());
        assert(units.drop_last().push(units.last()) =~= units);
    }
}

/// After a policy-triggered release the batcher is empty again: the very
/// next insertion begins a fresh batch that holds only the new unit, and is
/// judged by the policy exactly as a first insertion would be.
pub proof fn lemma_fresh_after_release<U: Unit>(policy: PolicyKind<U::ID>, units: Seq<U>, u: U)
    requires
        units.len() > 0,
        released_by_last(policy, units) is Some,
    ensures
        pending_after(policy, units) == Seq::<U>::empty(),
        pending_after(policy, units.push(u)) == pending_after(policy, seq![u]),
        released_by_last(policy, units.push(u)) == released_by_last(policy, seq![u]),
{
    assert(units.push(u).drop_last() =~= units);
    assert(units.push(u).last() == u);
    assert(seq![u].drop_last() =~= Seq::<U>::empty());
    assert(pending_after(policy, units).push(u) =~= Seq::<U>::empty().push(u));
}

/// A target-set policy whose target the accumulated identifiers never match
/// releases nothing, however many units are inserted: every unit stays
/// pending, in insertion order.
pub proof fn lemma_by_list_never_matches<U: Unit>(target: Vec<U::ID>, units: Seq<U>)
    requires
        forall|i: int|
            0 < i <= units.len() ==> seq_ids(#[trigger] units.take(i)).to_set()
                != target@.to_set(),
    ensures
        pending_after(PolicyKind::ByList(target), units) == units,
        units.len() > 0 ==> released_by_last(PolicyKind::ByList(target), units) is None,
    decreases units.len(),
{
    if units.len() > 0 {
        assert forall|i: int| 0 < i <= units.drop_last().len() implies seq_ids(
            #[trigger] units.drop_last().take(i),
        ).to_set() != target@.to_set() by {
            assert(units.drop_last().take(i) =~= units.take(i));
        }
        lemma_by_list_never_matches(target, units.drop_last());
        assert(units.drop_last().push(units.last()) =~= units);
        assert(units.take(units.len() as int) =~= units);
    }
}

/// The insertion that first makes the set of distinct accumulated
/// identifiers equal the target releases every unit inserted so far —
/// duplicates by identifier included — in insertion order, leaving the
/// batcher empty.
pub proof fn lemma_by_list_first_match_releases<U: Unit>(target: Vec<U::ID>, units: Seq<U>)
    requires
        units.len() > 0,
        forall|i: int|
            0 < i < units.len() ==> seq_ids(#[trigger] units.take(i)).to_set()
                != target@.to_set(),
        seq_ids(units).to_set() == target@.to_set(),
    ensures
        released_by_last(PolicyKind::ByList(target), units) == Some(units),
        pending_after(PolicyKind::ByList(target), units) == Seq::<U>::empty(),
{
    assert forall|i: int| 0 < i <= units.drop_last().len() implies seq_ids(
        #[trigger] units.drop_last().take(i),
    ).to_set() != target@.to_set() by {
        assert(units.drop_last().take(i) =~= units.take(i));
    }
    lemma_by_list_never_matches(target, units.drop_last());
    assert(units.drop_last().push(units.last()) =~= units);
}

} // verus!
