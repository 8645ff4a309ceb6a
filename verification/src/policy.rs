use vstd::prelude::*;
use vstd::std_specs::cmp::PartialEqSpec;

use crate::accumulator::VecBatcher;
use crate::unit::Unit;

verus! {

/// Enum indicating whether a batch is ready or should be further built.
#[derive(Clone, Copy, Debug, PartialEq, Eq, Structural)]
pub enum BatchStatus {
    KeepBatching,
    ReleaseBatch,
}

impl From<bool> for BatchStatus {
    fn from(value: bool) -> (r: BatchStatus) {
        match value {
            true => BatchStatus::ReleaseBatch,
            false => BatchStatus::KeepBatching,
        }
    }
}

impl vstd::std_specs::convert::FromSpecImpl<bool> for BatchStatus {
    open spec fn obeys_from_spec() -> bool {
        true
    }

    open spec fn from_spec(value: bool) -> BatchStatus {
        if value {
            BatchStatus::ReleaseBatch
        } else {
            BatchStatus::KeepBatching
        }
    }
}

/// The identifiers of a sequence of units, in order.
pub open spec fn seq_ids<U: Unit>(s: Seq<U>) -> Seq<U::ID> {
    s.map_values(|u: U| u.spec_id())
}

/// An enum implementing various batching strategies.
///
/// A strategy of the caller's own can be plugged in by implementing the
/// `Batcher` trait directly instead of going through `PolicyBatcher`.
pub enum PolicyKind<ID> {
    /// Release once the pending batch holds at least this many units.
    BySize(usize),
    /// Release once the set of distinct pending identifiers equals exactly
    /// this target set, neither more nor less. The target is held as a list;
    /// duplicates in it do not change the set it denotes.
    ByList(Vec<ID>),
}

impl<ID> PolicyKind<ID> {
    /// The release rule this policy denotes, as a predicate over a pending
    /// sequence of units.
    pub open spec fn releases_on<U: Unit<ID = ID>>(&self, pending: Seq<U>) -> bool {
        match *self {
            PolicyKind::BySize(n) => pending.len() >= n,
            PolicyKind::ByList(target) => seq_ids(pending).to_set() == target@.to_set(),
        }
    }
}

/// Whether the identifier `x` occurs in `list`.
fn id_in_list<U: Unit>(x: &U::ID, list: &Vec<U::ID>) -> (r: bool)
    ensures
        r == list@.contains(*x),
{
    proof {
        U::id_eq_agrees();
    }
    let mut i: usize = 0;
    while i < list.len()
        invariant
            0 <= i <= list@.len(),
            forall|j: int| 0 <= j < i ==> list@[j] != *x,
            U::ID::obeys_eq_spec(),
            forall|a: U::ID, b: U::ID| #[trigger] a.eq_spec(&b) <==> a == b,
        decreases list@.len() - i,
    {
        if x.eq(&list[i]) {
            return true;
        }
        i = i + 1;
    }
    false
}

/// Whether some unit in `pending` carries the identifier `x`.
fn pending_has_id<U: Unit>(pending: &Vec<U>, x: &U::ID) -> (r: bool)
    ensures
        r == seq_ids(pending@).contains(*x),
{
    proof {
        U::id_eq_agrees();
    }
    let mut i: usize = 0;
    while i < pending.len()
        invariant
            0 <= i <= pending@.len(),
            forall|j: int| 0 <= j < i ==> seq_ids(pending@)[j] != *x,
            U::ID::obeys_eq_spec(),
            forall|a: U::ID, b: U::ID| #[trigger] a.eq_spec(&b) <==> a == b,
        decreases pending@.len() - i,
    {
        let id = pending[i].id();
        if x.eq(&id) {
            proof {
                assert(seq_ids(pending@)[i as int] == *x);
            }
            return true;
        }
        i = i + 1;
    }
    false
}

/// Whether the set of distinct identifiers of `pending` equals exactly the
/// set that `target` denotes.
fn ids_equal_target<U: Unit>(pending: &Vec<U>, target: &Vec<U::ID>) -> (r: bool)
    ensures
        r == (seq_ids(pending@).to_set() == target@.to_set()),
{
    let ghost pids = seq_ids(pending@);
    let mut i: usize = 0;
    while i < pending.len()
        invariant
            0 <= i <= pending@.len(),
            pids == seq_ids(pending@),
            forall|j: int| 0 <= j < i ==> target@.contains(#[trigger] pids[j]),
        decreases pending@.len() - i,
    {
        let id = pending[i].id();
        if !id_in_list::<U>(&id, target) {
            proof {
                assert(pids[i as int] == id);
                assert(pids.to_set().contains(id));
                assert(!target@.to_set().contains(id));
            }
            return false;
        }
        i = i + 1;
    }
    let mut k: usize = 0;
    while k < target.len()
        invariant
            0 <= k <= target@.len(),
            pids == seq_ids(pending@),
            forall|j: int| 0 <= j < pids.len() ==> target@.contains(#[trigger] pids[j]),
            forall|j: int| 0 <= j < k ==> pids.contains(#[trigger] target@[j]),
        decreases target@.len() - k,
    {
        if !pending_has_id::<U>(pending, &target[k]) {
            proof {
                assert(target@.to_set().contains(target@[k as int]));
                assert(!pids.to_set().contains(target@[k as int]));
            }
            return false;
        }
        k = k + 1;
    }
    proof {
        assert(pids.to_set() =~= target@.to_set()) by {
            assert forall|e: U::ID| pids.to_set().contains(e) implies target@.to_set().contains(e) by {
                let j = choose|j: int| 0 <= j < pids.len() && pids[j] == e;
                assert(target@.contains(pids[j]));
            }
            assert forall|e: U::ID| target@.to_set().contains(e) implies pids.to_set().contains(e) by {
                let j = choose|j: int| 0 <= j < target@.len() && target@[j] == e;
                assert(pids.contains(target@[j]));
            }
        }
    }
    true
}

impl<ID: Eq + Clone> PolicyKind<ID> {
    /// Decides whether the pending batch held by `batch` is ready under this
    /// policy. Evaluation is pure: it reads the store and mutates nothing.
    pub fn outcome<U: Unit<ID = ID>>(&self, batch: &VecBatcher<U>) -> (r: BatchStatus)
        ensures
            r == BatchStatus::ReleaseBatch <==> self.releases_on(batch@),
    {
        match self {
            PolicyKind::BySize(max_size) => BatchStatus::from(batch.len() >= *max_size),
            PolicyKind::ByList(target) => BatchStatus::from(
                ids_equal_target::<U>(batch.units(), target),
            ),
        }
    }
}

} // verus!
