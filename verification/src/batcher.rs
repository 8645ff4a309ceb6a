use vstd::prelude::*;

use crate::accumulator::VecBatcher;
use crate::policy::BatchStatus;
use crate::policy::PolicyKind;
use crate::unit::Unit;

verus! {

/// Batcher is the main trait driving the creation of a batch.
///
/// A batch is a vector of units. A batch grows by calling `new_unit`, which
/// evaluates the release rule after every single insertion. At any point the
/// caller can `release` the whole pending batch, full or not; doing so
/// consumes the batcher, so no call can follow a forced release.
pub trait Batcher: Sized {
    type Unit: Unit;

    /// The units accumulated so far for the current batch, in insertion
    /// order.
    spec fn spec_pending(&self) -> Seq<Self::Unit>;

    /// The release rule in force, as a predicate over a pending sequence.
    spec fn spec_releases(&self, pending: Seq<Self::Unit>) -> bool;

    /// Adds a new unit to the batch. Returns the completed batch — every
    /// unit inserted since the last release, in insertion order — exactly
    /// when the release rule holds of the grown pending sequence; the
    /// batcher is then empty again and keeps accepting units. Otherwise
    /// returns nothing and keeps the grown sequence pending. The release
    /// rule itself never changes.
    fn new_unit(&mut self, unit: Self::Unit) -> (r: Option<Vec<Self::Unit>>)
        ensures
            forall|s: Seq<Self::Unit>|
                #[trigger] final(self).spec_releases(s) <==> old(self).spec_releases(s),
            ({
                let p = old(self).spec_pending().push(unit);
                if old(self).spec_releases(p) {
                    &&& r matches Some(batch) && batch@ == p
                    &&& final(self).spec_pending() == Seq::<Self::Unit>::empty()
                } else {
                    &&& r is None
                    &&& final(self).spec_pending() == p
                }
            }),
    ;

    /// Releases the whole pending batch regardless of whether it is full,
    /// returning every pending unit in insertion order. Sometimes necessary
    /// when for example some timeout expired. Consumes the batcher: the
    /// caller gives up its handle and cannot insert afterwards.
    fn release(self) -> (r: Vec<Self::Unit>)
        ensures
            r@ == self.spec_pending(),
    ;
}

/// Policy-driven batcher implementing the `Batcher` trait.
///
/// It composes a `VecBatcher` store with a `PolicyKind` that decides, after
/// each insertion, whether to release the batch.
pub struct PolicyBatcher<U: Unit> {
    backend: VecBatcher<U>,
    policy: PolicyKind<U::ID>,
}

impl<U: Unit> PolicyBatcher<U> {
    /// The policy this batcher was constructed with; it is fixed for the
    /// batcher's lifetime.
    pub closed spec fn spec_policy(&self) -> PolicyKind<U::ID> {
        self.policy
    }

    /// Creates an empty batcher ruled by `policy`.
    pub fn new(policy: PolicyKind<U::ID>) -> (r: Self)
        ensures
            r.spec_pending() == Seq::<U>::empty(),
            r.spec_policy() == policy,
    {
        PolicyBatcher { backend: VecBatcher::new(), policy }
    }
}

impl<U: Unit> Batcher for PolicyBatcher<U> {
    type Unit = U;

    closed spec fn spec_pending(&self) -> Seq<U> {
        self.backend@
    }

    open spec fn spec_releases(&self, pending: Seq<U>) -> bool {
        self.spec_policy().releases_on(pending)
    }

    fn new_unit(&mut self, unit: U) -> (r: Option<Vec<U>>) {
        self.backend.new_unit(unit);
        match self.policy.outcome(&self.backend) {
            BatchStatus::KeepBatching => None,
            BatchStatus::ReleaseBatch => Some(self.backend.release()),
        }
    }

    fn release(self) -> (r: Vec<U>) {
        let mut this = self;
        this.backend.release()
    }
}

} // verus!
