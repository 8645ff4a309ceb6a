use vstd::prelude::*;
use vstd::std_specs::cmp::PartialEqSpec;

verus! {

/// An element to batch together.
///
/// A unit is uniquely represented by an identifier, derived from the unit's
/// value by a pure function: `id` returns exactly `spec_id`. Two units with
/// the same identifier count as the same logical unit for set-membership
/// policies, whatever their payloads hold.
///
/// Identifiers must compare by value: `id_eq_agrees` obliges every
/// implementation to show that executable `==` on identifiers coincides with
/// mathematical equality, so policies can reason about which identifiers the
/// pending batch contains.
pub trait Unit: Sized + core::fmt::Debug + Clone + Send + Sync {
    type ID: core::fmt::Debug + Eq + core::hash::Hash + Clone + Send + Sync;

    /// The identifier of this unit, as a mathematical value.
    spec fn spec_id(&self) -> Self::ID;

    /// Returns the ID associated with this unit.
    fn id(&self) -> (r: Self::ID)
        ensures
            r == self.spec_id(),
    ;

    /// Executable equality on identifiers agrees with mathematical equality.
    proof fn id_eq_agrees()
        ensures
            Self::ID::obeys_eq_spec(),
            forall|a: Self::ID, b: Self::ID| #[trigger] a.eq_spec(&b) <==> a == b,
    ;
}

/// A minimal unit: a key that is its own identifier.
#[derive(Clone, Copy, Debug, PartialEq, Eq, Structural)]
pub struct KeyUnit(pub usize);

impl Unit for KeyUnit {
    type ID = usize;

    open spec fn spec_id(&self) -> usize {
        self.0
    }

    fn id(&self) -> usize {
        self.0
    }

    proof fn id_eq_agrees() {
    }
}

} // verus!
