use vstd::prelude::*;

verus! {

/// A simple batch store backed by a vector.
///
/// Units are held in insertion order. The store grows one unit at a time and
/// is emptied atomically by `release`.
pub struct VecBatcher<U> {
    pending: Vec<U>,
}

impl<U> View for VecBatcher<U> {
    type V = Seq<U>;

    closed spec fn view(&self) -> Seq<U> {
        self.pending@
    }
}

impl<U> Default for VecBatcher<U> {
    /// An empty store.
    fn default() -> (r: Self)
        ensures
            r@ == Seq::<U>::empty(),
    {
        VecBatcher { pending: Vec::new() }
    }
}

impl<U> VecBatcher<U> {
    /// Creates an empty store.
    pub fn new() -> (r: Self)
        ensures
            r@ == Seq::<U>::empty(),
    {
        VecBatcher { pending: Vec::new() }
    }

    /// Appends a unit at the end of the pending batch.
    pub fn new_unit(&mut self, unit: U)
        ensures
            final(self)@ == old(self)@.push(unit),
    {
        self.pending.push(unit);
    }

    /// Removes and returns every pending unit, in insertion order, leaving
    /// the store empty. Calling it twice in a row returns the full batch,
    /// then an empty one.
    pub fn release(&mut self) -> (r: Vec<U>)
        ensures
            r@ == old(self)@,
            final(self)@ == Seq::<U>::empty(),
    {
        let mut taken: Vec<U> = Vec::new();
        core::mem::swap(&mut taken, &mut self.pending);
        taken
    }

    /// The number of units currently pending.
    pub fn len(&self) -> (n: usize)
        ensures
            n == self@.len(),
    {
        self.pending.len()
    }

    /// Read-only access to the pending units, for policy evaluation.
    pub fn units(&self) -> (r: &Vec<U>)
        ensures
            r@ == self@,
    {
        &self.pending
    }
}

} // verus!
