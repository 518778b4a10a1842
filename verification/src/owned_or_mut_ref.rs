use vstd::prelude::*;
use vstd::std_specs::cmp::PartialEqSpec;

verus! {

/// Holds an owned `T` or a mutable reference.
#[derive(Debug, Eq)]
pub enum OwnedOrMutRef<'r, T> {
    /// Holds an owned `T`.
    Owned(T),
    /// Holds a mutable reference to `T`.
    MutRef(&'r mut T),
}

impl<'r, T> OwnedOrMutRef<'r, T> {
    /// The value seen through the cell, whichever case is active.
    pub open spec fn value(self) -> T {
        match self {
            OwnedOrMutRef::Owned(t) => t,
            OwnedOrMutRef::MutRef(t) => *t,
        }
    }

    /// True in the `Owned` case.
    pub open spec fn is_owned(self) -> bool {
        self matches OwnedOrMutRef::Owned(_)
    }

    /// Reborrows this `OwnedOrMutRef` with a shorter lifetime.
    ///
    /// For an `Owned` variant, this borrows it as a `MutRef`. The receiver
    /// is borrowed mutably for as long as the returned cell lives, so only
    /// one write path to the underlying storage exists at a time. Writes
    /// made through the returned cell are seen by the receiver afterwards;
    /// a receiver in the `MutRef` case passes them on to its own referent.
    pub fn reborrow(&mut self) -> (r: OwnedOrMutRef<'_, T>)
        ensures
            (r matches OwnedOrMutRef::MutRef(m) && *m == old(self).value()
                && final(self).value() == *final(m)),
            final(self).is_owned() == old(self).is_owned(),
            (old(self).is_owned() ==> (r matches OwnedOrMutRef::MutRef(m)
                && *final(self) == OwnedOrMutRef::<'r, T>::Owned(*final(m)))),
            (*old(self) matches OwnedOrMutRef::MutRef(m1) ==> ((*final(self))
                matches OwnedOrMutRef::MutRef(m2) && *final(m2) == *final(m1))),
    {
        match self {
            OwnedOrMutRef::Owned(t) => OwnedOrMutRef::MutRef(t),
            OwnedOrMutRef::MutRef(t) => OwnedOrMutRef::MutRef(&mut **t),
        }
    }
}

impl<'r, T> core::ops::Deref for OwnedOrMutRef<'r, T> {
    type Target = T;

    fn deref(&self) -> (r: &T)
        ensures
            *r == self.value(),
    {
        match self {
            OwnedOrMutRef::Owned(t) => t,
            OwnedOrMutRef::MutRef(t) => t,
        }
    }
}

impl<'r, T> core::ops::DerefMut for OwnedOrMutRef<'r, T> {
    fn deref_mut(&mut self) -> (r: &mut T)
        ensures
            *r == old(self).value(),
            final(self).value() == *final(r),
            final(self).is_owned() == old(self).is_owned(),
            old(self).is_owned() ==> *final(self) == OwnedOrMutRef::<'r, T>::Owned(*final(r)),
            (*old(self) matches OwnedOrMutRef::MutRef(m1) ==> ((*final(self))
                matches OwnedOrMutRef::MutRef(m2) && *final(m2) == *final(m1))),
    {
        match self {
            OwnedOrMutRef::Owned(t) => t,
            OwnedOrMutRef::MutRef(t) => t,
        }
    }
}

impl<'r, T: PartialEq> PartialEq for OwnedOrMutRef<'r, T> {
    /// Structural, case-sensitive equality: two cells are equal when they
    /// are in the same case and hold equal values; an `Owned` cell is never
    /// equal to a `MutRef` cell, even over equal values.
    fn eq(&self, other: &Self) -> (r: bool) {
        match (self, other) {
            (OwnedOrMutRef::Owned(a), OwnedOrMutRef::Owned(b)) => a == b,
            (OwnedOrMutRef::MutRef(a), OwnedOrMutRef::MutRef(b)) => **a == **b,
            _ => false,
        }
    }
}

impl<'r, T: PartialEq> vstd::std_specs::cmp::PartialEqSpecImpl for OwnedOrMutRef<'r, T> {
    open spec fn obeys_eq_spec() -> bool {
        <T as vstd::std_specs::cmp::PartialEqSpec>::obeys_eq_spec()
    }

    open spec fn eq_spec(&self, other: &Self) -> bool {
        match (*self, *other) {
            (OwnedOrMutRef::Owned(a), OwnedOrMutRef::Owned(b)) => a.eq_spec(&b),
            (OwnedOrMutRef::MutRef(a), OwnedOrMutRef::MutRef(b)) => (*a).eq_spec(&*b),
            _ => false,
        }
    }
}

impl<'r, T> From<T> for OwnedOrMutRef<'r, T> {
    fn from(v: T) -> Self {
        Self::Owned(v)
    }
}

impl<'r, T> vstd::std_specs::convert::FromSpecImpl<T> for OwnedOrMutRef<'r, T> {
    open spec fn obeys_from_spec() -> bool {
        true
    }

    open spec fn from_spec(v: T) -> Self {
        OwnedOrMutRef::Owned(v)
    }
}

impl<'r, T> From<&'r mut T> for OwnedOrMutRef<'r, T> {
    /// Wraps a mutable reference in the `MutRef` case; no copy is made, and
    /// writes through the cell land in the referenced storage.
    fn from(v: &'r mut T) -> (r: Self)
        ensures
            (r matches OwnedOrMutRef::MutRef(m) && *m == *old(v) && *final(m) == *final(v)),
    {
        Self::MutRef(v)
    }
}

impl<'r, T> vstd::std_specs::convert::FromSpecImpl<&'r mut T> for OwnedOrMutRef<'r, T> {
    open spec fn obeys_from_spec() -> bool {
        // The cell captures the reference itself, a relation the `from_spec`
        // interface (a function of the call-time value alone) cannot state;
        // the impl's own `ensures` carries the exact contract.
        false
    }

    open spec fn from_spec(v: &'r mut T) -> Self {
        OwnedOrMutRef::MutRef(v)
    }
}

/// Law: a cell built over an owned value is in the `Owned` case and
/// dereferences to exactly that value.
pub proof fn lemma_owned_value<T>(v: T)
    ensures
        OwnedOrMutRef::Owned(v).value() == v,
        OwnedOrMutRef::Owned(v).is_owned(),
{
}

/// Law: equality is case-sensitive. Cells in different cases never compare
/// equal, whatever values they hold, even when they dereference to equal
/// values.
pub proof fn lemma_eq_is_case_sensitive<T: PartialEq>(c1: OwnedOrMutRef<T>, c2: OwnedOrMutRef<T>)
    requires
        c1.is_owned() != c2.is_owned(),
    ensures
        !c1.eq_spec(&c2),
{
}

} // verus!
