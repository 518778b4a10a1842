use vstd::prelude::*;
use vstd::std_specs::cmp::PartialEqSpec;

verus! {

/// Holds an owned `T` or an immutable reference.
#[derive(Debug, Eq)]
pub enum OwnedOrRef<'r, T> {
    /// Holds an owned `T`.
    Owned(T),
    /// Holds an immutable reference to `T`.
    Ref(&'r T),
}

impl<'r, T> OwnedOrRef<'r, T> {
    /// The value seen through the cell, whichever case is active.
    pub open spec fn value(self) -> T {
        match self {
            OwnedOrRef::Owned(t) => t,
            OwnedOrRef::Ref(t) => *t,
        }
    }

    /// True in the `Owned` case.
    pub open spec fn is_owned(self) -> bool {
        self matches OwnedOrRef::Owned(_)
    }

    /// Reborrows this `OwnedOrRef` with a shorter lifetime.
    ///
    /// For an `Owned` variant, this borrows it as a `Ref`.
    pub fn reborrow(&self) -> (r: OwnedOrRef<'_, T>)
        ensures
            !r.is_owned(),
            r.value() == self.value(),
    {
        match self {
            OwnedOrRef::Owned(t) => OwnedOrRef::Ref(t),
            OwnedOrRef::Ref(t) => OwnedOrRef::Ref(t),
        }
    }
}

impl<'r, T> core::ops::Deref for OwnedOrRef<'r, T> {
    type Target = T;

    fn deref(&self) -> (r: &T)
        ensures
            *r == self.value(),
    {
        match self {
            OwnedOrRef::Owned(t) => t,
            OwnedOrRef::Ref(t) => t,
        }
    }
}

impl<'r, T: PartialEq> PartialEq for OwnedOrRef<'r, T> {
    /// Structural, case-sensitive equality: two cells are equal when they
    /// are in the same case and hold equal values; an `Owned` cell is never
    /// equal to a `Ref` cell, even over equal values.
    fn eq(&self, other: &Self) -> (r: bool) {
        match (self, other) {
            (OwnedOrRef::Owned(a), OwnedOrRef::Owned(b)) => a == b,
            (OwnedOrRef::Ref(a), OwnedOrRef::Ref(b)) => **a == **b,
            _ => false,
        }
    }
}

impl<'r, T: PartialEq> vstd::std_specs::cmp::PartialEqSpecImpl for OwnedOrRef<'r, T> {
    open spec fn obeys_eq_spec() -> bool {
        <T as vstd::std_specs::cmp::PartialEqSpec>::obeys_eq_spec()
    }

    open spec fn eq_spec(&self, other: &Self) -> bool {
        match (*self, *other) {
            (OwnedOrRef::Owned(a), OwnedOrRef::Owned(b)) => a.eq_spec(&b),
            (OwnedOrRef::Ref(a), OwnedOrRef::Ref(b)) => (*a).eq_spec(&*b),
            _ => false,
        }
    }
}

impl<'r, T> From<T> for OwnedOrRef<'r, T> {
    fn from(v: T) -> Self {
        Self::Owned(v)
    }
}

impl<'r, T> vstd::std_specs::convert::FromSpecImpl<T> for OwnedOrRef<'r, T> {
    open spec fn obeys_from_spec() -> bool {
        true
    }

    open spec fn from_spec(v: T) -> Self {
        OwnedOrRef::Owned(v)
    }
}

impl<'r, T> From<&'r T> for OwnedOrRef<'r, T> {
    fn from(v: &'r T) -> Self {
        Self::Ref(v)
    }
}

impl<'r, T> vstd::std_specs::convert::FromSpecImpl<&'r T> for OwnedOrRef<'r, T> {
    open spec fn obeys_from_spec() -> bool {
        true
    }

    open spec fn from_spec(v: &'r T) -> Self {
        OwnedOrRef::Ref(v)
    }
}

/// Law: a cell built over an owned value is in the `Owned` case and
/// dereferences to exactly that value.
pub proof fn lemma_owned_value<T>(v: T)
    ensures
        OwnedOrRef::Owned(v).value() == v,
        OwnedOrRef::Owned(v).is_owned(),
{
}

/// Law: a cell built over a reference is in the `Ref` case and dereferences
/// to the referenced value; the value is shared, not copied.
pub proof fn lemma_ref_value<T>(v: &T)
    ensures
        OwnedOrRef::Ref(v).value() == *v,
        !OwnedOrRef::Ref(v).is_owned(),
{
}

/// Law: equality is case-sensitive. Cells in different cases never compare
/// equal, whatever values they hold, even when they dereference to equal
/// values.
pub proof fn lemma_eq_is_case_sensitive<T: PartialEq>(c1: OwnedOrRef<T>, c2: OwnedOrRef<T>)
    requires
        c1.is_owned() != c2.is_owned(),
    ensures
        !c1.eq_spec(&c2),
{
}

} // verus!
