//! An adapter that lets a directly owned value stand in for a
//! pointer-like owner.
//!
//! A scoped secure-clear utility such as `clear_on_drop::ClearOnDrop`
//! wraps a place `P: DerefMut` and, when dropped, overwrites the bytes
//! of `*P` with the target's default value using writes that the
//! compiler cannot elide.  A value that already *is* the data has no
//! such canonical dereference target, so it cannot be handed to the
//! utility directly.  [`Owned`] closes that gap: it stores exactly one
//! bit-copyable value inline and exposes it through `Deref` and
//! `DerefMut`, so that generic code written against "a dereferenceable
//! owner whose target is `T`" accepts the value itself.
//!
//! Every accessor returns a reference into the one internal slot, and
//! equality, ordering, hashing and formatting all delegate to the
//! wrapped value, never to container identity.

use vstd::prelude::*;

verus! {

use vstd::std_specs::cmp::OrdSpec;
use vstd::std_specs::cmp::PartialEqSpec;
use vstd::std_specs::cmp::PartialOrdSpec;

/// Wraps an owned value so it masquerades as a reference.
///
/// The container holds exactly one instance of `T`, stored inline.  The
/// bound `T: Copy` restricts the payload to bit-copyable values: a type
/// whose full meaning is captured by its raw bytes, with no secondary
/// ownership, so that overwriting those bytes destroys the value
/// completely.
///
/// `Owned<T>` dereferences to `T` on both read and write, which gives a
/// scoped secure-clear utility the single canonical target type it
/// needs in order to compute one address and byte length to erase.
#[derive(Hash)]
pub struct Owned<T>(T) where T: Copy;

impl<T> Owned<T> where T: Copy {
    /// The mathematical value held in the container's single slot.
    pub closed spec fn value(self) -> T {
        self.0
    }

    /// Wrap an owned value so it masquerades as a reference.
    pub fn new(t: T) -> (r: Owned<T>)
        ensures
            r.value() == t,
    {
        Owned(t)
    }

    /// Read access to the single internal slot.
    pub fn borrow(&self) -> (r: &T)
        ensures
            *r == self.value(),
    {
        &self.0
    }

    /// Write access to the single internal slot.
    pub fn borrow_mut(&mut self) -> (r: &mut T)
        ensures
            *r == old(self).value(),
            final(self).value() == *final(r),
    {
        &mut self.0
    }
}

impl<T> core::ops::Deref for Owned<T> where T: Copy {
    type Target = T;

    fn deref(&self) -> (r: &T)
        ensures
            *r == self.value(),
    {
        &self.0
    }
}

impl<T> core::ops::DerefMut for Owned<T> where T: Copy {
    fn deref_mut(&mut self) -> (r: &mut T)
        ensures
            *r == old(self).value(),
            final(self).value() == *final(r),
    {
        &mut self.0
    }
}

impl<T> AsRef<T> for Owned<T> where T: Copy {
    fn as_ref(&self) -> (r: &T)
        ensures
            *r == self.value(),
    {
        &self.0
    }
}

impl<T> AsMut<T> for Owned<T> where T: Copy {
    fn as_mut(&mut self) -> (r: &mut T)
        ensures
            *r == old(self).value(),
            final(self).value() == *final(r),
    {
        &mut self.0
    }
}

impl<T> core::borrow::Borrow<T> for Owned<T> where T: Copy {
    fn borrow(&self) -> (r: &T)
        ensures
            *r == self.value(),
    {
        &self.0
    }
}

impl<T> core::borrow::BorrowMut<T> for Owned<T> where T: Copy {
    fn borrow_mut(&mut self) -> (r: &mut T)
        ensures
            *r == old(self).value(),
            final(self).value() == *final(r),
    {
        &mut self.0
    }
}

impl<T, R> PartialEq<Owned<R>> for Owned<T> where T: Copy + PartialEq<R>, R: Copy {
    fn eq(&self, other: &Owned<R>) -> bool {
        self.0 == other.0
    }

    fn ne(&self, other: &Owned<R>) -> bool {
        self.0 != other.0
    }
}

impl<T, R> vstd::std_specs::cmp::PartialEqSpecImpl<Owned<R>> for Owned<T> where T: Copy + PartialEq<R>, R: Copy {
    open spec fn obeys_eq_spec() -> bool {
        T::obeys_eq_spec()
    }

    open spec fn eq_spec(&self, other: &Owned<R>) -> bool {
        self.value().eq_spec(&other.value())
    }
}

impl<T> Eq for Owned<T> where T: Copy + PartialEq + Eq {
}

impl<T, R> PartialOrd<Owned<R>> for Owned<T> where T: Copy + PartialOrd<R>, R: Copy {
    fn partial_cmp(&self, other: &Owned<R>) -> Option<core::cmp::Ordering> {
        self.0.partial_cmp(&other.0)
    }

    fn lt(&self, other: &Owned<R>) -> bool {
        self.0 < other.0
    }

    fn le(&self, other: &Owned<R>) -> bool {
        self.0 <= other.0
    }

    fn gt(&self, other: &Owned<R>) -> bool {
        self.0 > other.0
    }

    fn ge(&self, other: &Owned<R>) -> bool {
        self.0 >= other.0
    }
}

impl<T, R> vstd::std_specs::cmp::PartialOrdSpecImpl<Owned<R>> for Owned<T> where T: Copy + PartialOrd<R>, R: Copy {
    open spec fn obeys_partial_cmp_spec() -> bool {
        T::obeys_partial_cmp_spec()
    }

    open spec fn partial_cmp_spec(&self, other: &Owned<R>) -> Option<core::cmp::Ordering> {
        self.value().partial_cmp_spec(&other.value())
    }
}

impl<T> Owned<T> where T: Copy + Ord {
    /// Total order on containers, delegated to the wrapped values.
    pub fn cmp(&self, other: &Owned<T>) -> (r: core::cmp::Ordering)
        ensures
            T::obeys_cmp_spec() ==> r == self.value().cmp_spec(&other.value()),
    {
        self.0.cmp(&other.0)
    }
}

/// Relies on `format!` with `core::fmt::Debug`: renders `t` using the
/// value's own `Debug` implementation.
#[verifier::external_body]
fn debug_string_of<T>(t: &T) -> String
    where T: core::fmt::Debug,
{
    format!("{:?}", t)
}

impl<T> Owned<T> where T: Copy + core::fmt::Debug {
    /// Debug rendering of the container: exactly the wrapped value's
    /// own debug output, never mentioning the container itself.
    pub fn to_debug_string(&self) -> String {
        debug_string_of(&self.0)
    }
}

/// Equality of two containers is defined purely by equality of their
/// contained values, never by container identity: the containers
/// compare equal exactly when the wrapped values do.
pub proof fn lemma_eq_delegates_to_value<T>(a: Owned<T>, b: Owned<T>)
    where T: Copy + PartialEq,
    ensures
        Owned::<T>::obeys_eq_spec() == T::obeys_eq_spec(),
        a.eq_spec(&b) == a.value().eq_spec(&b.value()),
{
}

/// Ordering of two containers is defined purely by the ordering of
/// their contained values, never by container identity: the containers
/// order exactly as the wrapped values do.
pub proof fn lemma_ord_delegates_to_value<T>(a: Owned<T>, b: Owned<T>)
    where T: Copy + PartialOrd,
    ensures
        Owned::<T>::obeys_partial_cmp_spec() == T::obeys_partial_cmp_spec(),
        a.partial_cmp_spec(&b) == a.value().partial_cmp_spec(&b.value()),
{
}

impl<T> Default for Owned<T> where T: Copy + Default {
    /// A container pre-filled with `T`'s default value, for use as a
    /// placeholder that is later overwritten with sensitive data.
    fn default() -> (r: Owned<T>)
        ensures
            call_ensures(T::default, (), r.value()),
    {
        Owned(T::default())
    }
}

/// Holds the scoped secure-clear guard of `clear_on_drop`.  It stays
/// behind `external_body` because the bounds on
/// `clear_on_drop::ClearOnDrop` name that crate's `Clear` trait, which
/// the verifier cannot process.
#[verifier::external_body]
#[verifier::reject_recursive_types(T)]
struct GuardInner<T>
    where T: Copy + Default,
{
    guard: clear_on_drop::ClearOnDrop<Owned<T>>,
}

/// Relies on `clear_on_drop::ClearOnDrop::new`: it moves `place` into
/// the guard without reading or changing its contents; from then on the
/// guard's dereference target is the adapter's single slot.
#[verifier::external_body]
fn guard_new<T>(place: Owned<T>) -> GuardInner<T>
    where T: Copy + Default,
{
    GuardInner { guard: clear_on_drop::ClearOnDrop::new(place) }
}

/// `ClearOnDrop` composed with `Owned`: the scoped secure-clear guard
/// holding the owned-value adapter by value.
///
/// The guard keeps the adapter pinned inside itself, so the adapter's
/// single slot has a stable address from construction until the guard
/// is dropped; at that point `clear_on_drop` overwrites the slot's
/// bytes with the target's default value using writes immune to
/// dead-store elimination, then runs the ordinary destructor.
///
/// The `slot` field tracks the value in the adapter's slot: `new`
/// fills the slot with exactly that value, and the only access to the
/// slot afterwards is through this type's accessors, which keep the
/// two in step.
#[verifier::reject_recursive_types(T)]
pub struct ClearOwnedOnDrop<T>
    where T: Copy + Default,
{
    inner: GuardInner<T>,
    slot: Ghost<T>,
}

impl<T> ClearOwnedOnDrop<T> where T: Copy + Default {
    /// The mathematical value currently in the guarded adapter's slot.
    pub closed spec fn value(self) -> T {
        self.slot@
    }

    /// Hand an adapter to the guard, which erases the adapter's single
    /// inline slot when the guard goes out of scope.
    pub fn new(place: Owned<T>) -> (r: ClearOwnedOnDrop<T>)
        ensures
            r.value() == place.value(),
    {
        let ghost v = place.value();
        ClearOwnedOnDrop { inner: guard_new(place), slot: Ghost(v) }
    }

    /// Relies on `clear_on_drop::ClearOnDrop::into_place`: it clears
    /// the target in place, exactly as the guard's destructor would,
    /// and only then releases the place.  The slot of the returned
    /// adapter therefore holds the value written by `T::default()`.
    #[verifier::external_body]
    pub fn into_place(c: ClearOwnedOnDrop<T>) -> (r: Owned<T>)
        ensures
            call_ensures(T::default, (), r.value()),
    {
        clear_on_drop::ClearOnDrop::into_place(c.inner.guard)
    }
}

impl<T> core::ops::Deref for ClearOwnedOnDrop<T> where T: Copy + Default {
    type Target = T;

    /// Relies on `clear_on_drop::ClearOnDrop::deref`: it forwards to
    /// the held place's `deref`, here the adapter's single slot, whose
    /// value this type tracks.
    #[verifier::external_body]
    fn deref(&self) -> (r: &T)
        ensures
            *r == self.value(),
    {
        core::ops::Deref::deref(&self.inner.guard)
    }
}

impl<T> core::ops::DerefMut for ClearOwnedOnDrop<T> where T: Copy + Default {
    /// Relies on `clear_on_drop::ClearOnDrop::deref_mut`: it forwards
    /// to the held place's `deref_mut`, here the adapter's single slot,
    /// whose value this type tracks.
    #[verifier::external_body]
    fn deref_mut(&mut self) -> (r: &mut T)
        ensures
            *r == old(self).value(),
            final(self).value() == *final(r),
    {
        core::ops::DerefMut::deref_mut(&mut self.inner.guard)
    }
}

/// Abbreviation for `ClearOwnedOnDrop::new(Owned::new(_))`: hands an
/// owned value to the scoped secure-clear guard, which erases the
/// value's single inline slot when the guard goes out of scope.
pub fn owned_clear_on_drop<T>(t: T) -> (r: ClearOwnedOnDrop<T>)
    where T: Copy + Default,
    ensures
        r.value() == t,
{
    ClearOwnedOnDrop::new(Owned::new(t))
}

} // verus!
