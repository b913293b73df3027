//! The wrapper type, its construction and its transparent access to the
//! payload.

use vstd::prelude::*;
use vstd::std_specs::cmp::PartialEqSpec;
use vstd::std_specs::convert::FromSpec;

verus! {

/// Wrapper type for targeting and accessing the actual implementation of a
/// trait.
///
/// It holds exactly one value, the payload, and adds nothing to it: its view
/// is the payload itself, and two wrappers are the same value exactly when
/// their payloads are. The payload may be owned, or itself a reference.
#[derive(Copy, Debug, Eq, Ord, Hash)]
pub struct Impl<T>(T);

impl<T> View for Impl<T> {
    type V = T;

    /// The payload.
    closed spec fn view(&self) -> T {
        self.0
    }
}

impl<T> Impl<T> {
    /// The wrapper whose payload is `value`.
    pub closed spec fn spec_new(value: T) -> Impl<T> {
        Impl(value)
    }

    /// Wraps `value`.
    #[verifier::when_used_as_spec(spec_new)]
    pub fn new(value: T) -> (wrapped: Impl<T>)
        ensures
            wrapped == Impl::spec_new(value),
            wrapped@ == value,
    {
        Impl(value)
    }

    /// Gives the payload back.
    pub fn into_inner(self) -> (value: T)
        ensures
            value == self@,
    {
        self.0
    }
}

impl<T> vstd::std_specs::convert::FromSpecImpl<T> for Impl<T> {
    open spec fn obeys_from_spec() -> bool {
        true
    }

    open spec fn from_spec(value: T) -> Impl<T> {
        Impl::spec_new(value)
    }
}

impl<T> From<T> for Impl<T> {
    /// Wraps `value`, as [`Impl::new`] does.
    fn from(value: T) -> (wrapped: Impl<T>)
        ensures
            wrapped == Impl::spec_new(value),
            wrapped@ == value,
    {
        Impl(value)
    }
}

impl<T> AsRef<T> for Impl<T> {
    /// A plain reference to the payload.
    fn as_ref(&self) -> (payload: &T)
        ensures
            *payload == self@,
    {
        &self.0
    }
}

impl<T> core::ops::Deref for Impl<T> {
    type Target = T;

    /// Reads through the wrapper.
    fn deref(&self) -> (payload: &T)
        ensures
            *payload == self@,
    {
        &self.0
    }
}

impl<T> core::ops::DerefMut for Impl<T> {
    /// Writes through the wrapper. The reference starts at the payload, and
    /// what the caller leaves behind it is the wrapper's payload from then
    /// on.
    fn deref_mut(&mut self) -> (payload: &mut T)
        ensures
            *payload == old(self)@,
            final(self)@ == *final(payload),
    {
        &mut self.0
    }
}

impl<T: Clone> Clone for Impl<T> {
    /// Clones the payload and wraps the clone.
    fn clone(&self) -> (copy: Impl<T>)
        ensures
            cloned::<T>(self@, copy@),
    {
        Impl(self.0.clone())
    }
}

impl<T: Default> Default for Impl<T> {
    /// Wraps the default value of the payload type.
    fn default() -> (wrapped: Impl<T>)
        ensures
            call_ensures(T::default, (), wrapped@),
    {
        Impl(T::default())
    }
}

impl<T: PartialEq> PartialEq for Impl<T> {
    /// Compares the payloads: the answer is one that the payload type's own
    /// `==` gives for them.
    fn eq(&self, other: &Impl<T>) -> (same: bool)
        ensures
            call_ensures(T::eq, (&self@, &other@), same),
    {
        self.0 == other.0
    }
}

impl<T: PartialEq> vstd::std_specs::cmp::PartialEqSpecImpl for Impl<T> {
    open spec fn obeys_eq_spec() -> bool {
        T::obeys_eq_spec()
    }

    open spec fn eq_spec(&self, other: &Impl<T>) -> bool {
        self@.eq_spec(&other@)
    }
}

/// A wrapper has no identity beyond its payload: two wrappers are the same
/// value exactly when their payloads are.
pub proof fn lemma_same_payload_same_wrapper<T>(a: Impl<T>, b: Impl<T>)
    ensures
        a == b <==> a@ == b@,
{
}

/// Taking the payload out of a fresh wrapper gives back the value that went
/// in, and wrapping a payload again gives back the wrapper it came from.
pub proof fn lemma_new_then_view<T>(value: T, wrapped: Impl<T>)
    ensures
        Impl::new(value)@ == value,
        Impl::new(wrapped@) == wrapped,
{
}

/// Converting a value into a wrapper and constructing a wrapper from it give
/// the same wrapper.
pub proof fn lemma_from_is_new<T>(value: T)
    ensures
        <Impl<T> as FromSpec<T>>::obeys_from_spec(),
        Impl::<T>::from_spec(value) == Impl::new(value),
{
}

/// Two wrappers over one value are the same wrapper, and `==` says of them
/// what it says of the value and itself: `true` wherever the payload's
/// equality is reflexive.
pub proof fn lemma_eq_reflexive<T: PartialEq>(value: T)
    ensures
        Impl::new(value) == Impl::new(value),
        Impl::new(value).eq_spec(&Impl::new(value)) == value.eq_spec(&value),
{
}

/// `==` on wrappers is `==` on their payloads.
pub proof fn lemma_eq_delegates<T: PartialEq>(a: Impl<T>, b: Impl<T>)
    ensures
        Impl::<T>::obeys_eq_spec() == T::obeys_eq_spec(),
        a.eq_spec(&b) == a@.eq_spec(&b@),
{
}

/// Where every clone of the payload equals the payload, every clone of the
/// wrapper equals the wrapper.
pub proof fn lemma_clone_equal<T: Clone>(source: Impl<T>, copy: Impl<T>)
    requires
        cloned::<Impl<T>>(source, copy),
        forall|c: T| cloned::<T>(source@, c) ==> c == source@,
    ensures
        copy == source,
{
}

/// Once a wrapper is no longer used, neither is its payload: when a wrapper
/// over an exclusive borrow is dropped, the borrowed value is what was last
/// written through the wrapper.
pub proof fn lemma_resolved<T>(wrapped: Impl<T>)
    ensures
        has_resolved(wrapped) ==> has_resolved(wrapped@),
{
}

} // verus!
