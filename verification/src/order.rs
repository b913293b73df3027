//! Ordering of wrappers, which is the ordering of their payloads.

use core::cmp::Ordering;
use crate::wrapper::Impl;
use vstd::prelude::*;
use vstd::std_specs::cmp::PartialOrdSpec;

verus! {

impl<T: PartialOrd> PartialOrd for Impl<T> {
    /// Compares the payloads: the answer is one that the payload type's own
    /// comparison gives for them.
    fn partial_cmp(&self, other: &Impl<T>) -> (order: Option<Ordering>)
        ensures
            call_ensures(T::partial_cmp, (&self@, &other@), order),
    {
        self.as_ref().partial_cmp(other.as_ref())
    }
}

impl<T: PartialOrd> vstd::std_specs::cmp::PartialOrdSpecImpl for Impl<T> {
    open spec fn obeys_partial_cmp_spec() -> bool {
        T::obeys_partial_cmp_spec()
    }

    open spec fn partial_cmp_spec(&self, other: &Impl<T>) -> Option<Ordering> {
        self@.partial_cmp_spec(&other@)
    }
}

/// Wrappers are ordered as their payloads are.
pub proof fn lemma_order_delegates<T: PartialOrd>(a: Impl<T>, b: Impl<T>)
    ensures
        Impl::<T>::obeys_partial_cmp_spec() == T::obeys_partial_cmp_spec(),
        a.partial_cmp_spec(&b) == a@.partial_cmp_spec(&b@),
{
}

} // verus!
