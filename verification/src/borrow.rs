//! Wrappers over a borrow of a value that stays where it is.

use vstd::prelude::*;
use crate::wrapper::Impl;

verus! {

/// Borrowing any value as an [`Impl`], without moving or cloning it.
///
/// Every type has this, unsized ones included, and none has to ask for it:
/// the one impl below covers them all.
pub trait AsImpl {
    /// A wrapper over a shared borrow of `self`: the wrapper that
    /// `Impl::new(&x)` makes.
    fn as_impl(&self) -> (wrapped: Impl<&Self>)
        ensures
            wrapped@ == self,
            wrapped == Impl::new(self),
    ;

    /// A wrapper over an exclusive borrow of `self`. Its payload starts at
    /// the value of `self`, and what is left behind that payload when the
    /// borrow ends is the value of `self` from then on.
    fn as_impl_mut(&mut self) -> (wrapped: Impl<&mut Self>)
        ensures
            &*wrapped@ == &*old(self),
            &*final(wrapped@) == &*final(self),
    ;
}

impl<T: ?Sized> AsImpl for T {
    fn as_impl(&self) -> (wrapped: Impl<&T>) {
        Impl::new(self)
    }

    fn as_impl_mut(&mut self) -> (wrapped: Impl<&mut T>) {
        Impl::new(self)
    }
}

} // verus!
