//! A nominal wrapper to hang the one real implementation of a trait on.
//!
//! Take a trait that stands for some real work, with one real implementation
//! and any number of fakes. The real one is best written generically, for a
//! receiver that may only be defined downstream; but a blanket impl for
//! every `T` would overlap with each fake. [`Impl`] is the concrete type
//! that takes the real implementation instead, while staying generic in
//! what it wraps: `impl<T> Scrape for Impl<T>` is the real thing, and any
//! other type is free to fake it.
//!
//! What the real implementation needs from its receiver it asks of the
//! wrapper, as a bound such as `Impl<T>: GetLimit`, and whoever owns the
//! configuration type gives `Impl<Config>` that capability.
//!
//! A wrapper owns its payload, which may itself be a reference. [`AsImpl`]
//! borrows any value as a wrapper in place.
//!
//! To the verifier a wrapper is exactly its payload: the view of an
//! `Impl<T>` is the `T` inside, every contract in this crate is stated over
//! that view, and the lemmas in [`wrapper`] and [`order`] say that nothing
//! else can be observed of it.

pub mod borrow;
pub mod order;
pub mod wrapper;

pub use borrow::AsImpl;
pub use wrapper::Impl;
