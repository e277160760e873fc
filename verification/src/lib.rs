//! Ergonomic utilities for the Rust newtype idiom: conversions between newtypes
//! and their inner types, operations on newtype values, and iteration over
//! ranges of newtypes.
use vstd::prelude::*;

pub mod derive;
pub mod int_steps;
pub mod iter;
pub mod step;

pub use iter::Iterator;

verus! {

/// `Newtype` trait defines the internal representation of the `newtype`.
///
/// A newtype is a tuple struct with a single field, the inner value: it can be
/// built from its inner value and gives a reference to it back.
pub trait Newtype: Sized + From<Self::Inner> {
    /// The inner type.
    type Inner;

    /// The inner value of a newtype.
    spec fn inner(&self) -> &Self::Inner;

    /// Wraps an inner value into the newtype.
    fn from_inner(inner: Self::Inner) -> (r: Self)
        ensures
            *r.inner() == inner,
    ;

    /// A reference to the inner value.
    fn as_inner(&self) -> (r: &Self::Inner)
        ensures
            r == self.inner(),
    ;
}

} // verus!
