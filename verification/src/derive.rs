//! The logic of the `newtype` attribute and of the `Newtype` derive: reading
//! the attributes and planning the code they expand to.
use vstd::prelude::*;

pub mod derive_type;
pub mod expand;
pub mod kind;
pub mod parse;
pub mod syntax;

pub use derive_type::DeriveType;
pub use kind::NewtypeKind;

verus! {

/// Structured representation of a `newtype`: the tuple struct that an
/// attribute or a derive stands on.
pub struct Newtype {
    /// Top-level newtype identifier.
    pub newtype: proc_macro2::Ident,
    /// Inner type field type.
    pub inner_ty: syn::Type,
    /// Newtype generics.
    pub generics: syn::Generics,
}

impl Newtype {
    /// Creates a new `Newtype` instance.
    pub fn new(newtype: proc_macro2::Ident, inner_ty: syn::Type, generics: syn::Generics) -> (r: Self)
        ensures
            r.newtype == newtype,
            r.inner_ty == inner_ty,
            r.generics == generics,
    {
        Newtype { newtype, inner_ty, generics }
    }
}

/// One `#[newtype(item(type, ..., with = expr))]` or `#[newtype(range_iter(type))]`
/// of the `Newtype` derive.
pub struct DeriveEntry {
    /// The item: a conversion, an operator or a comparison.
    pub derive_type: DeriveType,
    /// The type the item converts from or to, or the right-hand side type.
    pub ty: syn::Type,
    /// The error type of a fallible conversion, or the output type of a binary
    /// operator.
    pub extra_ty: Option<syn::Type>,
    /// The expression that computes the item; none for a range iterator.
    pub expr: Option<syn::Expr>,
}

/// Structured representation of all `Newtype` derives: the items in the order
/// in which the attributes name them.
pub struct NewtypeDerives {
    pub entries: Vec<DeriveEntry>,
}

impl NewtypeDerives {
    /// No items yet.
    pub fn new() -> (r: Self)
        ensures
            r.entries@ == Seq::<DeriveEntry>::empty(),
    {
        NewtypeDerives { entries: Vec::new() }
    }
}

} // verus!
