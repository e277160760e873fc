use newtype_tools::derive::expand::{expansion_plan, impl_forms, method, trait_path, ImplForm};
use newtype_tools::derive::parse::parse_newtype_derives;
use newtype_tools::derive::DeriveType;
use newtype_tools::Newtype;
use quote::ToTokens;
use std::str::FromStr;

fn text<T: ToTokens>(node: &T) -> String {
    node.to_token_stream().to_string()
}

#[derive(Clone, Debug, PartialEq)]
struct Apples(u64);

impl From<u64> for Apples {
    fn from(inner: u64) -> Self {
        Apples(inner)
    }
}

impl Newtype for Apples {
    type Inner = u64;
    fn inner(&self) -> &u64 {
        &self.0
    }
    fn from_inner(inner: u64) -> Self {
        Apples(inner)
    }
    fn as_inner(&self) -> &u64 {
        &self.0
    }
}

#[derive(Clone, Debug, PartialEq)]
struct Oranges(u32);

impl From<u32> for Oranges {
    fn from(inner: u32) -> Self {
        Oranges(inner)
    }
}

impl Newtype for Oranges {
    type Inner = u32;
    fn inner(&self) -> &u32 {
        &self.0
    }
    fn from_inner(inner: u32) -> Self {
        Oranges(inner)
    }
    fn as_inner(&self) -> &u32 {
        &self.0
    }
}

/// The derive reads `range_iter(type)`, and the ranges of the test iterate as
/// it expects.
#[test]
fn derive_range_iter() {
    let input = proc_macro2::TokenStream::from_str(
        "#[derive(Debug, Newtype, PartialEq)] \
         #[newtype(from(usize, with = |u| Apples(u as u64)))] \
         #[newtype(range_iter(usize))] \
         struct Apples(u64);",
    )
    .unwrap();
    let (newtype, derives) = parse_newtype_derives(input).unwrap();
    assert_eq!(newtype.newtype.to_string(), "Apples");
    assert_eq!(derives.entries.len(), 2);
    let entry = &derives.entries[1];
    assert_eq!(entry.derive_type, DeriveType::RangeIter);
    assert_eq!(text(&entry.ty), "usize");
    assert!(entry.extra_ty.is_none());
    assert!(entry.expr.is_none());
    assert!(derives.entries[0].expr.is_some());
    assert_eq!(expansion_plan(&derives), vec![0, 1]);
    assert_eq!(method(DeriveType::RangeIter), "range_iter");
    assert_eq!(trait_path(DeriveType::RangeIter), "newtype_tools::Iterator");
    assert_eq!(
        impl_forms(DeriveType::RangeIter),
        vec![ImplForm { self_by_ref: false, rhs_by_ref: false, calls_expr: false }]
    );

    let mut range_iter = newtype_tools::Iterator::from(&(Apples(1)..Apples(3)));
    assert_eq!(range_iter.len(), 2);
    assert_eq!(range_iter.next(), Some(Apples(1)));
    assert_eq!(range_iter.next(), Some(Apples(2)));
    assert_eq!(range_iter.next(), None);

    let input = proc_macro2::TokenStream::from_str(
        "#[newtype(from(u16, with = |u| Oranges(u as u32)))] \
         #[newtype(range_iter(\"u16\"))] \
         struct Oranges(u32);",
    )
    .unwrap();
    let (_, derives) = parse_newtype_derives(input).unwrap();
    assert_eq!(text(&derives.entries[1].ty), "u16");
    let mut range_iter = newtype_tools::Iterator::from(&(Oranges(2)..=Oranges(3)));
    assert_eq!(range_iter.len(), 2);
    assert_eq!(range_iter.next(), Some(Oranges(2)));
    assert_eq!(range_iter.next(), Some(Oranges(3)));
    assert_eq!(range_iter.next(), None);
}

/// Each item keeps the types and the expression it was written with, in place.
#[test]
fn items_keep_what_was_written() {
    let input = proc_macro2::TokenStream::from_str(
        "#[newtype(try_from(u8, error = MyError, with = |x| Ok(A(x))), \
         add(\"u16\", output = u32, with = \"|a, b| a.0 as u32 + b as u32\"))] \
         #[doc = \"skipped\"] \
         #[newtype(partial_eq(u64, with = |a, b| a.0 as u64 == *b))] \
         struct A(u8);",
    )
    .unwrap();
    let (newtype, derives) = parse_newtype_derives(input).unwrap();
    assert_eq!(text(&newtype.inner_ty), "u8");
    let entries = &derives.entries;
    assert_eq!(entries.len(), 3);
    assert_eq!(entries[0].derive_type, DeriveType::TryFrom);
    assert_eq!(text(&entries[0].ty), "u8");
    assert_eq!(text(entries[0].extra_ty.as_ref().unwrap()), "MyError");
    assert_eq!(text(entries[0].expr.as_ref().unwrap()), "| x | Ok (A (x))");
    assert_eq!(entries[1].derive_type, DeriveType::Add);
    assert_eq!(text(&entries[1].ty), "u16");
    assert_eq!(text(entries[1].extra_ty.as_ref().unwrap()), "u32");
    assert_eq!(entries[2].derive_type, DeriveType::PartialEq);
    assert_eq!(text(&entries[2].ty), "u64");
    assert!(entries[2].extra_ty.is_none());
}

/// A keyword with no identifier in its place is asked for by name.
#[test]
fn keyword_asked_for_by_name() {
    for (input, message) in [
        ("#[newtype(from(u64, = |x| A(x)))] struct A(u8);", "expected `with`"),
        ("#[newtype(try_from(u64, = E, with = |x| Ok(A(x))))] struct A(u8);", "expected `error`"),
        ("#[newtype(rem(u64, output = u8, = |a, b| a.0))] struct A(u8);", "expected `with`"),
    ] {
        let err = parse_newtype_derives(proc_macro2::TokenStream::from_str(input).unwrap())
            .err()
            .unwrap();
        assert_eq!(err.error.to_string(), message, "{input}");
    }
}
