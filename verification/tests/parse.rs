use newtype_tools::derive::expand::{
    expansion_plan, impl_forms, kind_items, method, on_other_type, operator, rank,
    standard_derives, trait_path, ImplForm, Operand,
};
use newtype_tools::derive::parse::{
    expected_item_list_message, expected_keyword_message, parse_newtype, parse_newtype_kind,
};
use newtype_tools::derive::parse::Refusal;
use newtype_tools::derive::{DeriveType, NewtypeKind};
use newtype_tools::derive::expand::is_int_type as int_type;
use newtype_tools::derive::parse::parse_newtype_derives as parse_derives;
use newtype_tools::derive::expand::is_int_path;
use newtype_tools::derive::parse::check_keyword;
use newtype_tools::derive::parse::{derive_input_from, fields_inner_type};
use std::str::FromStr;

fn tokens(text: &str) -> proc_macro2::TokenStream {
    proc_macro2::TokenStream::from_str(text).unwrap()
}

fn ty(text: &str) -> syn::Type {
    syn::parse_str::<syn::Type>(text).unwrap()
}

fn kinds(text: &str) -> Vec<DeriveType> {
    let (_, derives) = parse_derives(tokens(text)).unwrap();
    derives.entries.iter().map(|e| e.derive_type).collect()
}

#[test]
fn is_int_type() {
    for name in [
        "i8", "u8", "i16", "u16", "i32", "u32", "i64", "u64", "isize", "usize", "i128", "u128",
    ] {
        assert!(int_type(&ty(name)), "{name}");
    }
    for name in ["bool", "char", "str", "String", "Other", "T", "dyn T", "<T as T>::Output"] {
        assert!(!int_type(&ty(name)), "{name}");
    }
    assert!(!int_type(&ty("std::primitive::u8")));
    assert!(!int_type(&ty("&u8")));
}

#[test]
fn parse_newtype_derives() {
    let result = super_parse(tokens("fn not_a_struct() {}"));
    assert!(result.is_err());
}

fn super_parse(input: proc_macro2::TokenStream) -> Result<(), syn::Error> {
    parse_derives(input).map(|_| ()).map_err(|e| e.error)
}

fn refusal(input: &str) -> Refusal {
    match parse_derives(tokens(input)) {
        Ok(_) => panic!("accepted: {input}"),
        Err(e) => e.refusal,
    }
}

#[test]
fn parse_items_in_order() {
    let found = kinds(
        r#"
        /// Doc comment.
        #[derive(Debug)]
        #[newtype(from(Oranges, with = "|oranges| Apples(oranges.0 as u64 * 2)"))]
        #[newtype(
            add(Oranges, output = "Weight", with = |a, o| Weight(a.0 + o.0 as u64 * 2)),
            try_into(u32, error = std::num::TryFromIntError, with = "|a| u32::try_from(a.0)"),
            partial_eq(Oranges, with = |a, o| a.0 == o.0 as u64 * 2)
        )]
        struct Apples(u64);
        "#,
    );
    assert_eq!(
        found,
        vec![DeriveType::From, DeriveType::Add, DeriveType::TryInto, DeriveType::PartialEq]
    );
}

#[test]
fn parse_second_types() {
    let (newtype, derives) = parse_derives(tokens(
        "#[newtype(sub(O, output = W, with = |a, o| W(a.0)), sub_assign(O, with = |a, o| a.0 -= 1))] struct A(u8);",
    ))
    .unwrap();
    assert_eq!(newtype.newtype.to_string(), "A");
    assert!(int_type(&newtype.inner_ty));
    assert_eq!(derives.entries.len(), 2);
    assert!(derives.entries[0].extra_ty.is_some());
    assert!(derives.entries[1].extra_ty.is_none());
}

#[test]
fn parse_rejects_malformed_attributes() {
    for text in [
        "#[newtype] struct A(u8);",
        "#[newtype = 1] struct A(u8);",
        "#[newtype(from)] struct A(u8);",
        "#[newtype(from = 1)] struct A(u8);",
        "#[newtype(range_iter)] struct A(u8);",
        "#[newtype(range_iter(usize, u8))] struct A(u8);",
        "#[newtype(from(u8))] struct A(u8);",
        "#[newtype(from(u8, wit = |x| A(x)))] struct A(u8);",
        "#[newtype(add(u8, with = |a, b| A(a.0 + b)))] struct A(u8);",
        "#[newtype(try_from(u8, output = E, with = |x| Ok(A(x))))] struct A(u8);",
        "#[newtype(from(u8, with = |x| A(x), extra))] struct A(u8);",
        "#[newtype(a::from(u8, with = |x| A(x)))] struct A(u8);",
        "struct A(u8, u8);",
        "struct A { a: u8 }",
        "struct A;",
        "enum A { B }",
        "union A { a: u8 }",
    ] {
        assert!(super_parse(tokens(text)).is_err(), "{text}");
    }
    assert!(super_parse(tokens("#[other] #[doc = \"x\"] struct A(u8);")).is_ok());
}

#[test]
fn parse_newtype_attribute_item() {
    let newtype = parse_newtype(tokens("struct Apples<T>(T) where T: Into<u64>;")).unwrap();
    assert_eq!(newtype.newtype.to_string(), "Apples");
    assert!(!int_type(&newtype.inner_ty));
    let err = parse_newtype(tokens("struct Apples;")).err().unwrap();
    assert_eq!(err.refusal, Refusal::NotNewtypeStruct);
    let err = parse_newtype(tokens("fn f() {}")).err().unwrap();
    assert_eq!(err.refusal, Refusal::Syntax);
}

#[test]
fn parse_newtype_kinds() {
    assert_eq!(parse_newtype_kind(tokens("Amount")).unwrap(), NewtypeKind::Amount);
    assert_eq!(parse_newtype_kind(tokens("Id")).unwrap(), NewtypeKind::Id);
    assert_eq!(parse_newtype_kind(tokens("\"Id\"")).unwrap(), NewtypeKind::Id);
    assert!(parse_newtype_kind(tokens("Other")).is_err());
    assert!(parse_newtype_kind(tokens("")).is_err());
    assert!(parse_newtype_kind(tokens("Amount, Id")).is_err());
}

#[test]
fn error_messages() {
    assert_eq!(expected_keyword_message("with"), "expected `with`");
    assert_eq!(
        expected_item_list_message(DeriveType::TryFrom),
        "expected `#[newtype(try_from(...))]`"
    );
    let err = super_parse(tokens("#[newtype(mul)] struct A(u8);")).unwrap_err();
    assert_eq!(err.to_string(), "expected `#[newtype(mul(...))]`");
    let err = super_parse(tokens("#[newtype] struct A(u8);")).unwrap_err();
    assert_eq!(err.to_string(), "expected `#[newtype(attr1, attr2)]`");
    let err = super_parse(tokens("enum A {}")).unwrap_err();
    assert_eq!(err.to_string(), "expected `struct Newtype(inner_type)`");
    let err = super_parse(tokens("#[newtype(div(A, with = |a, b| a))] struct A(u8);")).unwrap_err();
    assert_eq!(err.to_string(), "expected `output`");
    let err = parse_newtype_kind(tokens("Other")).err().unwrap();
    assert_eq!(err.refusal, Refusal::UnknownKind);
    assert_eq!(err.error.to_string(), "expected 'Amount' or 'Id'");
    let err = parse_newtype_kind(tokens("1")).err().unwrap();
    assert_eq!(err.refusal, Refusal::ExpectedKind);
    assert_eq!(err.error.to_string(), "expected `#[newtype(NewtypeKind)]`");
}

#[test]
fn expansion_order() {
    let text = "#[newtype(sub_assign(B, with = |a, b| ()), from(B, with = |b| A(0)), sub(B, output = A, with = |a, b| A(0)))]
        #[newtype(from(C, with = |c| A(1)), partial_eq(B, with = |a, b| true), into(B, with = |a| B))]
        struct A(u8);";
    let (_, derives) = parse_derives(tokens(text)).unwrap();
    assert_eq!(expansion_plan(&derives), vec![1, 3, 5, 4, 2, 0]);
    assert!(rank(DeriveType::From) < rank(DeriveType::Add));
    assert!(rank(DeriveType::PartialEq) < rank(DeriveType::Sub));
}

#[test]
fn standard_derive_lists() {
    assert_eq!(
        standard_derives(false),
        vec!["Clone", "Copy", "Debug", "Default", "PartialEq", "PartialOrd"]
    );
    assert_eq!(
        standard_derives(true),
        vec!["Clone", "Copy", "Debug", "Default", "PartialEq", "PartialOrd", "Eq", "Ord", "Hash"]
    );
}

#[test]
fn amount_and_id_items() {
    let amount = kind_items(NewtypeKind::Amount);
    let derive_types: Vec<DeriveType> = amount.iter().map(|i| i.derive_type).collect();
    assert_eq!(
        derive_types,
        vec![
            DeriveType::Add,
            DeriveType::AddAssign,
            DeriveType::Sub,
            DeriveType::SubAssign,
            DeriveType::Mul,
            DeriveType::MulAssign,
            DeriveType::Div
        ]
    );
    assert_eq!(amount[4].rhs, Operand::Inner);
    assert_eq!(amount[6].output, Some(Operand::Inner));
    assert!(kind_items(NewtypeKind::Id).is_empty());
}

#[test]
fn impl_shapes() {
    assert_eq!(impl_forms(DeriveType::BitXor).len(), 4);
    assert_eq!(
        impl_forms(DeriveType::Shl)[0],
        ImplForm { self_by_ref: true, rhs_by_ref: true, calls_expr: true }
    );
    assert_eq!(impl_forms(DeriveType::RemAssign).len(), 2);
    assert_eq!(impl_forms(DeriveType::TryFrom).len(), 1);
    assert_eq!(impl_forms(DeriveType::PartialEq).len(), 1);
    assert_eq!(trait_path(DeriveType::ShrAssign), "core::ops::ShrAssign");
    assert_eq!(trait_path(DeriveType::TryInto), "TryFrom");
    assert_eq!(method(DeriveType::Into), "from");
    assert_eq!(method(DeriveType::BitAndAssign), "bitand_assign");
    assert_eq!(method(DeriveType::PartialEq), "eq");
    assert_eq!(operator(DeriveType::Shr), Some(">>"));
    assert_eq!(operator(DeriveType::MulAssign), Some("*"));
    assert_eq!(operator(DeriveType::From), None);
    assert!(on_other_type(DeriveType::Into));
    assert!(!on_other_type(DeriveType::From));
}

#[test]
fn names_decide() {
    let ident = proc_macro2::Ident::new("with", proc_macro2::Span::call_site());
    assert!(check_keyword(&ident, "with", "with").is_ok());
    assert!(check_keyword(&ident, "wit", "with").is_err());
    assert_eq!(NewtypeKind::try_from_name(&ident, "Amount").unwrap(), NewtypeKind::Amount);
    assert!(NewtypeKind::try_from_name(&ident, "Ident").is_err());
    assert_eq!(DeriveType::try_from_name(Some(&ident), Some("shl")).unwrap(), DeriveType::Shl);
    assert!(DeriveType::try_from_name(Some(&ident), Some("shift")).is_err());
    assert!(DeriveType::try_from_name(None, None).is_err());
    assert!(DeriveType::try_from_ident(None).is_err());
    assert!(is_int_path(false, 1, Some("u16")));
    assert!(!is_int_path(true, 1, Some("u16")));
    assert!(!is_int_path(false, 2, Some("u16")));
    assert!(!is_int_path(false, 1, Some("f32")));
    assert!(!is_int_path(false, 1, None));
}

#[test]
fn refusals() {
    assert_eq!(refusal("#[newtype] struct A(u8);"), Refusal::ExpectedAttrList);
    assert_eq!(refusal("#[newtype = 1] struct A(u8);"), Refusal::ExpectedAttrList);
    assert_eq!(refusal("#[newtype(from)] struct A(u8);"), Refusal::ExpectedItemList(DeriveType::From));
    assert_eq!(
        refusal("#[newtype(shr_assign = 1)] struct A(u8);"),
        Refusal::ExpectedItemList(DeriveType::ShrAssign)
    );
    assert_eq!(
        refusal("#[newtype(range_iter)] struct A(u8);"),
        Refusal::ExpectedItemList(DeriveType::RangeIter)
    );
    assert_eq!(refusal("#[newtype(range_iter(usize, u8))] struct A(u8);"), Refusal::Syntax);
    assert_eq!(refusal("#[newtype(range(usize))] struct A(u8);"), Refusal::UnknownDeriveType);
    assert_eq!(refusal("#[newtype(a::from(u8, with = |x| A(x)))] struct A(u8);"), Refusal::UnknownDeriveType);
    assert_eq!(refusal("#[newtype(from(u8))] struct A(u8);"), Refusal::Syntax);
    assert_eq!(refusal("#[newtype(from(u8, wit = |x| A(x)))] struct A(u8);"), Refusal::Syntax);
    assert_eq!(refusal("#[newtype(from(u8, with = |x| A(x)) extra)] struct A(u8);"), Refusal::Syntax);
    assert_eq!(refusal("enum A { B }"), Refusal::NotNewtypeStruct);
    assert_eq!(refusal("struct A(u8, u16);"), Refusal::NotNewtypeStruct);
    assert_eq!(refusal("fn f() {}"), Refusal::Syntax);
}

#[test]
fn inner_type_decisions() {
    let fields = syn::parse_str::<syn::FieldsUnnamed>("(u8)").unwrap();
    assert!(fields_inner_type(&fields, 1, Some(ty("u8"))).is_ok());
    let err = fields_inner_type(&fields, 2, Some(ty("u8"))).err().unwrap();
    assert_eq!(err.refusal, Refusal::NotNewtypeStruct);
    assert!(fields_inner_type(&fields, 1, None).is_err());
    assert!(derive_input_from(syn::parse_str::<syn::DeriveInput>("struct A(u8);")).is_ok());
    let err = derive_input_from(syn::parse_str::<syn::DeriveInput>("fn f() {}")).err().unwrap();
    assert_eq!(err.refusal, Refusal::Syntax);
}
