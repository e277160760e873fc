use newtype_tools::derive::parse::{
    expect_end, parse_keyword, parse_kind_ident, parse_lit_or_expr, parse_lit_or_ident,
    parse_lit_or_type, parse_newtype_derives, parse_newtype_kind, parse_range_type,
    parse_type_keyword_with, parse_type_with, Refusal, UNKNOWN_DERIVE_TYPE, UNKNOWN_KIND,
};
use newtype_tools::derive::{DeriveType, NewtypeKind};
use quote::ToTokens;
use std::str::FromStr;

fn tokens(text: &str) -> proc_macro2::TokenStream {
    proc_macro2::TokenStream::from_str(text).unwrap()
}

fn text<T: ToTokens>(node: &T) -> String {
    node.to_token_stream().to_string()
}

fn refusal_text(input: &str) -> (Refusal, String) {
    let err = parse_newtype_derives(tokens(input)).err().unwrap();
    (err.refusal, err.error.to_string())
}

#[test]
fn lit_or_bare() {
    let (ty, rest) = parse_lit_or_type(&tokens("\"Vec<u8>\", with")).unwrap();
    let (bare, bare_rest) = parse_lit_or_type(&tokens("Vec<u8>, with")).unwrap();
    assert_eq!(text(&ty), text(&bare));
    assert_eq!(rest.to_string(), bare_rest.to_string());
    let (expr, rest) = parse_lit_or_expr(&tokens("\"|a, b| a + b\"")).unwrap();
    let (bare, _) = parse_lit_or_expr(&tokens("|a, b| a + b")).unwrap();
    assert_eq!(text(&expr), text(&bare));
    assert!(rest.is_empty());
    let (ident, _) = parse_lit_or_ident(&tokens("\"Amount\"")).unwrap();
    assert_eq!(ident.to_string(), "Amount");
    assert!(parse_lit_or_type(&tokens("")).is_err());
    assert!(parse_lit_or_type(&tokens("\"not a type!\"")).is_err());
    assert!(parse_lit_or_expr(&tokens("")).is_err());
}

#[test]
fn keywords_and_end() {
    let rest = parse_keyword(&tokens("with = x"), "with").unwrap();
    assert_eq!(rest.to_string(), "= x");
    assert_eq!(parse_keyword(&tokens("wit = x"), "with").unwrap_err().to_string(), "expected `with`");
    assert_eq!(parse_keyword(&tokens("= x"), "error").unwrap_err().to_string(), "expected `error`");
    assert_eq!(parse_keyword(&tokens(""), "output").unwrap_err().to_string(), "expected `output`");
    assert!(expect_end(&tokens("")).is_ok());
    assert_eq!(expect_end(&tokens(", x")).unwrap_err().to_string(), "unexpected token");
}

#[test]
fn argument_forms() {
    let (ty, expr) = parse_type_with(&tokens("u64, with = |x| A(x)")).unwrap();
    assert_eq!(text(&ty), "u64");
    assert_eq!(text(&expr), "| x | A (x)");
    let (ty, extra, expr) =
        parse_type_keyword_with(&tokens("u8, error = \"MyError\", with = \"|x| Ok(A(x))\""), "error")
            .unwrap();
    assert_eq!(text(&ty), "u8");
    assert_eq!(text(&extra), "MyError");
    assert_eq!(text(&expr), "| x | Ok (A (x))");
    assert!(parse_type_keyword_with(&tokens("u8, output = E, with = |x| x"), "error").is_err());
    assert_eq!(text(&parse_range_type(&tokens("usize")).unwrap()), "usize");
    assert!(parse_range_type(&tokens("usize, u8")).is_err());
    assert_eq!(parse_kind_ident(&tokens("Id")).unwrap().to_string(), "Id");
    assert!(parse_kind_ident(&tokens("Amount, Amount")).is_err());
}

/// Every strict prefix of each argument form is refused.
#[test]
fn missing_type() {
    let full = ["u64", ",", "with", "=", "|x| A(x)"];
    for n in 0..full.len() {
        let prefix = full[..n].join(" ");
        assert!(parse_type_with(&tokens(&prefix)).is_err(), "{prefix}");
    }
    assert!(parse_type_with(&tokens(&full.join(" "))).is_ok());
    for keyword in ["error", "output"] {
        let full = ["u64", ",", keyword, "=", "Error", ",", "with", "=", "|x| A(x)"];
        for n in 0..full.len() {
            let prefix = full[..n].join(" ");
            assert!(parse_type_keyword_with(&tokens(&prefix), keyword).is_err(), "{prefix}");
        }
        assert!(parse_type_keyword_with(&tokens(&full.join(" ")), keyword).is_ok());
    }
}

/// The compile errors read the messages of their refusals.
#[test]
fn refusal_messages() {
    assert_eq!(
        refusal_text("#[newtype(invalid_path(u8, with = |x| A(x)))] struct A(u8);"),
        (Refusal::UnknownDeriveType, UNKNOWN_DERIVE_TYPE.to_string())
    );
    assert_eq!(
        refusal_text("#[newtype(a::from(u8, with = |x| A(x)))] struct A(u8);"),
        (Refusal::UnknownDeriveType, UNKNOWN_DERIVE_TYPE.to_string())
    );
    assert_eq!(
        refusal_text("#[newtype(from)] struct A(u8);"),
        (Refusal::ExpectedItemList(DeriveType::From), "expected `#[newtype(from(...))]`".to_string())
    );
    assert_eq!(
        refusal_text("#[newtype(range_iter = 1)] struct A(u8);"),
        (
            Refusal::ExpectedItemList(DeriveType::RangeIter),
            "expected `#[newtype(range_iter(...))]`".to_string()
        )
    );
    assert_eq!(
        refusal_text("union A { a: u8 }"),
        (Refusal::NotNewtypeStruct, "expected `struct Newtype(inner_type)`".to_string())
    );
    assert_eq!(
        refusal_text("#[newtype = 1] struct A(u8);"),
        (Refusal::ExpectedAttrList, "expected `#[newtype(attr1, attr2)]`".to_string())
    );
    assert_eq!(
        refusal_text("#[newtype(from(u8, with = |x| A(x), extra))] struct A(u8);"),
        (Refusal::Syntax, "unexpected token".to_string())
    );
    let err = parse_newtype_kind(tokens("InvalidKind")).err().unwrap();
    assert_eq!((err.refusal, err.error.to_string()), (Refusal::UnknownKind, UNKNOWN_KIND.to_string()));
    for attr in ["", "Amount, Amount", "1"] {
        let err = parse_newtype_kind(tokens(attr)).err().unwrap();
        assert_eq!(err.refusal, Refusal::ExpectedKind, "{attr}");
        assert_eq!(err.error.to_string(), "expected `#[newtype(NewtypeKind)]`");
    }
    assert_eq!(parse_newtype_kind(tokens("\"Amount\"")).unwrap(), NewtypeKind::Amount);
    assert_eq!(parse_newtype_kind(tokens("Id")).unwrap(), NewtypeKind::Id);
}
