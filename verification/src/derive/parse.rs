//! Reading the `newtype` attribute and the attributes of the `Newtype` derive.
//!
//! The grammar of the derive's attributes:
//!
//! ```text
//! #[newtype(item(type, with = expr), item(type, keyword = type, with = expr), range_iter(type), ...)]
//! ```
//!
//! where each `type` and `expr` may also be written inside a string literal,
//! and `keyword` is `error` for `try_from` and `try_into`, `output` for the
//! binary operators; the other items take no second type, and `range_iter`
//! takes only the type its range is stepped through.
//!
//! Syntax trees come from `syn`, and what its calls give is named, not
//! restated: the contracts say how the results of those calls decide what is
//! read.
use crate::derive::derive_type::derive_type_from_name;
use crate::derive::kind::{newtype_kind_from_name, str_eq};
use crate::derive::syntax::{
    attribute_is_named, attribute_meta, comma_prefix, data_shape, eq_prefix, error_at,
    error_spanned, expr_prefix, first_unnamed_type, ident_prefix, ident_text, lit_str_expr,
    lit_str_ident, lit_str_prefix, lit_str_type, meta_ident, meta_list_tokens, meta_shape,
    parse_derive_input, parse_meta_args, spec_comma_prefix, spec_eq_prefix, spec_error_text,
    spec_expr_prefix, spec_ident_prefix, spec_is_empty, spec_lit_str_expr, spec_lit_str_ident,
    spec_lit_str_prefix, spec_lit_str_type, spec_meta_list_tokens, spec_type_prefix,
    tokens_is_empty, type_prefix, spec_attribute_is_named, spec_attribute_meta, spec_data_form,
    spec_derive_input_parts, spec_first_unnamed_type, spec_ident_text, spec_meta_args,
    spec_meta_form, spec_meta_ident, spec_parse_derive_input, spec_unnamed_len,
    split_derive_input, token_stream_span, unnamed_len, DataForm, DataShape,
    MetaForm, MetaShape,
};
use crate::derive::{DeriveEntry, DeriveType, Newtype, NewtypeDerives, NewtypeKind};
use vstd::prelude::*;

verus! {

/// Newtype attribute name.
pub const NEWTYPE_ATTR_NAME: &'static str = "newtype";

/// What a derive input that is not a tuple struct with one field is told.
pub const EXPECTED_NEWTYPE_STRUCT: &'static str = "expected `struct Newtype(inner_type)`";

/// What a `#[newtype]` or `#[newtype = value]` attribute of the derive is told.
pub const EXPECTED_ATTR_LIST: &'static str = "expected `#[newtype(attr1, attr2)]`";

/// What an item of the derive whose name is missing or selects no derive type
/// is told.
pub const UNKNOWN_DERIVE_TYPE: &'static str = "expected `(try_)from`, `(try_)into`, `add(_assign)`, `bitand(_assign)`, `bitor(_assign)`, `bitxor(_assign)`, `div(_assign)`, `mul(_assign)`, `rem(_assign)`, `shl(_assign)`, `shr(_assign)`, `partial_eq`, or `sub(_assign)`";

/// What a `newtype` attribute whose argument names no kind is told.
pub const UNKNOWN_KIND: &'static str = "expected 'Amount' or 'Id'";

/// What a `#[newtype(...)]` attribute whose argument is not a kind is told.
pub const EXPECTED_NEWTYPE_KIND: &'static str = "expected `#[newtype(NewtypeKind)]`";

/// `"expected `" + keyword + "`"`: what a missing keyword is told.
pub fn expected_keyword_message(keyword: &str) -> (r: String)
    ensures
        r@ == "expected `"@ + keyword@ + "`"@,
{
    let mut message = "expected `".to_owned();
    message.append(keyword);
    message.append("`");
    message
}

/// `"expected `#[newtype(" + name + "(...))]`"`: what an item written without
/// its arguments is told.
pub fn expected_item_list_message(derive_type: DeriveType) -> (r: String)
    ensures
        r@ == "expected `#[newtype("@ + derive_type.spec_name() + "(...))]`"@,
{
    let mut message = "expected `#[newtype(".to_owned();
    message.append(derive_type.name());
    message.append("(...))]`");
    message
}

/// What is told of tokens left over after the arguments.
pub const UNEXPECTED_TOKEN: &'static str = "unexpected token";

/// A type at the front of the tokens, written bare or as the text of a string
/// literal, and the tokens after it; none when neither form is there. A string
/// literal at the front is read as the type, and is not read again bare.
pub open spec fn spec_lit_or_type(tokens: proc_macro2::TokenStream) -> Option<
    (syn::Type, proc_macro2::TokenStream),
> {
    match spec_lit_str_prefix(tokens) {
        Ok((lit, rest)) => match spec_lit_str_type(lit) {
            Ok(ty) => Some((ty, rest)),
            Err(_) => None,
        },
        Err(_) => match spec_type_prefix(tokens) {
            Ok(found) => Some(found),
            Err(_) => None,
        },
    }
}

/// An expression at the front of the tokens, written bare or as the text of a
/// string literal, and the tokens after it.
pub open spec fn spec_lit_or_expr(tokens: proc_macro2::TokenStream) -> Option<
    (syn::Expr, proc_macro2::TokenStream),
> {
    match spec_lit_str_prefix(tokens) {
        Ok((lit, rest)) => match spec_lit_str_expr(lit) {
            Ok(expr) => Some((expr, rest)),
            Err(_) => None,
        },
        Err(_) => match spec_expr_prefix(tokens) {
            Ok(found) => Some(found),
            Err(_) => None,
        },
    }
}

/// An identifier at the front of the tokens, written bare or as the text of a
/// string literal, and the tokens after it.
pub open spec fn spec_lit_or_ident(tokens: proc_macro2::TokenStream) -> Option<
    (proc_macro2::Ident, proc_macro2::TokenStream),
> {
    match spec_lit_str_prefix(tokens) {
        Ok((lit, rest)) => match spec_lit_str_ident(lit) {
            Ok(ident) => Some((ident, rest)),
            Err(_) => None,
        },
        Err(_) => match spec_ident_prefix(tokens) {
            Ok(found) => Some(found),
            Err(_) => None,
        },
    }
}

/// The tokens after the identifier `keyword` at the front of the tokens; none
/// when another identifier or no identifier is there.
pub open spec fn spec_keyword_rest(tokens: proc_macro2::TokenStream, keyword: Seq<char>) -> Option<
    proc_macro2::TokenStream,
> {
    match spec_ident_prefix(tokens) {
        Ok((ident, rest)) => if spec_ident_text(ident) == keyword {
            Some(rest)
        } else {
            None
        },
        Err(_) => None,
    }
}

/// The tokens after a `,` at the front of the tokens.
pub open spec fn spec_comma_rest(tokens: proc_macro2::TokenStream) -> Option<proc_macro2::TokenStream> {
    match spec_comma_prefix(tokens) {
        Ok(rest) => Some(rest),
        Err(_) => None,
    }
}

/// The tokens after a `=` at the front of the tokens.
pub open spec fn spec_eq_rest(tokens: proc_macro2::TokenStream) -> Option<proc_macro2::TokenStream> {
    match spec_eq_prefix(tokens) {
        Ok(rest) => Some(rest),
        Err(_) => None,
    }
}

/// The arguments `type, with = expr`, all of the tokens: the type and the
/// expression.
pub open spec fn spec_type_with(tokens: proc_macro2::TokenStream) -> Option<(syn::Type, syn::Expr)> {
    match spec_lit_or_type(tokens) {
        Some((ty, after_ty)) => match spec_comma_rest(after_ty) {
            Some(after_comma) => match spec_keyword_rest(after_comma, "with"@) {
                Some(after_with) => match spec_eq_rest(after_with) {
                    Some(after_eq) => match spec_lit_or_expr(after_eq) {
                        Some((expr, rest)) => if spec_is_empty(rest) {
                            Some((ty, expr))
                        } else {
                            None
                        },
                        None => None,
                    },
                    None => None,
                },
                None => None,
            },
            None => None,
        },
        None => None,
    }
}

/// The tokens of `type, with = expr` run out before the expression: right at
/// the start, or after the type, the `,`, the `with` or the `=`.
pub open spec fn type_with_ends_early(tokens: proc_macro2::TokenStream) -> bool {
    ||| spec_is_empty(tokens)
    ||| spec_lit_or_type(tokens) matches Some((ty, after_ty)) && {
        ||| spec_is_empty(after_ty)
        ||| spec_comma_rest(after_ty) matches Some(after_comma) && {
            ||| spec_is_empty(after_comma)
            ||| spec_keyword_rest(after_comma, "with"@) matches Some(after_with) && {
                ||| spec_is_empty(after_with)
                ||| spec_eq_rest(after_with) matches Some(after_eq) && spec_is_empty(after_eq)
            }
        }
    }
}

/// The tokens of `type, keyword = type, with = expr` run out before the
/// expression: right at the start, after the type, the `,`, the keyword or the
/// `=`, or inside `type, with = expr` that follows.
pub open spec fn type_keyword_with_ends_early(tokens: proc_macro2::TokenStream, keyword: Seq<char>) -> bool {
    ||| spec_is_empty(tokens)
    ||| spec_lit_or_type(tokens) matches Some((ty, after_ty)) && {
        ||| spec_is_empty(after_ty)
        ||| spec_comma_rest(after_ty) matches Some(after_comma) && {
            ||| spec_is_empty(after_comma)
            ||| spec_keyword_rest(after_comma, keyword) matches Some(after_keyword) && {
                ||| spec_is_empty(after_keyword)
                ||| spec_eq_rest(after_keyword) matches Some(after_eq) && type_with_ends_early(
                    after_eq,
                )
            }
        }
    }
}

/// The arguments `type, keyword = type, with = expr`, all of the tokens: the
/// two types and the expression.
pub open spec fn spec_type_keyword_with(tokens: proc_macro2::TokenStream, keyword: Seq<char>) -> Option<
    (syn::Type, syn::Type, syn::Expr),
> {
    match spec_lit_or_type(tokens) {
        Some((ty, after_ty)) => match spec_comma_rest(after_ty) {
            Some(after_comma) => match spec_keyword_rest(after_comma, keyword) {
                Some(after_keyword) => match spec_eq_rest(after_keyword) {
                    Some(after_eq) => match spec_type_with(after_eq) {
                        Some((extra_ty, expr)) => Some((ty, extra_ty, expr)),
                        None => None,
                    },
                    None => None,
                },
                None => None,
            },
            None => None,
        },
        None => None,
    }
}

/// The argument `type`, all of the tokens.
pub open spec fn spec_range_type(tokens: proc_macro2::TokenStream) -> Option<syn::Type> {
    match spec_lit_or_type(tokens) {
        Some((ty, rest)) => if spec_is_empty(rest) {
            Some(ty)
        } else {
            None
        },
        None => None,
    }
}

/// The argument of the `newtype` attribute: one identifier, bare or as the
/// text of a string literal, and nothing after it.
pub open spec fn spec_kind_ident(tokens: proc_macro2::TokenStream) -> Option<proc_macro2::Ident> {
    match spec_lit_or_ident(tokens) {
        Some((ident, rest)) => if spec_is_empty(rest) {
            Some(ident)
        } else {
            None
        },
        None => None,
    }
}

/// Reads a type, written bare or as the text of a string literal, at the
/// front of the tokens: `with = "|x| x.into()"` as well as
/// `with = |x| x.into()`.
pub fn parse_lit_or_type(tokens: &proc_macro2::TokenStream) -> (r: Result<
    (syn::Type, proc_macro2::TokenStream),
    syn::Error,
>)
    ensures
        r is Ok <==> spec_lit_or_type(*tokens) is Some,
        r matches Ok(found) ==> spec_lit_or_type(*tokens) == Some(found),
        spec_is_empty(*tokens) ==> r is Err,
{
    match lit_str_prefix(tokens) {
        Ok((lit, rest)) => match lit_str_type(&lit) {
            Ok(ty) => Ok((ty, rest)),
            Err(error) => Err(error),
        },
        Err(_) => type_prefix(tokens),
    }
}

/// Reads an expression, written bare or as the text of a string literal, at
/// the front of the tokens.
pub fn parse_lit_or_expr(tokens: &proc_macro2::TokenStream) -> (r: Result<
    (syn::Expr, proc_macro2::TokenStream),
    syn::Error,
>)
    ensures
        r is Ok <==> spec_lit_or_expr(*tokens) is Some,
        r matches Ok(found) ==> spec_lit_or_expr(*tokens) == Some(found),
        spec_is_empty(*tokens) ==> r is Err,
{
    match lit_str_prefix(tokens) {
        Ok((lit, rest)) => match lit_str_expr(&lit) {
            Ok(expr) => Ok((expr, rest)),
            Err(error) => Err(error),
        },
        Err(_) => expr_prefix(tokens),
    }
}

/// Reads an identifier, written bare or as the text of a string literal, at
/// the front of the tokens.
pub fn parse_lit_or_ident(tokens: &proc_macro2::TokenStream) -> (r: Result<
    (proc_macro2::Ident, proc_macro2::TokenStream),
    syn::Error,
>)
    ensures
        r is Ok <==> spec_lit_or_ident(*tokens) is Some,
        r matches Ok(found) ==> spec_lit_or_ident(*tokens) == Some(found),
        spec_is_empty(*tokens) ==> r is Err,
{
    match lit_str_prefix(tokens) {
        Ok((lit, rest)) => match lit_str_ident(&lit) {
            Ok(ident) => Ok((ident, rest)),
            Err(error) => Err(error),
        },
        Err(_) => ident_prefix(tokens),
    }
}

/// Accepts an identifier with the text `text` where the identifier `keyword`
/// is expected.
pub fn check_keyword(ident: &proc_macro2::Ident, text: &str, keyword: &str) -> (r: Result<
    (),
    syn::Error,
>)
    ensures
        r is Ok <==> text@ == keyword@,
        r matches Err(e) ==> spec_error_text(e) == "expected `"@ + keyword@ + "`"@,
{
    if str_eq(text, keyword) {
        Ok(())
    } else {
        Err(error_spanned(ident, expected_keyword_message(keyword).as_str()))
    }
}

/// Reads the identifier `keyword` at the front of the tokens, and gives the
/// tokens after it; when another identifier or none is there, the error names
/// the keyword.
pub fn parse_keyword(tokens: &proc_macro2::TokenStream, keyword: &str) -> (r: Result<
    proc_macro2::TokenStream,
    syn::Error,
>)
    ensures
        r is Ok <==> spec_keyword_rest(*tokens, keyword@) is Some,
        r matches Ok(rest) ==> spec_keyword_rest(*tokens, keyword@) == Some(rest),
        spec_is_empty(*tokens) ==> r is Err,
        r matches Err(e) ==> spec_error_text(e) == "expected `"@ + keyword@ + "`"@,
{
    match ident_prefix(tokens) {
        Ok((ident, rest)) => match check_keyword(&ident, ident_text(&ident).as_str(), keyword) {
            Ok(()) => Ok(rest),
            Err(error) => Err(error),
        },
        Err(_) => Err(error_spanned(tokens, expected_keyword_message(keyword).as_str())),
    }
}

/// Reads a `,` at the front of the tokens, and gives the tokens after it.
fn parse_comma(tokens: &proc_macro2::TokenStream) -> (r: Result<proc_macro2::TokenStream, syn::Error>)
    ensures
        r is Ok <==> spec_comma_rest(*tokens) is Some,
        r matches Ok(rest) ==> spec_comma_rest(*tokens) == Some(rest),
        spec_is_empty(*tokens) ==> r is Err,
{
    comma_prefix(tokens)
}

/// Reads a `=` at the front of the tokens, and gives the tokens after it.
fn parse_eq(tokens: &proc_macro2::TokenStream) -> (r: Result<proc_macro2::TokenStream, syn::Error>)
    ensures
        r is Ok <==> spec_eq_rest(*tokens) is Some,
        r matches Ok(rest) ==> spec_eq_rest(*tokens) == Some(rest),
        spec_is_empty(*tokens) ==> r is Err,
{
    eq_prefix(tokens)
}

/// Accepts the end of the arguments: no token may be left.
pub fn expect_end(rest: &proc_macro2::TokenStream) -> (r: Result<(), syn::Error>)
    ensures
        r is Ok <==> spec_is_empty(*rest),
        r matches Err(e) ==> spec_error_text(e) == UNEXPECTED_TOKEN@,
{
    if tokens_is_empty(rest) {
        Ok(())
    } else {
        Err(error_spanned(rest, UNEXPECTED_TOKEN))
    }
}

/// Parses the arguments `type, with = expr` of `from`, `into`, the assignment
/// operators and `partial_eq`: all of the tokens.
pub fn parse_type_with(tokens: &proc_macro2::TokenStream) -> (r: Result<(syn::Type, syn::Expr), syn::Error>)
    ensures
        r is Ok <==> spec_type_with(*tokens) is Some,
        r matches Ok(found) ==> spec_type_with(*tokens) == Some(found),
        type_with_ends_early(*tokens) ==> r is Err,
{
    let (ty, after_ty) = match parse_lit_or_type(tokens) {
        Ok(found) => found,
        Err(error) => return Err(error),
    };
    let after_comma = match parse_comma(&after_ty) {
        Ok(rest) => rest,
        Err(error) => return Err(error),
    };
    let after_with = match parse_keyword(&after_comma, "with") {
        Ok(rest) => rest,
        Err(error) => return Err(error),
    };
    let after_eq = match parse_eq(&after_with) {
        Ok(rest) => rest,
        Err(error) => return Err(error),
    };
    let (expr, rest) = match parse_lit_or_expr(&after_eq) {
        Ok(found) => found,
        Err(error) => return Err(error),
    };
    match expect_end(&rest) {
        Ok(()) => Ok((ty, expr)),
        Err(error) => Err(error),
    }
}

/// Parses the arguments `type, keyword = type, with = expr` of `try_from` and
/// `try_into` (keyword `error`) and of the binary operators (keyword
/// `output`): all of the tokens.
pub fn parse_type_keyword_with(tokens: &proc_macro2::TokenStream, keyword: &str) -> (r: Result<
    (syn::Type, syn::Type, syn::Expr),
    syn::Error,
>)
    ensures
        r is Ok <==> spec_type_keyword_with(*tokens, keyword@) is Some,
        r matches Ok(found) ==> spec_type_keyword_with(*tokens, keyword@) == Some(found),
        type_keyword_with_ends_early(*tokens, keyword@) ==> r is Err,
{
    let (ty, after_ty) = match parse_lit_or_type(tokens) {
        Ok(found) => found,
        Err(error) => return Err(error),
    };
    let after_comma = match parse_comma(&after_ty) {
        Ok(rest) => rest,
        Err(error) => return Err(error),
    };
    let after_keyword = match parse_keyword(&after_comma, keyword) {
        Ok(rest) => rest,
        Err(error) => return Err(error),
    };
    let after_eq = match parse_eq(&after_keyword) {
        Ok(rest) => rest,
        Err(error) => return Err(error),
    };
    match parse_type_with(&after_eq) {
        Ok((extra_ty, expr)) => Ok((ty, extra_ty, expr)),
        Err(error) => Err(error),
    }
}

/// Parses the argument `type` of `range_iter`: all of the tokens.
pub fn parse_range_type(tokens: &proc_macro2::TokenStream) -> (r: Result<syn::Type, syn::Error>)
    ensures
        r is Ok <==> spec_range_type(*tokens) is Some,
        r matches Ok(ty) ==> spec_range_type(*tokens) == Some(ty),
        spec_is_empty(*tokens) ==> r is Err,
{
    let (ty, rest) = match parse_lit_or_type(tokens) {
        Ok(found) => found,
        Err(error) => return Err(error),
    };
    match expect_end(&rest) {
        Ok(()) => Ok(ty),
        Err(error) => Err(error),
    }
}

/// Parses the argument of the `newtype` attribute: one identifier, bare or as
/// the text of a string literal, and nothing after it.
pub fn parse_kind_ident(tokens: &proc_macro2::TokenStream) -> (r: Result<proc_macro2::Ident, syn::Error>)
    ensures
        r is Ok <==> spec_kind_ident(*tokens) is Some,
        r matches Ok(ident) ==> spec_kind_ident(*tokens) == Some(ident),
        spec_is_empty(*tokens) ==> r is Err,
{
    let (ident, rest) = match parse_lit_or_ident(tokens) {
        Ok(found) => found,
        Err(error) => return Err(error),
    };
    match expect_end(&rest) {
        Ok(()) => Ok(ident),
        Err(error) => Err(error),
    }
}

/// Why the attribute input was refused.
#[derive(Debug, PartialEq, Eq, Structural, Clone, Copy)]
pub enum Refusal {
    /// The item is not a tuple struct with exactly one field.
    NotNewtypeStruct,
    /// An attribute of the derive is not of the form `#[newtype(attr1, attr2)]`.
    ExpectedAttrList,
    /// The name of an item of the derive is missing or names no derive type.
    UnknownDeriveType,
    /// An item of the derive is written without its arguments.
    ExpectedItemList(DeriveType),
    /// The argument of the `newtype` attribute is not a single identifier.
    ExpectedKind,
    /// The argument of the `newtype` attribute names no kind.
    UnknownKind,
    /// The tokens are not the Rust syntax expected there.
    Syntax,
}

/// A refused attribute input: why, and the compile error that points at the
/// place.
#[derive(Debug)]
pub struct NewtypeError {
    pub refusal: Refusal,
    pub error: syn::Error,
}

impl Refusal {
    /// The message of the compile error that comes with the refusal; a syntax
    /// refusal carries the message of the parse that failed.
    pub open spec fn message(self) -> Option<Seq<char>> {
        match self {
            Refusal::NotNewtypeStruct => Some(EXPECTED_NEWTYPE_STRUCT@),
            Refusal::ExpectedAttrList => Some(EXPECTED_ATTR_LIST@),
            Refusal::UnknownDeriveType => Some(UNKNOWN_DERIVE_TYPE@),
            Refusal::ExpectedItemList(d) => Some(
                "expected `#[newtype("@ + d.spec_name() + "(...))]`"@,
            ),
            Refusal::ExpectedKind => Some(EXPECTED_NEWTYPE_KIND@),
            Refusal::UnknownKind => Some(UNKNOWN_KIND@),
            Refusal::Syntax => None,
        }
    }
}

impl NewtypeError {
    /// The compile error reads the message of the refusal.
    pub open spec fn reports(self) -> bool {
        match self.refusal.message() {
            Some(message) => spec_error_text(self.error) == message,
            None => true,
        }
    }
}

/// A refusal with the compile error that goes with it.
fn refused(refusal: Refusal, error: syn::Error) -> (r: NewtypeError)
    ensures
        r.refusal == refusal,
        r.error == error,
{
    NewtypeError { refusal, error }
}

impl DeriveType {
    /// The derive type that the name of a meta item selects; an error when the
    /// name is missing or selects none.
    pub fn try_from_ident(value: Option<&proc_macro2::Ident>) -> (r: Result<DeriveType, NewtypeError>)
        ensures
            r matches Err(e) ==> e.reports(),
            r is Ok <==> (value matches Some(ident) && derive_type_from_name(
                spec_ident_text(*ident),
            ) is Some),
            r matches Ok(d) ==> (value matches Some(ident) && derive_type_from_name(
                spec_ident_text(*ident),
            ) == Some(d)),
            r matches Err(e) ==> e.refusal == Refusal::UnknownDeriveType,
    {
        match value {
            Some(ident) => DeriveType::try_from_name(value, Some(ident_text(ident).as_str())),
            None => DeriveType::try_from_name(value, None),
        }
    }

    /// The derive type that a meta item whose name has the text `name` selects;
    /// an error when the name is missing or selects none.
    pub fn try_from_name(value: Option<&proc_macro2::Ident>, name: Option<&str>) -> (r: Result<
        DeriveType,
        NewtypeError,
    >)
        ensures
            r matches Err(e) ==> e.reports(),
            r is Ok <==> (name matches Some(n) && derive_type_from_name(n@) is Some),
            r matches Ok(d) ==> (name matches Some(n) && derive_type_from_name(n@) == Some(d)),
            r matches Err(e) ==> e.refusal == Refusal::UnknownDeriveType,
    {
        let found = match name {
            Some(text) => DeriveType::from_name(text),
            None => None,
        };
        match found {
            Some(derive_type) => Ok(derive_type),
            None => Err(
                refused(
                    Refusal::UnknownDeriveType,
                    error_spanned(&value, UNKNOWN_DERIVE_TYPE),
                ),
            ),
        }
    }
}

impl NewtypeKind {
    /// The kind that an identifier names; an error when it names none.
    pub fn try_from_ident(ident: &proc_macro2::Ident) -> (r: Result<NewtypeKind, NewtypeError>)
        ensures
            r matches Err(e) ==> e.reports(),
            r is Ok <==> newtype_kind_from_name(spec_ident_text(*ident)) is Some,
            r matches Ok(kind) ==> newtype_kind_from_name(spec_ident_text(*ident)) == Some(kind),
            r matches Err(e) ==> e.refusal == Refusal::UnknownKind,
    {
        NewtypeKind::try_from_name(ident, ident_text(ident).as_str())
    }

    /// The kind that an identifier with the text `name` names; an error when
    /// it names none.
    pub fn try_from_name(ident: &proc_macro2::Ident, name: &str) -> (r: Result<NewtypeKind, NewtypeError>)
        ensures
            r matches Err(e) ==> e.reports(),
            r is Ok <==> newtype_kind_from_name(name@) is Some,
            r matches Ok(kind) ==> newtype_kind_from_name(name@) == Some(kind),
            r matches Err(e) ==> e.refusal == Refusal::UnknownKind,
    {
        match NewtypeKind::from_name(name) {
            Some(kind) => Ok(kind),
            None => Err(refused(Refusal::UnknownKind, error_spanned(ident, UNKNOWN_KIND))),
        }
    }
}

/// The kind that a `newtype` attribute whose argument parsed as `parsed`
/// names: an argument that is not a single identifier is refused as such, and
/// an identifier that names no kind as such.
pub open spec fn spec_kind_of(parsed: Option<proc_macro2::Ident>) -> Result<NewtypeKind, Refusal> {
    match parsed {
        Some(ident) => match newtype_kind_from_name(spec_ident_text(ident)) {
            Some(kind) => Ok(kind),
            None => Err(Refusal::UnknownKind),
        },
        None => Err(Refusal::ExpectedKind),
    }
}

/// The kind of a `newtype` attribute whose argument parsed as `parsed`: an
/// argument that is not a single identifier is refused as such, and an
/// identifier that names no kind as such.
pub fn kind_from_parsed(parsed: Option<proc_macro2::Ident>, attr_span: proc_macro2::Span) -> (r:
    Result<NewtypeKind, NewtypeError>)
    ensures
        r matches Err(e) ==> e.reports(),
        r is Ok <==> spec_kind_of(parsed) is Ok,
        r matches Ok(kind) ==> spec_kind_of(parsed) == Ok::<NewtypeKind, Refusal>(kind),
        r matches Err(e) ==> spec_kind_of(parsed) == Err::<NewtypeKind, Refusal>(e.refusal),
{
    match parsed {
        Some(ident) => NewtypeKind::try_from_ident(&ident),
        None => Err(refused(Refusal::ExpectedKind, error_at(attr_span, EXPECTED_NEWTYPE_KIND))),
    }
}

/// Parses `newtype` attribute kind: the `Kind` of `#[newtype(Kind)]`.
pub fn parse_newtype_kind(attr: proc_macro2::TokenStream) -> (r: Result<NewtypeKind, NewtypeError>)
    ensures
        r matches Err(e) ==> e.reports(),
        r is Ok <==> spec_kind_of(spec_kind_ident(attr)) is Ok,
        r matches Ok(kind) ==> spec_kind_of(spec_kind_ident(attr)) == Ok::<
            NewtypeKind,
            Refusal,
        >(kind),
        r matches Err(e) ==> spec_kind_of(spec_kind_ident(attr)) == Err::<
            NewtypeKind,
            Refusal,
        >(e.refusal),
{
    let attr_span = token_stream_span(&attr);
    let parsed = match parse_kind_ident(&attr) {
        Ok(ident) => Some(ident),
        Err(_) => None,
    };
    kind_from_parsed(parsed, attr_span)
}

/// The inner type of a tuple struct with `len` fields, the first of type
/// `first`: that type when there is exactly one field, a refusal otherwise.
pub fn fields_inner_type(fields: &syn::FieldsUnnamed, len: usize, first: Option<syn::Type>) -> (r:
    Result<syn::Type, NewtypeError>)
    ensures
        r matches Err(e) ==> e.reports(),
        r is Ok <==> (len == 1 && first is Some),
        r matches Ok(ty) ==> first == Some(ty),
        r matches Err(e) ==> e.refusal == Refusal::NotNewtypeStruct,
{
    if len == 1 {
        match first {
            Some(ty) => return Ok(ty),
            None => {},
        }
    }
    Err(refused(Refusal::NotNewtypeStruct, error_spanned(fields, EXPECTED_NEWTYPE_STRUCT)))
}

/// The inner type of data of the given shape: the type of the only field of a
/// tuple struct with one field; none for any other struct, enum or union.
pub open spec fn spec_shape_inner_type(form: DataForm) -> Option<syn::Type> {
    match form {
        DataForm::Unnamed(fields) => if spec_unnamed_len(fields) == 1 {
            spec_first_unnamed_type(fields)
        } else {
            None
        },
        _ => None,
    }
}

/// The inner type of the data of a derive input.
pub open spec fn spec_inner_type(data: syn::Data) -> Option<syn::Type> {
    spec_shape_inner_type(spec_data_form(data))
}

/// The inner type of a derive input of the given shape: the type of the only
/// field of a tuple struct; an error for any other struct, enum or union.
pub fn parse_data_shape(shape: DataShape<'_>) -> (r: Result<syn::Type, NewtypeError>)
    ensures
        r matches Err(e) ==> e.reports(),
        r is Ok <==> spec_shape_inner_type(shape@) is Some,
        r matches Ok(ty) ==> spec_shape_inner_type(shape@) == Some(ty),
        r matches Err(e) ==> e.refusal == Refusal::NotNewtypeStruct,
{
    let error = match shape {
        DataShape::Unnamed(fields) => {
            return fields_inner_type(fields, unnamed_len(fields), first_unnamed_type(fields));
        },
        DataShape::Named(fields) => error_spanned(fields, EXPECTED_NEWTYPE_STRUCT),
        DataShape::Unit(struct_token) => error_spanned(&struct_token, EXPECTED_NEWTYPE_STRUCT),
        DataShape::Enum(enum_token) => error_spanned(&enum_token, EXPECTED_NEWTYPE_STRUCT),
        DataShape::Union(union_token) => error_spanned(&union_token, EXPECTED_NEWTYPE_STRUCT),
    };
    Err(refused(Refusal::NotNewtypeStruct, error))
}

/// Parses the first struct field to get the inner type: for
/// `struct Newtype(type)` returns `type`.
pub fn parse_derive_input_data(data: &syn::Data) -> (r: Result<syn::Type, NewtypeError>)
    ensures
        r matches Err(e) ==> e.reports(),
        r is Ok <==> spec_inner_type(*data) is Some,
        r matches Ok(ty) ==> spec_inner_type(*data) == Some(ty),
        r matches Err(e) ==> e.refusal == Refusal::NotNewtypeStruct,
{
    parse_data_shape(data_shape(data))
}

/// What parsing the tokens as an item with derives gave, with a parse error
/// refused as a syntax error.
pub fn derive_input_from(parsed: Result<syn::DeriveInput, syn::Error>) -> (r: Result<
    syn::DeriveInput,
    NewtypeError,
>)
    ensures
        r matches Err(e) ==> e.reports(),
        r is Ok <==> parsed is Ok,
        parsed matches Ok(d) ==> r == Ok::<syn::DeriveInput, NewtypeError>(d),
        parsed matches Err(error) ==> (r matches Err(e) && e.refusal == Refusal::Syntax
            && e.error == error),
{
    match parsed {
        Ok(derive_input) => Ok(derive_input),
        Err(error) => Err(refused(Refusal::Syntax, error)),
    }
}

/// The tokens parsed as an item with derives, or a syntax refusal.
fn derive_input_of(input: proc_macro2::TokenStream) -> (r: Result<syn::DeriveInput, NewtypeError>)
    ensures
        r matches Err(e) ==> e.reports(),
        r is Ok <==> spec_parse_derive_input(input) is Ok,
        r matches Ok(d) ==> spec_parse_derive_input(input) == Ok::<syn::DeriveInput, syn::Error>(d),
        r matches Err(e) ==> e.refusal == Refusal::Syntax && spec_parse_derive_input(input) == Err::<
            syn::DeriveInput,
            syn::Error,
        >(e.error),
{
    derive_input_from(parse_derive_input(input))
}

/// The tuple struct with one field that the tokens hold: a syntax refusal
/// when they do not parse as an item with derives, and a refusal of the
/// shape when the item is not such a struct.
pub open spec fn spec_parsed_newtype(input: proc_macro2::TokenStream) -> Result<Newtype, Refusal> {
    match spec_parse_derive_input(input) {
        Ok(derive_input) => {
            let parts = spec_derive_input_parts(derive_input);
            match spec_inner_type(parts.2) {
                Some(inner_ty) => Ok(Newtype { newtype: parts.0, inner_ty, generics: parts.1 }),
                None => Err(Refusal::NotNewtypeStruct),
            }
        },
        Err(_) => Err(Refusal::Syntax),
    }
}

/// Parses the item a `newtype` attribute stands on.
pub fn parse_newtype(input: proc_macro2::TokenStream) -> (r: Result<Newtype, NewtypeError>)
    ensures
        r matches Err(e) ==> e.reports(),
        r is Ok <==> spec_parsed_newtype(input) is Ok,
        r matches Ok(newtype) ==> spec_parsed_newtype(input) == Ok::<Newtype, Refusal>(newtype),
        r matches Err(e) ==> spec_parsed_newtype(input) == Err::<Newtype, Refusal>(e.refusal),
{
    let derive_input = match derive_input_of(input) {
        Ok(derive_input) => derive_input,
        Err(e) => return Err(e),
    };
    let (ident, generics, data, _attrs) = split_derive_input(derive_input);
    let inner_ty = match parse_derive_input_data(&data) {
        Ok(inner_ty) => inner_ty,
        Err(e) => return Err(e),
    };
    Ok(Newtype::new(ident, inner_ty, generics))
}

/// The items of `old` come first in `new`, in the same order.
pub open spec fn extends(old: Seq<DeriveEntry>, new: Seq<DeriveEntry>) -> bool {
    &&& old.len() <= new.len()
    &&& new.subrange(0, old.len() as int) == old
}

/// The refusals that an item of the derive can meet.
pub open spec fn item_refusal(refusal: Refusal) -> bool {
    ||| refusal == Refusal::UnknownDeriveType
    ||| refusal is ExpectedItemList
    ||| refusal == Refusal::Syntax
}

/// The refusals that an attribute of the derive can meet.
pub open spec fn attr_refusal(refusal: Refusal) -> bool {
    refusal == Refusal::ExpectedAttrList || item_refusal(refusal)
}

/// A `#[newtype(item)]` without arguments: always an error.
pub fn parse_nested_path(derive_type: DeriveType, path: &syn::Path, res: &mut NewtypeDerives) -> (r:
    Result<(), NewtypeError>)
    ensures
        r matches Err(e) ==> e.reports(),
        r matches Err(e) && e.refusal == Refusal::ExpectedItemList(derive_type),
        final(res).entries@ == old(res).entries@,
{
    Err(
        refused(
            Refusal::ExpectedItemList(derive_type),
            error_spanned(path, expected_item_list_message(derive_type).as_str()),
        ),
    )
}

/// A `#[newtype(item = value)]`: always an error.
pub fn parse_nested_name_value(
    derive_type: DeriveType,
    name_value: &syn::MetaNameValue,
    res: &mut NewtypeDerives,
) -> (r: Result<(), NewtypeError>)
    ensures
        r matches Err(e) ==> e.reports(),
        r matches Err(e) && e.refusal == Refusal::ExpectedItemList(derive_type),
        final(res).entries@ == old(res).entries@,
{
    Err(
        refused(
            Refusal::ExpectedItemList(derive_type),
            error_spanned(name_value, expected_item_list_message(derive_type).as_str()),
        ),
    )
}

/// The item that `item(...)` of the given derive type stands for, or the
/// error that parsing its arguments gives: `range_iter` takes one type, the
/// items with a second type take `type, keyword = type, with = expr`, the
/// others `type, with = expr`.
pub open spec fn spec_list_entry(derive_type: DeriveType, list: syn::MetaList) -> Option<DeriveEntry> {
    let tokens = spec_meta_list_tokens(list);
    if derive_type == DeriveType::RangeIter {
        match spec_range_type(tokens) {
            Some(ty) => Some(DeriveEntry { derive_type, ty, extra_ty: None, expr: None }),
            None => None,
        }
    } else {
        match derive_type.spec_extra_keyword() {
            None => match spec_type_with(tokens) {
                Some((ty, expr)) => Some(
                    DeriveEntry { derive_type, ty, extra_ty: None, expr: Some(expr) },
                ),
                None => None,
            },
            Some(keyword) => match spec_type_keyword_with(tokens, keyword) {
                Some((ty, extra_ty, expr)) => Some(
                    DeriveEntry { derive_type, ty, extra_ty: Some(extra_ty), expr: Some(expr) },
                ),
                None => None,
            },
        }
    }
}

/// A `#[newtype(item(...))]`: on success adds the item its arguments give, on
/// an error adds nothing.
pub fn parse_nested_list(derive_type: DeriveType, list: &syn::MetaList, res: &mut NewtypeDerives) -> (r:
    Result<(), NewtypeError>)
    ensures
        r matches Err(e) ==> e.reports(),
        r is Ok <==> spec_list_entry(derive_type, *list) is Some,
        r is Ok ==> final(res).entries@ == old(res).entries@.push(
            spec_list_entry(derive_type, *list)->Some_0,
        ),
        r matches Err(e) ==> e.refusal == Refusal::Syntax && final(res).entries@ == old(
            res,
        ).entries@,
{
    let tokens = meta_list_tokens(list);
    let entry = if derive_type == DeriveType::RangeIter {
        match parse_range_type(&tokens) {
            Ok(ty) => DeriveEntry { derive_type, ty, extra_ty: None, expr: None },
            Err(error) => return Err(refused(Refusal::Syntax, error)),
        }
    } else {
        match derive_type.extra_keyword() {
            None => match parse_type_with(&tokens) {
                Ok((ty, expr)) => DeriveEntry { derive_type, ty, extra_ty: None, expr: Some(expr) },
                Err(error) => return Err(refused(Refusal::Syntax, error)),
            },
            Some(keyword) => match parse_type_keyword_with(&tokens, keyword) {
                Ok((ty, extra_ty, expr)) => DeriveEntry {
                    derive_type,
                    ty,
                    extra_ty: Some(extra_ty),
                    expr: Some(expr),
                },
                Err(error) => return Err(refused(Refusal::Syntax, error)),
            },
        }
    };
    res.entries.push(entry);
    Ok(())
}

/// The item that a single item of a `#[newtype(...)]` attribute stands for,
/// or why it is refused: its name must be a derive type, and it must be
/// written with its arguments in brackets, which must parse.
pub open spec fn spec_nested_entry(meta: syn::Meta) -> Result<DeriveEntry, Refusal> {
    match spec_meta_ident(meta) {
        Some(ident) => match derive_type_from_name(spec_ident_text(ident)) {
            Some(derive_type) => match spec_meta_form(meta) {
                MetaForm::List(list) => match spec_list_entry(derive_type, list) {
                    Some(entry) => Ok(entry),
                    None => Err(Refusal::Syntax),
                },
                _ => Err(Refusal::ExpectedItemList(derive_type)),
            },
            None => Err(Refusal::UnknownDeriveType),
        },
        None => Err(Refusal::UnknownDeriveType),
    }
}

/// A single item of a `#[newtype(...)]` attribute of the derive: on success
/// adds the item, on an error adds nothing.
pub fn parse_nested_meta(meta: &syn::Meta, res: &mut NewtypeDerives) -> (r: Result<(), NewtypeError>)
    ensures
        r matches Err(e) ==> e.reports(),
        r is Ok <==> spec_nested_entry(*meta) is Ok,
        r is Ok ==> final(res).entries@ == old(res).entries@.push(spec_nested_entry(*meta)->Ok_0),
        r matches Err(e) ==> spec_nested_entry(*meta) == Err::<DeriveEntry, Refusal>(e.refusal)
            && final(res).entries@ == old(res).entries@,
{
    let derive_type = match DeriveType::try_from_ident(meta_ident(meta)) {
        Ok(derive_type) => derive_type,
        Err(e) => return Err(e),
    };
    match meta_shape(meta) {
        MetaShape::Path(path) => parse_nested_path(derive_type, path, res),
        MetaShape::List(list) => parse_nested_list(derive_type, list, res),
        MetaShape::NameValue(name_value) => parse_nested_name_value(derive_type, name_value, res),
    }
}

/// A `#[newtype]` attribute of the derive: always an error.
pub fn parse_top_level_path(path: &syn::Path, res: &mut NewtypeDerives) -> (r: Result<(), NewtypeError>)
    ensures
        r matches Err(e) ==> e.reports(),
        r matches Err(e) && e.refusal == Refusal::ExpectedAttrList,
        final(res).entries@ == old(res).entries@,
{
    Err(refused(Refusal::ExpectedAttrList, error_spanned(path, EXPECTED_ATTR_LIST)))
}

/// A `#[newtype = value]` attribute of the derive: always an error.
pub fn parse_top_level_name_value(name_value: &syn::MetaNameValue, res: &mut NewtypeDerives) -> (r:
    Result<(), NewtypeError>)
    ensures
        r matches Err(e) ==> e.reports(),
        r matches Err(e) && e.refusal == Refusal::ExpectedAttrList,
        final(res).entries@ == old(res).entries@,
{
    Err(refused(Refusal::ExpectedAttrList, error_spanned(name_value, EXPECTED_ATTR_LIST)))
}

/// The items that the first `n` meta items add, one after the other, and the
/// refusal at which they stop, if any.
pub open spec fn items_upto(metas: Seq<syn::Meta>, n: nat) -> (Seq<DeriveEntry>, Option<Refusal>)
    decreases n,
{
    if n == 0 {
        (seq![], None)
    } else {
        let before = items_upto(metas, (n - 1) as nat);
        if before.1 is Some {
            before
        } else {
            match spec_nested_entry(metas[n - 1]) {
                Ok(entry) => (before.0.push(entry), None),
                Err(refusal) => (before.0, Some(refusal)),
            }
        }
    }
}

/// Once the items have stopped at a refusal, further meta items change
/// nothing.
proof fn lemma_items_stop(metas: Seq<syn::Meta>, k: nat, n: nat)
    requires
        k <= n,
        items_upto(metas, k).1 is Some,
    ensures
        items_upto(metas, n) == items_upto(metas, k),
    decreases n,
{
    if n > k {
        lemma_items_stop(metas, k, (n - 1) as nat);
    }
}

/// The items that a `#[newtype(item1, item2)]` attribute adds, and the refusal
/// at which they stop, if any: its arguments must parse as meta items.
pub open spec fn spec_list_items(list: syn::MetaList) -> (Seq<DeriveEntry>, Option<Refusal>) {
    match spec_meta_args(list) {
        Ok(metas) => items_upto(metas, metas.len()),
        Err(_) => (seq![], Some(Refusal::Syntax)),
    }
}

/// A `#[newtype(item1, item2)]` attribute of the derive: adds its items one
/// after the other, and stops at the first error.
pub fn parse_top_level_list(list: &syn::MetaList, res: &mut NewtypeDerives) -> (r: Result<(), NewtypeError>)
    ensures
        r matches Err(e) ==> e.reports(),
        final(res).entries@ == old(res).entries@ + spec_list_items(*list).0,
        r is Ok <==> spec_list_items(*list).1 is None,
        r matches Err(e) ==> spec_list_items(*list).1 == Some(e.refusal),
{
    let args = match parse_meta_args(list) {
        Ok(args) => args,
        Err(error) => {
            assert(res.entries@ + seq![] =~= res.entries@);
            return Err(refused(Refusal::Syntax, error));
        },
    };
    let ghost metas = args@;
    let ghost start = res.entries@;
    let mut i: usize = 0;
    assert(start + items_upto(metas, 0).0 =~= start);
    while i < args.len()
        invariant
            i <= args.len(),
            metas == args@,
            start == old(res).entries@,
            metas == spec_meta_args(*list)->Ok_0,
            spec_meta_args(*list) is Ok,
            items_upto(metas, i as nat).1 is None,
            res.entries@ == start + items_upto(metas, i as nat).0,
        decreases args.len() - i,
    {
        let ghost before = res.entries@;
        match parse_nested_meta(&args[i], res) {
            Ok(()) => {
                assert(res.entries@ =~= start + items_upto(metas, (i + 1) as nat).0);
            },
            Err(err) => {
                proof {
                    assert(items_upto(metas, (i + 1) as nat) == (
                        items_upto(metas, i as nat).0,
                        Some(err.refusal),
                    ));
                    lemma_items_stop(metas, (i + 1) as nat, metas.len());
                }
                return Err(err);
            },
        }
        i = i + 1;
    }
    Ok(())
}

/// The items that an attribute named `newtype` adds, and the refusal at which
/// they stop, if any: only the list form `#[newtype(item1, item2)]` is
/// accepted.
pub open spec fn spec_attr_items(meta: syn::Meta) -> (Seq<DeriveEntry>, Option<Refusal>) {
    match spec_meta_form(meta) {
        MetaForm::List(list) => spec_list_items(list),
        _ => (seq![], Some(Refusal::ExpectedAttrList)),
    }
}

/// A single attribute of the derive: only the list form
/// `#[newtype(item1, item2)]` is accepted.
pub fn parse_top_level_meta(meta: &syn::Meta, res: &mut NewtypeDerives) -> (r: Result<(), NewtypeError>)
    ensures
        r matches Err(e) ==> e.reports(),
        final(res).entries@ == old(res).entries@ + spec_attr_items(*meta).0,
        r is Ok <==> spec_attr_items(*meta).1 is None,
        r matches Err(e) ==> spec_attr_items(*meta).1 == Some(e.refusal),
{
    assert(res.entries@ + seq![] =~= res.entries@);
    match meta_shape(meta) {
        MetaShape::Path(path) => parse_top_level_path(path, res),
        MetaShape::List(list) => parse_top_level_list(list, res),
        MetaShape::NameValue(name_value) => parse_top_level_name_value(name_value, res),
    }
}

/// The items that the first `n` attributes add, those named `newtype` one
/// after the other and the others skipped, and the refusal at which they
/// stop, if any.
pub open spec fn attrs_items_upto(attrs: Seq<syn::Attribute>, n: nat) -> (
    Seq<DeriveEntry>,
    Option<Refusal>,
)
    decreases n,
{
    if n == 0 {
        (seq![], None)
    } else {
        let before = attrs_items_upto(attrs, (n - 1) as nat);
        if before.1 is Some || !spec_attribute_is_named(attrs[n - 1], NEWTYPE_ATTR_NAME@) {
            before
        } else {
            let items = spec_attr_items(spec_attribute_meta(attrs[n - 1]));
            (before.0 + items.0, items.1)
        }
    }
}

/// Once the attributes have stopped at a refusal, further attributes change
/// nothing.
proof fn lemma_attrs_stop(attrs: Seq<syn::Attribute>, k: nat, n: nat)
    requires
        k <= n,
        attrs_items_upto(attrs, k).1 is Some,
    ensures
        attrs_items_upto(attrs, n) == attrs_items_upto(attrs, k),
    decreases n,
{
    if n > k {
        lemma_attrs_stop(attrs, k, (n - 1) as nat);
    }
}

/// What a `Newtype` derive reads from its tokens: the tuple struct with one
/// field, and the items of all its `newtype` attributes in the order they are
/// written; or why the tokens are refused.
pub open spec fn spec_parsed_derives(input: proc_macro2::TokenStream) -> Result<
    (Newtype, Seq<DeriveEntry>),
    Refusal,
> {
    match spec_parsed_newtype(input) {
        Ok(newtype) => {
            let attrs = spec_derive_input_parts(spec_parse_derive_input(input)->Ok_0).3;
            let items = attrs_items_upto(attrs, attrs.len());
            match items.1 {
                Some(refusal) => Err(refusal),
                None => Ok((newtype, items.0)),
            }
        },
        Err(refusal) => Err(refusal),
    }
}

/// Parses all attributes of a `Newtype` derive: the struct, and the items of
/// its `newtype` attributes in the order they are written; other attributes
/// are skipped.
pub fn parse_newtype_derives(input: proc_macro2::TokenStream) -> (r: Result<
    (Newtype, NewtypeDerives),
    NewtypeError,
>)
    ensures
        r matches Err(e) ==> e.reports(),
        r is Ok <==> spec_parsed_derives(input) is Ok,
        r matches Ok(parsed) ==> spec_parsed_derives(input) == Ok::<
            (Newtype, Seq<DeriveEntry>),
            Refusal,
        >((parsed.0, parsed.1.entries@)),
        r matches Err(e) ==> spec_parsed_derives(input) == Err::<(Newtype, Seq<DeriveEntry>), Refusal>(
            e.refusal,
        ),
{
    let derive_input = match derive_input_of(input) {
        Ok(derive_input) => derive_input,
        Err(e) => return Err(e),
    };
    let (ident, generics, data, attrs) = split_derive_input(derive_input);
    let inner_ty = match parse_derive_input_data(&data) {
        Ok(inner_ty) => inner_ty,
        Err(e) => return Err(e),
    };
    let newtype = Newtype::new(ident, inner_ty, generics);
    let mut derives = NewtypeDerives::new();
    let ghost all = attrs@;
    let mut i: usize = 0;
    assert(derives.entries@ =~= attrs_items_upto(all, 0).0);
    assert(spec_parsed_newtype(input) == Ok::<Newtype, Refusal>(newtype));
    while i < attrs.len()
        invariant
            i <= attrs.len(),
            all == attrs@,
            spec_parsed_newtype(input) == Ok::<Newtype, Refusal>(newtype),
            all == spec_derive_input_parts(spec_parse_derive_input(input)->Ok_0).3,
            attrs_items_upto(all, i as nat).1 is None,
            derives.entries@ == attrs_items_upto(all, i as nat).0,
        decreases attrs.len() - i,
    {
        let attr = &attrs[i];
        // Just skip all other top-level attributes.
        if attribute_is_named(attr, NEWTYPE_ATTR_NAME) {
            match parse_top_level_meta(attribute_meta(attr), &mut derives) {
                Ok(()) => {},
                Err(e) => {
                    proof {
                        assert(attrs_items_upto(all, (i + 1) as nat).1 == Some(e.refusal));
                        lemma_attrs_stop(all, (i + 1) as nat, all.len());
                    }
                    return Err(e);
                },
            }
        }
        i = i + 1;
    }
    Ok((newtype, derives))
}

} // verus!
