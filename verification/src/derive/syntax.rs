//! The Rust syntax that the attributes are read from, as the `syn` and
//! `proc-macro2` crates give it, and the calls into those crates.
//!
//! Syntax trees are opaque here: they are carried through, and the shapes that
//! the logic reads (which variant an enum is, the text of an identifier) are
//! taken out of them by the functions below. What each of those calls gives
//! depends on its arguments alone, and is named by a spec function without a
//! body (`spec_ident_text`, `spec_data_form`, ...), so that the contracts of
//! the logic can say how it decides on them.
use vstd::prelude::*;

verus! {

#[verifier::external_type_specification]
#[verifier::external_body]
pub struct ExTokenStream(proc_macro2::TokenStream);

#[verifier::external_type_specification]
#[verifier::external_body]
pub struct ExSpan(proc_macro2::Span);

#[verifier::external_type_specification]
#[verifier::external_body]
pub struct ExIdent(proc_macro2::Ident);

#[verifier::external_type_specification]
#[verifier::external_body]
pub struct ExError(syn::Error);

#[verifier::external_type_specification]
#[verifier::external_body]
pub struct ExType(syn::Type);

#[verifier::external_type_specification]
#[verifier::external_body]
pub struct ExTypePath(syn::TypePath);

#[verifier::external_type_specification]
#[verifier::external_body]
pub struct ExExpr(syn::Expr);

#[verifier::external_type_specification]
#[verifier::external_body]
pub struct ExGenerics(syn::Generics);

#[verifier::external_type_specification]
#[verifier::external_body]
pub struct ExMeta(syn::Meta);

#[verifier::external_type_specification]
#[verifier::external_body]
pub struct ExMetaList(syn::MetaList);

#[verifier::external_type_specification]
#[verifier::external_body]
pub struct ExMetaNameValue(syn::MetaNameValue);

#[verifier::external_type_specification]
#[verifier::external_body]
pub struct ExPath(syn::Path);

#[verifier::external_type_specification]
#[verifier::external_body]
pub struct ExLitStr(syn::LitStr);

#[verifier::external_type_specification]
#[verifier::external_body]
pub struct ExDeriveInput(syn::DeriveInput);

#[verifier::external_type_specification]
#[verifier::external_body]
pub struct ExData(syn::Data);

#[verifier::external_type_specification]
#[verifier::external_body]
pub struct ExFieldsNamed(syn::FieldsNamed);

#[verifier::external_type_specification]
#[verifier::external_body]
pub struct ExFieldsUnnamed(syn::FieldsUnnamed);

#[verifier::external_type_specification]
#[verifier::external_body]
pub struct ExStructToken(syn::token::Struct);

#[verifier::external_type_specification]
#[verifier::external_body]
pub struct ExEnumToken(syn::token::Enum);

#[verifier::external_type_specification]
#[verifier::external_body]
pub struct ExUnionToken(syn::token::Union);

#[verifier::external_type_specification]
#[verifier::external_body]
pub struct ExAttribute(syn::Attribute);

/// The shape of the data of a derive input: what follows `struct`, `enum` or
/// `union`.
pub enum DataShape<'a> {
    /// A tuple struct, with its fields.
    Unnamed(&'a syn::FieldsUnnamed),
    /// A struct with named fields.
    Named(&'a syn::FieldsNamed),
    /// A unit struct, with its `struct` keyword.
    Unit(syn::token::Struct),
    /// An enum, with its `enum` keyword.
    Enum(syn::token::Enum),
    /// A union, with its `union` keyword.
    Union(syn::token::Union),
}

/// The shape of the data of a derive input, holding what `DataShape` points at.
pub enum DataForm {
    Unnamed(syn::FieldsUnnamed),
    Named(syn::FieldsNamed),
    Unit(syn::token::Struct),
    Enum(syn::token::Enum),
    Union(syn::token::Union),
}

impl<'a> View for DataShape<'a> {
    type V = DataForm;

    open spec fn view(&self) -> DataForm {
        match *self {
            DataShape::Unnamed(fields) => DataForm::Unnamed(*fields),
            DataShape::Named(fields) => DataForm::Named(*fields),
            DataShape::Unit(token) => DataForm::Unit(token),
            DataShape::Enum(token) => DataForm::Enum(token),
            DataShape::Union(token) => DataForm::Union(token),
        }
    }
}

/// The three forms of an attribute's meta item.
pub enum MetaShape<'a> {
    /// `name`
    Path(&'a syn::Path),
    /// `name(...)`
    List(&'a syn::MetaList),
    /// `name = value`
    NameValue(&'a syn::MetaNameValue),
}

/// The form of a meta item, holding what `MetaShape` points at.
pub enum MetaForm {
    Path(syn::Path),
    List(syn::MetaList),
    NameValue(syn::MetaNameValue),
}

impl<'a> View for MetaShape<'a> {
    type V = MetaForm;

    open spec fn view(&self) -> MetaForm {
        match *self {
            MetaShape::Path(path) => MetaForm::Path(*path),
            MetaShape::List(list) => MetaForm::List(*list),
            MetaShape::NameValue(name_value) => MetaForm::NameValue(*name_value),
        }
    }
}

/// The text of an identifier, as `Ident::to_string` gives it.
pub uninterp spec fn spec_ident_text(ident: proc_macro2::Ident) -> Seq<char>;

/// What `syn::parse2::<DeriveInput>` gives for a token stream.
pub uninterp spec fn spec_parse_derive_input(tokens: proc_macro2::TokenStream) -> Result<
    syn::DeriveInput,
    syn::Error,
>;

/// The name, generics, data and attributes of a derive input.
pub uninterp spec fn spec_derive_input_parts(input: syn::DeriveInput) -> (
    proc_macro2::Ident,
    syn::Generics,
    syn::Data,
    Seq<syn::Attribute>,
);

/// The shape of the data of a derive input.
pub uninterp spec fn spec_data_form(data: syn::Data) -> DataForm;

/// The number of fields of a tuple struct.
pub uninterp spec fn spec_unnamed_len(fields: syn::FieldsUnnamed) -> usize;

/// The type of the first field of a tuple struct.
pub uninterp spec fn spec_first_unnamed_type(fields: syn::FieldsUnnamed) -> Option<syn::Type>;

/// The path of an attribute is the single identifier with the text `name`.
pub uninterp spec fn spec_attribute_is_named(attr: syn::Attribute, name: Seq<char>) -> bool;

/// The meta item of an attribute.
pub uninterp spec fn spec_attribute_meta(attr: syn::Attribute) -> syn::Meta;

/// The form of a meta item.
pub uninterp spec fn spec_meta_form(meta: syn::Meta) -> MetaForm;

/// The name of a meta item whose path is a single identifier.
pub uninterp spec fn spec_meta_ident(meta: syn::Meta) -> Option<proc_macro2::Ident>;

/// The arguments of `name(...)` parsed as meta items separated by commas.
pub uninterp spec fn spec_meta_args(list: syn::MetaList) -> Result<Seq<syn::Meta>, syn::Error>;

/// A type as a path type, when it is one.
pub uninterp spec fn spec_type_as_path(ty: syn::Type) -> Option<syn::TypePath>;

/// A path type has a qualified self.
pub uninterp spec fn spec_type_path_has_qself(tp: syn::TypePath) -> bool;

/// The number of segments of a path type.
pub uninterp spec fn spec_type_path_len(tp: syn::TypePath) -> usize;

/// The identifier of the first segment of a path type.
pub uninterp spec fn spec_type_path_first_ident(tp: syn::TypePath) -> Option<proc_macro2::Ident>;

/// The text of an identifier (`Ident::to_string`).
#[verifier::external_body]
pub(crate) fn ident_text(ident: &proc_macro2::Ident) -> (r: String)
    ensures
        r@ == spec_ident_text(*ident),
{
    ident.to_string()
}

/// A parse error that points at the given tokens (`syn::Error::new_spanned`);
/// it reads the message it was made with.
#[verifier::external_body]
pub(crate) fn error_spanned<T: quote::ToTokens>(tokens: &T, message: &str) -> (r: syn::Error)
    ensures
        spec_error_text(r) == message@,
{
    syn::Error::new_spanned(tokens, message)
}

/// A parse error at the given place (`syn::Error::new`); it reads the
/// message it was made with.
#[verifier::external_body]
pub(crate) fn error_at(span: proc_macro2::Span, message: &str) -> (r: syn::Error)
    ensures
        spec_error_text(r) == message@,
{
    syn::Error::new(span, message)
}

/// Where a token stream stands in the source (`Spanned::span`).
#[verifier::external_body]
pub(crate) fn token_stream_span(tokens: &proc_macro2::TokenStream) -> proc_macro2::Span {
    syn::spanned::Spanned::span(tokens)
}

/// Parses a whole token stream as an item with derives (`syn::parse2`).
#[verifier::external_body]
pub(crate) fn parse_derive_input(tokens: proc_macro2::TokenStream) -> (r: Result<
    syn::DeriveInput,
    syn::Error,
>)
    ensures
        r == spec_parse_derive_input(tokens),
{
    syn::parse2::<syn::DeriveInput>(tokens)
}

/// The name, generics, data and attributes of a derive input.
#[verifier::external_body]
pub(crate) fn split_derive_input(input: syn::DeriveInput) -> (r: (
    proc_macro2::Ident,
    syn::Generics,
    syn::Data,
    Vec<syn::Attribute>,
))
    ensures
        (r.0, r.1, r.2, r.3@) == spec_derive_input_parts(input),
{
    (input.ident, input.generics, input.data, input.attrs)
}

/// Which kind of data a derive input has.
#[verifier::external_body]
pub(crate) fn data_shape(data: &syn::Data) -> (r: DataShape<'_>)
    ensures
        r@ == spec_data_form(*data),
{
    match data {
        syn::Data::Struct(s) => match &s.fields {
            syn::Fields::Unnamed(fields) => DataShape::Unnamed(fields),
            syn::Fields::Named(fields) => DataShape::Named(fields),
            syn::Fields::Unit => DataShape::Unit(s.struct_token),
        },
        syn::Data::Enum(e) => DataShape::Enum(e.enum_token),
        syn::Data::Union(u) => DataShape::Union(u.union_token),
    }
}

/// The number of fields of a tuple struct.
#[verifier::external_body]
pub(crate) fn unnamed_len(fields: &syn::FieldsUnnamed) -> (r: usize)
    ensures
        r == spec_unnamed_len(*fields),
{
    fields.unnamed.len()
}

/// The type of the first field of a tuple struct; there is one exactly when
/// the struct has a field (`Punctuated::first`).
#[verifier::external_body]
pub(crate) fn first_unnamed_type(fields: &syn::FieldsUnnamed) -> (r: Option<syn::Type>)
    ensures
        r == spec_first_unnamed_type(*fields),
        r is Some <==> spec_unnamed_len(*fields) > 0,
{
    fields.unnamed.first().map(|field| field.ty.clone())
}

/// The attribute's path is the single identifier `name` (`Path::is_ident`).
#[verifier::external_body]
pub(crate) fn attribute_is_named(attr: &syn::Attribute, name: &str) -> (r: bool)
    ensures
        r == spec_attribute_is_named(*attr, name@),
{
    attr.path().is_ident(name)
}

/// The meta item of an attribute: what stands inside `#[...]`.
#[verifier::external_body]
pub(crate) fn attribute_meta(attr: &syn::Attribute) -> (r: &syn::Meta)
    ensures
        *r == spec_attribute_meta(*attr),
{
    &attr.meta
}

/// Which form a meta item has.
#[verifier::external_body]
pub(crate) fn meta_shape(meta: &syn::Meta) -> (r: MetaShape<'_>)
    ensures
        r@ == spec_meta_form(*meta),
{
    match meta {
        syn::Meta::Path(path) => MetaShape::Path(path),
        syn::Meta::List(list) => MetaShape::List(list),
        syn::Meta::NameValue(name_value) => MetaShape::NameValue(name_value),
    }
}

/// The name of a meta item when its path is a single identifier
/// (`Path::get_ident`).
#[verifier::external_body]
pub(crate) fn meta_ident(meta: &syn::Meta) -> (r: Option<&proc_macro2::Ident>)
    ensures
        r is Some <==> spec_meta_ident(*meta) is Some,
        r matches Some(ident) ==> spec_meta_ident(*meta) == Some(*ident),
{
    meta.path().get_ident()
}

/// Parsed meta items, by the view of the vector that holds them.
pub open spec fn metas_view(r: Result<Vec<syn::Meta>, syn::Error>) -> Result<Seq<syn::Meta>, syn::Error> {
    match r {
        Ok(args) => Ok(args@),
        Err(error) => Err(error),
    }
}

/// Parses the arguments of `name(...)` as meta items separated by commas.
#[verifier::external_body]
pub(crate) fn parse_meta_args(list: &syn::MetaList) -> (r: Result<Vec<syn::Meta>, syn::Error>)
    ensures
        metas_view(r) == spec_meta_args(*list),
{
    list.parse_args_with(
        syn::punctuated::Punctuated::<syn::Meta, syn::token::Comma>::parse_terminated,
    ).map(|args| args.into_iter().collect())
}

/// The type as a path, such as `u64` or `std::string::String`, or `None`
/// for the other kinds of types.
#[verifier::external_body]
pub(crate) fn type_as_path(ty: &syn::Type) -> (r: Option<&syn::TypePath>)
    ensures
        r is Some <==> spec_type_as_path(*ty) is Some,
        r matches Some(tp) ==> spec_type_as_path(*ty) == Some(*tp),
{
    match ty {
        syn::Type::Path(tp) => Some(tp),
        _ => None,
    }
}

/// The path type has a qualified self, as in `<T as Trait>::Output`.
#[verifier::external_body]
pub(crate) fn type_path_has_qself(tp: &syn::TypePath) -> (r: bool)
    ensures
        r == spec_type_path_has_qself(*tp),
{
    tp.qself.is_some()
}

/// The number of segments of a path type.
#[verifier::external_body]
pub(crate) fn type_path_len(tp: &syn::TypePath) -> (r: usize)
    ensures
        r == spec_type_path_len(*tp),
{
    tp.path.segments.len()
}

/// The identifier of the first segment of a path type; there is one exactly
/// when the path has a segment (`Punctuated::first`).
#[verifier::external_body]
pub(crate) fn type_path_first_ident(tp: &syn::TypePath) -> (r: Option<&proc_macro2::Ident>)
    ensures
        r is Some <==> spec_type_path_first_ident(*tp) is Some,
        r matches Some(ident) ==> spec_type_path_first_ident(*tp) == Some(*ident),
        r is Some <==> spec_type_path_len(*tp) > 0,
{
    tp.path.segments.first().map(|segment| &segment.ident)
}

/// The text of a syn error, as its `Display` writes it: the message it was
/// made with.
pub uninterp spec fn spec_error_text(error: syn::Error) -> Seq<char>;

/// A token stream holds no token.
pub uninterp spec fn spec_is_empty(tokens: proc_macro2::TokenStream) -> bool;

/// The tokens inside the brackets of `name(...)`.
pub uninterp spec fn spec_meta_list_tokens(list: syn::MetaList) -> proc_macro2::TokenStream;

/// A string literal at the front of a token stream, and the tokens after it.
pub uninterp spec fn spec_lit_str_prefix(tokens: proc_macro2::TokenStream) -> Result<
    (syn::LitStr, proc_macro2::TokenStream),
    syn::Error,
>;

/// A type at the front of a token stream, and the tokens after it.
pub uninterp spec fn spec_type_prefix(tokens: proc_macro2::TokenStream) -> Result<
    (syn::Type, proc_macro2::TokenStream),
    syn::Error,
>;

/// An expression at the front of a token stream, and the tokens after it.
pub uninterp spec fn spec_expr_prefix(tokens: proc_macro2::TokenStream) -> Result<
    (syn::Expr, proc_macro2::TokenStream),
    syn::Error,
>;

/// An identifier at the front of a token stream, and the tokens after it.
pub uninterp spec fn spec_ident_prefix(tokens: proc_macro2::TokenStream) -> Result<
    (proc_macro2::Ident, proc_macro2::TokenStream),
    syn::Error,
>;

/// The tokens after a `,` at the front of a token stream.
pub uninterp spec fn spec_comma_prefix(tokens: proc_macro2::TokenStream) -> Result<
    proc_macro2::TokenStream,
    syn::Error,
>;

/// The tokens after a `=` at the front of a token stream.
pub uninterp spec fn spec_eq_prefix(tokens: proc_macro2::TokenStream) -> Result<
    proc_macro2::TokenStream,
    syn::Error,
>;

/// The text of a string literal parsed as a whole type.
pub uninterp spec fn spec_lit_str_type(lit: syn::LitStr) -> Result<syn::Type, syn::Error>;

/// The text of a string literal parsed as a whole expression.
pub uninterp spec fn spec_lit_str_expr(lit: syn::LitStr) -> Result<syn::Expr, syn::Error>;

/// The text of a string literal parsed as a whole identifier.
pub uninterp spec fn spec_lit_str_ident(lit: syn::LitStr) -> Result<proc_macro2::Ident, syn::Error>;

/// Whether a token stream holds no token (`TokenStream::is_empty`).
#[verifier::external_body]
pub(crate) fn tokens_is_empty(tokens: &proc_macro2::TokenStream) -> (r: bool)
    ensures
        r == spec_is_empty(*tokens),
{
    tokens.is_empty()
}

/// The tokens inside the brackets of `name(...)` (the field `MetaList::tokens`).
#[verifier::external_body]
pub(crate) fn meta_list_tokens(list: &syn::MetaList) -> (r: proc_macro2::TokenStream)
    ensures
        r == spec_meta_list_tokens(*list),
{
    list.tokens.clone()
}

/// Parses a string literal at the front of a token stream, and gives the
/// tokens after it (`Parser::parse2`, `ParseBuffer::parse`); none is found in
/// an empty stream.
#[verifier::external_body]
pub(crate) fn lit_str_prefix(tokens: &proc_macro2::TokenStream) -> (r: Result<
    (syn::LitStr, proc_macro2::TokenStream),
    syn::Error,
>)
    ensures
        r == spec_lit_str_prefix(*tokens),
        spec_is_empty(*tokens) ==> r is Err,
{
    syn::parse::Parser::parse2(
        |input: syn::parse::ParseStream| Ok((input.parse::<syn::LitStr>()?, input.parse()?)),
        tokens.clone(),
    )
}

/// Parses a type at the front of a token stream, and gives the tokens after
/// it (`Parser::parse2`, `ParseBuffer::parse`); none is found in an empty
/// stream.
#[verifier::external_body]
pub(crate) fn type_prefix(tokens: &proc_macro2::TokenStream) -> (r: Result<
    (syn::Type, proc_macro2::TokenStream),
    syn::Error,
>)
    ensures
        r == spec_type_prefix(*tokens),
        spec_is_empty(*tokens) ==> r is Err,
{
    syn::parse::Parser::parse2(
        |input: syn::parse::ParseStream| Ok((input.parse::<syn::Type>()?, input.parse()?)),
        tokens.clone(),
    )
}

/// Parses an expression at the front of a token stream, and gives the tokens
/// after it (`Parser::parse2`, `ParseBuffer::parse`); none is found in an
/// empty stream.
#[verifier::external_body]
pub(crate) fn expr_prefix(tokens: &proc_macro2::TokenStream) -> (r: Result<
    (syn::Expr, proc_macro2::TokenStream),
    syn::Error,
>)
    ensures
        r == spec_expr_prefix(*tokens),
        spec_is_empty(*tokens) ==> r is Err,
{
    syn::parse::Parser::parse2(
        |input: syn::parse::ParseStream| Ok((input.parse::<syn::Expr>()?, input.parse()?)),
        tokens.clone(),
    )
}

/// Parses an identifier at the front of a token stream, and gives the tokens
/// after it (`Parser::parse2`, `ParseBuffer::parse`); none is found in an
/// empty stream.
#[verifier::external_body]
pub(crate) fn ident_prefix(tokens: &proc_macro2::TokenStream) -> (r: Result<
    (proc_macro2::Ident, proc_macro2::TokenStream),
    syn::Error,
>)
    ensures
        r == spec_ident_prefix(*tokens),
        spec_is_empty(*tokens) ==> r is Err,
{
    syn::parse::Parser::parse2(
        |input: syn::parse::ParseStream| Ok((input.parse::<proc_macro2::Ident>()?, input.parse()?)),
        tokens.clone(),
    )
}

/// Parses a `,` at the front of a token stream, and gives the tokens after it
/// (`Parser::parse2`, `ParseBuffer::parse`); none is found in an empty stream.
#[verifier::external_body]
pub(crate) fn comma_prefix(tokens: &proc_macro2::TokenStream) -> (r: Result<
    proc_macro2::TokenStream,
    syn::Error,
>)
    ensures
        r == spec_comma_prefix(*tokens),
        spec_is_empty(*tokens) ==> r is Err,
{
    syn::parse::Parser::parse2(
        |input: syn::parse::ParseStream| {
            input.parse::<syn::token::Comma>()?;
            input.parse()
        },
        tokens.clone(),
    )
}

/// Parses a `=` at the front of a token stream, and gives the tokens after it
/// (`Parser::parse2`, `ParseBuffer::parse`); none is found in an empty stream.
#[verifier::external_body]
pub(crate) fn eq_prefix(tokens: &proc_macro2::TokenStream) -> (r: Result<
    proc_macro2::TokenStream,
    syn::Error,
>)
    ensures
        r == spec_eq_prefix(*tokens),
        spec_is_empty(*tokens) ==> r is Err,
{
    syn::parse::Parser::parse2(
        |input: syn::parse::ParseStream| {
            input.parse::<syn::token::Eq>()?;
            input.parse()
        },
        tokens.clone(),
    )
}

/// Parses the text of a string literal as a whole type (`LitStr::parse`).
#[verifier::external_body]
pub(crate) fn lit_str_type(lit: &syn::LitStr) -> (r: Result<syn::Type, syn::Error>)
    ensures
        r == spec_lit_str_type(*lit),
{
    lit.parse::<syn::Type>()
}

/// Parses the text of a string literal as a whole expression (`LitStr::parse`).
#[verifier::external_body]
pub(crate) fn lit_str_expr(lit: &syn::LitStr) -> (r: Result<syn::Expr, syn::Error>)
    ensures
        r == spec_lit_str_expr(*lit),
{
    lit.parse::<syn::Expr>()
}

/// Parses the text of a string literal as a whole identifier (`LitStr::parse`).
#[verifier::external_body]
pub(crate) fn lit_str_ident(lit: &syn::LitStr) -> (r: Result<proc_macro2::Ident, syn::Error>)
    ensures
        r == spec_lit_str_ident(*lit),
{
    lit.parse::<proc_macro2::Ident>()
}

} // verus!
