//! Planning the code that the `newtype` attribute and the `Newtype` derive
//! expand to: which traits are derived, which items are implemented in which
//! order, and in which forms.
use crate::derive::derive_type::{is_binary_operator_name, law_extra_keyword_by_name, lemma_name_identifies};
use crate::derive::kind::str_eq;
use crate::derive::syntax::{
    ident_text, spec_ident_text, spec_type_as_path, spec_type_path_first_ident,
    spec_type_path_has_qself, spec_type_path_len, type_as_path, type_path_first_ident,
    type_path_has_qself, type_path_len,
};
use crate::derive::{DeriveEntry, DeriveType, NewtypeDerives, NewtypeKind};
use vstd::prelude::*;

verus! {

/// The names of the primitive integer types.
pub open spec fn int_type_names() -> Seq<Seq<char>> {
    seq![
        "i8"@, "u8"@, "i16"@, "u16"@, "i32"@, "u32"@, "i64"@, "u64"@, "isize"@, "usize"@,
        "i128"@, "u128"@,
    ]
}

/// `name` is the name of a primitive integer type.
pub fn is_int_type_name(name: &str) -> (r: bool)
    ensures
        r == int_type_names().contains(name@),
{
    let names: [&str; 12] = [
        "i8", "u8", "i16", "u16", "i32", "u32", "i64", "u64", "isize", "usize", "i128", "u128",
    ];
    let mut i: usize = 0;
    while i < 12
        invariant
            i <= 12,
            forall|j: int| 0 <= j < 12 ==> names@[j]@ == #[trigger] int_type_names()[j],
            forall|j: int| 0 <= j < i ==> int_type_names()[j] != name@,
        decreases 12 - i,
    {
        if str_eq(names[i], name) {
            assert(int_type_names()[i as int] == name@);
            return true;
        }
        i = i + 1;
    }
    assert(!int_type_names().contains(name@)) by {
        if int_type_names().contains(name@) {
            let j = choose|j: int| 0 <= j < 12 && int_type_names()[j] == name@;
        }
    }
    false
}

/// A path type names a primitive integer type: it has no qualified self and
/// a single segment, whose identifier has the text `first`.
pub fn is_int_path(has_qself: bool, len: usize, first: Option<&str>) -> (r: bool)
    ensures
        r == (!has_qself && len == 1 && (first matches Some(f) && int_type_names().contains(f@))),
{
    if has_qself || len != 1 {
        return false;
    }
    match first {
        Some(name) => is_int_type_name(name),
        None => false,
    }
}

/// The type is a path of one segment, with no qualified self, naming a
/// primitive integer type.
pub open spec fn spec_is_int_type(ty: syn::Type) -> bool {
    match spec_type_as_path(ty) {
        Some(tp) => {
            &&& !spec_type_path_has_qself(tp)
            &&& spec_type_path_len(tp) == 1
            &&& spec_type_path_first_ident(tp) matches Some(ident)
            &&& int_type_names().contains(spec_ident_text(ident))
        },
        None => false,
    }
}

/// Returns `true` if the newtype inner representation is a known integer
/// type: a path of one segment, with no qualified self, naming a primitive
/// integer type.
pub fn is_int_type(inner_ty: &syn::Type) -> (r: bool)
    ensures
        r == spec_is_int_type(*inner_ty),
{
    let tp = match type_as_path(inner_ty) {
        Some(tp) => tp,
        None => return false,
    };
    let first_text = match type_path_first_ident(tp) {
        Some(ident) => Some(ident_text(ident)),
        None => None,
    };
    let first = match &first_text {
        Some(text) => Some(text.as_str()),
        None => None,
    };
    is_int_path(type_path_has_qself(tp), type_path_len(tp), first)
}

/// The traits that the `newtype` attribute derives for every kind, with
/// `Eq`, `Ord` and `Hash` added when the inner type is an integer.
pub open spec fn spec_standard_derives(is_int: bool) -> Seq<Seq<char>> {
    let common = seq!["Clone"@, "Copy"@, "Debug"@, "Default"@, "PartialEq"@, "PartialOrd"@];
    if is_int {
        common + seq!["Eq"@, "Ord"@, "Hash"@]
    } else {
        common
    }
}

/// The traits that the `newtype` attribute derives for every kind.
pub fn standard_derives(is_int: bool) -> (r: Vec<&'static str>)
    ensures
        r@.map_values(|s: &str| s@) == spec_standard_derives(is_int),
{
    let mut r: Vec<&'static str> = Vec::new();
    r.push("Clone");
    r.push("Copy");
    r.push("Debug");
    r.push("Default");
    r.push("PartialEq");
    r.push("PartialOrd");
    if is_int {
        r.push("Eq");
        r.push("Ord");
        r.push("Hash");
    }
    assert(r@.map_values(|s: &str| s@) =~= spec_standard_derives(is_int));
    r
}

/// An operand of an item that a newtype kind adds: the newtype itself or its
/// inner type.
#[derive(Debug, PartialEq, Eq, Structural, Clone, Copy)]
pub enum Operand {
    /// The newtype.
    Newtype,
    /// The inner type of the newtype.
    Inner,
}

/// An item that a newtype kind adds to the `Newtype` derive: the operator, its
/// right-hand side, and for a binary operator its output.
#[derive(Debug, PartialEq, Eq, Structural, Clone, Copy)]
pub struct KindItem {
    pub derive_type: DeriveType,
    pub rhs: Operand,
    pub output: Option<Operand>,
}

/// The items that a newtype kind adds: an `Amount` can be added to and
/// subtracted from another amount, multiplied by an inner value, and divided
/// by another amount into an inner value; an `Id` gets no operators.
pub open spec fn spec_kind_items(kind: NewtypeKind) -> Seq<KindItem> {
    match kind {
        NewtypeKind::Amount => seq![
            KindItem { derive_type: DeriveType::Add, rhs: Operand::Newtype, output: Some(Operand::Newtype) },
            KindItem { derive_type: DeriveType::AddAssign, rhs: Operand::Newtype, output: None },
            KindItem { derive_type: DeriveType::Sub, rhs: Operand::Newtype, output: Some(Operand::Newtype) },
            KindItem { derive_type: DeriveType::SubAssign, rhs: Operand::Newtype, output: None },
            KindItem { derive_type: DeriveType::Mul, rhs: Operand::Inner, output: Some(Operand::Newtype) },
            KindItem { derive_type: DeriveType::MulAssign, rhs: Operand::Inner, output: None },
            KindItem { derive_type: DeriveType::Div, rhs: Operand::Newtype, output: Some(Operand::Inner) },
        ],
        NewtypeKind::Id => seq![],
    }
}

/// The items that a newtype kind adds to the `Newtype` derive.
pub fn kind_items(kind: NewtypeKind) -> (r: Vec<KindItem>)
    ensures
        r@ == spec_kind_items(kind),
{
    let mut r: Vec<KindItem> = Vec::new();
    match kind {
        NewtypeKind::Amount => {
            r.push(KindItem { derive_type: DeriveType::Add, rhs: Operand::Newtype, output: Some(Operand::Newtype) });
            r.push(KindItem { derive_type: DeriveType::AddAssign, rhs: Operand::Newtype, output: None });
            r.push(KindItem { derive_type: DeriveType::Sub, rhs: Operand::Newtype, output: Some(Operand::Newtype) });
            r.push(KindItem { derive_type: DeriveType::SubAssign, rhs: Operand::Newtype, output: None });
            r.push(KindItem { derive_type: DeriveType::Mul, rhs: Operand::Inner, output: Some(Operand::Newtype) });
            r.push(KindItem { derive_type: DeriveType::MulAssign, rhs: Operand::Inner, output: None });
            r.push(KindItem { derive_type: DeriveType::Div, rhs: Operand::Newtype, output: Some(Operand::Inner) });
        },
        NewtypeKind::Id => {},
    }
    assert(r@ =~= spec_kind_items(kind));
    r
}

/// The place of an item's code among the code that the derive expands to:
/// conversions first, then the operators, comparisons among them.
pub open spec fn section_rank(d: DeriveType) -> nat {
    match d {
        DeriveType::From => 0,
        DeriveType::TryFrom => 1,
        DeriveType::Into => 2,
        DeriveType::TryInto => 3,
        DeriveType::Add => 4,
        DeriveType::AddAssign => 5,
        DeriveType::BitAnd => 6,
        DeriveType::BitAndAssign => 7,
        DeriveType::BitOr => 8,
        DeriveType::BitOrAssign => 9,
        DeriveType::BitXor => 10,
        DeriveType::BitXorAssign => 11,
        DeriveType::Div => 12,
        DeriveType::DivAssign => 13,
        DeriveType::Mul => 14,
        DeriveType::MulAssign => 15,
        DeriveType::Rem => 16,
        DeriveType::RemAssign => 17,
        DeriveType::Shl => 18,
        DeriveType::ShlAssign => 19,
        DeriveType::Shr => 20,
        DeriveType::ShrAssign => 21,
        DeriveType::PartialEq => 22,
        DeriveType::Sub => 23,
        DeriveType::SubAssign => 24,
        DeriveType::RangeIter => 25,
    }
}

/// The place of an item's code among the code that the derive expands to.
pub fn rank(d: DeriveType) -> (r: usize)
    ensures
        r == section_rank(d),
{
    match d {
        DeriveType::From => 0,
        DeriveType::TryFrom => 1,
        DeriveType::Into => 2,
        DeriveType::TryInto => 3,
        DeriveType::Add => 4,
        DeriveType::AddAssign => 5,
        DeriveType::BitAnd => 6,
        DeriveType::BitAndAssign => 7,
        DeriveType::BitOr => 8,
        DeriveType::BitOrAssign => 9,
        DeriveType::BitXor => 10,
        DeriveType::BitXorAssign => 11,
        DeriveType::Div => 12,
        DeriveType::DivAssign => 13,
        DeriveType::Mul => 14,
        DeriveType::MulAssign => 15,
        DeriveType::Rem => 16,
        DeriveType::RemAssign => 17,
        DeriveType::Shl => 18,
        DeriveType::ShlAssign => 19,
        DeriveType::Shr => 20,
        DeriveType::ShrAssign => 21,
        DeriveType::PartialEq => 22,
        DeriveType::Sub => 23,
        DeriveType::SubAssign => 24,
        DeriveType::RangeIter => 25,
    }
}

/// The path of the trait that an item implements; for a range iterator, the
/// path of the iterator type that its method returns.
pub open spec fn spec_trait_path(d: DeriveType) -> Seq<char> {
    match d {
        DeriveType::From => "From"@,
        DeriveType::TryFrom => "TryFrom"@,
        DeriveType::Into => "From"@,
        DeriveType::TryInto => "TryFrom"@,
        DeriveType::Add => "core::ops::Add"@,
        DeriveType::AddAssign => "core::ops::AddAssign"@,
        DeriveType::BitAnd => "core::ops::BitAnd"@,
        DeriveType::BitAndAssign => "core::ops::BitAndAssign"@,
        DeriveType::BitOr => "core::ops::BitOr"@,
        DeriveType::BitOrAssign => "core::ops::BitOrAssign"@,
        DeriveType::BitXor => "core::ops::BitXor"@,
        DeriveType::BitXorAssign => "core::ops::BitXorAssign"@,
        DeriveType::Div => "core::ops::Div"@,
        DeriveType::DivAssign => "core::ops::DivAssign"@,
        DeriveType::Mul => "core::ops::Mul"@,
        DeriveType::MulAssign => "core::ops::MulAssign"@,
        DeriveType::Rem => "core::ops::Rem"@,
        DeriveType::RemAssign => "core::ops::RemAssign"@,
        DeriveType::Shl => "core::ops::Shl"@,
        DeriveType::ShlAssign => "core::ops::ShlAssign"@,
        DeriveType::Shr => "core::ops::Shr"@,
        DeriveType::ShrAssign => "core::ops::ShrAssign"@,
        DeriveType::PartialEq => "PartialEq"@,
        DeriveType::Sub => "core::ops::Sub"@,
        DeriveType::SubAssign => "core::ops::SubAssign"@,
        DeriveType::RangeIter => "newtype_tools::Iterator"@,
    }
}

/// The path of the trait that an item implements.
pub fn trait_path(d: DeriveType) -> (r: &'static str)
    ensures
        r@ == spec_trait_path(d),
{
    match d {
        DeriveType::From => "From",
        DeriveType::TryFrom => "TryFrom",
        DeriveType::Into => "From",
        DeriveType::TryInto => "TryFrom",
        DeriveType::Add => "core::ops::Add",
        DeriveType::AddAssign => "core::ops::AddAssign",
        DeriveType::BitAnd => "core::ops::BitAnd",
        DeriveType::BitAndAssign => "core::ops::BitAndAssign",
        DeriveType::BitOr => "core::ops::BitOr",
        DeriveType::BitOrAssign => "core::ops::BitOrAssign",
        DeriveType::BitXor => "core::ops::BitXor",
        DeriveType::BitXorAssign => "core::ops::BitXorAssign",
        DeriveType::Div => "core::ops::Div",
        DeriveType::DivAssign => "core::ops::DivAssign",
        DeriveType::Mul => "core::ops::Mul",
        DeriveType::MulAssign => "core::ops::MulAssign",
        DeriveType::Rem => "core::ops::Rem",
        DeriveType::RemAssign => "core::ops::RemAssign",
        DeriveType::Shl => "core::ops::Shl",
        DeriveType::ShlAssign => "core::ops::ShlAssign",
        DeriveType::Shr => "core::ops::Shr",
        DeriveType::ShrAssign => "core::ops::ShrAssign",
        DeriveType::PartialEq => "PartialEq",
        DeriveType::Sub => "core::ops::Sub",
        DeriveType::SubAssign => "core::ops::SubAssign",
        DeriveType::RangeIter => "newtype_tools::Iterator",
    }
}

/// The operator symbol of an operator item, without the `=` of the
/// assignments.
pub open spec fn spec_operator(d: DeriveType) -> Option<Seq<char>> {
    match d {
        DeriveType::Add | DeriveType::AddAssign => Some("+"@),
        DeriveType::Sub | DeriveType::SubAssign => Some("-"@),
        DeriveType::Mul | DeriveType::MulAssign => Some("*"@),
        DeriveType::Div | DeriveType::DivAssign => Some("/"@),
        DeriveType::Rem | DeriveType::RemAssign => Some("%"@),
        DeriveType::BitAnd | DeriveType::BitAndAssign => Some("&"@),
        DeriveType::BitOr | DeriveType::BitOrAssign => Some("|"@),
        DeriveType::BitXor | DeriveType::BitXorAssign => Some("^"@),
        DeriveType::Shl | DeriveType::ShlAssign => Some("<<"@),
        DeriveType::Shr | DeriveType::ShrAssign => Some(">>"@),
        _ => None,
    }
}

/// The operator symbol of an operator item.
pub fn operator(d: DeriveType) -> (r: Option<&'static str>)
    ensures
        r is Some <==> spec_operator(d) is Some,
        r matches Some(o) ==> spec_operator(d) == Some(o@),
{
    match d {
        DeriveType::Add | DeriveType::AddAssign => Some("+"),
        DeriveType::Sub | DeriveType::SubAssign => Some("-"),
        DeriveType::Mul | DeriveType::MulAssign => Some("*"),
        DeriveType::Div | DeriveType::DivAssign => Some("/"),
        DeriveType::Rem | DeriveType::RemAssign => Some("%"),
        DeriveType::BitAnd | DeriveType::BitAndAssign => Some("&"),
        DeriveType::BitOr | DeriveType::BitOrAssign => Some("|"),
        DeriveType::BitXor | DeriveType::BitXorAssign => Some("^"),
        DeriveType::Shl | DeriveType::ShlAssign => Some("<<"),
        DeriveType::Shr | DeriveType::ShrAssign => Some(">>"),
        _ => None,
    }
}


/// The method of the trait that an item implements.
pub open spec fn spec_method(d: DeriveType) -> Seq<char> {
    match d {
        DeriveType::From | DeriveType::Into => "from"@,
        DeriveType::TryFrom | DeriveType::TryInto => "try_from"@,
        DeriveType::PartialEq => "eq"@,
        _ => d.spec_name(),
    }
}

/// The method of the trait that an item implements.
pub fn method(d: DeriveType) -> (r: &'static str)
    ensures
        r@ == spec_method(d),
{
    match d {
        DeriveType::From | DeriveType::Into => "from",
        DeriveType::TryFrom | DeriveType::TryInto => "try_from",
        DeriveType::PartialEq => "eq",
        _ => d.name(),
    }
}

/// The conversions `into` and `try_into` are implemented on the other type,
/// as `From<Newtype>` and `TryFrom<Newtype>`; every other item is implemented
/// on the newtype.
pub open spec fn spec_on_other_type(d: DeriveType) -> bool {
    d == DeriveType::Into || d == DeriveType::TryInto
}

/// The item is implemented on the other type.
pub fn on_other_type(d: DeriveType) -> (r: bool)
    ensures
        r == spec_on_other_type(d),
{
    match d {
        DeriveType::Into | DeriveType::TryInto => true,
        _ => false,
    }
}

/// One implementation of an item: whether the receiver and the right-hand side
/// are taken by reference, and whether it is the one that calls the item's
/// expression (the others forward to it).
#[derive(Debug, PartialEq, Eq, Structural, Clone, Copy)]
pub struct ImplForm {
    pub self_by_ref: bool,
    pub rhs_by_ref: bool,
    pub calls_expr: bool,
}

/// The implementations of an item: a binary operator gets four, for every
/// combination of owned and borrowed operands, of which the one on two
/// references calls the expression; an assignment operator gets two, for an
/// owned and a borrowed right-hand side, of which the borrowed one calls the
/// expression; the conversions and the comparison get one, which calls it;
/// a range iterator, which has no expression, gets one that calls none.
pub open spec fn spec_impl_forms(d: DeriveType) -> Seq<ImplForm> {
    if spec_operator(d) is Some && d.spec_extra_keyword() is Some {
        seq![
            ImplForm { self_by_ref: true, rhs_by_ref: true, calls_expr: true },
            ImplForm { self_by_ref: false, rhs_by_ref: true, calls_expr: false },
            ImplForm { self_by_ref: true, rhs_by_ref: false, calls_expr: false },
            ImplForm { self_by_ref: false, rhs_by_ref: false, calls_expr: false },
        ]
    } else if spec_operator(d) is Some {
        seq![
            ImplForm { self_by_ref: false, rhs_by_ref: true, calls_expr: true },
            ImplForm { self_by_ref: false, rhs_by_ref: false, calls_expr: false },
        ]
    } else if d == DeriveType::RangeIter {
        seq![ImplForm { self_by_ref: false, rhs_by_ref: false, calls_expr: false }]
    } else {
        seq![ImplForm { self_by_ref: false, rhs_by_ref: false, calls_expr: true }]
    }
}

/// The implementations of an item.
pub fn impl_forms(d: DeriveType) -> (r: Vec<ImplForm>)
    ensures
        r@ == spec_impl_forms(d),
{
    let mut r: Vec<ImplForm> = Vec::new();
    let is_operator = operator(d).is_some();
    if is_operator && d.extra_keyword().is_some() {
        r.push(ImplForm { self_by_ref: true, rhs_by_ref: true, calls_expr: true });
        r.push(ImplForm { self_by_ref: false, rhs_by_ref: true, calls_expr: false });
        r.push(ImplForm { self_by_ref: true, rhs_by_ref: false, calls_expr: false });
        r.push(ImplForm { self_by_ref: false, rhs_by_ref: false, calls_expr: false });
    } else if is_operator {
        r.push(ImplForm { self_by_ref: false, rhs_by_ref: true, calls_expr: true });
        r.push(ImplForm { self_by_ref: false, rhs_by_ref: false, calls_expr: false });
    } else if d == DeriveType::RangeIter {
        r.push(ImplForm { self_by_ref: false, rhs_by_ref: false, calls_expr: false });
    } else {
        r.push(ImplForm { self_by_ref: false, rhs_by_ref: false, calls_expr: true });
    }
    assert(r@ =~= spec_impl_forms(d));
    r
}

/// The derive types of the items, in the order they are written.
pub open spec fn kinds_of(entries: Seq<DeriveEntry>) -> Seq<DeriveType> {
    entries.map_values(|e: DeriveEntry| e.derive_type)
}

/// The indices, among the first `n` items, of the items in section `r`, in
/// the order they are written.
pub open spec fn ranked_indices(kinds: Seq<DeriveType>, r: nat, n: nat) -> Seq<usize>
    decreases n,
{
    if n == 0 {
        seq![]
    } else {
        let before = ranked_indices(kinds, r, (n - 1) as nat);
        if section_rank(kinds[n - 1]) == r {
            before.push((n - 1) as usize)
        } else {
            before
        }
    }
}

/// The indices of the items of the first `r` sections, section by section,
/// each in the order the items are written.
pub open spec fn plan_upto(kinds: Seq<DeriveType>, r: nat) -> Seq<usize>
    decreases r,
{
    if r == 0 {
        seq![]
    } else {
        plan_upto(kinds, (r - 1) as nat) + ranked_indices(kinds, (r - 1) as nat, kinds.len())
    }
}

/// The number of sections.
pub open spec fn section_count() -> nat {
    26
}

/// The order in which the items of the derive are expanded: section by
/// section, and within a section in the order they are written.
pub open spec fn spec_expansion_plan(kinds: Seq<DeriveType>) -> Seq<usize> {
    plan_upto(kinds, section_count())
}

/// The order in which the items of the derive are expanded, as indices into
/// its items.
pub fn expansion_plan(derives: &NewtypeDerives) -> (r: Vec<usize>)
    ensures
        r@ == spec_expansion_plan(kinds_of(derives.entries@)),
{
    let ghost kinds = kinds_of(derives.entries@);
    let n = derives.entries.len();
    let mut plan: Vec<usize> = Vec::new();
    let mut r: usize = 0;
    while r < 26
        invariant
            r <= 26,
            n == derives.entries@.len(),
            kinds == kinds_of(derives.entries@),
            plan@ == plan_upto(kinds, r as nat),
        decreases 26 - r,
    {
        let mut i: usize = 0;
        while i < n
            invariant
                i <= n,
                r < 26,
                n == derives.entries@.len(),
                kinds == kinds_of(derives.entries@),
                plan@ == plan_upto(kinds, r as nat) + ranked_indices(kinds, r as nat, i as nat),
            decreases n - i,
        {
            let ghost before = plan@;
            if rank(derives.entries[i].derive_type) == r {
                plan.push(i);
            }
            assert(kinds[i as int] == derives.entries@[i as int].derive_type);
            assert(plan@ =~= plan_upto(kinds, r as nat) + ranked_indices(kinds, r as nat, (i + 1) as nat));
            i = i + 1;
        }
        assert(plan_upto(kinds, (r + 1) as nat) == plan_upto(kinds, r as nat) + ranked_indices(kinds, r as nat, kinds.len()));
        r = r + 1;
    }
    plan
}

/// Item `x` comes before item `y` in the expansion: in an earlier section, or
/// in the same section and written earlier.
pub open spec fn expanded_before(kinds: Seq<DeriveType>, x: usize, y: usize) -> bool {
    ||| section_rank(kinds[x as int]) < section_rank(kinds[y as int])
    ||| section_rank(kinds[x as int]) == section_rank(kinds[y as int]) && x < y
}

/// The items of section `r` among the first `n`: exactly those, in the order
/// they are written.
proof fn lemma_ranked_indices(kinds: Seq<DeriveType>, r: nat, n: nat)
    requires
        n <= kinds.len(),
        kinds.len() <= usize::MAX,
    ensures
        forall|a: int|
            0 <= a < ranked_indices(kinds, r, n).len() ==> ranked_indices(kinds, r, n)[a] < n
                && section_rank(kinds[ranked_indices(kinds, r, n)[a] as int]) == r,
        forall|a: int, b: int|
            0 <= a < b < ranked_indices(kinds, r, n).len() ==> ranked_indices(kinds, r, n)[a]
                < ranked_indices(kinds, r, n)[b],
        forall|i: int|
            0 <= i < n && section_rank(kinds[i]) == r ==> ranked_indices(kinds, r, n).contains(
                i as usize,
            ),
    decreases n,
{
    if n > 0 {
        lemma_ranked_indices(kinds, r, (n - 1) as nat);
        let before = ranked_indices(kinds, r, (n - 1) as nat);
        if section_rank(kinds[n - 1]) == r {
            let now = before.push((n - 1) as usize);
            assert(now[now.len() - 1] == (n - 1) as usize);
            assert forall|i: int| 0 <= i < n && section_rank(kinds[i]) == r implies now.contains(
                i as usize,
            ) by {
                if i < n - 1 {
                    let k = choose|k: int| 0 <= k < before.len() && before[k] == i as usize;
                    assert(now[k] == i as usize);
                }
            }
        }
    }
}

/// The items of the first `r` sections: exactly those, section by section,
/// each in the order the items are written.
proof fn lemma_plan_upto(kinds: Seq<DeriveType>, r: nat)
    requires
        kinds.len() <= usize::MAX,
    ensures
        forall|a: int|
            0 <= a < plan_upto(kinds, r).len() ==> plan_upto(kinds, r)[a] < kinds.len()
                && section_rank(kinds[plan_upto(kinds, r)[a] as int]) < r,
        forall|a: int, b: int|
            0 <= a < b < plan_upto(kinds, r).len() ==> expanded_before(
                kinds,
                plan_upto(kinds, r)[a],
                plan_upto(kinds, r)[b],
            ),
        forall|i: int|
            0 <= i < kinds.len() && section_rank(kinds[i]) < r ==> plan_upto(kinds, r).contains(
                i as usize,
            ),
    decreases r,
{
    if r > 0 {
        let rr = (r - 1) as nat;
        lemma_plan_upto(kinds, rr);
        lemma_ranked_indices(kinds, rr, kinds.len());
        let before = plan_upto(kinds, rr);
        let part = ranked_indices(kinds, rr, kinds.len());
        let now = before + part;
        assert(now == plan_upto(kinds, r));
        assert forall|a: int| 0 <= a < now.len() implies now[a] < kinds.len() && section_rank(
            kinds[now[a] as int],
        ) < r by {
            if a >= before.len() {
                assert(now[a] == part[a - before.len()]);
            }
        }
        assert forall|a: int, b: int| 0 <= a < b < now.len() implies expanded_before(
            kinds,
            now[a],
            now[b],
        ) by {
            if b < before.len() {
            } else if a < before.len() {
                assert(now[b] == part[b - before.len()]);
            } else {
                assert(now[a] == part[a - before.len()]);
                assert(now[b] == part[b - before.len()]);
            }
        }
        assert forall|i: int| 0 <= i < kinds.len() && section_rank(kinds[i]) < r implies now.contains(
            i as usize,
        ) by {
            if section_rank(kinds[i]) < rr {
                let k = choose|k: int| 0 <= k < before.len() && before[k] == i as usize;
                assert(now[k] == i as usize);
            } else {
                let k = choose|k: int| 0 <= k < part.len() && part[k] == i as usize;
                assert(now[before.len() + k] == i as usize);
            }
        }
    }
}

/// Every item of the derive is expanded exactly once: the plan lists the
/// index of each item, section by section, and within a section in the order
/// the items are written.
pub proof fn law_expansion_plan_sorts(kinds: Seq<DeriveType>)
    requires
        kinds.len() <= usize::MAX,
    ensures
        forall|i: int|
            #![trigger kinds[i]]
            0 <= i < kinds.len() ==> spec_expansion_plan(kinds).contains(i as usize),
        forall|a: int|
            0 <= a < spec_expansion_plan(kinds).len() ==> spec_expansion_plan(kinds)[a] < kinds.len(),
        forall|a: int, b: int|
            0 <= a < b < spec_expansion_plan(kinds).len() ==> expanded_before(
                kinds,
                spec_expansion_plan(kinds)[a],
                spec_expansion_plan(kinds)[b],
            ),
{
    lemma_plan_upto(kinds, section_count());
    assert forall|i: int| 0 <= i < kinds.len() implies #[trigger] spec_expansion_plan(kinds).contains(
        i as usize,
    ) by {
        assert(section_rank(kinds[i]) < section_count());
    }
}

/// The operator symbol written for a binary operator item with the given name.
pub open spec fn symbol_of_name(name: Seq<char>) -> Seq<char> {
    if name == "add"@ {
        "+"@
    } else if name == "sub"@ {
        "-"@
    } else if name == "mul"@ {
        "*"@
    } else if name == "div"@ {
        "/"@
    } else if name == "rem"@ {
        "%"@
    } else if name == "bitand"@ {
        "&"@
    } else if name == "bitor"@ {
        "|"@
    } else if name == "bitxor"@ {
        "^"@
    } else if name == "shl"@ {
        "<<"@
    } else {
        ">>"@
    }
}

/// The `core::ops` trait of a binary operator item with the given name.
pub open spec fn ops_trait_of_name(name: Seq<char>) -> Seq<char> {
    if name == "add"@ {
        "Add"@
    } else if name == "sub"@ {
        "Sub"@
    } else if name == "mul"@ {
        "Mul"@
    } else if name == "div"@ {
        "Div"@
    } else if name == "rem"@ {
        "Rem"@
    } else if name == "bitand"@ {
        "BitAnd"@
    } else if name == "bitor"@ {
        "BitOr"@
    } else if name == "bitxor"@ {
        "BitXor"@
    } else if name == "shl"@ {
        "Shl"@
    } else {
        "Shr"@
    }
}

/// The paths of the `core::ops` traits and the names of the assignment items
/// are built from the trait and the name of the binary operator.
proof fn lemma_operator_literals()
    ensures
        "core::ops::Add"@ == "core::ops::"@ + "Add"@,
        "core::ops::Sub"@ == "core::ops::"@ + "Sub"@,
        "core::ops::Mul"@ == "core::ops::"@ + "Mul"@,
        "core::ops::Div"@ == "core::ops::"@ + "Div"@,
        "core::ops::Rem"@ == "core::ops::"@ + "Rem"@,
        "core::ops::BitAnd"@ == "core::ops::"@ + "BitAnd"@,
        "core::ops::BitOr"@ == "core::ops::"@ + "BitOr"@,
        "core::ops::BitXor"@ == "core::ops::"@ + "BitXor"@,
        "core::ops::Shl"@ == "core::ops::"@ + "Shl"@,
        "core::ops::Shr"@ == "core::ops::"@ + "Shr"@,
        "core::ops::AddAssign"@ == "core::ops::Add"@ + "Assign"@,
        "core::ops::SubAssign"@ == "core::ops::Sub"@ + "Assign"@,
        "core::ops::MulAssign"@ == "core::ops::Mul"@ + "Assign"@,
        "core::ops::DivAssign"@ == "core::ops::Div"@ + "Assign"@,
        "core::ops::RemAssign"@ == "core::ops::Rem"@ + "Assign"@,
        "core::ops::BitAndAssign"@ == "core::ops::BitAnd"@ + "Assign"@,
        "core::ops::BitOrAssign"@ == "core::ops::BitOr"@ + "Assign"@,
        "core::ops::BitXorAssign"@ == "core::ops::BitXor"@ + "Assign"@,
        "core::ops::ShlAssign"@ == "core::ops::Shl"@ + "Assign"@,
        "core::ops::ShrAssign"@ == "core::ops::Shr"@ + "Assign"@,
        "add_assign"@ == "add"@ + "_assign"@,
        "sub_assign"@ == "sub"@ + "_assign"@,
        "mul_assign"@ == "mul"@ + "_assign"@,
        "div_assign"@ == "div"@ + "_assign"@,
        "rem_assign"@ == "rem"@ + "_assign"@,
        "bitand_assign"@ == "bitand"@ + "_assign"@,
        "bitor_assign"@ == "bitor"@ + "_assign"@,
        "bitxor_assign"@ == "bitxor"@ + "_assign"@,
        "shl_assign"@ == "shl"@ + "_assign"@,
        "shr_assign"@ == "shr"@ + "_assign"@,
{
    reveal_strlit("core::ops::");
    reveal_strlit("Assign");
    reveal_strlit("_assign");
    reveal_strlit("Add");
    reveal_strlit("Sub");
    reveal_strlit("Mul");
    reveal_strlit("Div");
    reveal_strlit("Rem");
    reveal_strlit("BitAnd");
    reveal_strlit("BitOr");
    reveal_strlit("BitXor");
    reveal_strlit("Shl");
    reveal_strlit("Shr");
    reveal_strlit("core::ops::Add");
    reveal_strlit("core::ops::Sub");
    reveal_strlit("core::ops::Mul");
    reveal_strlit("core::ops::Div");
    reveal_strlit("core::ops::Rem");
    reveal_strlit("core::ops::BitAnd");
    reveal_strlit("core::ops::BitOr");
    reveal_strlit("core::ops::BitXor");
    reveal_strlit("core::ops::Shl");
    reveal_strlit("core::ops::Shr");
    reveal_strlit("core::ops::AddAssign");
    reveal_strlit("core::ops::SubAssign");
    reveal_strlit("core::ops::MulAssign");
    reveal_strlit("core::ops::DivAssign");
    reveal_strlit("core::ops::RemAssign");
    reveal_strlit("core::ops::BitAndAssign");
    reveal_strlit("core::ops::BitOrAssign");
    reveal_strlit("core::ops::BitXorAssign");
    reveal_strlit("core::ops::ShlAssign");
    reveal_strlit("core::ops::ShrAssign");
    reveal_strlit("add");
    reveal_strlit("sub");
    reveal_strlit("mul");
    reveal_strlit("div");
    reveal_strlit("rem");
    reveal_strlit("bitand");
    reveal_strlit("bitor");
    reveal_strlit("bitxor");
    reveal_strlit("shl");
    reveal_strlit("shr");
    reveal_strlit("add_assign");
    reveal_strlit("sub_assign");
    reveal_strlit("mul_assign");
    reveal_strlit("div_assign");
    reveal_strlit("rem_assign");
    reveal_strlit("bitand_assign");
    reveal_strlit("bitor_assign");
    reveal_strlit("bitxor_assign");
    reveal_strlit("shl_assign");
    reveal_strlit("shr_assign");
    assert("core::ops::Add"@ =~= "core::ops::"@ + "Add"@);
    assert("core::ops::Sub"@ =~= "core::ops::"@ + "Sub"@);
    assert("core::ops::Mul"@ =~= "core::ops::"@ + "Mul"@);
    assert("core::ops::Div"@ =~= "core::ops::"@ + "Div"@);
    assert("core::ops::Rem"@ =~= "core::ops::"@ + "Rem"@);
    assert("core::ops::BitAnd"@ =~= "core::ops::"@ + "BitAnd"@);
    assert("core::ops::BitOr"@ =~= "core::ops::"@ + "BitOr"@);
    assert("core::ops::BitXor"@ =~= "core::ops::"@ + "BitXor"@);
    assert("core::ops::Shl"@ =~= "core::ops::"@ + "Shl"@);
    assert("core::ops::Shr"@ =~= "core::ops::"@ + "Shr"@);
    assert("core::ops::AddAssign"@ =~= "core::ops::Add"@ + "Assign"@);
    assert("core::ops::SubAssign"@ =~= "core::ops::Sub"@ + "Assign"@);
    assert("core::ops::MulAssign"@ =~= "core::ops::Mul"@ + "Assign"@);
    assert("core::ops::DivAssign"@ =~= "core::ops::Div"@ + "Assign"@);
    assert("core::ops::RemAssign"@ =~= "core::ops::Rem"@ + "Assign"@);
    assert("core::ops::BitAndAssign"@ =~= "core::ops::BitAnd"@ + "Assign"@);
    assert("core::ops::BitOrAssign"@ =~= "core::ops::BitOr"@ + "Assign"@);
    assert("core::ops::BitXorAssign"@ =~= "core::ops::BitXor"@ + "Assign"@);
    assert("core::ops::ShlAssign"@ =~= "core::ops::Shl"@ + "Assign"@);
    assert("core::ops::ShrAssign"@ =~= "core::ops::Shr"@ + "Assign"@);
    assert("add_assign"@ =~= "add"@ + "_assign"@);
    assert("sub_assign"@ =~= "sub"@ + "_assign"@);
    assert("mul_assign"@ =~= "mul"@ + "_assign"@);
    assert("div_assign"@ =~= "div"@ + "_assign"@);
    assert("rem_assign"@ =~= "rem"@ + "_assign"@);
    assert("bitand_assign"@ =~= "bitand"@ + "_assign"@);
    assert("bitor_assign"@ =~= "bitor"@ + "_assign"@);
    assert("bitxor_assign"@ =~= "bitxor"@ + "_assign"@);
    assert("shl_assign"@ =~= "shl"@ + "_assign"@);
    assert("shr_assign"@ =~= "shr"@ + "_assign"@);
}

/// A binary operator item implements the `core::ops` trait that its name
/// names, with the method of that name, on the newtype, in four forms, and
/// writes the operator of that trait.
pub proof fn law_binary_operator_items(d: DeriveType)
    requires
        is_binary_operator_name(d.spec_name()),
    ensures
        spec_operator(d) == Some(symbol_of_name(d.spec_name())),
        spec_trait_path(d) == "core::ops::"@ + ops_trait_of_name(d.spec_name()),
        spec_method(d) == d.spec_name(),
        !spec_on_other_type(d),
        spec_impl_forms(d).len() == 4,
{
    lemma_operator_literals();
    lemma_name_identifies(d, DeriveType::Add);
    lemma_name_identifies(d, DeriveType::Sub);
    lemma_name_identifies(d, DeriveType::Mul);
    lemma_name_identifies(d, DeriveType::Div);
    lemma_name_identifies(d, DeriveType::Rem);
    lemma_name_identifies(d, DeriveType::BitAnd);
    lemma_name_identifies(d, DeriveType::BitOr);
    lemma_name_identifies(d, DeriveType::BitXor);
    lemma_name_identifies(d, DeriveType::Shl);
    lemma_name_identifies(d, DeriveType::Shr);
    law_extra_keyword_by_name(d);
}

/// The assignment item `name_assign` of a binary operator item `name` writes
/// the same operator, implements the trait of the operator with `Assign`
/// after it, with the method `name_assign`, on the newtype, in two forms.
pub proof fn law_assignment_items(d: DeriveType, a: DeriveType)
    requires
        is_binary_operator_name(d.spec_name()),
        a.spec_name() == d.spec_name() + "_assign"@,
    ensures
        spec_operator(a) == spec_operator(d),
        spec_trait_path(a) == spec_trait_path(d) + "Assign"@,
        spec_method(a) == spec_method(d) + "_assign"@,
        !spec_on_other_type(a),
        a.spec_extra_keyword() is None,
        spec_impl_forms(a).len() == 2,
{
    lemma_operator_literals();
    law_binary_operator_items(d);
    lemma_name_identifies(d, DeriveType::Add);
    lemma_name_identifies(d, DeriveType::Sub);
    lemma_name_identifies(d, DeriveType::Mul);
    lemma_name_identifies(d, DeriveType::Div);
    lemma_name_identifies(d, DeriveType::Rem);
    lemma_name_identifies(d, DeriveType::BitAnd);
    lemma_name_identifies(d, DeriveType::BitOr);
    lemma_name_identifies(d, DeriveType::BitXor);
    lemma_name_identifies(d, DeriveType::Shl);
    lemma_name_identifies(d, DeriveType::Shr);
    lemma_name_identifies(a, DeriveType::AddAssign);
    lemma_name_identifies(a, DeriveType::SubAssign);
    lemma_name_identifies(a, DeriveType::MulAssign);
    lemma_name_identifies(a, DeriveType::DivAssign);
    lemma_name_identifies(a, DeriveType::RemAssign);
    lemma_name_identifies(a, DeriveType::BitAndAssign);
    lemma_name_identifies(a, DeriveType::BitOrAssign);
    lemma_name_identifies(a, DeriveType::BitXorAssign);
    lemma_name_identifies(a, DeriveType::ShlAssign);
    lemma_name_identifies(a, DeriveType::ShrAssign);
    law_extra_keyword_by_name(a);
}

/// The conversions go the way their names say: `from` and `try_from` are
/// implemented on the newtype, from the other type, and `into` and
/// `try_into` on the other type, from the newtype; `from` and `into`
/// implement `From` with `from`, `try_from` and `try_into` implement `TryFrom`
/// with `try_from`; no other item is implemented on the other type.
pub proof fn law_conversion_items(d: DeriveType)
    ensures
        spec_on_other_type(d) <==> (d.spec_name() == "into"@ || d.spec_name() == "try_into"@),
        (d.spec_name() == "from"@ || d.spec_name() == "into"@) ==> spec_trait_path(d) == "From"@
            && spec_method(d) == "from"@,
        (d.spec_name() == "try_from"@ || d.spec_name() == "try_into"@) ==> spec_trait_path(d)
            == "TryFrom"@ && spec_method(d) == "try_from"@,
{
    lemma_name_identifies(d, DeriveType::From);
    lemma_name_identifies(d, DeriveType::Into);
    lemma_name_identifies(d, DeriveType::TryFrom);
    lemma_name_identifies(d, DeriveType::TryInto);
}

} // verus!
