//! The items of the `Newtype` derive and their names.
use vstd::prelude::*;
use crate::derive::kind::str_eq;

verus! {

/// The item named in a `#[newtype(item(...))]` attribute of the `Newtype`
/// derive: a conversion, an operator, a comparison or a range iterator to
/// implement.
#[derive(Debug, PartialEq, Eq, Structural, Clone, Copy)]
pub enum DeriveType {
    /// `from(...)`
    From,
    /// `into(...)`
    Into,
    /// `try_from(...)`
    TryFrom,
    /// `try_into(...)`
    TryInto,
    /// `partial_eq(...)`
    PartialEq,
    /// `add(...)`
    Add,
    /// `sub(...)`
    Sub,
    /// `mul(...)`
    Mul,
    /// `div(...)`
    Div,
    /// `rem(...)`
    Rem,
    /// `bitand(...)`
    BitAnd,
    /// `bitor(...)`
    BitOr,
    /// `bitxor(...)`
    BitXor,
    /// `shl(...)`
    Shl,
    /// `shr(...)`
    Shr,
    /// `add_assign(...)`
    AddAssign,
    /// `sub_assign(...)`
    SubAssign,
    /// `mul_assign(...)`
    MulAssign,
    /// `div_assign(...)`
    DivAssign,
    /// `rem_assign(...)`
    RemAssign,
    /// `bitand_assign(...)`
    BitAndAssign,
    /// `bitor_assign(...)`
    BitOrAssign,
    /// `bitxor_assign(...)`
    BitXorAssign,
    /// `shl_assign(...)`
    ShlAssign,
    /// `shr_assign(...)`
    ShrAssign,
    /// `range_iter(...)`
    RangeIter,
}

/// The derive type that an attribute name selects.
pub open spec fn derive_type_from_name(name: Seq<char>) -> Option<DeriveType> {
    if name == "from"@ {
        Some(DeriveType::From)
    } else if name == "into"@ {
        Some(DeriveType::Into)
    } else if name == "try_from"@ {
        Some(DeriveType::TryFrom)
    } else if name == "try_into"@ {
        Some(DeriveType::TryInto)
    } else if name == "partial_eq"@ {
        Some(DeriveType::PartialEq)
    } else if name == "add"@ {
        Some(DeriveType::Add)
    } else if name == "sub"@ {
        Some(DeriveType::Sub)
    } else if name == "mul"@ {
        Some(DeriveType::Mul)
    } else if name == "div"@ {
        Some(DeriveType::Div)
    } else if name == "rem"@ {
        Some(DeriveType::Rem)
    } else if name == "bitand"@ {
        Some(DeriveType::BitAnd)
    } else if name == "bitor"@ {
        Some(DeriveType::BitOr)
    } else if name == "bitxor"@ {
        Some(DeriveType::BitXor)
    } else if name == "shl"@ {
        Some(DeriveType::Shl)
    } else if name == "shr"@ {
        Some(DeriveType::Shr)
    } else if name == "add_assign"@ {
        Some(DeriveType::AddAssign)
    } else if name == "sub_assign"@ {
        Some(DeriveType::SubAssign)
    } else if name == "mul_assign"@ {
        Some(DeriveType::MulAssign)
    } else if name == "div_assign"@ {
        Some(DeriveType::DivAssign)
    } else if name == "rem_assign"@ {
        Some(DeriveType::RemAssign)
    } else if name == "bitand_assign"@ {
        Some(DeriveType::BitAndAssign)
    } else if name == "bitor_assign"@ {
        Some(DeriveType::BitOrAssign)
    } else if name == "bitxor_assign"@ {
        Some(DeriveType::BitXorAssign)
    } else if name == "shl_assign"@ {
        Some(DeriveType::ShlAssign)
    } else if name == "shr_assign"@ {
        Some(DeriveType::ShrAssign)
    } else if name == "range_iter"@ {
        Some(DeriveType::RangeIter)
    } else {
        None
    }
}

impl DeriveType {
    /// The name of the derive type in the attribute.
    pub open spec fn spec_name(self) -> Seq<char> {
        match self {
            DeriveType::From => "from"@,
            DeriveType::Into => "into"@,
            DeriveType::TryFrom => "try_from"@,
            DeriveType::TryInto => "try_into"@,
            DeriveType::PartialEq => "partial_eq"@,
            DeriveType::Add => "add"@,
            DeriveType::Sub => "sub"@,
            DeriveType::Mul => "mul"@,
            DeriveType::Div => "div"@,
            DeriveType::Rem => "rem"@,
            DeriveType::BitAnd => "bitand"@,
            DeriveType::BitOr => "bitor"@,
            DeriveType::BitXor => "bitxor"@,
            DeriveType::Shl => "shl"@,
            DeriveType::Shr => "shr"@,
            DeriveType::AddAssign => "add_assign"@,
            DeriveType::SubAssign => "sub_assign"@,
            DeriveType::MulAssign => "mul_assign"@,
            DeriveType::DivAssign => "div_assign"@,
            DeriveType::RemAssign => "rem_assign"@,
            DeriveType::BitAndAssign => "bitand_assign"@,
            DeriveType::BitOrAssign => "bitor_assign"@,
            DeriveType::BitXorAssign => "bitxor_assign"@,
            DeriveType::ShlAssign => "shl_assign"@,
            DeriveType::ShrAssign => "shr_assign"@,
            DeriveType::RangeIter => "range_iter"@,
        }
    }

    /// The name of the derive type in the attribute.
    pub fn name(&self) -> (r: &'static str)
        ensures
            r@ == self.spec_name(),
    {
        match self {
            DeriveType::From => "from",
            DeriveType::Into => "into",
            DeriveType::TryFrom => "try_from",
            DeriveType::TryInto => "try_into",
            DeriveType::PartialEq => "partial_eq",
            DeriveType::Add => "add",
            DeriveType::Sub => "sub",
            DeriveType::Mul => "mul",
            DeriveType::Div => "div",
            DeriveType::Rem => "rem",
            DeriveType::BitAnd => "bitand",
            DeriveType::BitOr => "bitor",
            DeriveType::BitXor => "bitxor",
            DeriveType::Shl => "shl",
            DeriveType::Shr => "shr",
            DeriveType::AddAssign => "add_assign",
            DeriveType::SubAssign => "sub_assign",
            DeriveType::MulAssign => "mul_assign",
            DeriveType::DivAssign => "div_assign",
            DeriveType::RemAssign => "rem_assign",
            DeriveType::BitAndAssign => "bitand_assign",
            DeriveType::BitOrAssign => "bitor_assign",
            DeriveType::BitXorAssign => "bitxor_assign",
            DeriveType::ShlAssign => "shl_assign",
            DeriveType::ShrAssign => "shr_assign",
            DeriveType::RangeIter => "range_iter",
        }
    }

    /// The name of the derive type in the attribute, as a `String`.
    pub fn to_string(&self) -> (r: String)
        ensures
            r@ == self.spec_name(),
    {
        self.name().to_owned()
    }

    /// The derive type that an attribute name selects.
    pub fn from_name(name: &str) -> (r: Option<DeriveType>)
        ensures
            r == derive_type_from_name(name@),
    {
        if str_eq(name, "from") {
            return Some(DeriveType::From);
        }
        if str_eq(name, "into") {
            return Some(DeriveType::Into);
        }
        if str_eq(name, "try_from") {
            return Some(DeriveType::TryFrom);
        }
        if str_eq(name, "try_into") {
            return Some(DeriveType::TryInto);
        }
        if str_eq(name, "partial_eq") {
            return Some(DeriveType::PartialEq);
        }
        if str_eq(name, "add") {
            return Some(DeriveType::Add);
        }
        if str_eq(name, "sub") {
            return Some(DeriveType::Sub);
        }
        if str_eq(name, "mul") {
            return Some(DeriveType::Mul);
        }
        if str_eq(name, "div") {
            return Some(DeriveType::Div);
        }
        if str_eq(name, "rem") {
            return Some(DeriveType::Rem);
        }
        if str_eq(name, "bitand") {
            return Some(DeriveType::BitAnd);
        }
        if str_eq(name, "bitor") {
            return Some(DeriveType::BitOr);
        }
        if str_eq(name, "bitxor") {
            return Some(DeriveType::BitXor);
        }
        if str_eq(name, "shl") {
            return Some(DeriveType::Shl);
        }
        if str_eq(name, "shr") {
            return Some(DeriveType::Shr);
        }
        if str_eq(name, "add_assign") {
            return Some(DeriveType::AddAssign);
        }
        if str_eq(name, "sub_assign") {
            return Some(DeriveType::SubAssign);
        }
        if str_eq(name, "mul_assign") {
            return Some(DeriveType::MulAssign);
        }
        if str_eq(name, "div_assign") {
            return Some(DeriveType::DivAssign);
        }
        if str_eq(name, "rem_assign") {
            return Some(DeriveType::RemAssign);
        }
        if str_eq(name, "bitand_assign") {
            return Some(DeriveType::BitAndAssign);
        }
        if str_eq(name, "bitor_assign") {
            return Some(DeriveType::BitOrAssign);
        }
        if str_eq(name, "bitxor_assign") {
            return Some(DeriveType::BitXorAssign);
        }
        if str_eq(name, "shl_assign") {
            return Some(DeriveType::ShlAssign);
        }
        if str_eq(name, "shr_assign") {
            return Some(DeriveType::ShrAssign);
        }
        if str_eq(name, "range_iter") {
            return Some(DeriveType::RangeIter);
        }
        None
    }
}


impl DeriveType {
    /// The keyword that names the second type in the arguments of the item:
    /// `error` for the fallible conversions, `output` for the binary operators,
    /// and none for the other items.
    pub open spec fn spec_extra_keyword(self) -> Option<Seq<char>> {
        match self {
            DeriveType::TryFrom | DeriveType::TryInto => Some("error"@),
            DeriveType::Add | DeriveType::Sub | DeriveType::Mul | DeriveType::Div
            | DeriveType::Rem | DeriveType::BitAnd | DeriveType::BitOr | DeriveType::BitXor
            | DeriveType::Shl | DeriveType::Shr => Some("output"@),
            _ => None,
        }
    }

    /// The keyword that names the second type in the arguments of the item.
    pub fn extra_keyword(&self) -> (r: Option<&'static str>)
        ensures
            r is Some <==> self.spec_extra_keyword() is Some,
            r matches Some(k) ==> self.spec_extra_keyword() == Some(k@),
    {
        match self {
            DeriveType::TryFrom | DeriveType::TryInto => Some("error"),
            DeriveType::Add | DeriveType::Sub | DeriveType::Mul | DeriveType::Div
            | DeriveType::Rem | DeriveType::BitAnd | DeriveType::BitOr | DeriveType::BitXor
            | DeriveType::Shl | DeriveType::Shr => Some("output"),
            _ => None,
        }
    }
}

/// The name of a derive type selects that derive type again.
pub proof fn law_derive_type_name_roundtrip(d: DeriveType)
    ensures
        derive_type_from_name(d.spec_name()) == Some(d),
{
    reveal_strlit("from");
    reveal_strlit("into");
    reveal_strlit("try_from");
    reveal_strlit("try_into");
    reveal_strlit("partial_eq");
    reveal_strlit("add");
    reveal_strlit("sub");
    reveal_strlit("mul");
    reveal_strlit("div");
    reveal_strlit("rem");
    reveal_strlit("bitand");
    reveal_strlit("bitor");
    reveal_strlit("bitxor");
    reveal_strlit("shl");
    reveal_strlit("shr");
    reveal_strlit("add_assign");
    reveal_strlit("sub_assign");
    reveal_strlit("mul_assign");
    reveal_strlit("div_assign");
    reveal_strlit("rem_assign");
    reveal_strlit("bitand_assign");
    reveal_strlit("bitor_assign");
    reveal_strlit("bitxor_assign");
    reveal_strlit("shl_assign");
    reveal_strlit("shr_assign");
    reveal_strlit("range_iter");
    assert("from"@ =~= seq!['f', 'r', 'o', 'm']);
    assert("into"@ =~= seq!['i', 'n', 't', 'o']);
    assert("try_from"@ =~= seq!['t', 'r', 'y', '_', 'f', 'r', 'o', 'm']);
    assert("try_into"@ =~= seq!['t', 'r', 'y', '_', 'i', 'n', 't', 'o']);
    assert("partial_eq"@ =~= seq!['p', 'a', 'r', 't', 'i', 'a', 'l', '_', 'e', 'q']);
    assert("add"@ =~= seq!['a', 'd', 'd']);
    assert("sub"@ =~= seq!['s', 'u', 'b']);
    assert("mul"@ =~= seq!['m', 'u', 'l']);
    assert("div"@ =~= seq!['d', 'i', 'v']);
    assert("rem"@ =~= seq!['r', 'e', 'm']);
    assert("bitand"@ =~= seq!['b', 'i', 't', 'a', 'n', 'd']);
    assert("bitor"@ =~= seq!['b', 'i', 't', 'o', 'r']);
    assert("bitxor"@ =~= seq!['b', 'i', 't', 'x', 'o', 'r']);
    assert("shl"@ =~= seq!['s', 'h', 'l']);
    assert("shr"@ =~= seq!['s', 'h', 'r']);
    assert("add_assign"@ =~= seq!['a', 'd', 'd', '_', 'a', 's', 's', 'i', 'g', 'n']);
    assert("sub_assign"@ =~= seq!['s', 'u', 'b', '_', 'a', 's', 's', 'i', 'g', 'n']);
    assert("mul_assign"@ =~= seq!['m', 'u', 'l', '_', 'a', 's', 's', 'i', 'g', 'n']);
    assert("div_assign"@ =~= seq!['d', 'i', 'v', '_', 'a', 's', 's', 'i', 'g', 'n']);
    assert("rem_assign"@ =~= seq!['r', 'e', 'm', '_', 'a', 's', 's', 'i', 'g', 'n']);
    assert("bitand_assign"@ =~= seq!['b', 'i', 't', 'a', 'n', 'd', '_', 'a', 's', 's', 'i', 'g', 'n']);
    assert("bitor_assign"@ =~= seq!['b', 'i', 't', 'o', 'r', '_', 'a', 's', 's', 'i', 'g', 'n']);
    assert("bitxor_assign"@ =~= seq!['b', 'i', 't', 'x', 'o', 'r', '_', 'a', 's', 's', 'i', 'g', 'n']);
    assert("shl_assign"@ =~= seq!['s', 'h', 'l', '_', 'a', 's', 's', 'i', 'g', 'n']);
    assert("shr_assign"@ =~= seq!['s', 'h', 'r', '_', 'a', 's', 's', 'i', 'g', 'n']);
    assert("range_iter"@ =~= seq!['r', 'a', 'n', 'g', 'e', '_', 'i', 't', 'e', 'r']);
}
/// The item names of the binary operators.
pub open spec fn is_binary_operator_name(name: Seq<char>) -> bool {
    ||| name == "add"@
    ||| name == "sub"@
    ||| name == "mul"@
    ||| name == "div"@
    ||| name == "rem"@
    ||| name == "bitand"@
    ||| name == "bitor"@
    ||| name == "bitxor"@
    ||| name == "shl"@
    ||| name == "shr"@
}

/// The second type of an item is named by `output` exactly for the binary
/// operators (`add`, `sub`, `mul`, `div`, `rem`, `bitand`, `bitor`, `bitxor`,
/// `shl`, `shr`), by `error` exactly for the fallible conversions (`try_from`,
/// `try_into`), and no other item takes one.
pub proof fn law_extra_keyword_by_name(d: DeriveType)
    ensures
        d.spec_extra_keyword() == Some("output"@) <==> is_binary_operator_name(d.spec_name()),
        d.spec_extra_keyword() == Some("error"@) <==> (d.spec_name() == "try_from"@
            || d.spec_name() == "try_into"@),
        d.spec_extra_keyword() is None <==> !(is_binary_operator_name(d.spec_name())
            || d.spec_name() == "try_from"@ || d.spec_name() == "try_into"@),
{
    reveal_strlit("output");
    reveal_strlit("error");
    assert("output"@ =~= seq!['o', 'u', 't', 'p', 'u', 't']);
    assert("error"@ =~= seq!['e', 'r', 'r', 'o', 'r']);
    assert("output"@ != "error"@) by {
        assert("output"@[0] != "error"@[0]);
    }
    lemma_name_identifies(d, DeriveType::Add);
    lemma_name_identifies(d, DeriveType::Sub);
    lemma_name_identifies(d, DeriveType::Mul);
    lemma_name_identifies(d, DeriveType::Div);
    lemma_name_identifies(d, DeriveType::Rem);
    lemma_name_identifies(d, DeriveType::BitAnd);
    lemma_name_identifies(d, DeriveType::BitOr);
    lemma_name_identifies(d, DeriveType::BitXor);
    lemma_name_identifies(d, DeriveType::Shl);
    lemma_name_identifies(d, DeriveType::Shr);
    lemma_name_identifies(d, DeriveType::TryFrom);
    lemma_name_identifies(d, DeriveType::TryInto);
}

/// Two derive types with the same name are the same.
pub proof fn lemma_name_identifies(d: DeriveType, e: DeriveType)
    ensures
        d.spec_name() == e.spec_name() <==> d == e,
{
    law_derive_type_name_roundtrip(d);
    law_derive_type_name_roundtrip(e);
}

} // verus!
