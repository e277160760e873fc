//! The kinds of the `newtype` attribute and their names, and the text
//! comparison that reading names rests on.
use vstd::prelude::*;

verus! {

/// `a` and `b` hold the same text.
pub fn str_eq(a: &str, b: &str) -> (r: bool)
    ensures
        r == (a@ == b@),
{
    a.to_owned() == b.to_owned()
}

/// The kind named in a `#[newtype(Kind)]` attribute: which set of traits
/// the attribute adds to the struct.
#[derive(Debug, PartialEq, Eq, Structural, Clone, Copy)]
pub enum NewtypeKind {
    /// A quantity: it can be added, subtracted, scaled and divided.
    Amount,
    /// An identifier: it can only be compared and converted.
    Id,
}

/// The newtype kind that an attribute name selects.
pub open spec fn newtype_kind_from_name(name: Seq<char>) -> Option<NewtypeKind> {
    if name == "Amount"@ {
        Some(NewtypeKind::Amount)
    } else if name == "Id"@ {
        Some(NewtypeKind::Id)
    } else {
        None
    }
}

impl NewtypeKind {
    /// The name of the kind in the attribute.
    pub open spec fn spec_name(self) -> Seq<char> {
        match self {
            NewtypeKind::Amount => "Amount"@,
            NewtypeKind::Id => "Id"@,
        }
    }

    /// The name of the kind in the attribute.
    pub fn name(&self) -> (r: &'static str)
        ensures
            r@ == self.spec_name(),
    {
        match self {
            NewtypeKind::Amount => "Amount",
            NewtypeKind::Id => "Id",
        }
    }

    /// The name of the kind in the attribute, as a `String`.
    pub fn to_string(&self) -> (r: String)
        ensures
            r@ == self.spec_name(),
    {
        self.name().to_owned()
    }

    /// The kind that an attribute name selects: `Amount` or `Id`.
    pub fn from_name(name: &str) -> (r: Option<NewtypeKind>)
        ensures
            r == newtype_kind_from_name(name@),
    {
        if str_eq(name, "Amount") {
            return Some(NewtypeKind::Amount);
        }
        if str_eq(name, "Id") {
            return Some(NewtypeKind::Id);
        }
        None
    }
}

/// The name of a kind selects that kind again.
pub proof fn law_newtype_kind_name_roundtrip(kind: NewtypeKind)
    ensures
        newtype_kind_from_name(kind.spec_name()) == Some(kind),
{
    reveal_strlit("Amount");
    reveal_strlit("Id");
    assert("Amount"@.len() != "Id"@.len());
}


} // verus!
