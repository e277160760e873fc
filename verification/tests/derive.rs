use newtype_tools::derive::{DeriveType, NewtypeKind};

#[test]
fn newtype_kind_display_roundtrip() {
    assert_eq!(NewtypeKind::Amount.to_string(), "Amount");
    assert_eq!(NewtypeKind::Id.to_string(), "Id");
}

#[test]
fn derive_type_display_roundtrip() {
    assert_eq!(DeriveType::From.to_string(), "from");
    assert_eq!(DeriveType::TryFrom.to_string(), "try_from");
    assert_eq!(DeriveType::Into.to_string(), "into");
    assert_eq!(DeriveType::TryInto.to_string(), "try_into");
    assert_eq!(DeriveType::Add.to_string(), "add");
    assert_eq!(DeriveType::AddAssign.to_string(), "add_assign");
    assert_eq!(DeriveType::BitAnd.to_string(), "bitand");
    assert_eq!(DeriveType::BitAndAssign.to_string(), "bitand_assign");
    assert_eq!(DeriveType::BitOr.to_string(), "bitor");
    assert_eq!(DeriveType::BitOrAssign.to_string(), "bitor_assign");
    assert_eq!(DeriveType::BitXor.to_string(), "bitxor");
    assert_eq!(DeriveType::BitXorAssign.to_string(), "bitxor_assign");
    assert_eq!(DeriveType::Div.to_string(), "div");
    assert_eq!(DeriveType::DivAssign.to_string(), "div_assign");
    assert_eq!(DeriveType::Mul.to_string(), "mul");
    assert_eq!(DeriveType::MulAssign.to_string(), "mul_assign");
    assert_eq!(DeriveType::Rem.to_string(), "rem");
    assert_eq!(DeriveType::RemAssign.to_string(), "rem_assign");
    assert_eq!(DeriveType::Shl.to_string(), "shl");
    assert_eq!(DeriveType::ShlAssign.to_string(), "shl_assign");
    assert_eq!(DeriveType::Shr.to_string(), "shr");
    assert_eq!(DeriveType::ShrAssign.to_string(), "shr_assign");
    assert_eq!(DeriveType::PartialEq.to_string(), "partial_eq");
    assert_eq!(DeriveType::Sub.to_string(), "sub");
    assert_eq!(DeriveType::SubAssign.to_string(), "sub_assign");
}

#[test]
fn attr_type_display_roundtrip() {
    assert_eq!(DeriveType::From.to_string(), "from");
    assert_eq!(DeriveType::TryFrom.to_string(), "try_from");
    assert_eq!(DeriveType::Into.to_string(), "into");
    assert_eq!(DeriveType::TryInto.to_string(), "try_into");
    assert_eq!(DeriveType::Add.to_string(), "add");
    assert_eq!(DeriveType::AddAssign.to_string(), "add_assign");
    assert_eq!(DeriveType::BitAnd.to_string(), "bitand");
    assert_eq!(DeriveType::BitAndAssign.to_string(), "bitand_assign");
    assert_eq!(DeriveType::BitOr.to_string(), "bitor");
    assert_eq!(DeriveType::BitOrAssign.to_string(), "bitor_assign");
    assert_eq!(DeriveType::BitXor.to_string(), "bitxor");
    assert_eq!(DeriveType::BitXorAssign.to_string(), "bitxor_assign");
    assert_eq!(DeriveType::Div.to_string(), "div");
    assert_eq!(DeriveType::DivAssign.to_string(), "div_assign");
    assert_eq!(DeriveType::Mul.to_string(), "mul");
    assert_eq!(DeriveType::MulAssign.to_string(), "mul_assign");
    assert_eq!(DeriveType::PartialEq.to_string(), "partial_eq");
    assert_eq!(DeriveType::Sub.to_string(), "sub");
    assert_eq!(DeriveType::SubAssign.to_string(), "sub_assign");
}

#[test]
fn newtype_kind_name_roundtrip() {
    for kind in [NewtypeKind::Amount, NewtypeKind::Id] {
        assert_eq!(NewtypeKind::from_name(kind.name()), Some(kind));
    }
    assert_eq!(NewtypeKind::from_name("Other"), None);
    assert_eq!(NewtypeKind::from_name("amount"), None);
}

#[test]
fn derive_type_name_roundtrip() {
    let all = [
        DeriveType::From,
        DeriveType::TryFrom,
        DeriveType::Into,
        DeriveType::TryInto,
        DeriveType::Add,
        DeriveType::AddAssign,
        DeriveType::BitAnd,
        DeriveType::BitAndAssign,
        DeriveType::BitOr,
        DeriveType::BitOrAssign,
        DeriveType::BitXor,
        DeriveType::BitXorAssign,
        DeriveType::Div,
        DeriveType::DivAssign,
        DeriveType::Mul,
        DeriveType::MulAssign,
        DeriveType::Rem,
        DeriveType::RemAssign,
        DeriveType::Shl,
        DeriveType::ShlAssign,
        DeriveType::Shr,
        DeriveType::ShrAssign,
        DeriveType::PartialEq,
        DeriveType::Sub,
        DeriveType::SubAssign,
        DeriveType::RangeIter,
    ];
    for d in all {
        assert_eq!(DeriveType::from_name(d.name()), Some(d));
    }
    assert_eq!(DeriveType::from_name("range_iter"), Some(DeriveType::RangeIter));
    assert_eq!(DeriveType::from_name("range"), None);
    assert_eq!(DeriveType::from_name(""), None);
}
