use newtype_tools::iter::Step;
use newtype_tools::Newtype;

#[derive(Clone, Debug, PartialOrd, PartialEq)]
struct Apples(u64);

impl From<u64> for Apples {
    fn from(inner: u64) -> Self {
        Apples(inner)
    }
}

impl Newtype for Apples {
    type Inner = u64;
    fn inner(&self) -> &u64 {
        &self.0
    }
    fn from_inner(inner: u64) -> Self {
        Apples(inner)
    }
    fn as_inner(&self) -> &u64 {
        &self.0
    }
}

/// Cover `Step::forward_checked` and `backward_checked` implementation for `step_integer_impls` macro.
#[test]
fn step_integer_impls_forward_backward_checked() {
    assert!(i8::forward_checked(0, usize::MAX).is_none());
    assert!(i8::backward_checked(0, usize::MAX).is_none());
}

fn check_iter(mut iter: newtype_tools::Iterator<Apples>) {
    assert_eq!(iter.len(), 3);
    assert_eq!(iter.size_hint(), (3, Some(3)));
    assert_eq!(iter.clone().count(), 3);
    assert_eq!(iter.clone().next_back(), Some(Apples(2)));
    assert_eq!(iter.clone().nth(1), Some(Apples(1)));
    assert!(iter.clone().is_sorted());
    assert_eq!(iter.next(), Some(Apples(0)));
    assert_eq!(iter.next(), Some(Apples(1)));
    assert_eq!(iter.next(), Some(Apples(2)));
    assert_eq!(iter.next(), None);
    assert_eq!(iter.next(), None);
}

#[test]
fn iter() {
    check_iter(newtype_tools::Iterator::from(&(Apples(0)..Apples(3))));
    check_iter(newtype_tools::Iterator::from(&(Apples(0)..=Apples(2))));
    check_iter(newtype_tools::Iterator::from(&(..Apples(3))));
    check_iter(newtype_tools::Iterator::from(&(..=Apples(2))));
}

fn check_infinite(mut iter: newtype_tools::Iterator<Apples>) {
    assert_eq!(iter.len(), usize::MAX);
    assert_eq!(iter.size_hint(), (usize::MAX, Some(usize::MAX)));
    assert_eq!(iter.clone().count(), usize::MAX);
    assert_eq!(iter.clone().next_back(), Some(Apples(u64::MAX)));
    assert_eq!(iter.clone().nth(1), Some(Apples(2)));
    assert!(iter.clone().is_sorted());
    assert_eq!(iter.next(), Some(Apples(1)));
    assert_eq!(iter.next(), Some(Apples(2)));
}

#[test]
fn infinite_iter() {
    check_infinite(newtype_tools::Iterator::from(&(Apples(1)..)));
    check_infinite(
        newtype_tools::Iterator::from(&(
            std::ops::Bound::Excluded(Apples(0)),
            std::ops::Bound::Unbounded,
        )),
    );
}

#[test]
fn full_iter() {
    let iter = newtype_tools::Iterator::<Apples>::from(&(..));
    assert_eq!(iter.size_hint(), (usize::MAX, None));
    assert!(!iter.is_empty());
}

#[test]
fn empty_iter() {
    let mut iter = newtype_tools::Iterator::from(&(Apples(1)..Apples(1)));
    assert!(iter.is_empty());
    assert_eq!(iter.len(), 0);
    assert_eq!(iter.size_hint(), (0, Some(0)));
    assert_eq!(iter.clone().count(), 0);
    assert_eq!(iter.clone().next_back(), None);
    assert_eq!(iter.clone().nth(1), None);
    assert!(iter.clone().is_sorted());
    assert_eq!(iter.next(), None);
    assert_eq!(iter.next(), None);
}

/// `nth` skips values and yields the one after them, at the edges too.
#[test]
fn nth_values() {
    let mut iter = newtype_tools::Iterator::from(&(Apples(5)..Apples(9)));
    assert_eq!(iter.nth(2), Some(Apples(7)));
    assert_eq!(iter.next(), Some(Apples(8)));
    assert_eq!(iter.nth(0), None);
    let mut iter = newtype_tools::Iterator::from(&(Apples(u64::MAX - 2)..));
    assert_eq!(iter.nth(2), Some(Apples(u64::MAX)));
    assert!(iter.is_empty());
    let mut iter = newtype_tools::Iterator::from(&(Apples(0)..Apples(3)));
    assert_eq!(iter.nth(usize::MAX), None);
    assert!(iter.is_empty());
}

/// The example of `Iterator::from`.
#[test]
fn from_range_example() {
    let range = Apples(1)..Apples(3);
    let mut iter = newtype_tools::Iterator::from(&range);
    assert_eq!(iter.len(), 2);
    assert_eq!(iter.next(), Some(Apples(1)));
    assert_eq!(iter.next(), Some(Apples(2)));
    assert_eq!(iter.next(), None);
}

#[test]
fn both_ends() {
    let mut iter = newtype_tools::Iterator::from(&(Apples(10)..=Apples(13)));
    assert_eq!(iter.next_back(), Some(Apples(13)));
    assert_eq!(iter.next(), Some(Apples(10)));
    assert_eq!(iter.len(), 2);
    assert_eq!(iter.next_back(), Some(Apples(12)));
    assert_eq!(iter.next_back(), Some(Apples(11)));
    assert_eq!(iter.next_back(), None);
    assert_eq!(iter.next(), None);
}

/// Excluded bounds at the edges of the inner type leave an empty iterator.
#[test]
fn excluded_bounds_at_the_edges() {
    assert!(newtype_tools::Iterator::from(&(
        std::ops::Bound::Excluded(Apples(u64::MAX)),
        std::ops::Bound::Unbounded,
    ))
    .is_empty());
    assert!(newtype_tools::Iterator::from(&(..Apples(0))).is_empty());
    let mut iter = newtype_tools::Iterator::from(&(Apples(0)..Apples(0)));
    assert!(iter.is_empty());
    assert_eq!(iter.len(), 0);
    assert_eq!(iter.size_hint(), (0, Some(0)));
    assert_eq!(iter.next(), None);
    assert_eq!(iter.next_back(), None);
}

/// The values at the edges of the inner type are yielded from either end.
#[test]
fn range_ending_at_max() {
    let mut iter = newtype_tools::Iterator::from(&(Apples(u64::MAX)..));
    assert_eq!(iter.len(), 1);
    assert_eq!(iter.clone().next_back(), Some(Apples(u64::MAX)));
    assert_eq!(iter.next(), Some(Apples(u64::MAX)));
    assert_eq!(iter.len(), 0);
    assert!(iter.is_empty());
    assert_eq!(iter.next(), None);
    assert_eq!(iter.next_back(), None);
    let mut iter = newtype_tools::Iterator::from(&(..=Apples(0)));
    assert_eq!(iter.clone().next(), Some(Apples(0)));
    assert_eq!(iter.next_back(), Some(Apples(0)));
    assert!(iter.is_empty());
    assert_eq!(iter.next(), None);
    let mut iter = newtype_tools::Iterator::from(&(Apples(u64::MAX - 1)..));
    assert_eq!(iter.next(), Some(Apples(u64::MAX - 1)));
    assert_eq!(iter.next(), Some(Apples(u64::MAX)));
    assert_eq!(iter.next(), None);
}

#[derive(Clone, Copy, Debug, PartialEq)]
struct Gold(i8);

impl From<i8> for Gold {
    fn from(inner: i8) -> Self {
        Gold(inner)
    }
}

impl Newtype for Gold {
    type Inner = i8;
    fn inner(&self) -> &i8 {
        &self.0
    }
    fn from_inner(inner: i8) -> Self {
        Gold(inner)
    }
    fn as_inner(&self) -> &i8 {
        &self.0
    }
}

#[test]
fn signed_inner_iter() {
    let iter = newtype_tools::Iterator::<Gold>::from(&(..));
    assert_eq!(iter.len(), 256);
    let mut values = Vec::new();
    let mut iter = newtype_tools::Iterator::from(&(Gold(-2)..=Gold(1)));
    while let Some(g) = iter.next() {
        values.push(g);
    }
    assert_eq!(values, vec![Gold(-2), Gold(-1), Gold(0), Gold(1)]);
    let mut iter = newtype_tools::Iterator::<Gold>::from(&(..));
    let mut yielded: i32 = 0;
    while let Some(g) = iter.next_back() {
        assert_eq!(g, Gold((127 - yielded) as i8));
        yielded += 1;
    }
    assert_eq!(yielded, 256);
}
