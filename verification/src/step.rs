//! The `Step` and `MinMax` traits: values that can be stepped through one by
//! one, such as the integers, modelled as positions on the integer line.
use vstd::prelude::*;

verus! {

/// A helper trait to support inner values ranges: the smallest and the
/// largest value of a type.
pub trait MinMax: Sized {
    /// The smallest value of the type.
    spec fn spec_min() -> Self;

    /// The largest value of the type.
    spec fn spec_max() -> Self;

    /// Returns the smallest value of the type.
    fn minimum() -> (r: Self)
        ensures
            r == Self::spec_min(),
    ;

    /// Returns the largest value of the type.
    fn maximum() -> (r: Self)
        ensures
            r == Self::spec_max(),
    ;
}

/// What `Step::steps_between` returns for two values at positions `a` and `b`:
/// `(n, Some(n))` when `b` is `n` successor steps after `a` and `n` fits in a
/// `usize`, `(usize::MAX, None)` when the count does not fit, and `(0, None)`
/// when `a` comes after `b`.
pub open spec fn steps_between_spec(a: int, b: int) -> (usize, Option<usize>) {
    if a <= b {
        if b - a <= usize::MAX {
            ((b - a) as usize, Some((b - a) as usize))
        } else {
            (usize::MAX, None)
        }
    } else {
        (0, None)
    }
}

/// The smallest position of a `Step` type.
pub open spec fn min_index<T: Step>() -> int {
    T::spec_min().index()
}

/// The largest position of a `Step` type.
pub open spec fn max_index<T: Step>() -> int {
    T::spec_max().index()
}

/// The value `n` successor steps after `a`, or `None` when that would leave
/// the range of the type.
pub open spec fn forward_spec<T: Step>(a: T, n: nat) -> Option<T> {
    if a.index() + n <= max_index::<T>() {
        Some(T::from_index(a.index() + n))
    } else {
        None
    }
}

/// The value `n` predecessor steps before `a`, or `None` when that would leave
/// the range of the type.
pub open spec fn backward_spec<T: Step>(a: T, n: nat) -> Option<T> {
    if a.index() - n >= min_index::<T>() {
        Some(T::from_index(a.index() - n))
    } else {
        None
    }
}

/// A copy of the unstable `std::iter::Step` trait required for the `iter`
/// derive.
///
/// A `Step` type is modelled as an interval of the integer line: every value
/// has a position (`index`), distinct values have distinct positions, and every
/// position between the positions of `MIN` and `MAX` belongs to exactly one
/// value (`from_index`).
pub trait Step: Clone + MinMax + Sized {
    /// The position of a value on the integer line.
    spec fn index(&self) -> int;

    /// The value at a given position.
    spec fn from_index(i: int) -> Self;

    /// Every value lies between `MIN` and `MAX`.
    proof fn lemma_index_bounds(v: Self)
        ensures
            Self::spec_min().index() <= v.index() <= Self::spec_max().index(),
    ;

    /// `MIN` comes before `MAX`: the type has more than one value.
    proof fn lemma_min_below_max()
        ensures
            Self::spec_min().index() < Self::spec_max().index(),
    ;

    /// Every position between `MIN` and `MAX` is the position of `from_index`.
    proof fn lemma_from_index(i: int)
        requires
            Self::spec_min().index() <= i <= Self::spec_max().index(),
        ensures
            Self::from_index(i).index() == i,
    ;

    /// Distinct values have distinct positions.
    proof fn lemma_index_injective(a: Self, b: Self)
        requires
            a.index() == b.index(),
        ensures
            a == b,
    ;

    /// A clone is equal to the value it was cloned from.
    proof fn lemma_cloned(a: Self, b: Self)
        requires
            cloned(a, b),
        ensures
            a == b,
    ;

    /// Returns the bounds on the number of *successor* steps required to get from `start` to `end`
    /// like `Iterator::size_hint()`.
    ///
    /// Returns `(usize::MAX, None)` if the number of steps would overflow `usize`,
    /// and `(0, None)` if `start > end`.
    fn steps_between(start: &Self, end: &Self) -> (r: (usize, Option<usize>))
        ensures
            r == steps_between_spec(start.index(), end.index()),
    ;

    /// Returns the value that would be obtained by taking the *successor*
    /// of `start` `count` times, or `None` if this would overflow the range of
    /// values supported by `Self`.
    fn forward_checked(start: Self, count: usize) -> (r: Option<Self>)
        ensures
            start.index() + count <= Self::spec_max().index() ==> r == Some(
                Self::from_index(start.index() + count),
            ),
            start.index() + count > Self::spec_max().index() ==> r is None,
    ;

    /// Returns the value that would be obtained by taking the *predecessor*
    /// of `start` `count` times, or `None` if this would overflow the range of
    /// values supported by `Self`.
    fn backward_checked(start: Self, count: usize) -> (r: Option<Self>)
        ensures
            start.index() - count >= Self::spec_min().index() ==> r == Some(
                Self::from_index(start.index() - count),
            ),
            start.index() - count < Self::spec_min().index() ==> r is None,
    ;

    /// Returns the value that would be obtained by taking the *successor*
    /// of `start` `count` times; the result must stay in the range of `Self`.
    fn forward(start: Self, count: usize) -> (r: Self)
        requires
            start.index() + count <= Self::spec_max().index(),
        ensures
            r == Self::from_index(start.index() + count),
    {
        Self::forward_checked(start, count).expect("overflow in `Step::forward`")
    }

    /// Returns the value that would be obtained by taking the *predecessor*
    /// of `start` `count` times; the result must stay in the range of `Self`.
    fn backward(start: Self, count: usize) -> (r: Self)
        requires
            start.index() - count >= Self::spec_min().index(),
        ensures
            r == Self::from_index(start.index() - count),
    {
        Self::backward_checked(start, count).expect("overflow in `Step::backward`")
    }
}

/// Taking `n` successor steps from `a` and then `m` more.
pub open spec fn forward_then<T: Step>(a: T, n: nat, m: nat) -> Option<T> {
    match forward_spec(a, n) {
        Some(x) => forward_spec(x, m),
        None => None,
    }
}

/// Taking `n` predecessor steps from `a` and then `m` more.
pub open spec fn backward_then<T: Step>(a: T, n: nat, m: nat) -> Option<T> {
    match backward_spec(a, n) {
        Some(x) => backward_spec(x, m),
        None => None,
    }
}

/// Taking `n` successor steps from `a` one at a time, stopping at the first
/// step that leaves the range of the type.
pub open spec fn forward_one_by_one<T: Step>(a: T, n: nat) -> Option<T>
    decreases n,
{
    if n == 0 {
        Some(a)
    } else {
        match forward_one_by_one(a, (n - 1) as nat) {
            Some(x) => forward_spec(x, 1),
            None => None,
        }
    }
}

/// Taking `n` predecessor steps from `a` one at a time, stopping at the first
/// step that leaves the range of the type.
pub open spec fn backward_one_by_one<T: Step>(a: T, n: nat) -> Option<T>
    decreases n,
{
    if n == 0 {
        Some(a)
    } else {
        match backward_one_by_one(a, (n - 1) as nat) {
            Some(x) => backward_spec(x, 1),
            None => None,
        }
    }
}

/// `from_index` gives back the value at a position of the range of the type.
pub proof fn lemma_from_index_of<T: Step>(v: T)
    ensures
        T::from_index(v.index()) == v,
{
    T::lemma_index_bounds(v);
    T::lemma_from_index(v.index());
    T::lemma_index_injective(T::from_index(v.index()), v);
}

/// What `forward_spec` gives back lies `n` positions after `a`.
pub proof fn lemma_forward_index<T: Step>(a: T, n: nat)
    ensures
        forward_spec(a, n) matches Some(x) ==> x.index() == a.index() + n,
{
    T::lemma_index_bounds(a);
    if a.index() + n <= max_index::<T>() {
        T::lemma_from_index(a.index() + n);
    }
}

/// What `backward_spec` gives back lies `n` positions before `a`.
pub proof fn lemma_backward_index<T: Step>(a: T, n: nat)
    ensures
        backward_spec(a, n) matches Some(x) ==> x.index() == a.index() - n,
{
    T::lemma_index_bounds(a);
    if a.index() - n >= min_index::<T>() {
        T::lemma_from_index(a.index() - n);
    }
}

/// `steps_between(&a, &b) == (n, Some(n))` if and only if
/// `Step::forward_checked(a, n) == Some(b)`.
pub proof fn law_steps_between_forward<T: Step>(a: T, b: T, n: usize)
    ensures
        (steps_between_spec(a.index(), b.index()) == (n, Some(n))) <==> forward_spec(a, n as nat)
            == Some(b),
{
    T::lemma_index_bounds(b);
    lemma_forward_index(a, n as nat);
    lemma_from_index_of(b);
}

/// `steps_between(&a, &b) == (n, Some(n))` if and only if
/// `Step::backward_checked(b, n) == Some(a)`.
pub proof fn law_steps_between_backward<T: Step>(a: T, b: T, n: usize)
    ensures
        (steps_between_spec(a.index(), b.index()) == (n, Some(n))) <==> backward_spec(b, n as nat)
            == Some(a),
{
    T::lemma_index_bounds(a);
    lemma_backward_index(b, n as nat);
    lemma_from_index_of(a);
}

/// `steps_between(&a, &b) == (n, Some(n))` only if `a <= b`;
/// `steps_between(&a, &b) == (0, Some(0))` if and only if `a == b`;
/// `steps_between(&a, &b) == (0, None)` if `a > b`.
pub proof fn law_steps_between_order<T: Step>(a: T, b: T, n: usize)
    ensures
        steps_between_spec(a.index(), b.index()) == (n, Some(n)) ==> a.index() <= b.index(),
        (steps_between_spec(a.index(), b.index()) == (0usize, Some(0usize))) <==> a == b,
        a.index() > b.index() ==> steps_between_spec(a.index(), b.index()) == (0usize, None::<usize>),
{
    if a.index() == b.index() {
        T::lemma_index_injective(a, b);
    }
}

/// `forward_checked(a, n).and_then(|x| forward_checked(x, m))
/// == forward_checked(a, m).and_then(|x| forward_checked(x, n))`.
pub proof fn law_forward_commutes<T: Step>(a: T, n: usize, m: usize)
    ensures
        forward_then(a, n as nat, m as nat) == forward_then(a, m as nat, n as nat),
{
    law_forward_adds(a, n as nat, m as nat);
    law_forward_adds(a, m as nat, n as nat);
}

/// `forward_checked(a, n).and_then(|x| forward_checked(x, m))
/// == forward_checked(a, n + m)`.
pub proof fn law_forward_adds<T: Step>(a: T, n: nat, m: nat)
    ensures
        forward_then(a, n, m) == forward_spec(a, n + m),
{
    T::lemma_index_bounds(a);
    lemma_forward_index(a, n);
    if let Some(x) = forward_spec(a, n) {
        lemma_forward_index(x, m);
    }
}

/// `backward_checked(a, n).and_then(|x| backward_checked(x, m))
/// == backward_checked(a, m).and_then(|x| backward_checked(x, n))`.
pub proof fn law_backward_commutes<T: Step>(a: T, n: usize, m: usize)
    ensures
        backward_then(a, n as nat, m as nat) == backward_then(a, m as nat, n as nat),
{
    law_backward_adds(a, n as nat, m as nat);
    law_backward_adds(a, m as nat, n as nat);
}

/// `backward_checked(a, n).and_then(|x| backward_checked(x, m))
/// == backward_checked(a, n + m)`.
pub proof fn law_backward_adds<T: Step>(a: T, n: nat, m: nat)
    ensures
        backward_then(a, n, m) == backward_spec(a, n + m),
{
    T::lemma_index_bounds(a);
    lemma_backward_index(a, n);
    if let Some(x) = backward_spec(a, n) {
        lemma_backward_index(x, m);
    }
}

/// `forward_checked(a, n) == (0..n).try_fold(a, |x, _| forward_checked(x, 1))`,
/// and in particular `forward_checked(a, 0) == Some(a)`.
pub proof fn law_forward_one_by_one<T: Step>(a: T, n: nat)
    ensures
        forward_spec(a, n) == forward_one_by_one(a, n),
        forward_spec(a, 0) == Some(a),
    decreases n,
{
    T::lemma_index_bounds(a);
    lemma_from_index_of(a);
    assert(forward_spec(a, 0) == Some(a));
    if n > 0 {
        law_forward_one_by_one(a, (n - 1) as nat);
        law_forward_adds(a, (n - 1) as nat, 1);
        assert((n - 1) as nat + 1 == n);
    }
}

/// `backward_checked(a, n) == (0..n).try_fold(a, |x, _| backward_checked(x, 1))`,
/// and in particular `backward_checked(a, 0) == Some(a)`.
pub proof fn law_backward_one_by_one<T: Step>(a: T, n: nat)
    ensures
        backward_spec(a, n) == backward_one_by_one(a, n),
        backward_spec(a, 0) == Some(a),
    decreases n,
{
    T::lemma_index_bounds(a);
    lemma_from_index_of(a);
    assert(backward_spec(a, 0) == Some(a));
    if n > 0 {
        law_backward_one_by_one(a, (n - 1) as nat);
        law_backward_adds(a, (n - 1) as nat, 1);
        assert((n - 1) as nat + 1 == n);
    }
}

/// Where no overflow occurs: `forward(a, n) >= a` and
/// `backward(forward(a, n), n) == a`.
pub proof fn law_forward_then_backward<T: Step>(a: T, n: nat)
    requires
        forward_spec(a, n) is Some,
    ensures
        forward_spec(a, n).unwrap().index() >= a.index(),
        backward_spec(forward_spec(a, n).unwrap(), n) == Some(a),
{
    T::lemma_index_bounds(a);
    lemma_forward_index(a, n);
    lemma_backward_index(forward_spec(a, n).unwrap(), n);
    lemma_from_index_of(a);
}

/// Where no overflow occurs: `backward(a, n) <= a` and
/// `forward(backward(a, n), n) == a`.
pub proof fn law_backward_then_forward<T: Step>(a: T, n: nat)
    requires
        backward_spec(a, n) is Some,
    ensures
        backward_spec(a, n).unwrap().index() <= a.index(),
        forward_spec(backward_spec(a, n).unwrap(), n) == Some(a),
{
    T::lemma_index_bounds(a);
    lemma_backward_index(a, n);
    lemma_forward_index(backward_spec(a, n).unwrap(), n);
    lemma_from_index_of(a);
}

} // verus!
