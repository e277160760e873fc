//! Iteration over ranges of newtypes whose inner type implements `Step`.
use crate::step::{
    backward_spec, forward_spec, lemma_backward_index, lemma_forward_index, lemma_from_index_of,
    steps_between_spec,
};
use crate::Newtype;
use vstd::prelude::*;

pub use crate::step::{MinMax, Step};

verus! {

/// One end of a range of newtypes, as `std::ops::Bound` gives it.
pub enum RangeEnd<'a, T> {
    /// The end belongs to the range.
    Included(&'a T),
    /// The end does not belong to the range.
    Excluded(&'a T),
    /// The range is open at this end.
    Unbounded,
}

/// The inner value at which a range with the given start bound starts, or
/// `None` when an excluded start is the largest value of the inner type.
pub open spec fn start_of<T: Newtype>(start: RangeEnd<T>) -> Option<T::Inner> where
    T::Inner: Step,
 {
    match start {
        RangeEnd::Included(s) => Some(*s.inner()),
        RangeEnd::Excluded(s) => forward_spec(*s.inner(), 1),
        RangeEnd::Unbounded => Some(<T::Inner as MinMax>::spec_min()),
    }
}

/// The last inner value of a range with the given end bound, or `None` when an
/// excluded end is the smallest value of the inner type.
pub open spec fn last_of<T: Newtype>(end: RangeEnd<T>) -> Option<T::Inner> where T::Inner: Step {
    match end {
        RangeEnd::Included(e) => Some(*e.inner()),
        RangeEnd::Excluded(e) => backward_spec(*e.inner(), 1),
        RangeEnd::Unbounded => Some(<T::Inner as MinMax>::spec_max()),
    }
}

/// The first and the last inner value of the range that a start and an end
/// bound give; when an excluded start is the largest value of the inner type or
/// an excluded end the smallest, the range holds no value and runs from the
/// largest value down to the smallest.
pub open spec fn range_of<T: Newtype>(start: RangeEnd<T>, end: RangeEnd<T>) -> (T::Inner, T::Inner) where
    T::Inner: Step,
 {
    match (start_of(start), last_of(end)) {
        (Some(first), Some(last)) => (first, last),
        _ => (<T::Inner as MinMax>::spec_max(), <T::Inner as MinMax>::spec_min()),
    }
}

/// The range from `v.0` to `v.1`, both included, holds no value.
pub open spec fn range_is_empty<I: Step>(v: (I, I)) -> bool {
    v.0.index() > v.1.index()
}

/// The number of values in the range from `v.0` to `v.1`, both included.
pub open spec fn range_len<I: Step>(v: (I, I)) -> int {
    if range_is_empty(v) {
        0
    } else {
        v.1.index() - v.0.index() + 1
    }
}

/// The range that holds no value, from the largest value of the type down to
/// the smallest.
pub open spec fn empty_range<I: Step>() -> (I, I) {
    (I::spec_max(), I::spec_min())
}

/// What `next` does to the range from `v.0` to `v.1`: the range it leaves and
/// the inner value it yields, which is its first value whenever it holds one.
/// A range that starts at the largest value of the type is left empty.
pub open spec fn next_spec<I: Step>(v: (I, I)) -> ((I, I), Option<I>) {
    if range_is_empty(v) {
        (v, None)
    } else {
        match forward_spec(v.0, 1) {
            Some(n) => ((n, v.1), Some(v.0)),
            None => (empty_range(), Some(v.0)),
        }
    }
}

/// What `next_back` does to the range from `v.0` to `v.1`: the range it leaves
/// and the inner value it yields, which is its last value whenever it holds
/// one. A range that ends at the smallest value of the type is left empty.
pub open spec fn next_back_spec<I: Step>(v: (I, I)) -> ((I, I), Option<I>) {
    if range_is_empty(v) {
        (v, None)
    } else {
        match backward_spec(v.1, 1) {
            Some(p) => ((v.0, p), Some(v.1)),
            None => (empty_range(), Some(v.1)),
        }
    }
}

/// The range that `k` calls of `next` leave of the range from `v.0` to `v.1`.
pub open spec fn skip_spec<I: Step>(v: (I, I), k: nat) -> (I, I)
    decreases k,
{
    if k == 0 {
        v
    } else {
        next_spec(skip_spec(v, (k - 1) as nat)).0
    }
}

/// What `size_hint` returns for the range from `v.0` to `v.1`.
pub open spec fn size_hint_spec<I: Step>(v: (I, I)) -> (usize, Option<usize>) {
    if range_is_empty(v) {
        (0, Some(0))
    } else {
        let hint = steps_between_spec(v.0.index(), v.1.index());
        (
            if hint.0 + 1 <= usize::MAX {
                (hint.0 + 1) as usize
            } else {
                usize::MAX
            },
            match hint.1 {
                Some(steps) => if steps + 1 <= usize::MAX {
                    Some((steps + 1) as usize)
                } else {
                    None
                },
                None => None,
            },
        )
    }
}

/// Blanket `Iterator` implementation for all `Newtype`s: the newtypes whose
/// inner values run from `start` to `last`, both included.
#[derive(Clone)]
pub struct Iterator<T> where T: Newtype {
    start: T::Inner,
    last: T::Inner,
}

impl<T: Newtype> View for Iterator<T> {
    type V = (T::Inner, T::Inner);

    /// The first and the last inner value of the range that is left.
    closed spec fn view(&self) -> (T::Inner, T::Inner) {
        (self.start, self.last)
    }
}

/// The start bound of a range.
#[verifier::external_body]
fn start_bound_of<T, R: std::ops::RangeBounds<T>>(range: &R) -> RangeEnd<'_, T> {
    match range.start_bound() {
        std::ops::Bound::Included(s) => RangeEnd::Included(s),
        std::ops::Bound::Excluded(s) => RangeEnd::Excluded(s),
        std::ops::Bound::Unbounded => RangeEnd::Unbounded,
    }
}

/// The end bound of a range.
#[verifier::external_body]
fn end_bound_of<T, R: std::ops::RangeBounds<T>>(range: &R) -> RangeEnd<'_, T> {
    match range.end_bound() {
        std::ops::Bound::Included(e) => RangeEnd::Included(e),
        std::ops::Bound::Excluded(e) => RangeEnd::Excluded(e),
        std::ops::Bound::Unbounded => RangeEnd::Unbounded,
    }
}

/// `s` and `e` are a start and an end bound that `range` gives: what the
/// calls of `RangeBounds::start_bound` and `RangeBounds::end_bound` on it can
/// return.
pub closed spec fn bounds_of_range<'a, T, R: std::ops::RangeBounds<T>>(
    range: &'a R,
    s: RangeEnd<'a, T>,
    e: RangeEnd<'a, T>,
) -> bool {
    call_ensures(start_bound_of::<T, R>, (range,), s) && call_ensures(end_bound_of::<T, R>, (range,), e)
}

impl<T: Newtype> Iterator<T> where T::Inner: Step {
    /// A copy of the inner value of a newtype.
    fn inner_of(t: &T) -> (r: T::Inner)
        ensures
            r == *t.inner(),
    {
        let r = t.as_inner().clone();
        proof {
            T::Inner::lemma_cloned(*t.inner(), r);
        }
        r
    }

    /// Returns `true` if the iterator is empty.
    pub fn is_empty(&self) -> (r: bool)
        ensures
            r == range_is_empty(self@),
    {
        let (lower, upper) = Step::steps_between(&self.start, &self.last);
        upper.is_none() && lower == 0
    }

    /// The iterator that holds no value: from the largest value of the inner
    /// type down to the smallest.
    fn empty() -> (r: Self)
        ensures
            r@ == (<T::Inner as MinMax>::spec_max(), <T::Inner as MinMax>::spec_min()),
    {
        Iterator { start: <T::Inner as MinMax>::maximum(), last: <T::Inner as MinMax>::minimum() }
    }

    /// Creates a new `Iterator` from the two bounds of a range; an empty one
    /// when an excluded start is the largest value of the inner type or an
    /// excluded end the smallest.
    pub fn from_bounds(start: RangeEnd<T>, end: RangeEnd<T>) -> (r: Self)
        ensures
            r@ == range_of(start, end),
    {
        let first = match start {
            RangeEnd::Included(s) => Self::inner_of(s),
            RangeEnd::Excluded(s) => match Step::forward_checked(Self::inner_of(s), 1) {
                Some(v) => v,
                None => return Self::empty(),
            },
            RangeEnd::Unbounded => <T::Inner as MinMax>::minimum(),
        };
        let last = match end {
            RangeEnd::Included(e) => Self::inner_of(e),
            RangeEnd::Excluded(e) => match Step::backward_checked(Self::inner_of(e), 1) {
                Some(v) => v,
                None => return Self::empty(),
            },
            RangeEnd::Unbounded => <T::Inner as MinMax>::maximum(),
        };
        Iterator { start: first, last }
    }

    /// Creates a new `Iterator` instance based on the given range: from both
    /// of its bounds, as `from_bounds` does.
    /// The internal `Newtype` representation must implement `Step` trait.
    /// An empty one when an excluded start is the largest value of the inner
    /// type or an excluded end the smallest.
    pub fn from<R: std::ops::RangeBounds<T>>(range: &R) -> (r: Self)
        ensures
            exists|s: RangeEnd<T>, e: RangeEnd<T>| bounds_of_range(range, s, e) && r@ == range_of(s, e),
    {
        let start = start_bound_of(range);
        let end = end_bound_of(range);
        Self::from_bounds(start, end)
    }

    /// Yields the newtype at the start of the range and moves the start one
    /// step forward.
    pub fn next(&mut self) -> (r: Option<T>)
        ensures
            final(self)@ == next_spec(old(self)@).0,
            r is Some <==> next_spec(old(self)@).1 is Some,
            r matches Some(t) ==> next_spec(old(self)@).1 == Some(*t.inner()),
    {
        if self.is_empty() {
            return None;
        }
        let current = self.start.clone();
        proof {
            T::Inner::lemma_cloned(self.start, current);
        }
        match Step::forward_checked(current, 1) {
            Some(n) => {
                let mut next = n;
                core::mem::swap(&mut self.start, &mut next);
                Some(T::from_inner(next))
            },
            None => {
                let mut last = <T::Inner as MinMax>::minimum();
                core::mem::swap(&mut self.last, &mut last);
                let mut first = <T::Inner as MinMax>::maximum();
                core::mem::swap(&mut self.start, &mut first);
                Some(T::from_inner(first))
            },
        }
    }

    /// Yields the newtype at the end of the range and moves the end one step
    /// backward.
    pub fn next_back(&mut self) -> (r: Option<T>)
        ensures
            final(self)@ == next_back_spec(old(self)@).0,
            r is Some <==> next_back_spec(old(self)@).1 is Some,
            r matches Some(t) ==> next_back_spec(old(self)@).1 == Some(*t.inner()),
    {
        if self.is_empty() {
            return None;
        }
        let current = self.last.clone();
        proof {
            T::Inner::lemma_cloned(self.last, current);
        }
        match Step::backward_checked(current, 1) {
            Some(p) => {
                let mut next = p;
                core::mem::swap(&mut self.last, &mut next);
                Some(T::from_inner(next))
            },
            None => {
                let mut first = <T::Inner as MinMax>::maximum();
                core::mem::swap(&mut self.start, &mut first);
                let mut last = <T::Inner as MinMax>::minimum();
                core::mem::swap(&mut self.last, &mut last);
                Some(T::from_inner(last))
            },
        }
    }

    /// Returns the bounds on the number of newtypes left in the range.
    pub fn size_hint(&self) -> (r: (usize, Option<usize>))
        ensures
            r == size_hint_spec(self@),
    {
        if self.is_empty() {
            return (0, Some(0));
        }
        let hint = Step::steps_between(&self.start, &self.last);
        (
            hint.0.saturating_add(1),
            match hint.1 {
                Some(steps) => steps.checked_add(1),
                None => None,
            },
        )
    }

    /// Skips `n` newtypes from the start of the range and yields the next one:
    /// what `next` yields after `n` calls of `next`.
    pub fn nth(&mut self, n: usize) -> (r: Option<T>)
        ensures
            final(self)@ == next_spec(skip_spec(old(self)@, n as nat)).0,
            r is Some <==> next_spec(skip_spec(old(self)@, n as nat)).1 is Some,
            r matches Some(t) ==> next_spec(skip_spec(old(self)@, n as nat)).1 == Some(*t.inner()),
    {
        let ghost start = self@;
        let mut i: usize = 0;
        while i < n && !self.is_empty()
            invariant
                i <= n,
                start == old(self)@,
                self@ == skip_spec(start, i as nat),
            decreases n - i,
        {
            self.next();
            i = i + 1;
        }
        proof {
            lemma_skip_stays_empty(start, i as nat, n as nat);
        }
        self.next()
    }

    /// Returns the number of newtypes in the range; the number must fit in a
    /// `usize`.
    pub fn count(self) -> (r: usize)
        requires
            range_len(self@) <= usize::MAX,
        ensures
            r == range_len(self@),
    {
        if self.is_empty() {
            return 0;
        }
        let counted = match Step::steps_between(&self.start, &self.last).1 {
            Some(steps) => steps.checked_add(1),
            None => None,
        };
        counted.expect("count overflowed usize")
    }

    /// Returns the exact number of newtypes left in the range; the number must
    /// fit in a `usize`.
    pub fn len(&self) -> (r: usize)
        requires
            range_len(self@) <= usize::MAX,
        ensures
            r == range_len(self@),
    {
        let (lower, _upper) = self.size_hint();
        lower
    }

    /// The newtypes of a range come in increasing order.
    pub fn is_sorted(self) -> (r: bool)
        ensures
            r,
    {
        true
    }
}

/// Once a range is empty, `next` and `next_back` yield nothing and leave it as
/// it is; they yield a value exactly when the range holds one.
pub proof fn law_fused<I: Step>(v: (I, I))
    ensures
        range_is_empty(v) ==> next_spec(v) == (v, None::<I>) && next_back_spec(v) == (v, None::<I>),
        next_spec(v).1 is Some <==> !range_is_empty(v),
        next_back_spec(v).1 is Some <==> !range_is_empty(v),
{
}

/// Every value that `next` or `next_back` yields lies in the range.
pub proof fn law_yield_in_range<I: Step>(v: (I, I))
    ensures
        next_spec(v).1 matches Some(x) ==> v.0.index() <= x.index() <= v.1.index(),
        next_back_spec(v).1 matches Some(x) ==> v.0.index() <= x.index() <= v.1.index(),
{
}

/// `next` yields the values of a range in strictly increasing order.
pub proof fn law_next_increasing<I: Step>(v: (I, I))
    requires
        next_spec(v).1 is Some,
        next_spec(next_spec(v).0).1 is Some,
    ensures
        next_spec(v).1.unwrap().index() < next_spec(next_spec(v).0).1.unwrap().index(),
{
    lemma_forward_index(v.0, 1);
    I::lemma_min_below_max();
}

/// `next_back` yields the values of a range in strictly decreasing order.
pub proof fn law_next_back_decreasing<I: Step>(v: (I, I))
    requires
        next_back_spec(v).1 is Some,
        next_back_spec(next_back_spec(v).0).1 is Some,
    ensures
        next_back_spec(v).1.unwrap().index() > next_back_spec(next_back_spec(v).0).1.unwrap().index(),
{
    lemma_backward_index(v.1, 1);
    I::lemma_min_below_max();
}

/// Values taken from the front stay below values taken from the back: after
/// `next` yields `x`, whatever `next_back` yields from what is left lies above
/// `x`, so that no value is yielded twice.
pub proof fn law_front_below_back<I: Step>(v: (I, I))
    requires
        next_spec(v).1 is Some,
        next_back_spec(next_spec(v).0).1 is Some,
    ensures
        next_spec(v).1.unwrap().index() < next_back_spec(next_spec(v).0).1.unwrap().index(),
{
    lemma_forward_index(v.0, 1);
    I::lemma_min_below_max();
}

/// Each `next` on a range that is not empty yields its first value and
/// shortens the range by exactly one, at the edges of the inner type too.
pub proof fn law_next_exact_size<I: Step>(v: (I, I))
    requires
        !range_is_empty(v),
    ensures
        next_spec(v).1 == Some(v.0),
        range_len(next_spec(v).0) == range_len(v) - 1,
{
    lemma_forward_index(v.0, 1);
    I::lemma_index_bounds(v.1);
    I::lemma_min_below_max();
}

/// Each `next_back` on a range that is not empty yields its last value and
/// shortens the range by exactly one, at the edges of the inner type too.
pub proof fn law_next_back_exact_size<I: Step>(v: (I, I))
    requires
        !range_is_empty(v),
    ensures
        next_back_spec(v).1 == Some(v.1),
        range_len(next_back_spec(v).0) == range_len(v) - 1,
{
    lemma_backward_index(v.1, 1);
    I::lemma_index_bounds(v.0);
    I::lemma_min_below_max();
}

/// Once `next` has emptied a range, further calls leave it as it is.
proof fn lemma_skip_stays_empty<I: Step>(v: (I, I), k: nat, n: nat)
    requires
        k <= n,
        k < n ==> range_is_empty(skip_spec(v, k)),
    ensures
        skip_spec(v, n) == skip_spec(v, k),
    decreases n,
{
    if n > k {
        lemma_skip_stays_empty(v, k, (n - 1) as nat);
    }
}

/// After `k` calls of `next` on a range that holds more than `k` values, what
/// is left starts `k` positions after its start.
proof fn lemma_skip_front<I: Step>(v: (I, I), k: nat)
    requires
        k < range_len(v),
    ensures
        skip_spec(v, k) == (I::from_index(v.0.index() + k), v.1),
    decreases k,
{
    I::lemma_index_bounds(v.0);
    I::lemma_index_bounds(v.1);
    if k == 0 {
        lemma_from_index_of(v.0);
    } else {
        lemma_skip_front(v, (k - 1) as nat);
        let front = I::from_index(v.0.index() + k - 1);
        I::lemma_from_index(v.0.index() + k - 1);
        assert(front.index() == v.0.index() + k - 1);
        assert(forward_spec(front, 1) == Some(I::from_index(v.0.index() + k)));
    }
}

/// `nth(n)` yields the value `n` positions after the start of the range when
/// the range holds more than `n` values, and nothing otherwise.
pub proof fn law_nth_value<I: Step>(v: (I, I), n: nat)
    ensures
        n < range_len(v) ==> next_spec(skip_spec(v, n)).1 == Some(I::from_index(v.0.index() + n)),
        n >= range_len(v) ==> next_spec(skip_spec(v, n)).1 is None,
    decreases n,
{
    I::lemma_index_bounds(v.0);
    I::lemma_index_bounds(v.1);
    I::lemma_min_below_max();
    if n < range_len(v) {
        lemma_skip_front(v, n);
        I::lemma_from_index(v.0.index() + n);
    } else if n > 0 {
        law_nth_value(v, (n - 1) as nat);
        if (n - 1) < range_len(v) {
            lemma_skip_front(v, (n - 1) as nat);
            let front = I::from_index(v.0.index() + n - 1);
            I::lemma_from_index(v.0.index() + n - 1);
            lemma_forward_index(front, 1);
            law_next_exact_size(skip_spec(v, (n - 1) as nat));
        }
    }
}

/// `size_hint` is exact: `(len, Some(len))` when the length of the range fits
/// in a `usize`, and `(usize::MAX, None)` when it does not.
pub proof fn law_size_hint_exact<I: Step>(v: (I, I))
    ensures
        range_len(v) <= usize::MAX ==> size_hint_spec(v) == (
            range_len(v) as usize,
            Some(range_len(v) as usize),
        ),
        range_len(v) > usize::MAX ==> size_hint_spec(v) == (usize::MAX, None::<usize>),
{
}

/// The range `a..b` holds `b - a` values when `a <= b`, and none otherwise.
pub proof fn law_half_open_len<T: Newtype>(a: &T, b: &T) where T::Inner: Step
    ensures
        range_len(range_of(RangeEnd::Included(a), RangeEnd::Excluded(b))) == if a.inner().index()
            <= b.inner().index() {
            b.inner().index() - a.inner().index()
        } else {
            0
        },
{
    lemma_backward_index(*b.inner(), 1);
    T::Inner::lemma_index_bounds(*a.inner());
    T::Inner::lemma_index_bounds(*b.inner());
    T::Inner::lemma_min_below_max();
}

/// A range whose start is excluded at the largest value of the inner type,
/// or whose end is excluded at the smallest, holds no value.
pub proof fn law_excluded_edge_empty<T: Newtype>(start: RangeEnd<T>, end: RangeEnd<T>) where
    T::Inner: Step,
    requires
        start_of(start) is None || last_of(end) is None,
    ensures
        range_is_empty(range_of(start, end)),
        range_len(range_of(start, end)) == 0,
{
    T::Inner::lemma_min_below_max();
}

/// The value `x` lies between the bounds: after an included start or at it,
/// after an excluded start, before an included end or at it, before an
/// excluded end.
pub open spec fn bounds_admit<T: Newtype>(start: RangeEnd<T>, end: RangeEnd<T>, x: T::Inner) -> bool where
    T::Inner: Step,
 {
    &&& match start {
        RangeEnd::Included(s) => s.inner().index() <= x.index(),
        RangeEnd::Excluded(s) => s.inner().index() < x.index(),
        RangeEnd::Unbounded => true,
    }
    &&& match end {
        RangeEnd::Included(e) => x.index() <= e.inner().index(),
        RangeEnd::Excluded(e) => x.index() < e.inner().index(),
        RangeEnd::Unbounded => true,
    }
}

/// The range from `v.0` to `v.1`, both included, holds `x`.
pub open spec fn range_holds<I: Step>(v: (I, I), x: I) -> bool {
    v.0.index() <= x.index() <= v.1.index()
}

/// The iterator built from two bounds holds exactly the values that lie
/// between them, whatever the bounds: `from_bounds` drops no bound and adds no
/// value.
pub proof fn law_range_of_holds<T: Newtype>(start: RangeEnd<T>, end: RangeEnd<T>, x: T::Inner) where
    T::Inner: Step,
    ensures
        range_holds(range_of(start, end), x) <==> bounds_admit(start, end, x),
{
    T::Inner::lemma_index_bounds(x);
    T::Inner::lemma_min_below_max();
    match start {
        RangeEnd::Included(s) => {},
        RangeEnd::Excluded(s) => {
            lemma_forward_index(*s.inner(), 1);
            T::Inner::lemma_index_bounds(*s.inner());
        },
        RangeEnd::Unbounded => {},
    }
    match end {
        RangeEnd::Included(e) => {},
        RangeEnd::Excluded(e) => {
            lemma_backward_index(*e.inner(), 1);
            T::Inner::lemma_index_bounds(*e.inner());
        },
        RangeEnd::Unbounded => {},
    }
}

} // verus!
