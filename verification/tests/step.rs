use newtype_tools::iter::{MinMax, Step};

/// `steps_between(&a, &b) == (n, Some(n))` if and only if `forward_checked(a, n) == Some(b)`
/// and if and only if `backward_checked(b, n) == Some(a)`; `(0, Some(0))` if and only if
/// `a == b`; `(0, None)` if `a > b`.
fn check_steps_between<T>(a: T, b: T, n: usize)
where
    T: Step + Copy + core::fmt::Debug + PartialOrd,
{
    if let Some(b) = T::forward_checked(a, n) {
        assert_eq!(T::steps_between(&a, &b), (n, Some(n)));
    } else {
        assert_ne!(T::steps_between(&a, &b), (n, Some(n)));
    }
    if let Some(a) = T::backward_checked(b, n) {
        assert_eq!(T::steps_between(&a, &b), (n, Some(n)));
    } else {
        assert_ne!(T::steps_between(&a, &b), (n, Some(n)));
    }
    if a == b {
        assert_eq!(T::steps_between(&a, &b), (0, Some(0)));
    } else {
        assert_ne!(T::steps_between(&a, &b), (0, Some(0)));
    }
    if a > b {
        assert_eq!(T::steps_between(&a, &b), (0, None));
    }
}

fn check_forward_checked<T: Step + Copy + core::fmt::Debug + PartialEq>(a: T, n: usize, m: usize) {
    assert_eq!(
        T::forward_checked(a, n).and_then(|x| T::forward_checked(x, m)),
        T::forward_checked(a, m).and_then(|x| T::forward_checked(x, n))
    );
    if let Some(n_plus_m) = n.checked_add(m) {
        assert_eq!(
            T::forward_checked(a, n).and_then(|x| T::forward_checked(x, m)),
            T::forward_checked(a, n_plus_m)
        );
    }
    if n < 1_000 {
        assert_eq!(T::forward_checked(a, n), (0..n).try_fold(a, |x, _| T::forward_checked(x, 1)));
    }
    assert_eq!(T::forward_checked(a, 0), Some(a));
}

fn check_backward_checked<T: Step + Copy + core::fmt::Debug + PartialEq>(a: T, n: usize, m: usize) {
    assert_eq!(
        T::backward_checked(a, n).and_then(|x| T::backward_checked(x, m)),
        T::backward_checked(a, m).and_then(|x| T::backward_checked(x, n))
    );
    if let Some(n_plus_m) = n.checked_add(m) {
        assert_eq!(
            T::backward_checked(a, n).and_then(|x| T::backward_checked(x, m)),
            T::backward_checked(a, n_plus_m)
        );
    }
    if n < 1_000 {
        assert_eq!(
            T::backward_checked(a, n),
            (0..n).try_fold(a, |x, _| T::backward_checked(x, 1))
        );
    }
    assert_eq!(T::backward_checked(a, 0), Some(a));
}

fn check_forward<T: Step + Copy + core::fmt::Debug + PartialOrd>(a: T, n: usize, m: usize) {
    assert_eq!(T::forward(T::forward(a, n), m), T::forward(a, n + m));
    assert_eq!(T::forward_checked(a, n), Some(T::forward(a, n)));
    assert_eq!(T::forward(a, n), (0..n).fold(a, |x, _| T::forward(x, 1)));
    assert_eq!(T::forward(a, 0), a);
    assert!(T::forward(a, n) >= a);
    assert_eq!(T::backward(T::forward(a, n), n), a);
}

#[test]
fn steps_between_invariants() {
    check_steps_between(0_u8, 0_u8, 0);
    check_steps_between(0_u8, 1_u8, 1);
    check_steps_between(1_u8, 0_u8, 1);
    check_steps_between(u8::MAX - 1, u8::MAX, 1);
    check_steps_between(u8::MAX, u8::MAX, 0);
    check_steps_between(0_u8, 0_u8, u8::MAX as usize);
    check_steps_between(0_u8, 1_u8, u8::MAX as usize);
    check_steps_between(1_u8, 0_u8, u8::MAX as usize);
    check_steps_between(0_i64, 0_i64, 0);
    check_steps_between(0_i64, 1_i64, 1);
    check_steps_between(1_i64, 0_i64, 1);
    check_steps_between(i64::MAX - 1, i64::MAX, 1);
    check_steps_between(i64::MAX, i64::MAX, 0);
    check_steps_between(0_i64, 0_i64, i64::MAX as usize);
    check_steps_between(0_i64, 1_i64, i64::MAX as usize);
    check_steps_between(1_i64, 0_i64, i64::MAX as usize);
    check_steps_between(0_i128, i128::MAX, 1);
    check_steps_between(i128::MAX, 0_i128, 1);
    check_steps_between(0_u128, u128::MAX, 1);
    check_steps_between(u128::MAX, 0_u128, 1);
    check_steps_between(0_i8, 0_i8, 0);
    check_steps_between(i8::MAX - 2, 1_i8, 1);
    check_steps_between(1_i8, i8::MAX - 2, 0);
    check_steps_between(1_i8, 1_i8, i8::MAX as usize - 2);
}

#[test]
fn steps_between_exact_values() {
    assert_eq!(i8::steps_between(&i8::MIN, &i8::MAX), (255, Some(255)));
    assert_eq!(u16::steps_between(&3, &10), (7, Some(7)));
    assert_eq!(i32::steps_between(&i32::MIN, &i32::MAX), (u32::MAX as usize, Some(u32::MAX as usize)));
    assert_eq!(isize::steps_between(&isize::MIN, &isize::MAX), (usize::MAX, Some(usize::MAX)));
    assert_eq!(u64::steps_between(&5, &4), (0, None));
}

/// Cover `Step::steps_between` subtraction overflow.
#[test]
fn steps_between_overflow() {
    assert_eq!(i128::steps_between(&i128::MIN, &i128::MAX), (usize::MAX, None));
    assert_eq!(u128::steps_between(&0, &u128::MAX), (usize::MAX, None));
    assert_eq!(
        u128::steps_between(&0, &(usize::MAX as u128 + 1)),
        (usize::MAX, None)
    );
    assert_eq!(
        u128::steps_between(&1, &(usize::MAX as u128 + 1)),
        (usize::MAX, Some(usize::MAX))
    );
}

#[test]
fn forward_checked_invariants() {
    check_forward_checked(0_u8, 0, 0);
    check_forward_checked(0_u8, 1, 1);
    check_forward_checked(u8::MAX - 1, 1, 1);
    check_forward_checked(u8::MAX, 1, 1);
    check_forward_checked(u8::MAX, usize::MAX, 1);
    check_forward_checked(u8::MAX, usize::MAX, usize::MAX);
    check_forward_checked(0_i64, 0, 0);
    check_forward_checked(0_i64, 1, 1);
    check_forward_checked(i64::MAX - 1, 1, 1);
    check_forward_checked(i64::MAX, 1, 1);
    check_forward_checked(i64::MAX, usize::MAX, 1);
    check_forward_checked(i64::MAX, usize::MAX, usize::MAX);
    check_forward_checked(i128::MAX, 1, 1);
    check_forward_checked(u128::MAX, 1, 1);
}

#[test]
fn backward_checked_invariants() {
    check_backward_checked(0_u8, 0, 0);
    check_backward_checked(0_u8, 1, 1);
    check_backward_checked(u8::MAX - 1, 1, 1);
    check_backward_checked(u8::MAX, 1, 1);
    check_backward_checked(u8::MAX, usize::MAX, 1);
    check_backward_checked(u8::MAX, usize::MAX, usize::MAX);
    check_backward_checked(0_i64, 0, 0);
    check_backward_checked(0_i64, 1, 1);
    check_backward_checked(i64::MAX - 1, 1, 1);
    check_backward_checked(i64::MAX, 1, 1);
    check_backward_checked(i64::MAX, usize::MAX, 1);
    check_backward_checked(i64::MAX, usize::MAX, usize::MAX);
    check_backward_checked(i128::MAX, 1, 1);
    check_backward_checked(u128::MAX, 1, 1);
}

/// Where `n + m` overflows a `usize` but the steps themselves fit in the type, the
/// composed steps still succeed: `n.checked_add(m)` is `None` here.
#[test]
fn backward_checked_wider_than_usize() {
    let a = u128::MAX;
    let twice = u128::backward_checked(a, usize::MAX).and_then(|x| u128::backward_checked(x, usize::MAX));
    assert_eq!(twice, Some(u128::MAX - 2 * (usize::MAX as u128)));
    assert_eq!(usize::MAX.checked_add(usize::MAX), None);
}

#[test]
fn default_impl_forward_invariants() {
    check_forward(0_i8, 0, 0);
    check_forward(1_i8, 1, 1);
    check_forward(i8::MAX - 2, 1, 1);
    check_forward(1_i8, i8::MAX as usize - 2, 1);
    check_forward(1_i8, 1, i8::MAX as usize - 2);
    check_forward(-128_i8, 200, 55);
    check_forward(0_u32, 7, 9);
}

#[test]
fn signed_steps_cross_zero() {
    assert_eq!(i8::forward_checked(-120, 200), Some(80));
    assert_eq!(i8::backward_checked(80, 200), Some(-120));
    assert_eq!(i8::forward_checked(-128, 255), Some(127));
    assert_eq!(i8::forward_checked(-128, 256), None);
    assert_eq!(i16::backward_checked(i16::MIN, 1), None);
    assert_eq!(isize::forward_checked(isize::MIN, usize::MAX), Some(isize::MAX));
    assert_eq!(u32::forward_checked(1, u32::MAX as usize), None);
}

/// Cover `Step::forward_checked` and `backward_checked` for an `n` wider than the type.
#[test]
fn step_integer_impls_out_of_range_count() {
    assert!(u8::forward_checked(0, 256).is_none());
    assert!(u8::backward_checked(255, 256).is_none());
    assert!(u16::forward_checked(0, 70_000).is_none());
    assert!(i16::backward_checked(0, 70_000).is_none());
}

#[test]
fn min_max() {
    assert_eq!(<u8 as MinMax>::minimum(), 0);
    assert_eq!(<u8 as MinMax>::maximum(), 255);
    assert_eq!(<i64 as MinMax>::minimum(), i64::MIN);
    assert_eq!(<u128 as MinMax>::maximum(), u128::MAX);
    assert_eq!(<isize as MinMax>::maximum(), isize::MAX);
}
