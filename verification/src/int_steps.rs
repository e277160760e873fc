//! `MinMax` and `Step` for the primitive integer types.
use crate::step::{MinMax, Step};
use vstd::prelude::*;

verus! {

impl MinMax for u8 {
    open spec fn spec_min() -> u8 {
        u8::MIN
    }

    open spec fn spec_max() -> u8 {
        u8::MAX
    }

    fn minimum() -> (r: u8) {
        u8::MIN
    }

    fn maximum() -> (r: u8) {
        u8::MAX
    }
}

impl Step for u8 {
    open spec fn index(&self) -> int {
        *self as int
    }

    open spec fn from_index(i: int) -> u8 {
        i as u8
    }

    proof fn lemma_index_bounds(v: u8) {
    }

    proof fn lemma_min_below_max() {
    }

    proof fn lemma_from_index(i: int) {
    }

    proof fn lemma_index_injective(a: u8, b: u8) {
    }

    proof fn lemma_cloned(a: u8, b: u8) {
    }

    fn steps_between(start: &u8, end: &u8) -> (r: (usize, Option<usize>)) {
        if *start <= *end {
            let steps = (*end - *start) as usize;
            (steps, Some(steps))
        } else {
            (0, None)
        }
    }

    fn forward_checked(start: u8, n: usize) -> (r: Option<u8>) {
        match u8::try_from(n) {
            Ok(n) => start.checked_add(n),
            Err(_) => None,
        }
    }

    fn backward_checked(start: u8, n: usize) -> (r: Option<u8>) {
        match u8::try_from(n) {
            Ok(n) => start.checked_sub(n),
            Err(_) => None,
        }
    }
}

impl MinMax for i8 {
    open spec fn spec_min() -> i8 {
        i8::MIN
    }

    open spec fn spec_max() -> i8 {
        i8::MAX
    }

    fn minimum() -> (r: i8) {
        i8::MIN
    }

    fn maximum() -> (r: i8) {
        i8::MAX
    }
}

impl Step for i8 {
    open spec fn index(&self) -> int {
        *self as int
    }

    open spec fn from_index(i: int) -> i8 {
        i as i8
    }

    proof fn lemma_index_bounds(v: i8) {
    }

    proof fn lemma_min_below_max() {
    }

    proof fn lemma_from_index(i: int) {
    }

    proof fn lemma_index_injective(a: i8, b: i8) {
    }

    proof fn lemma_cloned(a: i8, b: i8) {
    }

    fn steps_between(start: &i8, end: &i8) -> (r: (usize, Option<usize>)) {
        if *start <= *end {
            let steps = (*end as i64 - *start as i64) as usize;
            (steps, Some(steps))
        } else {
            (0, None)
        }
    }

    fn forward_checked(start: i8, n: usize) -> (r: Option<i8>) {
        match u8::try_from(n) {
            Ok(n) => start.checked_add_unsigned(n),
            Err(_) => None,
        }
    }

    fn backward_checked(start: i8, n: usize) -> (r: Option<i8>) {
        match u8::try_from(n) {
            Ok(n) => start.checked_sub_unsigned(n),
            Err(_) => None,
        }
    }
}

impl MinMax for u16 {
    open spec fn spec_min() -> u16 {
        u16::MIN
    }

    open spec fn spec_max() -> u16 {
        u16::MAX
    }

    fn minimum() -> (r: u16) {
        u16::MIN
    }

    fn maximum() -> (r: u16) {
        u16::MAX
    }
}

impl Step for u16 {
    open spec fn index(&self) -> int {
        *self as int
    }

    open spec fn from_index(i: int) -> u16 {
        i as u16
    }

    proof fn lemma_index_bounds(v: u16) {
    }

    proof fn lemma_min_below_max() {
    }

    proof fn lemma_from_index(i: int) {
    }

    proof fn lemma_index_injective(a: u16, b: u16) {
    }

    proof fn lemma_cloned(a: u16, b: u16) {
    }

    fn steps_between(start: &u16, end: &u16) -> (r: (usize, Option<usize>)) {
        if *start <= *end {
            let steps = (*end - *start) as usize;
            (steps, Some(steps))
        } else {
            (0, None)
        }
    }

    fn forward_checked(start: u16, n: usize) -> (r: Option<u16>) {
        match u16::try_from(n) {
            Ok(n) => start.checked_add(n),
            Err(_) => None,
        }
    }

    fn backward_checked(start: u16, n: usize) -> (r: Option<u16>) {
        match u16::try_from(n) {
            Ok(n) => start.checked_sub(n),
            Err(_) => None,
        }
    }
}

impl MinMax for i16 {
    open spec fn spec_min() -> i16 {
        i16::MIN
    }

    open spec fn spec_max() -> i16 {
        i16::MAX
    }

    fn minimum() -> (r: i16) {
        i16::MIN
    }

    fn maximum() -> (r: i16) {
        i16::MAX
    }
}

impl Step for i16 {
    open spec fn index(&self) -> int {
        *self as int
    }

    open spec fn from_index(i: int) -> i16 {
        i as i16
    }

    proof fn lemma_index_bounds(v: i16) {
    }

    proof fn lemma_min_below_max() {
    }

    proof fn lemma_from_index(i: int) {
    }

    proof fn lemma_index_injective(a: i16, b: i16) {
    }

    proof fn lemma_cloned(a: i16, b: i16) {
    }

    fn steps_between(start: &i16, end: &i16) -> (r: (usize, Option<usize>)) {
        if *start <= *end {
            let steps = (*end as i64 - *start as i64) as usize;
            (steps, Some(steps))
        } else {
            (0, None)
        }
    }

    fn forward_checked(start: i16, n: usize) -> (r: Option<i16>) {
        match u16::try_from(n) {
            Ok(n) => start.checked_add_unsigned(n),
            Err(_) => None,
        }
    }

    fn backward_checked(start: i16, n: usize) -> (r: Option<i16>) {
        match u16::try_from(n) {
            Ok(n) => start.checked_sub_unsigned(n),
            Err(_) => None,
        }
    }
}

impl MinMax for u32 {
    open spec fn spec_min() -> u32 {
        u32::MIN
    }

    open spec fn spec_max() -> u32 {
        u32::MAX
    }

    fn minimum() -> (r: u32) {
        u32::MIN
    }

    fn maximum() -> (r: u32) {
        u32::MAX
    }
}

impl Step for u32 {
    open spec fn index(&self) -> int {
        *self as int
    }

    open spec fn from_index(i: int) -> u32 {
        i as u32
    }

    proof fn lemma_index_bounds(v: u32) {
    }

    proof fn lemma_min_below_max() {
    }

    proof fn lemma_from_index(i: int) {
    }

    proof fn lemma_index_injective(a: u32, b: u32) {
    }

    proof fn lemma_cloned(a: u32, b: u32) {
    }

    fn steps_between(start: &u32, end: &u32) -> (r: (usize, Option<usize>)) {
        if *start <= *end {
            let steps = (*end - *start) as usize;
            (steps, Some(steps))
        } else {
            (0, None)
        }
    }

    fn forward_checked(start: u32, n: usize) -> (r: Option<u32>) {
        match u32::try_from(n) {
            Ok(n) => start.checked_add(n),
            Err(_) => None,
        }
    }

    fn backward_checked(start: u32, n: usize) -> (r: Option<u32>) {
        match u32::try_from(n) {
            Ok(n) => start.checked_sub(n),
            Err(_) => None,
        }
    }
}

impl MinMax for i32 {
    open spec fn spec_min() -> i32 {
        i32::MIN
    }

    open spec fn spec_max() -> i32 {
        i32::MAX
    }

    fn minimum() -> (r: i32) {
        i32::MIN
    }

    fn maximum() -> (r: i32) {
        i32::MAX
    }
}

impl Step for i32 {
    open spec fn index(&self) -> int {
        *self as int
    }

    open spec fn from_index(i: int) -> i32 {
        i as i32
    }

    proof fn lemma_index_bounds(v: i32) {
    }

    proof fn lemma_min_below_max() {
    }

    proof fn lemma_from_index(i: int) {
    }

    proof fn lemma_index_injective(a: i32, b: i32) {
    }

    proof fn lemma_cloned(a: i32, b: i32) {
    }

    fn steps_between(start: &i32, end: &i32) -> (r: (usize, Option<usize>)) {
        if *start <= *end {
            let steps = (*end as i64 - *start as i64) as usize;
            (steps, Some(steps))
        } else {
            (0, None)
        }
    }

    fn forward_checked(start: i32, n: usize) -> (r: Option<i32>) {
        match u32::try_from(n) {
            Ok(n) => start.checked_add_unsigned(n),
            Err(_) => None,
        }
    }

    fn backward_checked(start: i32, n: usize) -> (r: Option<i32>) {
        match u32::try_from(n) {
            Ok(n) => start.checked_sub_unsigned(n),
            Err(_) => None,
        }
    }
}

impl MinMax for u64 {
    open spec fn spec_min() -> u64 {
        u64::MIN
    }

    open spec fn spec_max() -> u64 {
        u64::MAX
    }

    fn minimum() -> (r: u64) {
        u64::MIN
    }

    fn maximum() -> (r: u64) {
        u64::MAX
    }
}

impl Step for u64 {
    open spec fn index(&self) -> int {
        *self as int
    }

    open spec fn from_index(i: int) -> u64 {
        i as u64
    }

    proof fn lemma_index_bounds(v: u64) {
    }

    proof fn lemma_min_below_max() {
    }

    proof fn lemma_from_index(i: int) {
    }

    proof fn lemma_index_injective(a: u64, b: u64) {
    }

    proof fn lemma_cloned(a: u64, b: u64) {
    }

    fn steps_between(start: &u64, end: &u64) -> (r: (usize, Option<usize>)) {
        if *start <= *end {
            match usize::try_from(*end - *start) {
                Ok(steps) => (steps, Some(steps)),
                Err(_) => (usize::MAX, None),
            }
        } else {
            (0, None)
        }
    }

    fn forward_checked(start: u64, n: usize) -> (r: Option<u64>) {
        start.checked_add(n as u64)
    }

    fn backward_checked(start: u64, n: usize) -> (r: Option<u64>) {
        start.checked_sub(n as u64)
    }
}

impl MinMax for i64 {
    open spec fn spec_min() -> i64 {
        i64::MIN
    }

    open spec fn spec_max() -> i64 {
        i64::MAX
    }

    fn minimum() -> (r: i64) {
        i64::MIN
    }

    fn maximum() -> (r: i64) {
        i64::MAX
    }
}

impl Step for i64 {
    open spec fn index(&self) -> int {
        *self as int
    }

    open spec fn from_index(i: int) -> i64 {
        i as i64
    }

    proof fn lemma_index_bounds(v: i64) {
    }

    proof fn lemma_min_below_max() {
    }

    proof fn lemma_from_index(i: int) {
    }

    proof fn lemma_index_injective(a: i64, b: i64) {
    }

    proof fn lemma_cloned(a: i64, b: i64) {
    }

    fn steps_between(start: &i64, end: &i64) -> (r: (usize, Option<usize>)) {
        if *start <= *end {
            match usize::try_from((*end as i128 - *start as i128) as u64) {
                Ok(steps) => (steps, Some(steps)),
                Err(_) => (usize::MAX, None),
            }
        } else {
            (0, None)
        }
    }

    fn forward_checked(start: i64, n: usize) -> (r: Option<i64>) {
        match u64::try_from(n) {
            Ok(n) => start.checked_add_unsigned(n),
            Err(_) => None,
        }
    }

    fn backward_checked(start: i64, n: usize) -> (r: Option<i64>) {
        match u64::try_from(n) {
            Ok(n) => start.checked_sub_unsigned(n),
            Err(_) => None,
        }
    }
}

impl MinMax for usize {
    open spec fn spec_min() -> usize {
        usize::MIN
    }

    open spec fn spec_max() -> usize {
        usize::MAX
    }

    fn minimum() -> (r: usize) {
        usize::MIN
    }

    fn maximum() -> (r: usize) {
        usize::MAX
    }
}

impl Step for usize {
    open spec fn index(&self) -> int {
        *self as int
    }

    open spec fn from_index(i: int) -> usize {
        i as usize
    }

    proof fn lemma_index_bounds(v: usize) {
    }

    proof fn lemma_min_below_max() {
    }

    proof fn lemma_from_index(i: int) {
    }

    proof fn lemma_index_injective(a: usize, b: usize) {
    }

    proof fn lemma_cloned(a: usize, b: usize) {
    }

    fn steps_between(start: &usize, end: &usize) -> (r: (usize, Option<usize>)) {
        if *start <= *end {
            let steps = (*end - *start) as usize;
            (steps, Some(steps))
        } else {
            (0, None)
        }
    }

    fn forward_checked(start: usize, n: usize) -> (r: Option<usize>) {
        start.checked_add(n)
    }

    fn backward_checked(start: usize, n: usize) -> (r: Option<usize>) {
        start.checked_sub(n)
    }
}

impl MinMax for isize {
    open spec fn spec_min() -> isize {
        isize::MIN
    }

    open spec fn spec_max() -> isize {
        isize::MAX
    }

    fn minimum() -> (r: isize) {
        isize::MIN
    }

    fn maximum() -> (r: isize) {
        isize::MAX
    }
}

impl Step for isize {
    open spec fn index(&self) -> int {
        *self as int
    }

    open spec fn from_index(i: int) -> isize {
        i as isize
    }

    proof fn lemma_index_bounds(v: isize) {
    }

    proof fn lemma_min_below_max() {
    }

    proof fn lemma_from_index(i: int) {
    }

    proof fn lemma_index_injective(a: isize, b: isize) {
    }

    proof fn lemma_cloned(a: isize, b: isize) {
    }

    fn steps_between(start: &isize, end: &isize) -> (r: (usize, Option<usize>)) {
        if *start <= *end {
            let steps = (*end as i128 - *start as i128) as usize;
            (steps, Some(steps))
        } else {
            (0, None)
        }
    }

    fn forward_checked(start: isize, n: usize) -> (r: Option<isize>) {
        start.checked_add_unsigned(n)
    }

    fn backward_checked(start: isize, n: usize) -> (r: Option<isize>) {
        start.checked_sub_unsigned(n)
    }
}

impl MinMax for u128 {
    open spec fn spec_min() -> u128 {
        u128::MIN
    }

    open spec fn spec_max() -> u128 {
        u128::MAX
    }

    fn minimum() -> (r: u128) {
        u128::MIN
    }

    fn maximum() -> (r: u128) {
        u128::MAX
    }
}

impl Step for u128 {
    open spec fn index(&self) -> int {
        *self as int
    }

    open spec fn from_index(i: int) -> u128 {
        i as u128
    }

    proof fn lemma_index_bounds(v: u128) {
    }

    proof fn lemma_min_below_max() {
    }

    proof fn lemma_from_index(i: int) {
    }

    proof fn lemma_index_injective(a: u128, b: u128) {
    }

    proof fn lemma_cloned(a: u128, b: u128) {
    }

    fn steps_between(start: &u128, end: &u128) -> (r: (usize, Option<usize>)) {
        if *start <= *end {
            match usize::try_from(*end - *start) {
                Ok(steps) => (steps, Some(steps)),
                Err(_) => (usize::MAX, None),
            }
        } else {
            (0, None)
        }
    }

    fn forward_checked(start: u128, n: usize) -> (r: Option<u128>) {
        start.checked_add(n as u128)
    }

    fn backward_checked(start: u128, n: usize) -> (r: Option<u128>) {
        start.checked_sub(n as u128)
    }
}

impl MinMax for i128 {
    open spec fn spec_min() -> i128 {
        i128::MIN
    }

    open spec fn spec_max() -> i128 {
        i128::MAX
    }

    fn minimum() -> (r: i128) {
        i128::MIN
    }

    fn maximum() -> (r: i128) {
        i128::MAX
    }
}

impl Step for i128 {
    open spec fn index(&self) -> int {
        *self as int
    }

    open spec fn from_index(i: int) -> i128 {
        i as i128
    }

    proof fn lemma_index_bounds(v: i128) {
    }

    proof fn lemma_min_below_max() {
    }

    proof fn lemma_from_index(i: int) {
    }

    proof fn lemma_index_injective(a: i128, b: i128) {
    }

    proof fn lemma_cloned(a: i128, b: i128) {
    }

    fn steps_between(start: &i128, end: &i128) -> (r: (usize, Option<usize>)) {
        if *start <= *end {
            match end.checked_sub(*start) {
                Some(result) => {
                    if result <= usize::MAX as i128 {
                        let steps = result as usize;
                        (steps, Some(steps))
                    } else {
                        (usize::MAX, None)
                    }
                },
                None => (usize::MAX, None),
            }
        } else {
            (0, None)
        }
    }

    fn forward_checked(start: i128, n: usize) -> (r: Option<i128>) {
        start.checked_add(n as i128)
    }

    fn backward_checked(start: i128, n: usize) -> (r: Option<i128>) {
        start.checked_sub(n as i128)
    }
}

} // verus!
