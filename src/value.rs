//! The numeric values that rules are tested against: each stands for an
//! integer, can be tested for divisibility and be written in decimal.

use vstd::prelude::*;
use crate::text::{int_text, signed_string};

verus! {

/// Whether `n` is a multiple of `d`.
pub open spec fn divides(d: int, n: int) -> bool {
    d != 0 && n % d == 0
}

/// A numeric type whose values can be matched by divisibility rules.
pub trait FizzValue: Sized + Copy {
    /// The integer that this value stands for.
    spec fn as_int(&self) -> int;

    /// The value that stands for the small integer `k`.
    fn from_u8(k: u8) -> (r: Self)
        ensures
            r.as_int() == k as int,
    ;

    /// Whether this value is a multiple of `d`.
    fn is_multiple_of(&self, d: Self) -> (r: bool)
        requires
            d.as_int() != 0,
        ensures
            r == divides(d.as_int(), self.as_int()),
    ;

    /// The decimal form of this value.
    fn to_text(&self) -> (r: String)
        ensures
            r@ == int_text(self.as_int()),
    ;
}

impl FizzValue for u8 {
    open spec fn as_int(&self) -> int {
        *self as int
    }

    fn from_u8(k: u8) -> (r: Self) {
        k as u8
    }

    fn is_multiple_of(&self, d: Self) -> (r: bool) {
        *self % d == 0
    }

    fn to_text(&self) -> (r: String) {
        signed_string(false, *self as u64)
    }
}

impl FizzValue for u16 {
    open spec fn as_int(&self) -> int {
        *self as int
    }

    fn from_u8(k: u8) -> (r: Self) {
        k as u16
    }

    fn is_multiple_of(&self, d: Self) -> (r: bool) {
        *self % d == 0
    }

    fn to_text(&self) -> (r: String) {
        signed_string(false, *self as u64)
    }
}

impl FizzValue for u32 {
    open spec fn as_int(&self) -> int {
        *self as int
    }

    fn from_u8(k: u8) -> (r: Self) {
        k as u32
    }

    fn is_multiple_of(&self, d: Self) -> (r: bool) {
        *self % d == 0
    }

    fn to_text(&self) -> (r: String) {
        signed_string(false, *self as u64)
    }
}

impl FizzValue for u64 {
    open spec fn as_int(&self) -> int {
        *self as int
    }

    fn from_u8(k: u8) -> (r: Self) {
        k as u64
    }

    fn is_multiple_of(&self, d: Self) -> (r: bool) {
        *self % d == 0
    }

    fn to_text(&self) -> (r: String) {
        signed_string(false, *self as u64)
    }
}

impl FizzValue for i16 {
    open spec fn as_int(&self) -> int {
        *self as int
    }

    fn from_u8(k: u8) -> (r: Self) {
        k as i16
    }

    fn is_multiple_of(&self, d: Self) -> (r: bool) {
        match self.checked_rem_euclid(d) {
            Some(rem) => rem == 0,
            // only `MIN % -1` overflows, and every value is a multiple of -1
            None => true,
        }
    }

    fn to_text(&self) -> (r: String) {
        let wide = *self as i128;
        if wide < 0 {
            signed_string(true, (-wide) as u64)
        } else {
            signed_string(false, wide as u64)
        }
    }
}

impl FizzValue for i32 {
    open spec fn as_int(&self) -> int {
        *self as int
    }

    fn from_u8(k: u8) -> (r: Self) {
        k as i32
    }

    fn is_multiple_of(&self, d: Self) -> (r: bool) {
        match self.checked_rem_euclid(d) {
            Some(rem) => rem == 0,
            // only `MIN % -1` overflows, and every value is a multiple of -1
            None => true,
        }
    }

    fn to_text(&self) -> (r: String) {
        let wide = *self as i128;
        if wide < 0 {
            signed_string(true, (-wide) as u64)
        } else {
            signed_string(false, wide as u64)
        }
    }
}

impl FizzValue for i64 {
    open spec fn as_int(&self) -> int {
        *self as int
    }

    fn from_u8(k: u8) -> (r: Self) {
        k as i64
    }

    fn is_multiple_of(&self, d: Self) -> (r: bool) {
        match self.checked_rem_euclid(d) {
            Some(rem) => rem == 0,
            // only `MIN % -1` overflows, and every value is a multiple of -1
            None => true,
        }
    }

    fn to_text(&self) -> (r: String) {
        let wide = *self as i128;
        if wide < 0 {
            signed_string(true, (-wide) as u64)
        } else {
            signed_string(false, wide as u64)
        }
    }
}

} // verus!
