//! The serializer: a solved parameter vector rendered as the CSS
//! filter-chain string.
//!
//! Grammar: `invert(I%) sepia(S%) saturate(T%) hue-rotate(Hdeg)
//! brightness(B%) contrast(C%)`. Each value is held in tenths and rounded to
//! the nearest integer for display; the hue-rotate unit is multiplied by 3.6
//! first to convert it to degrees.

use crate::fixed::lemma_div_at_most;
use crate::params::FilterParams;
use crate::solver::FilterResult;
use vstd::prelude::*;
use vstd::string::{StrSliceExecFns, StringExecFns};

verus! {

/// A value in tenths rounded to the nearest whole unit (halves round up).
pub open spec fn spec_round_tenths(t: int) -> int {
    (t + 5) / 10
}

/// A hue value in tenths of a unit, scaled by 3.6 to degrees and rounded to
/// the nearest whole degree.
pub open spec fn spec_round_hue_deg(t: int) -> int {
    (t * 36 + 50) / 100
}

/// The decimal digit `d` as a character.
pub open spec fn spec_digit_char(d: int) -> char {
    if d == 0 {
        '0'
    } else if d == 1 {
        '1'
    } else if d == 2 {
        '2'
    } else if d == 3 {
        '3'
    } else if d == 4 {
        '4'
    } else if d == 5 {
        '5'
    } else if d == 6 {
        '6'
    } else if d == 7 {
        '7'
    } else if d == 8 {
        '8'
    } else {
        '9'
    }
}

/// The decimal digits of a nonnegative number, most significant first.
pub open spec fn spec_decimal(n: int) -> Seq<char>
    decreases n,
{
    if n < 10 {
        seq![spec_digit_char(n)]
    } else {
        spec_decimal(n / 10) + seq![spec_digit_char(n % 10)]
    }
}

/// The full serialized filter chain of a parameter vector.
pub open spec fn spec_css(p: FilterParams) -> Seq<char> {
    "invert("@ + spec_decimal(spec_round_tenths(p.invert as int)) + "%) sepia("@ + spec_decimal(
        spec_round_tenths(p.sepia as int),
    ) + "%) saturate("@ + spec_decimal(spec_round_tenths(p.saturate as int)) + "%) hue-rotate("@
        + spec_decimal(spec_round_hue_deg(p.hue_rotate as int)) + "deg) brightness("@
        + spec_decimal(spec_round_tenths(p.brightness as int)) + "%) contrast("@ + spec_decimal(
        spec_round_tenths(p.contrast as int),
    ) + "%)"@
}

/// A value in tenths rounded to the nearest whole unit.
fn round_tenths(t: u32) -> (r: u32)
    ensures
        r == spec_round_tenths(t as int),
{
    proof {
        lemma_div_at_most(t + 5, 10, 429496730);
    }
    (((t as u64) + 5) / 10) as u32
}

/// A hue value in tenths of a unit rounded to whole degrees.
fn round_hue_deg(t: u32) -> (r: u32)
    ensures
        r == spec_round_hue_deg(t as int),
{
    proof {
        lemma_div_at_most((t as int) * 36 + 50, 100, 1546188227);
    }
    (((t as u64) * 36 + 50) / 100) as u32
}

/// One decimal digit as a string slice.
fn digit_str(d: u32) -> (s: &'static str)
    requires
        d < 10,
    ensures
        s@ =~= seq![spec_digit_char(d as int)],
{
    proof {
        reveal_strlit("0");
        reveal_strlit("1");
        reveal_strlit("2");
        reveal_strlit("3");
        reveal_strlit("4");
        reveal_strlit("5");
        reveal_strlit("6");
        reveal_strlit("7");
        reveal_strlit("8");
        reveal_strlit("9");
    }
    if d == 0 {
        "0"
    } else if d == 1 {
        "1"
    } else if d == 2 {
        "2"
    } else if d == 3 {
        "3"
    } else if d == 4 {
        "4"
    } else if d == 5 {
        "5"
    } else if d == 6 {
        "6"
    } else if d == 7 {
        "7"
    } else if d == 8 {
        "8"
    } else {
        "9"
    }
}

/// The decimal digits of a number, most significant first.
fn decimal_string(n: u32) -> (s: String)
    ensures
        s@ == spec_decimal(n as int),
    decreases n,
{
    if n < 10 {
        let s = String::from_str(digit_str(n));
        proof {
            assert(s@ =~= spec_decimal(n as int));
        }
        s
    } else {
        proof {
            vstd::arithmetic::div_mod::lemma_div_decreases(n as int, 10);
            vstd::arithmetic::div_mod::lemma_mod_division_less_than_divisor(n as int, 10);
            vstd::arithmetic::div_mod::lemma_div_pos_is_pos(n as int, 10);
        }
        let mut s = decimal_string(n / 10);
        s.append(digit_str(n % 10));
        s
    }
}

impl FilterResult {
    /// Serializes the filter values as the CSS filter-chain string.
    pub fn css(&self) -> (s: String)
        ensures
            s@ == spec_css(self.values),
    {
        let d_invert = decimal_string(round_tenths(self.values.invert));
        let d_sepia = decimal_string(round_tenths(self.values.sepia));
        let d_saturate = decimal_string(round_tenths(self.values.saturate));
        let d_hue = decimal_string(round_hue_deg(self.values.hue_rotate));
        let d_brightness = decimal_string(round_tenths(self.values.brightness));
        let d_contrast = decimal_string(round_tenths(self.values.contrast));
        let mut s = String::new();
        s.append("invert(");
        s.append(d_invert.as_str());
        s.append("%) sepia(");
        s.append(d_sepia.as_str());
        s.append("%) saturate(");
        s.append(d_saturate.as_str());
        s.append("%) hue-rotate(");
        s.append(d_hue.as_str());
        s.append("deg) brightness(");
        s.append(d_brightness.as_str());
        s.append("%) contrast(");
        s.append(d_contrast.as_str());
        s.append("%)");
        proof {
            assert(s@ =~= spec_css(self.values));
        }
        s
    }
}

} // verus!
