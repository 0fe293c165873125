//! The numeric grammar of report fields.
//!
//! A field value, once trimmed, must be a number in decimal or scientific
//! notation: an optional sign, digits with an optional decimal point, and
//! an optional `e`/`E` exponent with its own optional sign.  The grammar is
//! decided by a small character-by-character scanner.

use vstd::prelude::*;
use vstd::string::StrSliceExecFns;

verus! {

/// `c` is a decimal digit.
pub open spec fn spec_is_digit(c: char) -> bool {
    '0' <= c && c <= '9'
}

/// States of the number scanner.  `IntPart`, `Frac` and `ExpDigits` accept.
#[derive(Clone, Copy, Debug, PartialEq, Eq, Structural)]
pub enum NumberScanState {
    /// Nothing read yet.
    Start,
    /// A leading sign was read.
    Sign,
    /// Inside the digits before any decimal point.
    IntPart,
    /// A decimal point was read before any digit.
    LeadingDot,
    /// Inside the digits after the decimal point.
    Frac,
    /// The exponent mark was read.
    ExpMark,
    /// The exponent's sign was read.
    ExpSign,
    /// Inside the exponent's digits.
    ExpDigits,
    /// The input left the grammar.
    Reject,
}

/// One scanner transition.
pub open spec fn spec_scan_step(st: NumberScanState, c: char) -> NumberScanState {
    match st {
        NumberScanState::Start => if c == '+' || c == '-' {
            NumberScanState::Sign
        } else if spec_is_digit(c) {
            NumberScanState::IntPart
        } else if c == '.' {
            NumberScanState::LeadingDot
        } else {
            NumberScanState::Reject
        },
        NumberScanState::Sign => if spec_is_digit(c) {
            NumberScanState::IntPart
        } else if c == '.' {
            NumberScanState::LeadingDot
        } else {
            NumberScanState::Reject
        },
        NumberScanState::IntPart => if spec_is_digit(c) {
            NumberScanState::IntPart
        } else if c == '.' {
            NumberScanState::Frac
        } else if c == 'e' || c == 'E' {
            NumberScanState::ExpMark
        } else {
            NumberScanState::Reject
        },
        NumberScanState::LeadingDot => if spec_is_digit(c) {
            NumberScanState::Frac
        } else {
            NumberScanState::Reject
        },
        NumberScanState::Frac => if spec_is_digit(c) {
            NumberScanState::Frac
        } else if c == 'e' || c == 'E' {
            NumberScanState::ExpMark
        } else {
            NumberScanState::Reject
        },
        NumberScanState::ExpMark => if c == '+' || c == '-' {
            NumberScanState::ExpSign
        } else if spec_is_digit(c) {
            NumberScanState::ExpDigits
        } else {
            NumberScanState::Reject
        },
        NumberScanState::ExpSign => if spec_is_digit(c) {
            NumberScanState::ExpDigits
        } else {
            NumberScanState::Reject
        },
        NumberScanState::ExpDigits => if spec_is_digit(c) {
            NumberScanState::ExpDigits
        } else {
            NumberScanState::Reject
        },
        NumberScanState::Reject => NumberScanState::Reject,
    }
}

/// The scanner's state after reading all of `s`.
pub open spec fn spec_scan(s: Seq<char>) -> NumberScanState
    decreases s.len(),
{
    if s.len() == 0 {
        NumberScanState::Start
    } else {
        spec_scan_step(spec_scan(s.drop_last()), s.last())
    }
}

/// `s` is a number in decimal or scientific notation.
pub open spec fn spec_is_number(s: Seq<char>) -> bool {
    spec_scan(s) == NumberScanState::IntPart || spec_scan(s) == NumberScanState::Frac
        || spec_scan(s) == NumberScanState::ExpDigits
}

fn scan_step(st: NumberScanState, c: char) -> (r: NumberScanState)
    ensures
        r == spec_scan_step(st, c),
{
    match st {
        NumberScanState::Start => if c == '+' || c == '-' {
            NumberScanState::Sign
        } else if '0' <= c && c <= '9' {
            NumberScanState::IntPart
        } else if c == '.' {
            NumberScanState::LeadingDot
        } else {
            NumberScanState::Reject
        },
        NumberScanState::Sign => if '0' <= c && c <= '9' {
            NumberScanState::IntPart
        } else if c == '.' {
            NumberScanState::LeadingDot
        } else {
            NumberScanState::Reject
        },
        NumberScanState::IntPart => if '0' <= c && c <= '9' {
            NumberScanState::IntPart
        } else if c == '.' {
            NumberScanState::Frac
        } else if c == 'e' || c == 'E' {
            NumberScanState::ExpMark
        } else {
            NumberScanState::Reject
        },
        NumberScanState::LeadingDot => if '0' <= c && c <= '9' {
            NumberScanState::Frac
        } else {
            NumberScanState::Reject
        },
        NumberScanState::Frac => if '0' <= c && c <= '9' {
            NumberScanState::Frac
        } else if c == 'e' || c == 'E' {
            NumberScanState::ExpMark
        } else {
            NumberScanState::Reject
        },
        NumberScanState::ExpMark => if c == '+' || c == '-' {
            NumberScanState::ExpSign
        } else if '0' <= c && c <= '9' {
            NumberScanState::ExpDigits
        } else {
            NumberScanState::Reject
        },
        NumberScanState::ExpSign => if '0' <= c && c <= '9' {
            NumberScanState::ExpDigits
        } else {
            NumberScanState::Reject
        },
        NumberScanState::ExpDigits => if '0' <= c && c <= '9' {
            NumberScanState::ExpDigits
        } else {
            NumberScanState::Reject
        },
        NumberScanState::Reject => NumberScanState::Reject,
    }
}

/// Decides whether `s` is a number in decimal or scientific notation.
pub fn is_number(s: &str) -> (r: bool)
    ensures
        r == spec_is_number(s@),
{
    let m = s.unicode_len();
    let mut st = NumberScanState::Start;
    let mut i: usize = 0;
    proof {
        assert(s@.take(0).len() == 0);
    }
    while i < m
        invariant
            i <= m,
            m == s@.len(),
            st == spec_scan(s@.take(i as int)),
        decreases m - i,
    {
        let c = s.get_char(i);
        st = scan_step(st, c);
        i += 1;
        proof {
            assert(s@.take(i as int).drop_last() =~= s@.take(i - 1));
            assert(s@.take(i as int).last() == s@[i - 1]);
        }
    }
    proof {
        assert(s@.take(m as int) =~= s@);
    }
    st == NumberScanState::IntPart || st == NumberScanState::Frac || st
        == NumberScanState::ExpDigits
}

} // verus!
