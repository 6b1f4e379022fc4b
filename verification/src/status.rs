//! The text-parsing capability of the application status-code type.
//!
//! The schema declares each variant's application status as literal text;
//! descriptor construction parses that text into the status type's own
//! value. The capability is a trait so that any status type with its own
//! parsing logic can serve; a decimal `u16` status (HTTP-style) is
//! provided here, verified against its specification.

use vstd::prelude::*;
use vstd::string::StrSliceExecFns;

verus! {

/// The text-parsing capability a status-code type offers: construction of
/// a descriptor turns the schema's literal status text into a value of
/// this type through it.
pub trait StatusParse: Sized {
    /// What parsing means for this type: `Some(v)` exactly on the texts
    /// the type accepts, and on no others.
    spec fn spec_parse(s: Seq<char>) -> Option<Self>;

    /// Parses `s`; returns `Some` exactly where `spec_parse` does.
    fn parse_status(s: &str) -> (r: Option<Self>)
        ensures
            r == Self::spec_parse(s@);
}

/// `c` is a decimal digit.
pub open spec fn is_digit(c: char) -> bool {
    '0' <= c && c <= '9'
}

/// The numeric value of the digit `c`.
pub open spec fn digit_val(c: char) -> int {
    c as int - '0' as int
}

/// The integer denoted by the digit string `s`, most significant digit
/// first.
pub open spec fn decimal_val(s: Seq<char>) -> int
    decreases s.len(),
{
    if s.len() == 0 {
        0
    } else {
        decimal_val(s.drop_last()) * 10 + digit_val(s.last())
    }
}

/// `s` is a non-empty string of decimal digits.
pub open spec fn is_decimal(s: Seq<char>) -> bool {
    s.len() > 0 && (forall|i: int| 0 <= i < s.len() ==> is_digit(s[i]))
}

/// A digit string's value is never negative.
proof fn lemma_decimal_val_nonneg(s: Seq<char>)
    requires
        forall|i: int| 0 <= i < s.len() ==> is_digit(s[i]),
    ensures
        decimal_val(s) >= 0,
    decreases s.len(),
{
    if s.len() > 0 {
        lemma_decimal_val_nonneg(s.drop_last());
    }
}

impl StatusParse for u16 {
    /// Decimal numerals whose value fits in sixteen bits; anything else
    /// is rejected.
    open spec fn spec_parse(s: Seq<char>) -> Option<u16> {
        if is_decimal(s) && decimal_val(s) <= u16::MAX {
            Some(decimal_val(s) as u16)
        } else {
            None
        }
    }

    fn parse_status(s: &str) -> (r: Option<u16>) {
        let n: usize = s.unicode_len();
        if n == 0 {
            return None;
        }
        let mut v: u32 = 0;
        let mut over: bool = false;
        let mut i: usize = 0;
        while i < n
            invariant
                0 < n == s@.len(),
                i <= n,
                forall|k: int| 0 <= k < i ==> is_digit(s@[k]),
                !over ==> v == decimal_val(s@.subrange(0, i as int)) && v <= 0xFFFF,
                over ==> decimal_val(s@.subrange(0, i as int)) > 0xFFFF,
            decreases n - i,
        {
            let c = s.get_char(i);
            if c < '0' || c > '9' {
                proof {
                    assert(!is_digit(s@[i as int]));
                }
                return None;
            }
            let d: u32 = (c as u32) - 48;
            proof {
                let t = s@.subrange(0, i as int + 1);
                assert(t.drop_last() =~= s@.subrange(0, i as int));
                assert(t.last() == s@[i as int]);
                assert(digit_val(s@[i as int]) == d);
                lemma_decimal_val_nonneg(s@.subrange(0, i as int));
            }
            if over {
                i = i + 1;
            } else {
                let nv: u32 = v * 10 + d;
                if nv > 0xFFFF {
                    over = true;
                } else {
                    v = nv;
                }
                i = i + 1;
            }
        }
        proof {
            assert(s@.subrange(0, n as int) =~= s@);
        }
        if over {
            None
        } else {
            Some(v as u16)
        }
    }
}

} // verus!
