//! Parsing decimal form values into i32, with the grammar std's parser
//! accepts: an optional sign followed by one or more ASCII digits, and a
//! value that fits the type.

use vstd::prelude::*;

verus! {

pub open spec fn is_ascii_digit(c: char) -> bool {
    '0' <= c && c <= '9'
}

pub open spec fn digit_val(c: char) -> int {
    (c as u32) - ('0' as u32)
}

pub open spec fn all_digits(s: Seq<char>) -> bool {
    s.len() > 0 && forall|i: int| 0 <= i < s.len() ==> is_ascii_digit(#[trigger] s[i])
}

/// The number a digit string denotes.
pub open spec fn digits_val(s: Seq<char>) -> int
    decreases s.len(),
{
    if s.len() == 0 {
        0
    } else {
        digits_val(s.drop_last()) * 10 + digit_val(s.last())
    }
}

/// What parsing a string as an i32 yields: the signed value of its digits
/// when the shape is right and the value fits, nothing otherwise.
pub open spec fn parse_i32_spec(s: Seq<char>) -> Option<i32> {
    let signed = s.len() > 0 && (s[0] == '+' || s[0] == '-');
    let digits = if signed {
        s.skip(1)
    } else {
        s
    };
    let sign: int = if s.len() > 0 && s[0] == '-' {
        -1
    } else {
        1
    };
    if !all_digits(digits) {
        None
    } else {
        let v = sign * digits_val(digits);
        if i32::MIN <= v <= i32::MAX {
            Some(v as i32)
        } else {
            None
        }
    }
}

/// A digit string of non-negative value only grows when extended.
proof fn lemma_digits_val_nonneg(s: Seq<char>)
    requires
        forall|i: int| 0 <= i < s.len() ==> is_ascii_digit(#[trigger] s[i]),
    ensures
        digits_val(s) >= 0,
    decreases s.len(),
{
    if s.len() > 0 {
        lemma_digits_val_nonneg(s.drop_last());
    }
}

/// Parse a decimal string, as the form handlers do before falling back to
/// a default.
pub fn parse_i32(s: &str) -> (r: Option<i32>)
    ensures
        r == parse_i32_spec(s@),
{
    let n = s.unicode_len();
    if n == 0 {
        return None;
    }
    let first = s.get_char(0);
    let signed = first == '+' || first == '-';
    let negative = first == '-';
    let start: usize = if signed {
        1
    } else {
        0
    };
    let ghost digits = if signed {
        s@.skip(1)
    } else {
        s@
    };
    if n == start {
        // a bare sign has no digits
        return None;
    }
    let mut acc: i64 = 0;
    let mut over = false;
    let mut i: usize = start;
    while i < n
        invariant
            start <= i <= n,
            n == s@.len(),
            n > 0,
            signed == (s@[0] == '+' || s@[0] == '-'),
            negative == (s@[0] == '-'),
            start == if signed {
                1int
            } else {
                0
            },
            digits == if signed {
                s@.skip(1)
            } else {
                s@
            },
            forall|k: int| start <= k < i ==> is_ascii_digit(#[trigger] s@[k]),
            !over ==> acc == digits_val(s@.subrange(start as int, i as int)),
            !over ==> 0 <= acc <= 0x8000_0000i64,
            over ==> digits_val(s@.subrange(start as int, i as int)) > 0x8000_0000,
        decreases n - i,
    {
        let c = s.get_char(i);
        if !(c >= '0' && c <= '9') {
            proof {
                let k = i as int - start as int;
                assert(digits[k] == s@[i as int]);
                assert(!is_ascii_digit(digits[k]));
                assert(!all_digits(digits));
            }
            return None;
        }
        let d = (c as u32) - ('0' as u32);
        proof {
            assert(s@.subrange(start as int, i + 1).drop_last() =~= s@.subrange(
                start as int,
                i as int,
            ));
            assert(s@.subrange(start as int, i + 1).last() == s@[i as int]);
            lemma_digits_val_nonneg(s@.subrange(start as int, i as int));
        }
        if over {
        } else {
            let next = acc * 10 + (d as i64);
            if next > 0x8000_0000i64 {
                over = true;
            } else {
                acc = next;
            }
        }
        i = i + 1;
    }
    proof {
        if signed {
            assert(s@.subrange(1, n as int) =~= s@.skip(1));
        } else {
            assert(s@.subrange(0, n as int) =~= s@);
        }
        assert forall|k: int| 0 <= k < digits.len() implies is_ascii_digit(
            #[trigger] digits[k],
        ) by {
            assert(digits[k] == s@[k + start]);
        }
        assert(all_digits(digits));
    }
    proof {
        let val = digits_val(digits);
        assert((-1int) * val == -val) by (nonlinear_arith);
        assert((1int) * val == val) by (nonlinear_arith);
    }
    if over {
        return None;
    }
    if negative {
        Some((-acc) as i32)
    } else {
        if acc > 0x7fff_ffffi64 {
            None
        } else {
            Some(acc as i32)
        }
    }
}

} // verus!
