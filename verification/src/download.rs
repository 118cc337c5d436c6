//! Download progress metadata.
//!
//! A download's progress reporting is driven by the `Content-Length`
//! response header when it is present and parses as a signed 64-bit decimal
//! number; a missing or malformed header degrades to `-1`, the open-ended
//! progress marker, never to an error.

use vstd::prelude::*;
use vstd::string::*;

verus! {

/// Whether every character of `s` is a decimal digit.
pub open spec fn spec_all_digits(s: Seq<char>) -> bool {
    forall|i: int| 0 <= i < s.len() ==> '0' as int <= (#[trigger] s[i]) as int <= '9' as int
}

/// The number a digit string denotes.
pub open spec fn spec_digits_val(s: Seq<char>) -> int
    decreases s.len(),
{
    if s.len() == 0 {
        0
    } else {
        spec_digits_val(s.drop_last()) * 10 + (s.last() as int - '0' as int)
    }
}

/// What a digit string denotes is never negative.
proof fn lemma_digits_val_nonneg(s: Seq<char>)
    requires
        spec_all_digits(s),
    ensures
        spec_digits_val(s) >= 0,
    decreases s.len(),
{
    if s.len() > 0 {
        assert(spec_all_digits(s.drop_last()));
        lemma_digits_val_nonneg(s.drop_last());
    }
}

/// A digit string denotes at least as much as any of its prefixes.
proof fn lemma_digits_val_prefix_le(s: Seq<char>, i: int)
    requires
        spec_all_digits(s),
        0 <= i <= s.len(),
    ensures
        spec_digits_val(s.subrange(0, i)) <= spec_digits_val(s),
    decreases s.len(),
{
    if i == s.len() {
        assert(s.subrange(0, i) =~= s);
    } else {
        assert(spec_all_digits(s.drop_last()));
        assert(s.drop_last().subrange(0, i) =~= s.subrange(0, i));
        lemma_digits_val_prefix_le(s.drop_last(), i);
        lemma_digits_val_nonneg(s.drop_last());
    }
}

/// How a signed 64-bit decimal number reads: an optional `+` or `-`, then at
/// least one digit, with the value within the 64-bit signed range.
pub open spec fn spec_parse_i64(s: Seq<char>) -> Option<int> {
    let negative = s.len() > 0 && s[0] == '-';
    let digits = if s.len() > 0 && (s[0] == '-' || s[0] == '+') {
        s.drop_first()
    } else {
        s
    };
    if digits.len() == 0 || !spec_all_digits(digits) {
        None
    } else {
        let v = if negative {
            -spec_digits_val(digits)
        } else {
            spec_digits_val(digits)
        };
        if -9223372036854775808 <= v <= 9223372036854775807 {
            Some(v)
        } else {
            None
        }
    }
}

/// The byte total that drives progress reporting: the header's value when it
/// is present and parseable, `-1` otherwise.
pub open spec fn spec_content_length(h: Option<Seq<char>>) -> int {
    match h {
        None => -1,
        Some(s) => match spec_parse_i64(s) {
            Some(v) => v,
            None => -1,
        },
    }
}

/// Reads the `Content-Length` header's value for progress reporting; a
/// missing or malformed header yields the open-ended marker `-1`.
pub fn parse_content_length(header: Option<&str>) -> (r: i64)
    ensures
        r as int == spec_content_length(
            match header {
                Some(h) => Some(h@),
                None => None,
            },
        ),
{
    let s = match header {
        None => {
            return -1;
        },
        Some(s) => s,
    };
    let s_len = s.unicode_len();
    if s_len == 0 {
        return -1;
    }
    let first = s.get_char(0);
    let negative = first == '-';
    let has_sign = first == '-' || first == '+';
    let start: usize = if has_sign {
        1
    } else {
        0
    };
    let ghost digits = if has_sign {
        s@.drop_first()
    } else {
        s@
    };
    if start == s_len {
        return -1;
    }
    let mut mag: u64 = 0;
    let mut i: usize = start;
    proof {
        assert(s@.subrange(start as int, start as int) =~= Seq::<char>::empty());
        assert(digits =~= s@.subrange(start as int, s_len as int));
    }
    while i < s_len
        invariant
            header is Some,
            header->0@ == s@,
            start <= i <= s_len,
            s_len == s@.len(),
            s_len > 0,
            has_sign == (s@[0] == '-' || s@[0] == '+'),
            negative == (s@[0] == '-'),
            start == (if has_sign { 1int } else { 0int }),
            digits == (if has_sign { s@.drop_first() } else { s@ }),
            digits == s@.subrange(start as int, s_len as int),
            spec_all_digits(s@.subrange(start as int, i as int)),
            mag == spec_digits_val(s@.subrange(start as int, i as int)),
        decreases s_len - i,
    {
        let c = s.get_char(i);
        let cv = c as u32;
        if cv < '0' as u32 || cv > '9' as u32 {
            proof {
                assert(digits[i - start] == s@[i as int]);
                assert(!('0' as int <= c as int <= '9' as int));
                assert(!spec_all_digits(digits));
                assert(spec_parse_i64(s@) is None);
            }
            return -1;
        }
        let d: u64 = (cv - '0' as u32) as u64;
        let ghost pre = s@.subrange(start as int, i as int);
        let ghost ext = s@.subrange(start as int, i + 1 as int);
        proof {
            assert(ext.drop_last() =~= pre);
            assert(ext.last() == s@[i as int]);
            assert(spec_digits_val(ext) == mag * 10 + d);
            assert(spec_all_digits(ext));
        }
        if mag > (18446744073709551615u64 - d) / 10 {
            proof {
                if spec_all_digits(digits) {
                    assert(digits.subrange(0, i + 1 - start as int) =~= ext);
                    lemma_digits_val_prefix_le(digits, i + 1 - start as int);
                    assert(mag * 10 + d > 18446744073709551615) by {
                        let q = (18446744073709551615 - d as int) / 10;
                        assert(q * 10 <= 18446744073709551615 - d) by (nonlinear_arith)
                            requires q == (18446744073709551615 - d as int) / 10, 0 <= d <= 9;
                        assert(mag >= q + 1);
                        assert(mag * 10 >= (q + 1) * 10) by (nonlinear_arith)
                            requires mag >= q + 1;
                    }
                    assert(spec_digits_val(digits) > 9223372036854775808);
                }
                assert(spec_parse_i64(s@) is None);
            }
            return -1;
        }
        proof {
            assert(mag * 10 + d <= 18446744073709551615) by {
                let q = (18446744073709551615 - d as int) / 10;
                assert(q * 10 <= 18446744073709551615 - d) by (nonlinear_arith)
                    requires q == (18446744073709551615 - d as int) / 10, 0 <= d <= 9;
                assert(mag <= q);
                assert(mag * 10 <= q * 10) by (nonlinear_arith)
                    requires mag <= q;
            }
        }
        mag = mag * 10 + d;
        i += 1;
    }
    proof {
        assert(s@.subrange(start as int, s_len as int) == digits);
    }
    if negative {
        if mag > 9223372036854775808u64 {
            return -1;
        }
        if mag == 9223372036854775808u64 {
            return -9223372036854775807i64 - 1;
        }
        -(mag as i64)
    } else {
        if mag > 9223372036854775807u64 {
            return -1;
        }
        mag as i64
    }
}

} // verus!
