//! Parsing of optionally signed decimal integers from text.
//!
//! The numeric columns of the metadata source are decimal integers,
//! possibly preceded by a single `+` or `-` sign. The parsers here
//! accept exactly that shape — no blanks, no empty digit string — and
//! reject values outside the target type's range, mirroring how the
//! standard library reads integers from strings.

use vstd::prelude::*;

verus! {

/// Whether `c` is a decimal digit.
pub open spec fn spec_is_digit(c: char) -> bool {
    '0' as u32 <= c as u32 && c as u32 <= '9' as u32
}

/// The numeric value of a decimal digit.
pub open spec fn spec_digit_val(c: char) -> int {
    c as u32 - '0' as u32
}

/// Whether every character of `s` is a decimal digit.
pub open spec fn spec_all_digits(s: Seq<char>) -> bool {
    forall|i: int| 0 <= i < s.len() ==> spec_is_digit(s[i])
}

/// The value of a string of decimal digits, most significant first.
pub open spec fn spec_digits_val(s: Seq<char>) -> int
    decreases s.len(),
{
    if s.len() == 0 {
        0
    } else {
        spec_digits_val(s.drop_last()) * 10 + spec_digit_val(s.last())
    }
}

/// The integer a piece of text denotes: an optional single `+` or `-`
/// sign followed by at least one decimal digit, with no other
/// characters; anything else denotes nothing.
pub open spec fn spec_parse_int(s: Seq<char>) -> Option<int> {
    if s.len() >= 2 && s[0] == '-' && spec_all_digits(s.skip(1)) {
        Some(-spec_digits_val(s.skip(1)))
    } else if s.len() >= 2 && s[0] == '+' && spec_all_digits(s.skip(1)) {
        Some(spec_digits_val(s.skip(1)))
    } else if s.len() >= 1 && spec_all_digits(s) {
        Some(spec_digits_val(s))
    } else {
        None
    }
}

/// The magnitude of the integer `s` denotes: the value of its digit
/// part, the sign excluded.
pub open spec fn spec_magnitude(s: Seq<char>) -> int {
    if s.len() >= 1 && (s[0] == '-' || s[0] == '+') {
        spec_digits_val(s.skip(1))
    } else {
        spec_digits_val(s)
    }
}

/// A magnitude bound comfortably above every target range: magnitudes
/// beyond it are tracked only as "too large".
spec fn spec_mag_cap() -> int {
    0x1_0000_0000
}

/// Reads the sign and the magnitude of the integer `s` denotes, the
/// magnitude saturated one past `spec_mag_cap` when it exceeds it.
fn parse_sign_and_magnitude(s: &str) -> (r: Option<(bool, u64)>)
    ensures
        r is Some <==> spec_parse_int(s@) is Some,
        (match r {
            Some(p) => {
                let mag = spec_magnitude(s@);
                &&& 0 <= mag
                &&& spec_parse_int(s@) == Some(if p.0 { -mag } else { mag })
                &&& (mag <= spec_mag_cap() ==> p.1 == mag)
                &&& (mag > spec_mag_cap() ==> p.1 == spec_mag_cap() + 1)
            },
            None => true,
        }),
{
    let n = s.unicode_len();
    if n == 0 {
        return None;
    }
    let c0 = s.get_char(0);
    let neg = c0 == '-';
    let k: usize = if c0 == '-' || c0 == '+' {
        1
    } else {
        0
    };
    if n == k {
        // a lone sign has no digits
        proof {
            assert(!spec_is_digit(s@[0]));
        }
        return None;
    }
    let mut i: usize = k;
    let mut acc: u64 = 0;
    while i < n
        invariant
            k <= 1,
            k <= i <= n,
            n == s@.len(),
            k == 1 ==> (s@[0] == '-' || s@[0] == '+'),
            k == 0 ==> !(s@[0] == '-' || s@[0] == '+'),
            neg == (s@[0] == '-'),
            k < n,
            spec_all_digits(s@.subrange(k as int, i as int)),
            spec_digits_val(s@.subrange(k as int, i as int)) <= spec_mag_cap() ==> acc
                == spec_digits_val(s@.subrange(k as int, i as int)),
            spec_digits_val(s@.subrange(k as int, i as int)) > spec_mag_cap() ==> acc
                == spec_mag_cap() + 1,
            acc <= spec_mag_cap() + 1,
        decreases n - i,
    {
        let c = s.get_char(i);
        if (c as u32) < ('0' as u32) || (c as u32) > ('9' as u32) {
            // a non-digit after the sign: the text denotes nothing
            proof {
                assert(!spec_is_digit(s@[i as int]));
                if k == 1 {
                    assert(s@.skip(1)[i as int - 1] == s@[i as int]);
                    assert(!spec_all_digits(s@.skip(1)));
                    assert(!spec_is_digit(s@[0]));
                }
                assert(!spec_all_digits(s@));
            }
            return None;
        }
        let d: u64 = ((c as u32) - ('0' as u32)) as u64;
        let ghost pre = s@.subrange(k as int, i as int);
        let ghost vpre = spec_digits_val(pre);
        let t: u64 = acc * 10 + d;
        acc = if t > 0x1_0000_0000u64 {
            0x1_0000_0001u64
        } else {
            t
        };
        i = i + 1;
        proof {
            let cur = s@.subrange(k as int, i as int);
            assert(cur.drop_last() =~= pre);
            assert(cur.last() == s@[i - 1]);
            assert(spec_digits_val(cur) == vpre * 10 + spec_digit_val(s@[i - 1]));
            if vpre > spec_mag_cap() {
                assert(spec_digits_val(cur) > spec_mag_cap());
            }
        }
    }
    proof {
        let digits = s@.subrange(k as int, n as int);
        if k == 1 {
            assert(digits =~= s@.skip(1));
        } else {
            assert(digits =~= s@);
        }
        assert(spec_parse_int(s@) is Some);
    }
    Some((neg, acc))
}

/// Parses a 16-bit signed decimal integer: `Some` exactly when the
/// text denotes an integer within the type's range.
pub fn parse_i16(s: &str) -> (r: Option<i16>)
    ensures
        r is Some <==> (spec_parse_int(s@) matches Some(v) && -0x8000 <= v && v <= 0x7fff),
        (match r {
            Some(x) => spec_parse_int(s@) == Some(x as int),
            None => true,
        }),
{
    match parse_sign_and_magnitude(s) {
        None => None,
        Some((neg, mag)) => {
            if neg {
                if mag <= 0x8000 {
                    Some((-(mag as i32)) as i16)
                } else {
                    None
                }
            } else {
                if mag <= 0x7fff {
                    Some(mag as i16)
                } else {
                    None
                }
            }
        },
    }
}

/// Parses a 32-bit signed decimal integer: `Some` exactly when the
/// text denotes an integer within the type's range.
pub fn parse_i32(s: &str) -> (r: Option<i32>)
    ensures
        r is Some <==> (spec_parse_int(s@) matches Some(v) && -0x8000_0000 <= v && v
            <= 0x7fff_ffff),
        (match r {
            Some(x) => spec_parse_int(s@) == Some(x as int),
            None => true,
        }),
{
    match parse_sign_and_magnitude(s) {
        None => None,
        Some((neg, mag)) => {
            if neg {
                if mag <= 0x8000_0000 {
                    Some((-(mag as i64)) as i32)
                } else {
                    None
                }
            } else {
                if mag <= 0x7fff_ffff {
                    Some(mag as i32)
                } else {
                    None
                }
            }
        },
    }
}

} // verus!
