//! Hexadecimal rendering of bytes and 16-bit words.
//!
//! The listing prints raw instruction bytes and display addresses in
//! upper case, and operand values and branch targets in lower case, so
//! both alphabets are provided. Every function is specified against a
//! character-level model of its output.

use vstd::prelude::*;

verus! {

/// The lower-case hex digit for a value below 16.
pub open spec fn spec_hex_digit_lower(n: u8) -> char {
    if n == 0 {
        '0'
    } else if n == 1 {
        '1'
    } else if n == 2 {
        '2'
    } else if n == 3 {
        '3'
    } else if n == 4 {
        '4'
    } else if n == 5 {
        '5'
    } else if n == 6 {
        '6'
    } else if n == 7 {
        '7'
    } else if n == 8 {
        '8'
    } else if n == 9 {
        '9'
    } else if n == 10 {
        'a'
    } else if n == 11 {
        'b'
    } else if n == 12 {
        'c'
    } else if n == 13 {
        'd'
    } else if n == 14 {
        'e'
    } else {
        'f'
    }
}

/// The upper-case hex digit for a value below 16.
pub open spec fn spec_hex_digit_upper(n: u8) -> char {
    if n == 10 {
        'A'
    } else if n == 11 {
        'B'
    } else if n == 12 {
        'C'
    } else if n == 13 {
        'D'
    } else if n == 14 {
        'E'
    } else if n == 15 {
        'F'
    } else {
        spec_hex_digit_lower(n)
    }
}

/// Two lower-case hex digits of a byte, high nibble first.
pub open spec fn spec_hex2_lower(b: u8) -> Seq<char> {
    seq![spec_hex_digit_lower(b / 16), spec_hex_digit_lower(b % 16)]
}

/// Two upper-case hex digits of a byte, high nibble first.
pub open spec fn spec_hex2_upper(b: u8) -> Seq<char> {
    seq![spec_hex_digit_upper(b / 16), spec_hex_digit_upper(b % 16)]
}

/// Four lower-case hex digits of a 16-bit word, high byte first.
pub open spec fn spec_hex4_lower(w: u16) -> Seq<char> {
    spec_hex2_lower((w / 256) as u8) + spec_hex2_lower((w % 256) as u8)
}

/// Four upper-case hex digits of a 16-bit word, high byte first.
pub open spec fn spec_hex4_upper(w: u16) -> Seq<char> {
    spec_hex2_upper((w / 256) as u8) + spec_hex2_upper((w % 256) as u8)
}

fn hex_digit_lower(n: u8) -> (r: &'static str)
    requires
        n < 16,
    ensures
        r@ =~= seq![spec_hex_digit_lower(n)],
{
    let r: &'static str = match n {
        0 => "0",
        1 => "1",
        2 => "2",
        3 => "3",
        4 => "4",
        5 => "5",
        6 => "6",
        7 => "7",
        8 => "8",
        9 => "9",
        10 => "a",
        11 => "b",
        12 => "c",
        13 => "d",
        14 => "e",
        _ => "f",
    };
    proof {
        reveal_strlit("0");
        reveal_strlit("1");
        reveal_strlit("2");
        reveal_strlit("3");
        reveal_strlit("4");
        reveal_strlit("5");
        reveal_strlit("6");
        reveal_strlit("7");
        reveal_strlit("8");
        reveal_strlit("9");
        reveal_strlit("a");
        reveal_strlit("b");
        reveal_strlit("c");
        reveal_strlit("d");
        reveal_strlit("e");
        reveal_strlit("f");
    }
    r
}

fn hex_digit_upper(n: u8) -> (r: &'static str)
    requires
        n < 16,
    ensures
        r@ =~= seq![spec_hex_digit_upper(n)],
{
    let r: &'static str = match n {
        0 => "0",
        1 => "1",
        2 => "2",
        3 => "3",
        4 => "4",
        5 => "5",
        6 => "6",
        7 => "7",
        8 => "8",
        9 => "9",
        10 => "A",
        11 => "B",
        12 => "C",
        13 => "D",
        14 => "E",
        _ => "F",
    };
    proof {
        reveal_strlit("0");
        reveal_strlit("1");
        reveal_strlit("2");
        reveal_strlit("3");
        reveal_strlit("4");
        reveal_strlit("5");
        reveal_strlit("6");
        reveal_strlit("7");
        reveal_strlit("8");
        reveal_strlit("9");
        reveal_strlit("A");
        reveal_strlit("B");
        reveal_strlit("C");
        reveal_strlit("D");
        reveal_strlit("E");
        reveal_strlit("F");
    }
    r
}

/// Appends the two lower-case hex digits of `b` to `s`.
pub fn push_hex2_lower(s: &mut String, b: u8)
    ensures
        final(s)@ == old(s)@ + spec_hex2_lower(b),
{
    s.append(hex_digit_lower(b / 16));
    s.append(hex_digit_lower(b % 16));
    proof {
        assert(s@ =~= old(s)@ + spec_hex2_lower(b));
    }
}

/// Appends the two upper-case hex digits of `b` to `s`.
pub fn push_hex2_upper(s: &mut String, b: u8)
    ensures
        final(s)@ == old(s)@ + spec_hex2_upper(b),
{
    s.append(hex_digit_upper(b / 16));
    s.append(hex_digit_upper(b % 16));
    proof {
        assert(s@ =~= old(s)@ + spec_hex2_upper(b));
    }
}

/// Appends the four lower-case hex digits of `w` to `s`.
pub fn push_hex4_lower(s: &mut String, w: u16)
    ensures
        final(s)@ == old(s)@ + spec_hex4_lower(w),
{
    push_hex2_lower(s, (w / 256) as u8);
    push_hex2_lower(s, (w % 256) as u8);
    proof {
        assert(s@ =~= old(s)@ + spec_hex4_lower(w));
    }
}

/// Appends the four upper-case hex digits of `w` to `s`.
pub fn push_hex4_upper(s: &mut String, w: u16)
    ensures
        final(s)@ == old(s)@ + spec_hex4_upper(w),
{
    push_hex2_upper(s, (w / 256) as u8);
    push_hex2_upper(s, (w % 256) as u8);
    proof {
        assert(s@ =~= old(s)@ + spec_hex4_upper(w));
    }
}

} // verus!
