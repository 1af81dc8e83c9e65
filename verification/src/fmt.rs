//! Verified text formatting for diagnostics: hexadecimal and decimal
//! renderings of the machine's integers, each pinned to a character-level
//! specification.

use vstd::prelude::*;

verus! {

/// The character for one value below 16, upper-case.
pub open spec fn spec_hex_digit(n: int) -> char {
    if n == 0 {
        '0'
    } else if n == 1 {
        '1'
    } else if n == 2 {
        '2'
    } else if n == 3 {
        '3'
    } else if n == 4 {
        '4'
    } else if n == 5 {
        '5'
    } else if n == 6 {
        '6'
    } else if n == 7 {
        '7'
    } else if n == 8 {
        '8'
    } else if n == 9 {
        '9'
    } else if n == 10 {
        'A'
    } else if n == 11 {
        'B'
    } else if n == 12 {
        'C'
    } else if n == 13 {
        'D'
    } else if n == 14 {
        'E'
    } else {
        'F'
    }
}

/// A byte as two upper-case hex digits.
pub open spec fn spec_hex2(b: u8) -> Seq<char> {
    seq![spec_hex_digit(b as int / 16), spec_hex_digit(b as int % 16)]
}

/// A 16-bit value as four upper-case hex digits.
pub open spec fn spec_hex4(w: u16) -> Seq<char> {
    seq![
        spec_hex_digit(w as int / 4096),
        spec_hex_digit((w as int / 256) % 16),
        spec_hex_digit((w as int / 16) % 16),
        spec_hex_digit(w as int % 16),
    ]
}

/// A non-negative number in decimal, most significant digit first.
pub open spec fn spec_dec(n: int) -> Seq<char>
    decreases n,
{
    if n < 10 {
        seq![spec_hex_digit(if n < 0 {
            0
        } else {
            n
        })]
    } else {
        spec_dec(n / 10).push(spec_hex_digit(n % 10))
    }
}

/// The one-character string for a value below 16.
fn hex_digit_str(n: u8) -> (r: &'static str)
    requires
        n < 16,
    ensures
        r@ == seq![spec_hex_digit(n as int)],
{
    proof {
        reveal_strlit("0");
        reveal_strlit("1");
        reveal_strlit("2");
        reveal_strlit("3");
        reveal_strlit("4");
        reveal_strlit("5");
        reveal_strlit("6");
        reveal_strlit("7");
        reveal_strlit("8");
        reveal_strlit("9");
        reveal_strlit("A");
        reveal_strlit("B");
        reveal_strlit("C");
        reveal_strlit("D");
        reveal_strlit("E");
        reveal_strlit("F");
    }
    match n {
        0 => "0",
        1 => "1",
        2 => "2",
        3 => "3",
        4 => "4",
        5 => "5",
        6 => "6",
        7 => "7",
        8 => "8",
        9 => "9",
        10 => "A",
        11 => "B",
        12 => "C",
        13 => "D",
        14 => "E",
        _ => "F",
    }
}

/// Appends a byte as two upper-case hex digits.
pub fn append_hex2(out: &mut String, b: u8)
    ensures
        final(out)@ == old(out)@ + spec_hex2(b),
{
    proof {
        assert(b / 16 < 16 && b % 16 < 16);
    }
    out.append(hex_digit_str(b / 16));
    out.append(hex_digit_str(b % 16));
    proof {
        assert(out@ =~= old(out)@ + spec_hex2(b));
    }
}

/// Appends a 16-bit value as four upper-case hex digits.
pub fn append_hex4(out: &mut String, w: u16)
    ensures
        final(out)@ == old(out)@ + spec_hex4(w),
{
    proof {
        assert(w / 4096 < 16 && (w / 256) % 16 < 16 && (w / 16) % 16 < 16 && w % 16 < 16);
    }
    out.append(hex_digit_str((w / 4096) as u8));
    out.append(hex_digit_str(((w / 256) % 16) as u8));
    out.append(hex_digit_str(((w / 16) % 16) as u8));
    out.append(hex_digit_str((w % 16) as u8));
    proof {
        assert(out@ =~= old(out)@ + spec_hex4(w));
    }
}

/// A byte as two upper-case hex digits.
pub fn hex_u8(b: u8) -> (r: String)
    ensures
        r@ == spec_hex2(b),
{
    let mut out = String::new();
    append_hex2(&mut out, b);
    proof {
        assert(out@ =~= spec_hex2(b));
    }
    out
}

/// A 16-bit value as four upper-case hex digits.
pub fn hex_u16(w: u16) -> (r: String)
    ensures
        r@ == spec_hex4(w),
{
    let mut out = String::new();
    append_hex4(&mut out, w);
    proof {
        assert(out@ =~= spec_hex4(w));
    }
    out
}

/// A number in decimal, most significant digit first.
pub fn dec_u64(n: u64) -> (r: String)
    ensures
        r@ == spec_dec(n as int),
    decreases n,
{
    if n < 10 {
        let mut out = String::new();
        out.append(hex_digit_str(n as u8));
        proof {
            assert(out@ =~= spec_dec(n as int));
        }
        out
    } else {
        let mut out = dec_u64(n / 10);
        out.append(hex_digit_str((n % 10) as u8));
        proof {
            assert(out@ =~= spec_dec(n as int));
        }
        out
    }
}

/// Appends a number in decimal.
pub fn append_dec(out: &mut String, n: u64)
    ensures
        final(out)@ == old(out)@ + spec_dec(n as int),
{
    let digits = dec_u64(n);
    out.append(digits.as_str());
}

} // verus!
