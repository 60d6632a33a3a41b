//! Rendering of plain values into code text: escaped string literals,
//! hex-escaped byte-string literals, and signed decimal numbers.

use vstd::prelude::*;

use crate::num::{dec_str, u64_to_dec};

verus! {

/// A character as it appears inside a rendered string literal: quotes and
/// backslashes are escaped, everything else stands as itself.
pub open spec fn escape_char(c: char) -> Seq<char> {
    if c == '"' || c == '\\' {
        seq!['\\', c]
    } else {
        seq![c]
    }
}

/// The escaped body of a string literal.
pub open spec fn escape_str(s: Seq<char>) -> Seq<char>
    decreases s.len(),
{
    if s.len() == 0 {
        Seq::<char>::empty()
    } else {
        escape_str(s.drop_last()) + escape_char(s.last())
    }
}

/// Renders the escaped body of a string literal.
pub fn escape_string(s: &str) -> (r: String)
    ensures
        r@ == escape_str(s@),
{
    let n = s.unicode_len();
    let mut out = String::new();
    let mut i: usize = 0;
    while i < n
        invariant
            n == s@.len(),
            0 <= i <= n,
            out@ == escape_str(s@.subrange(0, i as int)),
        decreases n - i,
    {
        let c = s.get_char(i);
        if c == '"' || c == '\\' {
            out.push('\\');
        }
        out.push(c);
        i = i + 1;
        proof {
            assert(s@.subrange(0, i as int).drop_last() =~= s@.subrange(0, i - 1));
            assert(out@ =~= escape_str(s@.subrange(0, i as int)));
        }
    }
    proof {
        assert(s@.subrange(0, n as int) =~= s@);
    }
    out
}

/// The hex digit character for a value below sixteen.
pub open spec fn hex_digit(n: nat) -> char {
    if n < 10 {
        crate::num::digit_char(n)
    } else if n == 10 {
        'a'
    } else if n == 11 {
        'b'
    } else if n == 12 {
        'c'
    } else if n == 13 {
        'd'
    } else if n == 14 {
        'e'
    } else {
        'f'
    }
}

/// A byte inside a rendered byte-string literal, always as `\xNN`.
pub open spec fn byte_escape(b: u8) -> Seq<char> {
    seq!['\\', 'x', hex_digit(b as nat / 16), hex_digit(b as nat % 16)]
}

/// The body of a byte-string literal.
pub open spec fn byte_lit_body(bs: Seq<u8>) -> Seq<char>
    decreases bs.len(),
{
    if bs.len() == 0 {
        Seq::<char>::empty()
    } else {
        byte_lit_body(bs.drop_last()) + byte_escape(bs.last())
    }
}

/// The hex digit character for a nibble, as an executable step.
fn hex_digit_exec(n: u8) -> (c: char)
    requires
        n < 16,
    ensures
        c == hex_digit(n as nat),
{
    if n == 0 {
        '0'
    } else if n == 1 {
        '1'
    } else if n == 2 {
        '2'
    } else if n == 3 {
        '3'
    } else if n == 4 {
        '4'
    } else if n == 5 {
        '5'
    } else if n == 6 {
        '6'
    } else if n == 7 {
        '7'
    } else if n == 8 {
        '8'
    } else if n == 9 {
        '9'
    } else if n == 10 {
        'a'
    } else if n == 11 {
        'b'
    } else if n == 12 {
        'c'
    } else if n == 13 {
        'd'
    } else if n == 14 {
        'e'
    } else {
        'f'
    }
}

/// Renders the body of a byte-string literal.
pub fn byte_lit_text(bs: &[u8]) -> (r: String)
    ensures
        r@ == byte_lit_body(bs@),
{
    let n = bs.len();
    let mut out = String::new();
    let mut i: usize = 0;
    while i < n
        invariant
            n == bs@.len(),
            0 <= i <= n,
            out@ == byte_lit_body(bs@.subrange(0, i as int)),
        decreases n - i,
    {
        let b = bs[i];
        out.push('\\');
        out.push('x');
        out.push(hex_digit_exec(b / 16));
        out.push(hex_digit_exec(b % 16));
        i = i + 1;
        proof {
            assert(bs@.subrange(0, i as int).drop_last() =~= bs@.subrange(0, i - 1));
            assert(out@ =~= byte_lit_body(bs@.subrange(0, i as int)));
        }
    }
    proof {
        assert(bs@.subrange(0, n as int) =~= bs@);
    }
    out
}

/// A signed value in canonical decimal text.
pub open spec fn int_text(v: int) -> Seq<char> {
    if v < 0 {
        seq!['-'] + dec_str((-v) as nat)
    } else {
        dec_str(v as nat)
    }
}

/// Renders a signed 64-bit value in canonical decimal text.
pub fn i64_text(v: i64) -> (r: String)
    ensures
        r@ == int_text(v as int),
{
    if v >= 0 {
        u64_to_dec(v as u64)
    } else {
        let mag: u64 = if v == i64::MIN {
            9223372036854775808u64
        } else {
            (-v) as u64
        };
        proof {
            assert(mag == -(v as int));
        }
        let mut out = String::from_str("-");
        out.append(u64_to_dec(mag).as_str());
        proof {
            reveal_strlit("-");
            assert(out@ =~= int_text(v as int));
        }
        out
    }
}

} // verus!
