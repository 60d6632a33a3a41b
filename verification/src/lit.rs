//! The literal forms a field attribute can carry, and the grammar that
//! re-parses a string's content as a literal of another kind.

use vstd::prelude::*;

use crate::num::all_digits;
use crate::text::{check_digit, check_ident, is_digit, is_ident};

verus! {

/// A literal attached to an attribute: an integer or float (kept as its
/// digit text plus an optional type suffix), a boolean, a string, or a
/// byte string.
#[derive(Debug, PartialEq, Eq)]
pub enum Lit {
    Int { digits: String, suffix: String },
    Float { digits: String, suffix: String },
    Bool(bool),
    Str(String),
    ByteStr(Vec<u8>),
}

/// The mathematical model of a literal.
pub enum LitV {
    Int { digits: Seq<char>, suffix: Seq<char> },
    Float { digits: Seq<char>, suffix: Seq<char> },
    Bool(bool),
    Str(Seq<char>),
    ByteStr(Seq<u8>),
}

impl View for Lit {
    type V = LitV;

    open spec fn view(&self) -> LitV {
        match self {
            Lit::Int { digits, suffix } => LitV::Int { digits: digits@, suffix: suffix@ },
            Lit::Float { digits, suffix } => LitV::Float { digits: digits@, suffix: suffix@ },
            Lit::Bool(b) => LitV::Bool(*b),
            Lit::Str(s) => LitV::Str(s@),
            Lit::ByteStr(b) => LitV::ByteStr(b@),
        }
    }
}

impl Clone for Lit {
    fn clone(&self) -> (r: Self)
        ensures
            r@ == self@,
    {
        match self {
            Lit::Int { digits, suffix } => Lit::Int {
                digits: digits.clone(),
                suffix: suffix.clone(),
            },
            Lit::Float { digits, suffix } => Lit::Float {
                digits: digits.clone(),
                suffix: suffix.clone(),
            },
            Lit::Bool(b) => Lit::Bool(*b),
            Lit::Str(s) => Lit::Str(s.clone()),
            Lit::ByteStr(b) => Lit::ByteStr(b.clone()),
        }
    }
}

/// A valid numeric-size suffix position: absent, or an identifier.
pub open spec fn suffix_ok(t: Seq<char>) -> bool {
    t.len() == 0 || is_ident(t)
}

/// Well-formed float digit text: digits, optionally followed by a point
/// and further digits.  Plain integer digit text is included, since an
/// integer literal is also accepted for float fields.
pub open spec fn float_text_wf(s: Seq<char>) -> bool {
    let j = skip_digits(s, 0);
    &&& j >= 1
    &&& (j == s.len() || (s[j] == '.' && skip_digits(s, j + 1) == s.len()))
}

/// A well-formed literal of the native syntax: digit texts hold digits,
/// suffixes are absent or identifiers.
pub open spec fn lit_wf(l: LitV) -> bool {
    match l {
        LitV::Int { digits, suffix } => digits.len() >= 1 && all_digits(digits) && suffix_ok(
            suffix,
        ),
        LitV::Float { digits, suffix } => float_text_wf(digits) && suffix_ok(suffix),
        LitV::Bool(_) => true,
        LitV::Str(_) => true,
        LitV::ByteStr(_) => true,
    }
}

/// The first index at or after `i` that does not hold a decimal digit.
pub open spec fn skip_digits(s: Seq<char>, i: int) -> int
    decreases s.len() - i,
    when 0 <= i
{
    if i < s.len() && is_digit(s[i]) {
        skip_digits(s, i + 1)
    } else {
        i
    }
}

/// The skipped range holds digits only and stops at the first non-digit.
pub proof fn lemma_skip_digits(s: Seq<char>, i: int)
    requires
        0 <= i <= s.len(),
    ensures
        i <= skip_digits(s, i) <= s.len(),
        forall|j: int| i <= j < skip_digits(s, i) ==> is_digit(#[trigger] s[j]),
        skip_digits(s, i) == s.len() || !is_digit(s[skip_digits(s, i)]),
    decreases s.len() - i,
{
    if i < s.len() && is_digit(s[i]) {
        lemma_skip_digits(s, i + 1);
    }
}

/// On an all-digit sequence the scan runs to the end.
pub proof fn lemma_skip_digits_all(s: Seq<char>, i: int)
    requires
        0 <= i <= s.len(),
        all_digits(s),
    ensures
        skip_digits(s, i) == s.len(),
    decreases s.len() - i,
{
    if i < s.len() {
        lemma_skip_digits_all(s, i + 1);
    }
}

/// The parse of a string's content as a literal of another kind.  The
/// recognized forms are `true` and `false`, a quoted string without inner
/// quotes, a `b"..."` byte string of characters below 256, and a numeric
/// literal: digits, an optional point with further digits, and an optional
/// identifier suffix.  A leading sign is never part of a literal.
pub open spec fn spec_parse_lit(s: Seq<char>) -> Option<LitV> {
    if s == "true"@ {
        Some(LitV::Bool(true))
    } else if s == "false"@ {
        Some(LitV::Bool(false))
    } else if s.len() == 0 {
        None
    } else if s[0] == '"' {
        if s.len() >= 2 && s.last() == '"' && !has_quote(s.subrange(1, s.len() - 1)) {
            Some(LitV::Str(s.subrange(1, s.len() - 1)))
        } else {
            None
        }
    } else if s[0] == 'b' && s.len() >= 2 && s[1] == '"' {
        if s.len() >= 3 && s.last() == '"' && !has_quote(s.subrange(2, s.len() - 1))
            && all_byte_chars(s.subrange(2, s.len() - 1)) {
            Some(LitV::ByteStr(s.subrange(2, s.len() - 1).map_values(|c: char| c as u8)))
        } else {
            None
        }
    } else if is_digit(s[0]) {
        let j = skip_digits(s, 0);
        if j < s.len() && s[j] == '.' {
            let k = skip_digits(s, j + 1);
            if suffix_ok(s.subrange(k, s.len() as int)) {
                Some(
                    LitV::Float {
                        digits: s.subrange(0, k),
                        suffix: s.subrange(k, s.len() as int),
                    },
                )
            } else {
                None
            }
        } else {
            if suffix_ok(s.subrange(j, s.len() as int)) {
                Some(
                    LitV::Int { digits: s.subrange(0, j), suffix: s.subrange(j, s.len() as int) },
                )
            } else {
                None
            }
        }
    } else {
        None
    }
}

/// The sequence holds a double-quote character.
pub open spec fn has_quote(s: Seq<char>) -> bool {
    exists|i: int| 0 <= i < s.len() && s[i] == '"'
}

/// Every character fits in a byte.
pub open spec fn all_byte_chars(s: Seq<char>) -> bool {
    forall|i: int| 0 <= i < s.len() ==> (#[trigger] s[i]) as u32 <= 255
}

/// Exec scan to the first non-digit.
fn skip_digits_exec(s: &str, i: usize) -> (j: usize)
    requires
        i <= s@.len(),
    ensures
        j == skip_digits(s@, i as int),
        i <= j <= s@.len(),
    decreases s@.len() - i,
{
    if i < s.unicode_len() && check_digit(s.get_char(i)) {
        skip_digits_exec(s, i + 1)
    } else {
        i
    }
}

/// Exec check for an inner double quote.
fn has_quote_exec(s: &str) -> (r: bool)
    ensures
        r == has_quote(s@),
{
    let n = s.unicode_len();
    let mut i: usize = 0;
    while i < n
        invariant
            n == s@.len(),
            0 <= i <= n,
            forall|j: int| 0 <= j < i ==> s@[j] != '"',
        decreases n - i,
    {
        if s.get_char(i) == '"' {
            return true;
        }
        i = i + 1;
    }
    false
}

/// Converts the characters of a string to bytes; fails if one is above
/// 255.
fn chars_to_bytes(s: &str) -> (r: Option<Vec<u8>>)
    ensures
        r is Some <==> all_byte_chars(s@),
        r matches Some(v) ==> v@ == s@.map_values(|c: char| c as u8),
{
    let n = s.unicode_len();
    let mut out: Vec<u8> = Vec::new();
    let mut i: usize = 0;
    while i < n
        invariant
            n == s@.len(),
            0 <= i <= n,
            forall|j: int| 0 <= j < i ==> (#[trigger] s@[j]) as u32 <= 255,
            out@ == s@.subrange(0, i as int).map_values(|c: char| c as u8),
        decreases n - i,
    {
        let c = s.get_char(i);
        if c as u32 > 255 {
            return None;
        }
        out.push((c as u32) as u8);
        i = i + 1;
        proof {
            assert(out@ =~= s@.subrange(0, i as int).map_values(|c: char| c as u8));
        }
    }
    proof {
        assert(s@.subrange(0, n as int) =~= s@);
    }
    Some(out)
}

/// Parses a string's content as a literal, following the grammar of
/// `spec_parse_lit`.
pub fn parse_lit(s: &str) -> (r: Option<Lit>)
    ensures
        r is Some <==> spec_parse_lit(s@) is Some,
        r matches Some(l) ==> Some(l@) == spec_parse_lit(s@),
{
    if crate::text::str_eq(s, "true") {
        return Some(Lit::Bool(true));
    }
    if crate::text::str_eq(s, "false") {
        return Some(Lit::Bool(false));
    }
    let n = s.unicode_len();
    if n == 0 {
        return None;
    }
    let c0 = s.get_char(0);
    if c0 == '"' {
        if n >= 2 && s.get_char(n - 1) == '"' {
            let content = s.substring_char(1, n - 1);
            if has_quote_exec(content) {
                None
            } else {
                Some(Lit::Str(String::from_str(content)))
            }
        } else {
            None
        }
    } else if c0 == 'b' && n >= 2 && s.get_char(1) == '"' {
        if n >= 3 && s.get_char(n - 1) == '"' {
            let content = s.substring_char(2, n - 1);
            if has_quote_exec(content) {
                None
            } else {
                match chars_to_bytes(content) {
                    Some(v) => Some(Lit::ByteStr(v)),
                    None => None,
                }
            }
        } else {
            None
        }
    } else if check_digit(c0) {
        let j = skip_digits_exec(s, 0);
        if j < n && s.get_char(j) == '.' {
            let k = skip_digits_exec(s, j + 1);
            let body = s.substring_char(0, k);
            let suffix = s.substring_char(k, n);
            if suffix.unicode_len() == 0 || check_ident(suffix) {
                Some(
                    Lit::Float {
                        digits: String::from_str(body),
                        suffix: String::from_str(suffix),
                    },
                )
            } else {
                None
            }
        } else {
            let body = s.substring_char(0, j);
            let suffix = s.substring_char(j, n);
            if suffix.unicode_len() == 0 || check_ident(suffix) {
                Some(
                    Lit::Int { digits: String::from_str(body), suffix: String::from_str(suffix) },
                )
            } else {
                None
            }
        }
    } else {
        None
    }
}

/// Well-formed float text is nonempty, starts with a digit, and holds
/// only digits and at most one point.
pub proof fn lemma_float_text_chars(t: Seq<char>)
    requires
        float_text_wf(t),
    ensures
        t.len() >= 1,
        is_digit(t[0]),
        forall|i: int| 0 <= i < t.len() ==> is_digit(#[trigger] t[i]) || t[i] == '.',
{
    let j = skip_digits(t, 0);
    lemma_skip_digits(t, 0);
    if j < t.len() {
        lemma_skip_digits(t, j + 1);
        assert forall|i: int| 0 <= i < t.len() implies is_digit(#[trigger] t[i]) || t[i]
            == '.' by {
            if i < j {
            } else if i == j {
            } else {
            }
        }
    }
}

/// Dotted well-formed float text parses as an unsuffixed float literal of
/// itself.
pub proof fn lemma_parse_float_text(t: Seq<char>)
    requires
        float_text_wf(t),
        skip_digits(t, 0) < t.len(),
    ensures
        spec_parse_lit(t) == Some(LitV::Float { digits: t, suffix: Seq::<char>::empty() }),
{
    reveal_strlit("true");
    reveal_strlit("false");
    lemma_float_text_chars(t);
    let j = skip_digits(t, 0);
    lemma_skip_digits(t, 0);
    assert(t != "true"@) by {
        if t == "true"@ {
            assert(t[0] == 't');
        }
    }
    assert(t != "false"@) by {
        if t == "false"@ {
            assert(t[0] == 'f');
        }
    }
    let k = skip_digits(t, j + 1);
    assert(k == t.len());
    assert(t.subrange(0, k) =~= t);
    assert(t.subrange(k, t.len() as int) =~= Seq::<char>::empty());
}

/// Every literal produced by the grammar is well-formed.
pub proof fn lemma_parse_lit_wf(s: Seq<char>)
    ensures
        match spec_parse_lit(s) {
            Some(l) => lit_wf(l),
            None => true,
        },
{
    reveal_strlit("true");
    reveal_strlit("false");
    if s != "true"@ && s != "false"@ && s.len() > 0 && s[0] != '"' && !(s[0] == 'b' && s.len() >= 2
        && s[1] == '"') && is_digit(s[0]) {
        let j = skip_digits(s, 0);
        lemma_skip_digits(s, 0);
        if j < s.len() && s[j] == '.' {
            let k = skip_digits(s, j + 1);
            lemma_skip_digits(s, j + 1);
            lemma_skip_digits_prefix(s, 0, k, j);
            lemma_skip_digits_prefix(s, j + 1, k, k);
            assert(skip_digits(s.subrange(0, k), 0) == j);
            assert(skip_digits(s.subrange(0, k), j + 1) == k);
        }
    }
}

/// The digit scan of a prefix stops where the full scan stops, provided
/// the stop lies inside the prefix; a scan of digits running to the
/// prefix's end stops there.
proof fn lemma_skip_digits_prefix(s: Seq<char>, i: int, k: int, j: int)
    requires
        0 <= i <= j <= k <= s.len(),
        forall|m: int| i <= m < j ==> is_digit(#[trigger] s[m]),
        j < k ==> !is_digit(s[j]),
    ensures
        skip_digits(s.subrange(0, k), i) == if j < k {
            j
        } else {
            k
        },
    decreases j - i,
{
    let t = s.subrange(0, k);
    if i < j {
        assert(is_digit(t[i]));
        lemma_skip_digits_prefix(s, i + 1, k, j);
    } else {
        if j < k {
            assert(!is_digit(t[i]));
        }
    }
}

/// An integer literal produced by the grammar always carries nonempty,
/// all-digit text.
pub proof fn lemma_parse_lit_int_wf(s: Seq<char>)
    ensures
        match spec_parse_lit(s) {
            Some(LitV::Int { digits, suffix }) => digits.len() >= 1 && all_digits(digits),
            _ => true,
        },
{
    if s != "true"@ && s != "false"@ && s.len() > 0 && s[0] != '"' && !(s[0] == 'b' && s.len() >= 2
        && s[1] == '"') && is_digit(s[0]) {
        lemma_skip_digits(s, 0);
    }
}

/// A nonempty all-digit string parses as an unsuffixed integer literal of
/// itself.
pub proof fn lemma_parse_digits(s: Seq<char>)
    requires
        s.len() >= 1,
        all_digits(s),
    ensures
        spec_parse_lit(s) == Some(LitV::Int { digits: s, suffix: Seq::<char>::empty() }),
{
    reveal_strlit("true");
    reveal_strlit("false");
    assert(is_digit(s[0]));
    assert(s != "true"@);
    assert(s != "false"@);
    lemma_skip_digits_all(s, 0);
    assert(s.subrange(0, s.len() as int) =~= s);
    assert(s.subrange(s.len() as int, s.len() as int) =~= Seq::<char>::empty());
}

} // verus!
