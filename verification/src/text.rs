//! Character and string helpers shared by the resolvers and emitters.

use vstd::prelude::*;

verus! {

/// Relies on alloc's `String::push`: appends exactly one character at the end.
pub assume_specification[ String::push ](s: &mut String, c: char)
    ensures
        final(s)@ == old(s)@.push(c),
;

/// Character-wise string equality, with the mathematical equality of the
/// views as its meaning.
pub fn str_eq(a: &str, b: &str) -> (r: bool)
    ensures
        r == (a@ == b@),
{
    let alen = a.unicode_len();
    let blen = b.unicode_len();
    if alen != blen {
        return false;
    }
    let mut i: usize = 0;
    while i < alen
        invariant
            alen == a@.len(),
            blen == b@.len(),
            alen == blen,
            i <= alen,
            forall|j: int| 0 <= j < i ==> a@[j] == b@[j],
        decreases alen - i,
    {
        if a.get_char(i) != b.get_char(i) {
            return false;
        }
        i = i + 1;
    }
    proof {
        assert(a@ =~= b@);
    }
    true
}

/// A decimal digit.
pub open spec fn is_digit(c: char) -> bool {
    '0' <= c && c <= '9'
}

/// The numeric value of a decimal digit.
pub open spec fn digit_val(c: char) -> nat
    recommends
        is_digit(c),
{
    (c as nat - '0' as nat) as nat
}

/// Exec check that a character is a decimal digit.
pub fn check_digit(c: char) -> (r: bool)
    ensures
        r == is_digit(c),
{
    c >= '0' && c <= '9'
}

/// Element-wise byte-slice equality, with the mathematical equality of
/// the views as its meaning.
pub fn bytes_eq(a: &[u8], b: &[u8]) -> (r: bool)
    ensures
        r == (a@ == b@),
{
    if a.len() != b.len() {
        return false;
    }
    let mut i: usize = 0;
    while i < a.len()
        invariant
            a@.len() == b@.len(),
            0 <= i <= a@.len(),
            forall|j: int| 0 <= j < i ==> a@[j] == b@[j],
        decreases a@.len() - i,
    {
        if a[i] != b[i] {
            return false;
        }
        i = i + 1;
    }
    proof {
        assert(a@ =~= b@);
    }
    true
}

/// An ASCII whitespace character.
pub open spec fn is_space(c: char) -> bool {
    c == ' ' || c == '\t' || c == '\n' || c == '\r'
}

/// Exec check that a character is ASCII whitespace.
pub fn check_space(c: char) -> (r: bool)
    ensures
        r == is_space(c),
{
    c == ' ' || c == '\t' || c == '\n' || c == '\r'
}

/// The sequence with leading and trailing ASCII whitespace removed.
pub open spec fn trim_spec(s: Seq<char>) -> Seq<char>
    decreases s.len(),
{
    if s.len() == 0 {
        s
    } else if is_space(s[0]) {
        trim_spec(s.drop_first())
    } else if is_space(s.last()) {
        trim_spec(s.drop_last())
    } else {
        s
    }
}

/// A sequence without any whitespace trims to itself.
pub proof fn lemma_trim_id(s: Seq<char>)
    requires
        forall|i: int| 0 <= i < s.len() ==> !is_space(#[trigger] s[i]),
    ensures
        trim_spec(s) == s,
    decreases s.len(),
{
}

/// Removes leading and trailing ASCII whitespace.
pub fn trim_slice<'a>(s: &'a str) -> (r: &'a str)
    ensures
        r@ == trim_spec(s@),
    decreases s@.len(),
{
    let n = s.unicode_len();
    if n == 0 {
        s
    } else if check_space(s.get_char(0)) {
        let rest = s.substring_char(1, n);
        proof {
            assert(rest@ =~= s@.drop_first());
        }
        trim_slice(rest)
    } else if check_space(s.get_char(n - 1)) {
        let rest = s.substring_char(0, n - 1);
        proof {
            assert(rest@ =~= s@.drop_last());
        }
        trim_slice(rest)
    } else {
        s
    }
}

/// A character that may start an identifier.
pub open spec fn is_ident_start(c: char) -> bool {
    ('a' <= c && c <= 'z') || ('A' <= c && c <= 'Z') || c == '_'
}

/// A character that may continue an identifier.
pub open spec fn is_ident_char(c: char) -> bool {
    is_ident_start(c) || is_digit(c)
}

/// Exec check for an identifier-start character.
pub fn check_ident_start(c: char) -> (r: bool)
    ensures
        r == is_ident_start(c),
{
    ('a' <= c && c <= 'z') || ('A' <= c && c <= 'Z') || c == '_'
}

/// Exec check for an identifier-continue character.
pub fn check_ident_char(c: char) -> (r: bool)
    ensures
        r == is_ident_char(c),
{
    check_ident_start(c) || check_digit(c)
}

/// A well-formed identifier: an identifier-start character followed by
/// identifier characters.
pub open spec fn is_ident(s: Seq<char>) -> bool {
    &&& s.len() >= 1
    &&& is_ident_start(s[0])
    &&& forall|i: int| 0 <= i < s.len() ==> is_ident_char(#[trigger] s[i])
}

/// Exec check that a string is a well-formed identifier.
pub fn check_ident(s: &str) -> (r: bool)
    ensures
        r == is_ident(s@),
{
    let n = s.unicode_len();
    if n == 0 {
        return false;
    }
    if !check_ident_start(s.get_char(0)) {
        return false;
    }
    let mut i: usize = 0;
    while i < n
        invariant
            n == s@.len(),
            0 <= i <= n,
            is_ident_start(s@[0]),
            forall|j: int| 0 <= j < i ==> is_ident_char(#[trigger] s@[j]),
        decreases n - i,
    {
        if !check_ident_char(s.get_char(i)) {
            return false;
        }
        i = i + 1;
    }
    true
}

/// A path tail starting at `i`: identifier characters, optionally followed
/// by `::` and a further path.
pub open spec fn path_tail_ok(s: Seq<char>, i: int) -> bool
    decreases s.len() - i,
    when 0 <= i
{
    if i >= s.len() {
        true
    } else if is_ident_char(s[i]) {
        path_tail_ok(s, i + 1)
    } else if s[i] == ':' && i + 2 <= s.len() && s[i + 1] == ':' {
        path_head_ok(s, i + 2)
    } else {
        false
    }
}

/// A path starting at `i`: an identifier-start character followed by a
/// path tail.
pub open spec fn path_head_ok(s: Seq<char>, i: int) -> bool
    decreases s.len() - i,
    when 0 <= i
{
    i < s.len() && is_ident_start(s[i]) && path_tail_ok(s, i + 1)
}

/// A well-formed symbol path: `::`-separated identifiers, with an optional
/// leading `::`.
pub open spec fn is_path(s: Seq<char>) -> bool {
    if s.len() >= 2 && s[0] == ':' && s[1] == ':' {
        path_head_ok(s, 2)
    } else {
        path_head_ok(s, 0)
    }
}

/// Exec check for a path tail.
fn check_path_tail(s: &str, i: usize) -> (r: bool)
    requires
        i <= s@.len(),
    ensures
        r == path_tail_ok(s@, i as int),
    decreases s@.len() - i,
{
    let n = s.unicode_len();
    if i >= n {
        true
    } else if check_ident_char(s.get_char(i)) {
        check_path_tail(s, i + 1)
    } else if s.get_char(i) == ':' && n >= 2 && i <= n - 2 && s.get_char(i + 1) == ':' {
        check_path_head(s, i + 2)
    } else {
        false
    }
}

/// Exec check for a path starting at `i`.
fn check_path_head(s: &str, i: usize) -> (r: bool)
    requires
        i <= s@.len(),
    ensures
        r == path_head_ok(s@, i as int),
    decreases s@.len() - i,
{
    let n = s.unicode_len();
    if i < n && check_ident_start(s.get_char(i)) {
        check_path_tail(s, i + 1)
    } else {
        false
    }
}

/// Exec check that a string is a well-formed symbol path.
pub fn check_path(s: &str) -> (r: bool)
    ensures
        r == is_path(s@),
{
    let n = s.unicode_len();
    if n >= 2 && s.get_char(0) == ':' && s.get_char(1) == ':' {
        check_path_head(s, 2)
    } else {
        check_path_head(s, 0)
    }
}

} // verus!
