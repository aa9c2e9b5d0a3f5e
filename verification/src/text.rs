//! Characters and character-vector utilities.
//!
//! Message text is handled as `Vec<char>` throughout the crate; its
//! mathematical model is `Seq<char>`, the same view vstd gives to `&str`,
//! so specifications can speak of string literals directly.
//!
//! The token grammar is deliberately ASCII: identifiers are ASCII
//! alphanumerics and underscores, and whitespace is the fixed set below.
//! Item identifiers and link paths only ever use that alphabet; a token
//! of other characters is not an identifier here.

use vstd::prelude::*;
use vstd::string::StrSliceExecFns;

verus! {

/// The whitespace class of the token grammar: ASCII whitespace together
/// with the no-break and ideographic spaces common in chat text.
pub open spec fn is_space_char(c: char) -> bool {
    c == ' ' || c == '\t' || c == '\n' || c == '\r' || c == '\u{000b}' || c == '\u{000c}'
        || c == '\u{00a0}' || c == '\u{3000}'
}

/// A decimal digit.
pub open spec fn is_digit_char(c: char) -> bool {
    '0' <= c && c <= '9'
}

/// The identifier alphabet: item identifiers are alphanumeric tokens,
/// so a word character is an ASCII letter, a digit, or an underscore.
pub open spec fn is_word_char(c: char) -> bool {
    is_digit_char(c) || ('a' <= c && c <= 'z') || ('A' <= c && c <= 'Z') || c == '_'
}

pub fn space_char(c: char) -> (r: bool)
    ensures
        r == is_space_char(c),
{
    c == ' ' || c == '\t' || c == '\n' || c == '\r' || c == '\u{000b}' || c == '\u{000c}'
        || c == '\u{00a0}' || c == '\u{3000}'
}

pub fn digit_char(c: char) -> (r: bool)
    ensures
        r == is_digit_char(c),
{
    '0' <= c && c <= '9'
}

pub fn word_char(c: char) -> (r: bool)
    ensures
        r == is_word_char(c),
{
    digit_char(c) || ('a' <= c && c <= 'z') || ('A' <= c && c <= 'Z') || c == '_'
}

/// ASCII lower-casing of one character, as the case-insensitive keyword
/// comparison uses it.
pub open spec fn lower_char_spec(c: char) -> char {
    if 'A' <= c && c <= 'Z' {
        ((c as u32 + 32) as char)
    } else {
        c
    }
}

pub fn lower_char(c: char) -> (r: char)
    ensures
        r == lower_char_spec(c),
{
    if 'A' <= c && c <= 'Z' {
        let u: u32 = c as u32 + 32;
        let b: u8 = u as u8;
        b as char
    } else {
        c
    }
}

/// The ASCII lower-casing of a whole text.
pub open spec fn lower_spec(t: Seq<char>) -> Seq<char> {
    t.map_values(|c: char| lower_char_spec(c))
}

pub fn lower_text(t: &Vec<char>) -> (r: Vec<char>)
    ensures
        r@ == lower_spec(t@),
{
    let mut r: Vec<char> = Vec::new();
    let mut i: usize = 0;
    while i < t.len()
        invariant
            i <= t.len(),
            r@ == lower_spec(t@.subrange(0, i as int)),
        decreases t.len() - i,
    {
        r.push(lower_char(t[i]));
        proof {
            assert(lower_spec(t@.subrange(0, i + 1)) =~= lower_spec(t@.subrange(0, i as int)).push(
                lower_char_spec(t@[i as int]),
            ));
        }
        i = i + 1;
    }
    proof {
        assert(t@.subrange(0, t@.len() as int) =~= t@);
    }
    r
}

/// Whether `p` is a prefix of `t`.
pub open spec fn starts_with(t: Seq<char>, p: Seq<char>) -> bool {
    p.len() <= t.len() && t.subrange(0, p.len() as int) == p
}

/// Whether `p` is a suffix of `t`.
pub open spec fn ends_with(t: Seq<char>, p: Seq<char>) -> bool {
    p.len() <= t.len() && t.subrange(t.len() - p.len(), t.len() as int) == p
}

/// Whether `p` occurs in `t` starting at position `i`.
pub open spec fn lit_at(t: Seq<char>, i: int, p: Seq<char>) -> bool {
    0 <= i && i + p.len() <= t.len() && t.subrange(i, i + p.len()) == p
}

/// The characters of a string slice, one per element.
pub fn str_to_chars(s: &str) -> (v: Vec<char>)
    ensures
        v@ == s@,
{
    let n = s.unicode_len();
    let mut v: Vec<char> = Vec::new();
    let mut i: usize = 0;
    while i < n
        invariant
            n == s@.len(),
            i <= n,
            v@ == s@.subrange(0, i as int),
        decreases n - i,
    {
        v.push(s.get_char(i));
        proof {
            assert(s@.subrange(0, i + 1) =~= s@.subrange(0, i as int).push(s@[i as int]));
        }
        i = i + 1;
    }
    proof {
        assert(s@.subrange(0, s@.len() as int) =~= s@);
    }
    v
}

/// Whether `t` equals the characters of `s`.
pub fn text_eq_str(t: &Vec<char>, s: &str) -> (r: bool)
    ensures
        r == (t@ == s@),
{
    let n = s.unicode_len();
    if t.len() != n {
        proof {
            assert(t@ != s@);
        }
        return false;
    }
    let mut i: usize = 0;
    while i < n
        invariant
            n == s@.len() == t@.len(),
            i <= n,
            t@.subrange(0, i as int) == s@.subrange(0, i as int),
        decreases n - i,
    {
        if t[i] != s.get_char(i) {
            proof {
                assert(t@[i as int] != s@[i as int]);
            }
            return false;
        }
        proof {
            assert(t@.subrange(0, i + 1) =~= t@.subrange(0, i as int).push(t@[i as int]));
            assert(s@.subrange(0, i + 1) =~= s@.subrange(0, i as int).push(s@[i as int]));
        }
        i = i + 1;
    }
    proof {
        assert(t@ =~= t@.subrange(0, n as int));
        assert(s@ =~= s@.subrange(0, n as int));
    }
    true
}

/// Whether `s` occurs in `t` starting at position `i`.
pub fn str_at(t: &Vec<char>, i: usize, s: &str) -> (r: bool)
    ensures
        r == lit_at(t@, i as int, s@),
{
    let n = s.unicode_len();
    if t.len() < n || i > t.len() - n {
        proof {
            assert(!lit_at(t@, i as int, s@));
        }
        return false;
    }
    let mut k: usize = 0;
    while k < n
        invariant
            n == s@.len(),
            i + n <= t@.len(),
            k <= n,
            t@.subrange(i as int, i + k) == s@.subrange(0, k as int),
        decreases n - k,
    {
        assert(i + k < t.len());
        if t[i + k] != s.get_char(k) {
            proof {
                assert(t@[i + k] != s@[k as int]);
                assert(!lit_at(t@, i as int, s@)) by {
                    if t@.subrange(i as int, i + s@.len()) == s@ {
                        assert(t@.subrange(i as int, i + s@.len())[k as int] == s@[k as int]);
                    }
                }
            }
            return false;
        }
        proof {
            assert(t@.subrange(i as int, i + (k + 1)) =~= t@.subrange(i as int, i + k).push(
                t@[i + k],
            ));
            assert(s@.subrange(0, k + 1) =~= s@.subrange(0, k as int).push(s@[k as int]));
        }
        k = k + 1;
    }
    proof {
        assert(s@ =~= s@.subrange(0, n as int));
    }
    true
}

pub fn starts_with_str(t: &Vec<char>, s: &str) -> (r: bool)
    ensures
        r == starts_with(t@, s@),
{
    str_at(t, 0, s)
}

pub fn ends_with_str(t: &Vec<char>, s: &str) -> (r: bool)
    ensures
        r == ends_with(t@, s@),
{
    let n = s.unicode_len();
    if t.len() < n {
        return false;
    }
    str_at(t, t.len() - n, s)
}

/// Appends the characters of `s` to `v`.
pub fn push_str(v: &mut Vec<char>, s: &str)
    ensures
        final(v)@ == old(v)@ + s@,
{
    let n = s.unicode_len();
    let mut i: usize = 0;
    while i < n
        invariant
            n == s@.len(),
            i <= n,
            v@ == old(v)@ + s@.subrange(0, i as int),
        decreases n - i,
    {
        v.push(s.get_char(i));
        proof {
            assert(old(v)@ + s@.subrange(0, i + 1) =~= (old(v)@ + s@.subrange(0, i as int)).push(
                s@[i as int],
            ));
        }
        i = i + 1;
    }
    proof {
        assert(old(v)@ + s@.subrange(0, n as int) =~= old(v)@ + s@);
    }
}

/// Appends a copy of `u` to `v`.
pub fn push_text(v: &mut Vec<char>, u: &Vec<char>)
    ensures
        final(v)@ == old(v)@ + u@,
{
    let mut i: usize = 0;
    while i < u.len()
        invariant
            i <= u@.len(),
            v@ == old(v)@ + u@.subrange(0, i as int),
        decreases u@.len() - i,
    {
        v.push(u[i]);
        proof {
            assert(old(v)@ + u@.subrange(0, i + 1) =~= (old(v)@ + u@.subrange(0, i as int)).push(
                u@[i as int],
            ));
        }
        i = i + 1;
    }
    proof {
        assert(old(v)@ + u@.subrange(0, u@.len() as int) =~= old(v)@ + u@);
    }
}

/// The copy of `t` from `from` (inclusive) to `to` (exclusive).
pub fn sub_text(t: &Vec<char>, from: usize, to: usize) -> (r: Vec<char>)
    requires
        from <= to <= t@.len(),
    ensures
        r@ == t@.subrange(from as int, to as int),
{
    let mut r: Vec<char> = Vec::new();
    let mut i: usize = from;
    while i < to
        invariant
            from <= i <= to <= t@.len(),
            r@ == t@.subrange(from as int, i as int),
        decreases to - i,
    {
        r.push(t[i]);
        proof {
            assert(t@.subrange(from as int, i + 1) =~= t@.subrange(from as int, i as int).push(
                t@[i as int],
            ));
        }
        i = i + 1;
    }
    r
}

/// The first position at or after `i` that does not hold a space
/// character, or the end of the text.
pub open spec fn skip_spaces(t: Seq<char>, i: int) -> int
    decreases t.len() - i,
{
    if i < 0 || i >= t.len() {
        i
    } else if is_space_char(t[i]) {
        skip_spaces(t, i + 1)
    } else {
        i
    }
}

pub proof fn lemma_skip_spaces(t: Seq<char>, i: int)
    requires
        0 <= i <= t.len(),
    ensures
        i <= skip_spaces(t, i) <= t.len(),
        forall|m: int| i <= m < skip_spaces(t, i) ==> is_space_char(t[m]),
        skip_spaces(t, i) < t.len() ==> !is_space_char(t[skip_spaces(t, i)]),
    decreases t.len() - i,
{
    if i < t.len() && is_space_char(t[i]) {
        lemma_skip_spaces(t, i + 1);
    }
}

pub fn skip_spaces_exec(t: &Vec<char>, i: usize) -> (r: usize)
    requires
        i <= t@.len(),
    ensures
        r == skip_spaces(t@, i as int),
{
    let mut j: usize = i;
    while j < t.len() && space_char(t[j])
        invariant
            i <= j <= t@.len(),
            skip_spaces(t@, i as int) == skip_spaces(t@, j as int),
        decreases t@.len() - j,
    {
        j = j + 1;
    }
    j
}

/// The first position at or after `i` that does not hold a word
/// character, or the end of the text.
pub open spec fn skip_word(t: Seq<char>, i: int) -> int
    decreases t.len() - i,
{
    if i < 0 || i >= t.len() {
        i
    } else if is_word_char(t[i]) {
        skip_word(t, i + 1)
    } else {
        i
    }
}

pub proof fn lemma_skip_word(t: Seq<char>, i: int)
    requires
        0 <= i <= t.len(),
    ensures
        i <= skip_word(t, i) <= t.len(),
        forall|m: int| i <= m < skip_word(t, i) ==> is_word_char(t[m]),
        skip_word(t, i) < t.len() ==> !is_word_char(t[skip_word(t, i)]),
    decreases t.len() - i,
{
    if i < t.len() && is_word_char(t[i]) {
        lemma_skip_word(t, i + 1);
    }
}

pub fn skip_word_exec(t: &Vec<char>, i: usize) -> (r: usize)
    requires
        i <= t@.len(),
    ensures
        r == skip_word(t@, i as int),
{
    let mut j: usize = i;
    while j < t.len() && word_char(t[j])
        invariant
            i <= j <= t@.len(),
            skip_word(t@, i as int) == skip_word(t@, j as int),
        decreases t@.len() - j,
    {
        j = j + 1;
    }
    j
}

/// The first position at or after `i` that does not hold a decimal
/// digit, or the end of the text.
pub open spec fn skip_digits(t: Seq<char>, i: int) -> int
    decreases t.len() - i,
{
    if i < 0 || i >= t.len() {
        i
    } else if is_digit_char(t[i]) {
        skip_digits(t, i + 1)
    } else {
        i
    }
}

pub proof fn lemma_skip_digits(t: Seq<char>, i: int)
    requires
        0 <= i <= t.len(),
    ensures
        i <= skip_digits(t, i) <= t.len(),
        forall|m: int| i <= m < skip_digits(t, i) ==> is_digit_char(t[m]),
        skip_digits(t, i) < t.len() ==> !is_digit_char(t[skip_digits(t, i)]),
    decreases t.len() - i,
{
    if i < t.len() && is_digit_char(t[i]) {
        lemma_skip_digits(t, i + 1);
    }
}

pub fn skip_digits_exec(t: &Vec<char>, i: usize) -> (r: usize)
    requires
        i <= t@.len(),
    ensures
        r == skip_digits(t@, i as int),
{
    let mut j: usize = i;
    while j < t.len() && digit_char(t[j])
        invariant
            i <= j <= t@.len(),
            skip_digits(t@, i as int) == skip_digits(t@, j as int),
        decreases t@.len() - j,
    {
        j = j + 1;
    }
    j
}

/// Whether no space character occurs in `t` at or after `i`.
pub open spec fn no_space_from(t: Seq<char>, i: int) -> bool {
    forall|m: int| i <= m < t.len() ==> !is_space_char(t[m])
}

pub fn no_space_from_exec(t: &Vec<char>, i: usize) -> (r: bool)
    requires
        i <= t@.len(),
    ensures
        r == no_space_from(t@, i as int),
{
    let mut j: usize = i;
    while j < t.len()
        invariant
            i <= j <= t@.len(),
            forall|m: int| i <= m < j ==> !is_space_char(t@[m]),
        decreases t@.len() - j,
    {
        if space_char(t[j]) {
            return false;
        }
        j = j + 1;
    }
    true
}

} // verus!
