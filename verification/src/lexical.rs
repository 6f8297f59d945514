//! The lexical grammar of source text: integer, float and boolean literals,
//! identifiers, bare tokens and quoted strings.
//!
//! Each function reads its whole argument: a literal followed by anything
//! else is rejected.
use vstd::prelude::*;
use crate::syntax::{BareToken, Ident, QuotedString};

verus! {

/// An ASCII decimal digit.
pub open spec fn is_digit(c: char) -> bool {
    '0' <= c && c <= '9'
}

/// The numeric value of an ASCII digit.
pub open spec fn digit_value(c: char) -> nat {
    (c as nat - '0' as nat) as nat
}

/// The decimal value of a run of digits.
pub open spec fn digits_value(s: Seq<char>) -> nat
    decreases s.len(),
{
    if s.len() == 0 {
        0
    } else {
        digits_value(s.drop_last()) * 10 + digit_value(s.last())
    }
}

/// Every character of `s` is a digit.
pub open spec fn all_digits(s: Seq<char>) -> bool {
    forall|i: int| 0 <= i < s.len() ==> is_digit(#[trigger] s[i])
}

/// A non-negative decimal integer without leading zeros: `0`, or a non-zero
/// digit followed by digits.
pub open spec fn int_literal(s: Seq<char>) -> bool {
    &&& s.len() > 0
    &&& all_digits(s)
    &&& (s[0] == '0' ==> s.len() == 1)
}

/// An integer literal with an optional leading `-`.
pub open spec fn signed_literal(s: Seq<char>) -> bool {
    if s.len() > 0 && s[0] == '-' {
        int_literal(s.drop_first())
    } else {
        int_literal(s)
    }
}

/// The value of a signed integer literal.
pub open spec fn signed_value(s: Seq<char>) -> int {
    if s.len() > 0 && s[0] == '-' {
        -digits_value(s.drop_first())
    } else {
        digits_value(s) as int
    }
}

/// The first index at or after `i` that does not hold a digit.
pub open spec fn digit_run_end(s: Seq<char>, i: int) -> int
    decreases s.len() - i,
{
    if i < 0 || i >= s.len() || !is_digit(s[i]) {
        i
    } else {
        digit_run_end(s, i + 1)
    }
}

/// The value of the integer that a literal reader takes from the front of
/// `s`: `0` after a leading `0`, else the value of the leading digit run
/// (`0` when there is none).
pub open spec fn int_prefix_value(s: Seq<char>) -> nat {
    if s.len() > 0 && s[0] == '0' {
        0
    } else {
        digits_value(s.subrange(0, digit_run_end(s, 0)))
    }
}

/// The value of the integer, with its optional leading `-`, that a signed
/// literal reader takes from the front of `s`.
pub open spec fn signed_prefix_value(s: Seq<char>) -> int {
    if s.len() > 0 && s[0] == '-' {
        -int_prefix_value(s.drop_first())
    } else {
        int_prefix_value(s) as int
    }
}

/// An exponent part at index `i` that reaches the end of `s`: `e` or `E`,
/// an optional sign, then one or more digits.
pub open spec fn exponent_at(s: Seq<char>, i: int) -> bool {
    &&& 0 <= i < s.len()
    &&& (s[i] == 'e' || s[i] == 'E')
    &&& {
        let j = if i + 1 < s.len() && (s[i + 1] == '+' || s[i + 1] == '-') { i + 2 } else { i + 1 };
        j < s.len() && digit_run_end(s, j) == s.len()
    }
}

/// What may follow the integer part of a float literal, from index `i` to
/// the end of `s`: an optional `.` with one or more digits, then an
/// optional exponent part.
pub open spec fn fraction_exponent_at(s: Seq<char>, i: int) -> bool {
    if 0 <= i < s.len() && s[i] == '.' {
        let e = digit_run_end(s, i + 1);
        e > i + 1 && (e == s.len() || exponent_at(s, e))
    } else {
        i == s.len() || exponent_at(s, i)
    }
}

/// A decimal floating-point literal: an optional `-`, an integer literal, an
/// optional fraction and an optional exponent.
pub open spec fn float_literal(s: Seq<char>) -> bool {
    let o: int = if s.len() > 0 && s[0] == '-' { 1 } else { 0 };
    let e = digit_run_end(s, o);
    int_literal(s.subrange(o, e)) && fraction_exponent_at(s, e)
}

/// A Unicode white-space character.
pub open spec fn is_white_space(c: char) -> bool {
    ||| ('\u{9}' <= c && c <= '\u{d}')
    ||| c == ' '
    ||| c == '\u{85}'
    ||| c == '\u{a0}'
    ||| c == '\u{1680}'
    ||| ('\u{2000}' <= c && c <= '\u{200a}')
    ||| c == '\u{2028}'
    ||| c == '\u{2029}'
    ||| c == '\u{202f}'
    ||| c == '\u{205f}'
    ||| c == '\u{3000}'
}

/// A character that ends a token: white space or one of `,;(){}[]"'` and
/// the backtick.
pub open spec fn is_delimiter(c: char) -> bool {
    is_white_space(c) || c == ',' || c == ';' || c == '(' || c == ')' || c == '{' || c == '}'
        || c == '[' || c == ']' || c == '"' || c == '\'' || c == '`'
}

/// A character of a bare token.
pub open spec fn bare_char(c: char) -> bool {
    !is_delimiter(c)
}

/// A character of an identifier: a bare-token character other than `@`.
pub open spec fn ident_char(c: char) -> bool {
    bare_char(c) && c != '@'
}

/// A non-empty run of bare-token characters.
pub open spec fn bare_token_text(s: Seq<char>) -> bool {
    s.len() > 0 && forall|i: int| 0 <= i < s.len() ==> bare_char(#[trigger] s[i])
}

/// A non-empty run of identifier characters.
pub open spec fn ident_text(s: Seq<char>) -> bool {
    s.len() > 0 && forall|i: int| 0 <= i < s.len() ==> ident_char(#[trigger] s[i])
}

/// The character that the escape `\c` stands for, if `c` names one.
pub open spec fn escaped(c: char) -> Option<char> {
    if c == '"' {
        Some('"')
    } else if c == '\\' {
        Some('\\')
    } else if c == 'n' {
        Some('\n')
    } else if c == 't' {
        Some('\t')
    } else if c == 'r' {
        Some('\r')
    } else if c == '0' {
        Some('\0')
    } else {
        None
    }
}

/// The characters that the body of a quoted string (between its quotes)
/// stands for: escapes are decoded; a bare `"`, a `\` at the end or an
/// unknown escape rejects the body.
pub open spec fn decode_body(s: Seq<char>) -> Option<Seq<char>>
    decreases s.len(),
{
    if s.len() == 0 {
        Some(Seq::empty())
    } else if s[0] == '"' {
        None
    } else if s[0] == '\\' {
        if s.len() < 2 {
            None
        } else {
            match escaped(s[1]) {
                None => None,
                Some(c) => match decode_body(s.subrange(2, s.len() as int)) {
                    None => None,
                    Some(rest) => Some(seq![c] + rest),
                },
            }
        }
    } else {
        match decode_body(s.drop_first()) {
            None => None,
            Some(rest) => Some(seq![s[0]] + rest),
        }
    }
}

/// The contents of a quoted string literal `s`, if `s` is one.
pub open spec fn quoted_contents(s: Seq<char>) -> Option<Seq<char>> {
    if s.len() >= 2 && s[0] == '"' && s[s.len() - 1] == '"' {
        decode_body(s.subrange(1, s.len() - 1))
    } else {
        None
    }
}

/// The value of a prefix of a digit run is at most the value of the run.
pub proof fn lemma_digits_prefix(s: Seq<char>, k: int)
    requires
        0 <= k <= s.len(),
    ensures
        digits_value(s.subrange(0, k)) <= digits_value(s),
    decreases s.len(),
{
    if k < s.len() {
        assert(s.drop_last().subrange(0, k) == s.subrange(0, k));
        lemma_digits_prefix(s.drop_last(), k);
    } else {
        assert(s.subrange(0, k) == s);
    }
}

/// A digit run reaches the end of a sequence of digits.
proof fn lemma_digit_run_all(s: Seq<char>, i: int)
    requires
        all_digits(s),
        0 <= i <= s.len(),
    ensures
        digit_run_end(s, i) == s.len(),
    decreases s.len() - i,
{
    if i < s.len() {
        lemma_digit_run_all(s, i + 1);
    }
}

/// The integer at the front of an integer literal is the whole literal.
proof fn lemma_literal_prefix_value(s: Seq<char>)
    requires
        int_literal(s),
    ensures
        int_prefix_value(s) == digits_value(s),
{
    if s[0] == '0' {
        assert(s.drop_last() == Seq::<char>::empty());
        reveal_with_fuel(digits_value, 2);
    } else {
        lemma_digit_run_all(s, 0);
        assert(s.subrange(0, s.len() as int) == s);
    }
}

/// Whether `c` is an ASCII digit.
fn digit(c: char) -> (b: bool)
    ensures
        b == is_digit(c),
{
    '0' <= c && c <= '9'
}

/// Whether `c` is white space.
pub fn white_space(c: char) -> (b: bool)
    ensures
        b == is_white_space(c),
{
    ('\u{9}' <= c && c <= '\u{d}') || c == ' ' || c == '\u{85}' || c == '\u{a0}' || c == '\u{1680}'
        || ('\u{2000}' <= c && c <= '\u{200a}') || c == '\u{2028}' || c == '\u{2029}'
        || c == '\u{202f}' || c == '\u{205f}' || c == '\u{3000}'
}

/// Whether `c` ends a token.
pub fn delimiter(c: char) -> (b: bool)
    ensures
        b == is_delimiter(c),
{
    white_space(c) || c == ',' || c == ';' || c == '(' || c == ')' || c == '{' || c == '}' || c
        == '[' || c == ']' || c == '"' || c == '\'' || c == '`'
}

/// Whether every character of `s` from index `start` on is a digit.
fn digits_from(s: &str, start: usize) -> (b: bool)
    requires
        start <= s@.len(),
    ensures
        b == all_digits(s@.subrange(start as int, s@.len() as int)),
{
    let n = s.unicode_len();
    let mut i: usize = start;
    while i < n
        invariant
            n == s@.len(),
            start <= i <= n,
            forall|j: int| start <= j < i ==> is_digit(#[trigger] s@[j]),
        decreases n - i,
    {
        if !digit(s.get_char(i)) {
            assert(s@.subrange(start as int, n as int)[i - start] == s@[i as int]);
            return false;
        }
        i += 1;
    }
    assert forall|j: int| 0 <= j < n - start implies is_digit(
        #[trigger] s@.subrange(start as int, n as int)[j],
    ) by {
        assert(s@.subrange(start as int, n as int)[j] == s@[start + j]);
    }
    true
}

/// Reads the characters of `s` from index `start` to its end, if they form
/// an integer literal; the integer at their front must be at most `max`.
fn unsigned_from(s: &str, start: usize, max: u64) -> (r: Option<u64>)
    requires
        start <= s@.len(),
        int_prefix_value(s@.subrange(start as int, s@.len() as int)) <= max,
    ensures
        r == (if int_literal(s@.subrange(start as int, s@.len() as int)) {
            Some(digits_value(s@.subrange(start as int, s@.len() as int)) as u64)
        } else {
            None::<u64>
        }),
        r matches Some(v) ==> v <= max,
        int_literal(s@.subrange(start as int, s@.len() as int)) ==> digits_value(
            s@.subrange(start as int, s@.len() as int),
        ) <= max,
{
    let ghost t = s@.subrange(start as int, s@.len() as int);
    let n = s.unicode_len();
    if start == n || !digits_from(s, start) {
        return None;
    }
    if s.get_char(start) == '0' && n - start > 1 {
        assert(t[0] == '0');
        return None;
    }
    assert(int_literal(t));
    proof {
        lemma_literal_prefix_value(t);
    }
    let mut value: u64 = 0;
    let mut i: usize = start;
    while i < n
        invariant
            n == s@.len(),
            start <= i <= n,
            t == s@.subrange(start as int, n as int),
            all_digits(t),
            digits_value(t) <= max,
            value == digits_value(s@.subrange(start as int, i as int)),
        decreases n - i,
    {
        let c = s.get_char(i);
        let ghost p = s@.subrange(start as int, i as int);
        let ghost q = s@.subrange(start as int, i + 1);
        assert(q.drop_last() == p);
        assert(q.last() == c);
        assert(q == t.subrange(0, i + 1 - start));
        assert(is_digit(t[i - start]));
        proof {
            lemma_digits_prefix(t, i + 1 - start);
        }
        value = value * 10 + (c as u64 - '0' as u64);
        i += 1;
    }
    assert(s@.subrange(start as int, n as int) == t);
    Some(value)
}

/// The index of the first non-digit of `s` at or after `i`.
fn scan_digits(s: &str, i: usize) -> (r: usize)
    requires
        i <= s@.len(),
    ensures
        r == digit_run_end(s@, i as int),
        i <= r <= s@.len(),
{
    let n = s.unicode_len();
    let mut k = i;
    while k < n && digit(s.get_char(k))
        invariant
            n == s@.len(),
            i <= k <= n,
            digit_run_end(s@, i as int) == digit_run_end(s@, k as int),
        decreases n - k,
    {
        k += 1;
    }
    k
}

/// Whether an exponent part starts at index `i` of `s` and reaches its end.
fn exponent_from(s: &str, i: usize) -> (b: bool)
    requires
        i <= s@.len(),
    ensures
        b == exponent_at(s@, i as int),
{
    let n = s.unicode_len();
    if i >= n {
        return false;
    }
    let c = s.get_char(i);
    if c != 'e' && c != 'E' {
        return false;
    }
    let mut j = i + 1;
    if j < n {
        let sign = s.get_char(j);
        if sign == '+' || sign == '-' {
            j = j + 1;
        }
    }
    j < n && scan_digits(s, j) == n
}

/// Parses `text` as an unsigned integer literal of at most `u64::MAX`.
pub fn parse_u64(text: &str) -> (r: Option<u64>)
    requires
        int_prefix_value(text@) <= u64::MAX,
    ensures
        r == (if int_literal(text@) { Some(digits_value(text@) as u64) } else { None::<u64> }),
{
    assert(text@.subrange(0, text@.len() as int) == text@);
    unsigned_from(text, 0, u64::MAX)
}

/// Parses `text` as an unsigned integer literal of at most `u32::MAX`.
pub fn parse_u32(text: &str) -> (r: Option<u32>)
    requires
        int_prefix_value(text@) <= u32::MAX,
    ensures
        r == (if int_literal(text@) { Some(digits_value(text@) as u32) } else { None::<u32> }),
{
    assert(text@.subrange(0, text@.len() as int) == text@);
    match unsigned_from(text, 0, u32::MAX as u64) {
        Some(v) => Some(v as u32),
        None => None,
    }
}

/// Parses `text` as an unsigned integer literal of at most `usize::MAX`.
pub fn parse_usize(text: &str) -> (r: Option<usize>)
    requires
        int_prefix_value(text@) <= usize::MAX,
    ensures
        r == (if int_literal(text@) { Some(digits_value(text@) as usize) } else { None::<usize> }),
{
    assert(text@.subrange(0, text@.len() as int) == text@);
    match unsigned_from(text, 0, usize::MAX as u64) {
        Some(v) => Some(v as usize),
        None => None,
    }
}

/// Parses `text` as an optionally negated integer literal whose value lies
/// in `min..=max`, where `min == -max - 1`.
fn signed_in(text: &str, max: u64) -> (r: Option<(bool, u64)>)
    requires
        max < u64::MAX,
        -max - 1 <= signed_prefix_value(text@) <= max,
    ensures
        r == (if signed_literal(text@) {
            if text@.len() > 0 && text@[0] == '-' {
                Some((true, digits_value(text@.drop_first()) as u64))
            } else {
                Some((false, digits_value(text@) as u64))
            }
        } else {
            None::<(bool, u64)>
        }),
        r matches Some((neg, m)) ==> m <= max + 1 && (!neg ==> m <= max),
        signed_literal(text@) ==> -max - 1 <= signed_value(text@) <= max,
{
    let n = text.unicode_len();
    if n > 0 && text.get_char(0) == '-' {
        assert(text@.subrange(1, n as int) == text@.drop_first());
        match unsigned_from(text, 1, max + 1) {
            Some(m) => Some((true, m)),
            None => None,
        }
    } else {
        assert(text@.subrange(0, n as int) == text@);
        match unsigned_from(text, 0, max) {
            Some(m) => Some((false, m)),
            None => None,
        }
    }
}

/// Parses `text` as an integer literal, with an optional `-`, whose value
/// fits in `i64`.
pub fn parse_i64(text: &str) -> (r: Option<i64>)
    requires
        i64::MIN <= signed_prefix_value(text@) <= i64::MAX,
    ensures
        r == (if signed_literal(text@) { Some(signed_value(text@) as i64) } else { None::<i64> }),
{
    match signed_in(text, i64::MAX as u64) {
        None => None,
        Some((false, m)) => Some(m as i64),
        Some((true, m)) => {
            if m == 9_223_372_036_854_775_808u64 {
                Some(i64::MIN)
            } else {
                Some(-(m as i64))
            }
        },
    }
}

/// Parses `text` as an integer literal, with an optional `-`, whose value
/// fits in `i32`.
pub fn parse_i32(text: &str) -> (r: Option<i32>)
    requires
        i32::MIN <= signed_prefix_value(text@) <= i32::MAX,
    ensures
        r == (if signed_literal(text@) { Some(signed_value(text@) as i32) } else { None::<i32> }),
{
    match signed_in(text, i32::MAX as u64) {
        None => None,
        Some((false, m)) => Some(m as i32),
        Some((true, m)) => {
            if m == 2_147_483_648u64 {
                Some(i32::MIN)
            } else {
                Some(-(m as i32))
            }
        },
    }
}

/// Parses `text` as `true` or `false`.
pub fn parse_bool(text: &str) -> (r: Option<bool>)
    ensures
        r == (if text@ == seq!['t', 'r', 'u', 'e'] {
            Some(true)
        } else if text@ == seq!['f', 'a', 'l', 's', 'e'] {
            Some(false)
        } else {
            None::<bool>
        }),
{
    let n = text.unicode_len();
    if n == 4 && text.get_char(0) == 't' && text.get_char(1) == 'r' && text.get_char(2) == 'u'
        && text.get_char(3) == 'e' {
        assert(text@ == seq!['t', 'r', 'u', 'e']);
        Some(true)
    } else if n == 5 && text.get_char(0) == 'f' && text.get_char(1) == 'a' && text.get_char(2)
        == 'l' && text.get_char(3) == 's' && text.get_char(4) == 'e' {
        assert(text@ == seq!['f', 'a', 'l', 's', 'e']);
        Some(false)
    } else {
        None
    }
}

/// Whether `text` is a floating-point literal. Converting one to a float
/// is left to the caller.
pub fn is_float_literal(text: &str) -> (b: bool)
    ensures
        b == float_literal(text@),
{
    let n = text.unicode_len();
    let o: usize = if n > 0 && text.get_char(0) == '-' { 1 } else { 0 };
    let e = scan_digits(text, o);
    if e == o {
        return false;
    }
    assert(all_digits(text@.subrange(o as int, e as int))) by {
        lemma_digit_run_digits(text@, o as int, e as int);
    }
    if text.get_char(o) == '0' && e - o > 1 {
        assert(text@.subrange(o as int, e as int)[0] == '0');
        return false;
    }
    assert(int_literal(text@.subrange(o as int, e as int)));
    if e < n && text.get_char(e) == '.' {
        let f = scan_digits(text, e + 1);
        f > e + 1 && (f == n || exponent_from(text, f))
    } else {
        e == n || exponent_from(text, e)
    }
}

/// The characters from `i` up to `digit_run_end(s, i)` are digits.
proof fn lemma_digit_run_digits(s: Seq<char>, i: int, e: int)
    requires
        0 <= i <= s.len(),
        e == digit_run_end(s, i),
    ensures
        i <= e <= s.len(),
        all_digits(s.subrange(i, e)),
    decreases s.len() - i,
{
    if i < s.len() && is_digit(s[i]) {
        lemma_digit_run_digits(s, i + 1, e);
        assert forall|j: int| 0 <= j < e - i implies is_digit(#[trigger] s.subrange(i, e)[j]) by {
            if j > 0 {
                assert(s.subrange(i, e)[j] == s.subrange(i + 1, e)[j - 1]);
            }
        }
    }
}

/// A bare-token character, which must also differ from `@` unless
/// `allow_at`.
pub open spec fn token_char(c: char, allow_at: bool) -> bool {
    bare_char(c) && (allow_at || c != '@')
}

/// Whether every character of `text` satisfies the token rule, optionally
/// also excluding `@`.
fn token_chars(text: &str, allow_at: bool) -> (b: bool)
    ensures
        b == (forall|i: int| 0 <= i < text@.len() ==> #[trigger] token_char(text@[i], allow_at)),
{
    let n = text.unicode_len();
    let mut i: usize = 0;
    while i < n
        invariant
            n == text@.len(),
            0 <= i <= n,
            forall|j: int| 0 <= j < i ==> #[trigger] token_char(text@[j], allow_at),
        decreases n - i,
    {
        let c = text.get_char(i);
        if delimiter(c) || (!allow_at && c == '@') {
            assert(!token_char(text@[i as int], allow_at));
            return false;
        }
        assert(token_char(text@[i as int], allow_at));
        i += 1;
    }
    true
}

/// The text of an identifier: a non-empty run of characters that are not
/// white space, not one of `,;(){}[]"'`, not a backtick and not `@`.
pub fn ident(text: &str) -> (r: Option<String>)
    ensures
        match r {
            Some(v) => ident_text(text@) && v@ == text@,
            None => !ident_text(text@),
        },
{
    if text.unicode_len() > 0 && token_chars(text, false) {
        assert forall|i: int| 0 <= i < text@.len() implies ident_char(#[trigger] text@[i]) by {
            assert(token_char(text@[i], false));
        }
        Some(text.to_owned())
    } else {
        assert(!ident_text(text@)) by {
            if text@.len() > 0 {
                let i = choose|i: int| 0 <= i < text@.len() && !#[trigger] token_char(text@[i], false);
                assert(!ident_char(text@[i]));
            }
        }
        None
    }
}

/// The text of a bare token: like an identifier, but `@` is allowed.
pub fn bare_token(text: &str) -> (r: Option<String>)
    ensures
        match r {
            Some(v) => bare_token_text(text@) && v@ == text@,
            None => !bare_token_text(text@),
        },
{
    if text.unicode_len() > 0 && token_chars(text, true) {
        assert forall|i: int| 0 <= i < text@.len() implies bare_char(#[trigger] text@[i]) by {
            assert(token_char(text@[i], true));
        }
        Some(text.to_owned())
    } else {
        assert(!bare_token_text(text@)) by {
            if text@.len() > 0 {
                let i = choose|i: int| 0 <= i < text@.len() && !#[trigger] token_char(text@[i], true);
                assert(!bare_char(text@[i]));
            }
        }
        None
    }
}

/// Parses an identifier.
pub fn parse_ident(text: &str) -> (r: Option<Ident>)
    ensures
        match r {
            Some(v) => ident_text(text@) && v.0@ == text@,
            None => !ident_text(text@),
        },
{
    match ident(text) {
        Some(v) => Some(Ident(v)),
        None => None,
    }
}

/// Parses a bare token.
pub fn parse_bare_token(text: &str) -> (r: Option<BareToken>)
    ensures
        match r {
            Some(v) => bare_token_text(text@) && v.0@ == text@,
            None => !bare_token_text(text@),
        },
{
    match bare_token(text) {
        Some(v) => Some(BareToken(v)),
        None => None,
    }
}

/// Parses a word as an owned string: a bare token.
pub fn parse_string(text: &str) -> (r: Option<String>)
    ensures
        match r {
            Some(v) => bare_token_text(text@) && v@ == text@,
            None => !bare_token_text(text@),
        },
{
    bare_token(text)
}

/// `prefix` followed by the decoded rest, if the rest decodes.
pub open spec fn joined(prefix: Seq<char>, rest: Option<Seq<char>>) -> Option<Seq<char>> {
    match rest {
        Some(r) => Some(prefix + r),
        None => None,
    }
}

/// The one-character text that the escape `\d` stands for.
fn escape_text(d: char) -> (r: Option<&'static str>)
    ensures
        match r {
            Some(t) => t@.len() == 1 && escaped(d) == Some(t@[0]),
            None => escaped(d) is None,
        },
{
    proof {
        reveal_strlit("\"");
        reveal_strlit("\\");
        reveal_strlit("\n");
        reveal_strlit("\t");
        reveal_strlit("\r");
        reveal_strlit("\0");
    }
    if d == '"' {
        Some("\"")
    } else if d == '\\' {
        Some("\\")
    } else if d == 'n' {
        Some("\n")
    } else if d == 't' {
        Some("\t")
    } else if d == 'r' {
        Some("\r")
    } else if d == '0' {
        Some("\0")
    } else {
        None
    }
}

/// Parses a quoted string literal: `"`, then characters other than `"` and
/// `\` or the escapes `\"`, `\\`, `\n`, `\t`, `\r`, `\0`, then `"`.
pub fn parse_quoted_string(text: &str) -> (r: Option<QuotedString>)
    ensures
        match r {
            Some(q) => quoted_contents(text@) == Some(q.0@),
            None => quoted_contents(text@) is None,
        },
{
    let n = text.unicode_len();
    if n < 2 || text.get_char(0) != '"' || text.get_char(n - 1) != '"' {
        return None;
    }
    let ghost body = text@.subrange(1, n - 1);
    let mut out = String::new();
    let mut k: usize = 1;
    assert(text@.subrange(1, n - 1) == body);
    while k < n - 1
        invariant
            n == text@.len(),
            n >= 2,
            1 <= k <= n - 1,
            body == text@.subrange(1, n - 1),
            quoted_contents(text@) == decode_body(body),
            decode_body(body) == joined(out@, decode_body(text@.subrange(k as int, n - 1))),
        decreases n - k,
    {
        let ghost rest = text@.subrange(k as int, n - 1);
        let c = text.get_char(k);
        assert(rest[0] == c);
        if c == '"' {
            return None;
        }
        if c == '\\' {
            if k + 1 >= n - 1 {
                return None;
            }
            let d = text.get_char(k + 1);
            assert(rest[1] == d);
            match escape_text(d) {
                None => {
                    return None;
                },
                Some(e) => {
                    assert(rest.subrange(2, rest.len() as int) == text@.subrange(k + 2, n - 1));
                    let ghost before = out@;
                    out.append(e);
                    assert(out@ == before + seq![e@[0]]);
                    proof {
                        let tail = decode_body(text@.subrange(k + 2, n - 1));
                        match tail {
                            Some(t) => {
                                assert(before + (seq![e@[0]] + t) == (before + seq![e@[0]]) + t);
                            },
                            None => {},
                        }
                    }
                    k = k + 2;
                },
            }
        } else {
            let piece = text.substring_char(k, k + 1);
            assert(piece@ == seq![c]);
            assert(rest.drop_first() == text@.subrange(k + 1, n - 1));
            let ghost before = out@;
            out.append(piece);
            proof {
                let tail = decode_body(text@.subrange(k + 1, n - 1));
                match tail {
                    Some(t) => {
                        assert(before + (seq![c] + t) == (before + seq![c]) + t);
                    },
                    None => {},
                }
            }
            k = k + 1;
        }
    }
    assert(text@.subrange(k as int, n - 1) == Seq::<char>::empty());
    assert(out@ + Seq::<char>::empty() == out@);
    Some(QuotedString(out))
}

/// A decimal integer in the form that Rust's integer parsing accepts: an
/// optional `+` or `-`, then one or more ASCII digits. The result is the
/// sign (true for `-`) and the magnitude.
pub open spec fn decimal_parts(s: Seq<char>) -> Option<(bool, nat)> {
    let (negative, body) = if s.len() > 0 && s[0] == '+' {
        (false, s.drop_first())
    } else if s.len() > 0 && s[0] == '-' {
        (true, s.drop_first())
    } else {
        (false, s)
    };
    if body.len() > 0 && all_digits(body) {
        Some((negative, digits_value(body)))
    } else {
        None
    }
}

/// The value of `s` read as a decimal integer of the type that holds
/// `min..=max`: `None` when it is not a decimal integer, is negative for an
/// unsigned type (`min == 0`; even `-0`), or lies outside the range.
pub open spec fn decimal_value(s: Seq<char>, min: int, max: int) -> Option<int> {
    match decimal_parts(s) {
        None => None,
        Some((negative, m)) => if negative && min == 0 {
            None
        } else {
            let v = if negative { -m } else { m as int };
            if min <= v <= max {
                Some(v)
            } else {
                None
            }
        },
    }
}

/// The sign and magnitude of `text` read as a decimal integer, when the
/// magnitude is at most `limit`.
fn decimal_bounded(text: &str, limit: u64) -> (r: Option<(bool, u64)>)
    ensures
        r == (match decimal_parts(text@) {
            Some((negative, m)) => if m <= limit {
                Some((negative, m as u64))
            } else {
                None::<(bool, u64)>
            },
            None => None::<(bool, u64)>,
        }),
{
    let n = text.unicode_len();
    let mut start: usize = 0;
    let mut negative = false;
    if n > 0 {
        let c = text.get_char(0);
        if c == '+' || c == '-' {
            start = 1;
            negative = c == '-';
        }
    }
    let ghost body = text@.subrange(start as int, n as int);
    assert(start == 1 ==> body == text@.drop_first());
    assert(start == 0 ==> body == text@);
    if start == n || !digits_from(text, start) {
        return None;
    }
    let mut value: u64 = 0;
    let mut i: usize = start;
    while i < n
        invariant
            n == text@.len(),
            start <= i <= n,
            start < n,
            body == text@.subrange(start as int, n as int),
            all_digits(body),
            decimal_parts(text@) == Some((negative, digits_value(body))),
            value <= limit,
            value == digits_value(text@.subrange(start as int, i as int)),
        decreases n - i,
    {
        let c = text.get_char(i);
        let ghost p = text@.subrange(start as int, i as int);
        let ghost q = text@.subrange(start as int, i + 1);
        assert(q.drop_last() == p);
        assert(q.last() == c);
        assert(q == body.subrange(0, i + 1 - start));
        assert(is_digit(body[i - start]));
        let d = c as u64 - '0' as u64;
        assert(digits_value(q) == value * 10 + d);
        if d > limit || value > (limit - d) / 10 {
            assert(value * 10 + d > limit) by (nonlinear_arith)
                requires
                    d > limit || value > (limit - d) / 10,
                    d <= limit ==> limit - d >= 0,
            ;
            proof {
                lemma_digits_prefix(body, i + 1 - start);
            }
            return None;
        }
        assert(value * 10 + d <= limit) by (nonlinear_arith)
            requires
                d <= limit,
                value <= (limit - d) / 10,
        ;
        value = value * 10 + d;
        i += 1;
    }
    assert(text@.subrange(start as int, n as int) == body);
    Some((negative, value))
}

/// Reads `text` as a decimal `u32` the way Rust's integer parsing does.
pub fn decimal_u32(text: &str) -> (r: Option<u32>)
    ensures
        r == (match decimal_value(text@, 0, u32::MAX as int) {
            Some(v) => Some(v as u32),
            None => None::<u32>,
        }),
{
    match decimal_bounded(text, u32::MAX as u64) {
        Some((false, m)) => Some(m as u32),
        _ => None,
    }
}

/// Reads `text` as a decimal `u64` the way Rust's integer parsing does.
pub fn decimal_u64(text: &str) -> (r: Option<u64>)
    ensures
        r == (match decimal_value(text@, 0, u64::MAX as int) {
            Some(v) => Some(v as u64),
            None => None::<u64>,
        }),
{
    match decimal_bounded(text, u64::MAX) {
        Some((false, m)) => Some(m),
        _ => None,
    }
}

/// Reads `text` as a decimal `i32` the way Rust's integer parsing does.
pub fn decimal_i32(text: &str) -> (r: Option<i32>)
    ensures
        r == (match decimal_value(text@, i32::MIN as int, i32::MAX as int) {
            Some(v) => Some(v as i32),
            None => None::<i32>,
        }),
{
    match decimal_bounded(text, 2_147_483_648u64) {
        Some((true, m)) => {
            if m == 2_147_483_648u64 {
                Some(i32::MIN)
            } else {
                Some(-(m as i32))
            }
        },
        Some((false, m)) => {
            if m <= i32::MAX as u64 {
                Some(m as i32)
            } else {
                None
            }
        },
        None => None,
    }
}

/// Reads `text` as a decimal `i64` the way Rust's integer parsing does.
pub fn decimal_i64(text: &str) -> (r: Option<i64>)
    ensures
        r == (match decimal_value(text@, i64::MIN as int, i64::MAX as int) {
            Some(v) => Some(v as i64),
            None => None::<i64>,
        }),
{
    match decimal_bounded(text, 9_223_372_036_854_775_808u64) {
        Some((true, m)) => {
            if m == 9_223_372_036_854_775_808u64 {
                Some(i64::MIN)
            } else {
                Some(-(m as i64))
            }
        },
        Some((false, m)) => {
            if m <= i64::MAX as u64 {
                Some(m as i64)
            } else {
                None
            }
        },
        None => None,
    }
}

/// How a character is written inside a quoted string: `"`, the backslash,
/// line feed, tab, carriage return and NUL as the escapes `\"`, `\\`, `\n`,
/// `\t`, `\r` and `\0`; any other character as itself.
pub open spec fn written_char(c: char) -> Seq<char> {
    if c == '"' {
        seq!['\\', '"']
    } else if c == '\\' {
        seq!['\\', '\\']
    } else if c == '\u{a}' {
        seq!['\\', 'n']
    } else if c == '\u{9}' {
        seq!['\\', 't']
    } else if c == '\u{d}' {
        seq!['\\', 'r']
    } else if c == '\u{0}' {
        seq!['\\', '0']
    } else {
        seq![c]
    }
}

/// The characters of `t` as they are written inside a quoted string.
pub open spec fn written_text(t: Seq<char>) -> Seq<char>
    decreases t.len(),
{
    if t.len() == 0 {
        Seq::empty()
    } else {
        written_char(t[0]) + written_text(t.drop_first())
    }
}

/// Decoding the written form of any text gives the text back, and quoting
/// it gives a quoted string literal whose contents are the text: each
/// escape stands for the character it names (`\n` line feed U+000A, `\t`
/// tab U+0009, `\r` carriage return U+000D, `\0` NUL U+0000, `\"` and `\\`
/// the quote and the backslash).
pub proof fn lemma_quoted_round_trip(t: Seq<char>)
    ensures
        decode_body(written_text(t)) == Some(t),
        quoted_contents(seq!['"'] + written_text(t) + seq!['"']) == Some(t),
    decreases t.len(),
{
    let w = written_text(t);
    if t.len() > 0 {
        lemma_quoted_round_trip(t.drop_first());
        let c = t[0];
        let rest = written_text(t.drop_first());
        let wc = written_char(c);
        assert(w == wc + rest);
        if wc.len() == 2 {
            assert(w.subrange(2, w.len() as int) =~= rest);
            assert(seq![c] + t.drop_first() =~= t);
        } else {
            assert(w.drop_first() =~= rest);
            assert(seq![c] + t.drop_first() =~= t);
        }
    }
    let q = seq!['"'] + w + seq!['"'];
    assert(q.subrange(1, q.len() - 1) =~= w);
}

/// Distinct escapes stand for distinct characters.
pub proof fn lemma_escapes_distinct(a: char, b: char)
    requires
        escaped(a) is Some,
        escaped(a) == escaped(b),
    ensures
        a == b,
{
}

} // verus!
