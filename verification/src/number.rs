//! Which words are numbers: the texts that Rust reads as a floating-point
//! value.
//!
//! ```text
//! Float   ::= Sign? ( 'inf' | 'infinity' | 'nan' | Number )
//! Number  ::= Decimal Exp?
//! Decimal ::= Digit+ | Digit+ '.' Digit* | Digit* '.' Digit+
//! Exp     ::= 'e' Sign? Digit+
//! Sign    ::= '+' | '-'
//! Digit   ::= '0' ... '9'
//! ```
//!
//! Letters match in either case.

use crate::chars::is_ascii_digit;
use crate::text::chars_of;
use vstd::prelude::*;

verus! {

/// `+` or `-`.
pub open spec fn is_sign(c: char) -> bool {
    c == '+' || c == '-'
}

/// Every character of `s` is a digit (true of the empty text).
pub open spec fn all_digits(s: Seq<char>) -> bool {
    forall|i: int| 0 <= i < s.len() ==> is_ascii_digit(#[trigger] s[i])
}

/// `c` is the lower-case ASCII letter `letter`, or its upper-case form.
pub open spec fn is_letter(c: char, letter: char) -> bool {
    c == letter || ('a' <= letter <= 'z' && c as int + 32 == letter as int)
}

/// `s` spells the lower-case word `word`, each letter in either case.
pub open spec fn spells(s: Seq<char>, word: Seq<char>) -> bool {
    &&& s.len() == word.len()
    &&& forall|i: int| 0 <= i < s.len() ==> is_letter(#[trigger] s[i], word[i])
}

/// `inf`, `infinity` or `nan`.
pub open spec fn is_special_text(s: Seq<char>) -> bool {
    spells(s, "inf"@) || spells(s, "infinity"@) || spells(s, "nan"@)
}

/// Digits with at most one `.` among them, and at least one digit.
pub open spec fn is_decimal_text(s: Seq<char>) -> bool {
    ||| s.len() > 0 && all_digits(s)
    ||| exists|dot: int|
        0 <= dot < s.len() && s[dot] == '.' && s.len() > 1 && #[trigger] all_digits(s.take(dot))
            && all_digits(s.skip(dot + 1))
}

/// `e` or `E`, an optional sign, and at least one digit.
pub open spec fn is_exponent_text(s: Seq<char>) -> bool {
    &&& s.len() >= 2
    &&& s[0] == 'e' || s[0] == 'E'
    &&& if is_sign(s[1]) {
        s.len() >= 3 && all_digits(s.skip(2))
    } else {
        all_digits(s.skip(1))
    }
}

/// A decimal, with or without an exponent behind it.
pub open spec fn is_number_text(s: Seq<char>) -> bool {
    ||| is_decimal_text(s)
    ||| exists|e: int|
        0 < e < s.len() && #[trigger] is_decimal_text(s.take(e)) && is_exponent_text(s.skip(e))
}

/// `s` without its sign, if it begins with one.
pub open spec fn unsigned_part(s: Seq<char>) -> Seq<char> {
    if s.len() > 0 && is_sign(s[0]) {
        s.skip(1)
    } else {
        s
    }
}

/// The texts that read as a floating-point value: an optional sign before a
/// number, an infinity or a NaN.
pub open spec fn is_float_text(s: Seq<char>) -> bool {
    is_special_text(unsigned_part(s)) || is_number_text(unsigned_part(s))
}

/// A decimal begins with a digit or with `.`.
pub proof fn lemma_decimal_first(s: Seq<char>)
    requires
        is_decimal_text(s),
    ensures
        s.len() > 0,
        is_ascii_digit(s[0]) || s[0] == '.',
{
    if !(s.len() > 0 && all_digits(s)) {
        let dot = choose|dot: int|
            0 <= dot < s.len() && s[dot] == '.' && s.len() > 1 && #[trigger] all_digits(
                s.take(dot),
            ) && all_digits(s.skip(dot + 1));
        if dot > 0 {
            assert(s.take(dot)[0] == s[0]);
        }
    }
}

/// A text that reads as a floating-point value begins with a sign, a digit
/// or `.`, or is one of the special words.
pub proof fn lemma_float_first(s: Seq<char>)
    requires
        is_float_text(s),
    ensures
        s.len() > 0,
        is_sign(s[0]) || is_ascii_digit(s[0]) || s[0] == '.' || is_special_text(s),
{
    reveal_strlit("inf");
    reveal_strlit("infinity");
    reveal_strlit("nan");
    let body = unsigned_part(s);
    if is_number_text(body) {
        if is_decimal_text(body) {
            lemma_decimal_first(body);
        } else {
            let e = choose|e: int|
                0 < e < body.len() && #[trigger] is_decimal_text(body.take(e)) && is_exponent_text(
                    body.skip(e),
                );
            lemma_decimal_first(body.take(e));
        }
    }
}

/// Index of the first character of `s` at or after `from` that is no digit;
/// the length of `s` if there is none.
fn digits_end(s: &[char], from: usize) -> (end: usize)
    requires
        from <= s@.len(),
    ensures
        from <= end <= s@.len(),
        forall|j: int| from <= j < end ==> is_ascii_digit(#[trigger] s@[j]),
        end < s@.len() ==> !is_ascii_digit(s@[end as int]),
{
    let n = s.len();
    let mut end = from;
    while end < n && '0' <= s[end] && s[end] <= '9'
        invariant
            n == s@.len(),
            from <= end <= n,
            forall|j: int| from <= j < end ==> is_ascii_digit(#[trigger] s@[j]),
        decreases n - end,
    {
        end += 1;
    }
    end
}

/// A text whose digits run up to `a` is a decimal exactly if it is digits
/// only and not empty, or holds a `.` at `a`, digits behind it, and more
/// than the `.`.
proof fn lemma_decimal_shape(t: Seq<char>, a: int)
    requires
        0 <= a <= t.len(),
        forall|j: int| 0 <= j < a ==> is_ascii_digit(#[trigger] t[j]),
        a < t.len() ==> !is_ascii_digit(t[a]),
    ensures
        is_decimal_text(t) <==> (if a == t.len() {
            t.len() > 0
        } else {
            t[a] == '.' && t.len() > 1 && all_digits(t.skip(a + 1))
        }),
{
    if is_decimal_text(t) && !(t.len() > 0 && all_digits(t)) {
        let dot = choose|dot: int|
            0 <= dot < t.len() && t[dot] == '.' && t.len() > 1 && #[trigger] all_digits(
                t.take(dot),
            ) && all_digits(t.skip(dot + 1));
        if a < dot {
            assert(t.take(dot)[a] == t[a]);
        }
    }
    if a < t.len() && t[a] == '.' && t.len() > 1 && all_digits(t.skip(a + 1)) {
        assert(all_digits(t.take(a)));
    }
}

/// Whatever decimal an exponent or the end of the text follows, it ends
/// where the scan of digits, one `.` and digits ends.
proof fn lemma_decimal_end(s: Seq<char>, a: int, b: int, e: int)
    requires
        0 <= a <= b <= s.len(),
        forall|j: int| 0 <= j < a ==> is_ascii_digit(#[trigger] s[j]),
        a < s.len() ==> !is_ascii_digit(s[a]),
        a < s.len() && s[a] == '.' ==> a < b,
        !(a < s.len() && s[a] == '.') ==> a == b,
        forall|j: int| a < j < b ==> is_ascii_digit(#[trigger] s[j]),
        b < s.len() ==> !is_ascii_digit(s[b]),
        0 <= e <= s.len(),
        is_decimal_text(s.take(e)),
        e < s.len() ==> s[e] == 'e' || s[e] == 'E',
    ensures
        e == b,
{
    let t = s.take(e);
    if a < e {
        lemma_decimal_shape(t, a);
        if b < e {
            assert(t.skip(a + 1)[b - (a + 1)] == s[b]);
        }
    }
}

/// Tells whether `s` is an exponent.
pub fn spells_exponent(s: &[char]) -> (found: bool)
    ensures
        found == is_exponent_text(s@),
{
    let n = s.len();
    if n < 2 || !(s[0] == 'e' || s[0] == 'E') {
        return false;
    }
    let start: usize = if s[1] == '+' || s[1] == '-' {
        2
    } else {
        1
    };
    if start >= n {
        return false;
    }
    let end = digits_end(s, start);
    proof {
        let rest = s@.skip(start as int);
        if end < n {
            assert(rest[end - start] == s@[end as int]);
        }
    }
    end == n
}

/// Tells whether `s` is a number: a decimal, with or without an exponent.
pub fn spells_number(s: &[char]) -> (found: bool)
    ensures
        found == is_number_text(s@),
{
    let n = s.len();
    let a = digits_end(s, 0);
    let b = if a < n && s[a] == '.' {
        digits_end(s, a + 1)
    } else {
        a
    };
    let digits = if a < b {
        b - 1
    } else {
        a
    };
    let found = digits > 0 && (b == n || spells_exponent(&s[b..n]));
    proof {
        // The scanned part is a decimal exactly if it holds a digit.
        lemma_decimal_shape(s@.take(b as int), a as int);
        // No other cut gives a decimal with an exponent, or nothing, behind it.
        assert(s@.take(n as int) =~= s@);
        if is_decimal_text(s@) {
            lemma_decimal_end(s@, a as int, b as int, n as int);
        } else if is_number_text(s@) {
            let e = choose|e: int|
                0 < e < s@.len() && #[trigger] is_decimal_text(s@.take(e)) && is_exponent_text(
                    s@.skip(e),
                );
            lemma_decimal_end(s@, a as int, b as int, e);
        }
    }
    found
}

/// Tells whether `c` is the lower-case ASCII letter `letter` or its
/// upper-case form.
fn matches_letter(c: char, letter: char) -> (same: bool)
    ensures
        same == is_letter(c, letter),
{
    c == letter || ('a' <= letter && letter <= 'z' && c as u32 + 32 == letter as u32)
}

/// Tells whether `s` spells the lower-case `word`, each letter in either
/// case.
pub fn spells_word(s: &[char], word: &str) -> (same: bool)
    ensures
        same == spells(s@, word@),
{
    let n = word.unicode_len();
    if s.len() != n {
        return false;
    }
    let mut i: usize = 0;
    while i < n
        invariant
            n == word@.len(),
            s@.len() == n,
            i <= n,
            forall|j: int| 0 <= j < i ==> is_letter(#[trigger] s@[j], word@[j]),
        decreases n - i,
    {
        if !matches_letter(s[i], word.get_char(i)) {
            return false;
        }
        i += 1;
    }
    true
}

/// Tells whether the characters `word` read as a floating-point value.
pub fn spells_float(word: &[char]) -> (found: bool)
    ensures
        found == is_float_text(word@),
{
    let n = word.len();
    let body = if n > 0 && (word[0] == '+' || word[0] == '-') {
        &word[1..n]
    } else {
        word
    };
    spells_word(body, "inf") || spells_word(body, "infinity") || spells_word(body, "nan")
        || spells_number(body)
}

/// Tells whether `word` reads as a floating-point value.
pub fn parses_as_float(word: &str) -> (found: bool)
    ensures
        found == is_float_text(word@),
{
    let chars = chars_of(word);
    spells_float(chars.as_slice())
}

} // verus!
