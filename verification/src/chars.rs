//! Character classes used by the highlighter.

use vstd::prelude::*;

verus! {

/// What `char::is_alphabetic` answers for a character.
pub uninterp spec fn unicode_alphabetic(c: char) -> bool;

/// What `char::is_alphanumeric` answers for a character.
pub uninterp spec fn unicode_alphanumeric(c: char) -> bool;

/// What `char::is_whitespace` answers for a character.
pub uninterp spec fn unicode_whitespace(c: char) -> bool;

/// The characters `0` to `9`.
pub open spec fn is_ascii_digit(c: char) -> bool {
    '0' <= c <= '9'
}

/// The characters `a` to `z` and `A` to `Z`.
pub open spec fn is_ascii_letter(c: char) -> bool {
    'a' <= c <= 'z' || 'A' <= c <= 'Z'
}

/// Space, and the control characters tab to carriage return.
pub open spec fn is_ascii_space(c: char) -> bool {
    c == ' ' || '\t' <= c <= '\r'
}

/// `char::is_alphabetic` reports whether Unicode counts a character as
/// Alphabetic. The result is given a name; within ASCII it is true of the
/// letters only.
pub assume_specification[ char::is_alphabetic ](c: char) -> (r: bool)
    ensures
        r == unicode_alphabetic(c),
        c <= '\x7f' ==> r == is_ascii_letter(c),
;

/// `char::is_alphanumeric` reports whether a character is alphabetic or
/// numeric. The result is given a name; within ASCII it is true of the
/// letters and digits only.
pub assume_specification[ char::is_alphanumeric ](c: char) -> (r: bool)
    ensures
        r == unicode_alphanumeric(c),
        c <= '\x7f' ==> r == (is_ascii_letter(c) || is_ascii_digit(c)),
;

/// `char::is_whitespace` reports whether Unicode counts a character as
/// White_Space. The result is given a name; within ASCII it is true of the
/// space and of tab to carriage return only.
pub assume_specification[ char::is_whitespace ](c: char) -> (r: bool)
    ensures
        r == unicode_whitespace(c),
        c <= '\x7f' ==> r == is_ascii_space(c),
;

/// Whether a character counts as whitespace.
pub open spec fn is_space(c: char) -> bool {
    if c <= '\x7f' {
        is_ascii_space(c)
    } else {
        unicode_whitespace(c)
    }
}

/// Whether a character may begin a word: a letter, an underscore or an ASCII
/// digit.
pub open spec fn is_word_start(c: char) -> bool {
    if c <= '\x7f' {
        is_ascii_letter(c) || c == '_' || is_ascii_digit(c)
    } else {
        unicode_alphabetic(c)
    }
}

/// Whether a character may continue a word: a letter, a digit or an
/// underscore.
pub open spec fn is_word_char(c: char) -> bool {
    if c <= '\x7f' {
        is_ascii_letter(c) || is_ascii_digit(c) || c == '_'
    } else {
        unicode_alphanumeric(c)
    }
}

/// Tells whether `c` is whitespace.
pub fn char_is_space(c: char) -> (r: bool)
    ensures
        r == is_space(c),
{
    c.is_whitespace()
}

/// Tells whether `c` may begin a word.
pub fn char_is_word_start(c: char) -> (r: bool)
    ensures
        r == is_word_start(c),
{
    c.is_alphabetic() || c == '_' || ('0' <= c && c <= '9')
}

/// Tells whether `c` may continue a word.
pub fn char_is_word_char(c: char) -> (r: bool)
    ensures
        r == is_word_char(c),
{
    c.is_alphanumeric() || c == '_'
}

} // verus!
