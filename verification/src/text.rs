//! Moving between strings and their characters.

use vstd::prelude::*;

verus! {

/// `String::push` appends one character to the end of the string.
pub assume_specification[ String::push ](s: &mut String, c: char)
    ensures
        final(s)@ == old(s)@.push(c),
;

/// The characters of `s`, in order.
pub fn chars_of(s: &str) -> (chars: Vec<char>)
    ensures
        chars@ == s@,
{
    let mut chars: Vec<char> = Vec::new();
    for c in it: s.chars()
        invariant
            chars@ == it.history(),
            it.seq() == s@,
    {
        chars.push(c);
    }
    chars
}

/// Appends `chars` to the end of `out`.
pub fn push_chars(out: &mut String, chars: &[char])
    ensures
        final(out)@ == old(out)@ + chars@,
{
    let n = chars.len();
    let mut i: usize = 0;
    while i < n
        invariant
            n == chars@.len(),
            i <= n,
            out@ == old(out)@ + chars@.take(i as int),
        decreases n - i,
    {
        out.push(chars[i]);
        i += 1;
    }
}

/// The string made of `chars`.
pub fn text_of(chars: &[char]) -> (text: String)
    ensures
        text@ == chars@,
{
    let mut text = String::new();
    push_chars(&mut text, chars);
    text
}

/// Tells whether `word` spells `literal`.
pub fn same_text(word: &[char], literal: &str) -> (same: bool)
    ensures
        same == (word@ == literal@),
{
    let n = literal.unicode_len();
    if word.len() != n {
        return false;
    }
    let mut i: usize = 0;
    while i < n
        invariant
            n == literal@.len(),
            word@.len() == n,
            i <= n,
            forall|j: int| 0 <= j < i ==> word@[j] == literal@[j],
        decreases n - i,
    {
        if word[i] != literal.get_char(i) {
            return false;
        }
        i += 1;
    }
    assert(word@ =~= literal@);
    true
}

} // verus!
