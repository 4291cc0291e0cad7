//! The fixed word lists of the highlighter.

use crate::text::{chars_of, same_text};
use vstd::prelude::*;

verus! {

/// The words highlighted as keywords: control flow, declarations, and the
/// literals of `bool`, `Option` and `Result`.
pub open spec fn is_keyword_text(word: Seq<char>) -> bool {
    ||| word == "fn"@
    ||| word == "let"@
    ||| word == "mut"@
    ||| word == "const"@
    ||| word == "struct"@
    ||| word == "enum"@
    ||| word == "impl"@
    ||| word == "trait"@
    ||| word == "pub"@
    ||| word == "use"@
    ||| word == "if"@
    ||| word == "else"@
    ||| word == "match"@
    ||| word == "for"@
    ||| word == "while"@
    ||| word == "loop"@
    ||| word == "return"@
    ||| word == "break"@
    ||| word == "continue"@
    ||| word == "true"@
    ||| word == "false"@
    ||| word == "None"@
    ||| word == "Some"@
    ||| word == "Ok"@
    ||| word == "Err"@
}

/// The words highlighted as names of built-in types.
pub open spec fn is_type_text(word: Seq<char>) -> bool {
    ||| word == "String"@
    ||| word == "Vec"@
    ||| word == "Option"@
    ||| word == "Result"@
    ||| word == "i32"@
    ||| word == "u64"@
    ||| word == "f64"@
    ||| word == "bool"@
    ||| word == "char"@
    ||| word == "usize"@
    ||| word == "PathBuf"@
}

/// Tells whether the characters `word` spell a keyword.
pub fn spells_keyword(word: &[char]) -> (found: bool)
    ensures
        found == is_keyword_text(word@),
{
    same_text(word, "fn") || same_text(word, "let") || same_text(word, "mut") || same_text(
        word,
        "const",
    ) || same_text(word, "struct") || same_text(word, "enum") || same_text(word, "impl")
        || same_text(word, "trait") || same_text(word, "pub") || same_text(word, "use")
        || same_text(word, "if") || same_text(word, "else") || same_text(word, "match")
        || same_text(word, "for") || same_text(word, "while") || same_text(word, "loop")
        || same_text(word, "return") || same_text(word, "break") || same_text(word, "continue")
        || same_text(word, "true") || same_text(word, "false") || same_text(word, "None")
        || same_text(word, "Some") || same_text(word, "Ok") || same_text(word, "Err")
}

/// Tells whether the characters `word` spell the name of a built-in type.
pub fn spells_type(word: &[char]) -> (found: bool)
    ensures
        found == is_type_text(word@),
{
    same_text(word, "String") || same_text(word, "Vec") || same_text(word, "Option")
        || same_text(word, "Result") || same_text(word, "i32") || same_text(word, "u64")
        || same_text(word, "f64") || same_text(word, "bool") || same_text(word, "char")
        || same_text(word, "usize") || same_text(word, "PathBuf")
}

/// Tells whether `word` is a keyword.
pub fn is_keyword(word: &str) -> (found: bool)
    ensures
        found == is_keyword_text(word@),
{
    let chars = chars_of(word);
    spells_keyword(chars.as_slice())
}

/// Tells whether `word` is the name of a built-in type.
pub fn is_type(word: &str) -> (found: bool)
    ensures
        found == is_type_text(word@),
{
    let chars = chars_of(word);
    spells_type(chars.as_slice())
}

/// Tells whether `c` opens or closes a string or character literal.
pub fn is_string_delim(c: char) -> (found: bool)
    ensures
        found == (c == '"' || c == '\''),
{
    c == '"' || c == '\''
}

} // verus!
