//! The highlighter: one line of text cut into styled spans.
//!
//! A line is read from left to right. A comment marker (`//`, `/*` or `#`)
//! takes the rest of the line; a whitespace character stands alone; a word
//! runs as far as letters, digits and underscores go; any other character
//! stands alone. No state is carried from one line to the next.

use crate::chars::{
    char_is_space,
    char_is_word_char,
    char_is_word_start,
    is_space,
    is_word_char,
    is_word_start,
};
use crate::lexicon::{is_keyword_text, is_type_text, spells_keyword, spells_type};
use crate::number::{is_float_text, is_special_text, lemma_float_first, spells_float};
use crate::style::{class_style, Style, TokenClass};
use crate::text::{chars_of, text_of};
use vstd::prelude::*;

verus! {

/// A run of text drawn in one style.
#[derive(Clone, Debug, PartialEq, Eq)]
pub struct Span {
    pub text: String,
    pub style: Style,
}

/// What a span is: its characters and its style.
pub struct SpanView {
    pub text: Seq<char>,
    pub style: Style,
}

impl View for Span {
    type V = SpanView;

    open spec fn view(&self) -> SpanView {
        SpanView { text: self.text@, style: self.style }
    }
}

/// The spans of one line, from left to right.
#[derive(Clone, Debug, PartialEq, Eq)]
pub struct StyledLine {
    pub spans: Vec<Span>,
}

impl View for StyledLine {
    type V = Seq<SpanView>;

    open spec fn view(&self) -> Seq<SpanView> {
        self.spans@.map_values(|span: Span| span@)
    }
}

/// The text that a sequence of spans spells when read in order.
pub open spec fn line_text(spans: Seq<SpanView>) -> Seq<char>
    decreases spans.len(),
{
    if spans.len() == 0 {
        Seq::empty()
    } else {
        spans[0].text + line_text(spans.skip(1))
    }
}

/// Whether a comment begins at `i`: a `#`, or a `/` followed by `/` or `*`.
pub open spec fn starts_comment(line: Seq<char>, i: int) -> bool {
    &&& 0 <= i < line.len()
    &&& line[i] == '#' || (line[i] == '/' && i + 1 < line.len() && (line[i + 1] == '/' || line[i
        + 1] == '*'))
}

/// How many characters from `i` on may continue a word.
pub open spec fn word_run(line: Seq<char>, i: int) -> nat
    decreases line.len() - i,
{
    if 0 <= i < line.len() && is_word_char(line[i]) {
        1 + word_run(line, i + 1)
    } else {
        0
    }
}

/// The class of a word: keyword before type before number, else plain.
pub open spec fn word_class(word: Seq<char>) -> TokenClass {
    if is_keyword_text(word) {
        TokenClass::Keyword
    } else if is_type_text(word) {
        TokenClass::Type
    } else if is_float_text(word) {
        TokenClass::Number
    } else {
        TokenClass::Plain
    }
}

/// The length of the token that begins at `i`.
pub open spec fn token_len(line: Seq<char>, i: int) -> nat
    recommends
        0 <= i < line.len(),
{
    if starts_comment(line, i) {
        (line.len() - i) as nat
    } else if is_space(line[i]) {
        1
    } else if is_word_start(line[i]) {
        1 + word_run(line, i + 1)
    } else {
        1
    }
}

/// The class of the token that begins at `i`.
pub open spec fn token_class(line: Seq<char>, i: int) -> TokenClass
    recommends
        0 <= i < line.len(),
{
    if starts_comment(line, i) {
        TokenClass::Comment
    } else if is_space(line[i]) {
        TokenClass::Space
    } else if is_word_start(line[i]) {
        word_class(line.subrange(i, i + token_len(line, i)))
    } else {
        TokenClass::Plain
    }
}

/// The span of the token that begins at `i`.
pub open spec fn token_at(line: Seq<char>, i: int) -> SpanView
    recommends
        0 <= i < line.len(),
{
    SpanView {
        text: line.subrange(i, i + token_len(line, i)),
        style: class_style(token_class(line, i)),
    }
}

/// The spans of the part of `line` that begins at `i`, where a token begins.
pub open spec fn spans_from(line: Seq<char>, i: int) -> Seq<SpanView>
    decreases line.len() - i,
{
    if 0 <= i < line.len() {
        proof {
            lemma_token_bound(line, i);
        }
        seq![token_at(line, i)] + spans_from(line, i + token_len(line, i))
    } else {
        Seq::empty()
    }
}

/// The spans of a line.
pub open spec fn highlight(line: Seq<char>) -> Seq<SpanView> {
    spans_from(line, 0)
}

/// The span that holds a comment.
pub open spec fn comment_span(text: Seq<char>) -> SpanView {
    SpanView { text, style: class_style(TokenClass::Comment) }
}

/// No word is in two classes at once: no keyword is a type name, and
/// neither reads as a number. The order in which the classes are tried
/// therefore decides nothing.
pub proof fn lemma_word_classes_exclusive(word: Seq<char>)
    ensures
        !(is_keyword_text(word) && is_type_text(word)),
        !(is_keyword_text(word) && is_float_text(word)),
        !(is_type_text(word) && is_float_text(word)),
{
    reveal_strlit("fn");
    reveal_strlit("let");
    reveal_strlit("mut");
    reveal_strlit("const");
    reveal_strlit("struct");
    reveal_strlit("enum");
    reveal_strlit("impl");
    reveal_strlit("trait");
    reveal_strlit("pub");
    reveal_strlit("use");
    reveal_strlit("if");
    reveal_strlit("else");
    reveal_strlit("match");
    reveal_strlit("for");
    reveal_strlit("while");
    reveal_strlit("loop");
    reveal_strlit("return");
    reveal_strlit("break");
    reveal_strlit("continue");
    reveal_strlit("true");
    reveal_strlit("false");
    reveal_strlit("None");
    reveal_strlit("Some");
    reveal_strlit("Ok");
    reveal_strlit("Err");
    reveal_strlit("String");
    reveal_strlit("Vec");
    reveal_strlit("Option");
    reveal_strlit("Result");
    reveal_strlit("i32");
    reveal_strlit("u64");
    reveal_strlit("f64");
    reveal_strlit("bool");
    reveal_strlit("char");
    reveal_strlit("usize");
    reveal_strlit("PathBuf");
    reveal_strlit("inf");
    reveal_strlit("infinity");
    reveal_strlit("nan");
    if is_keyword_text(word) || is_type_text(word) {
        // The listed words are told apart by their length and their first two
        // characters.
        let first = word[0];
        let second = word[1];
        if is_float_text(word) {
            // A listed word begins with a letter, so as a number it would be
            // one of the special words, which begin with `in` or `na`.
            lemma_float_first(word);
            assert(is_special_text(word));
            assert(first == 'i' || first == 'I' || first == 'n' || first == 'N');
            assert(second == 'n' || second == 'N' || second == 'a' || second == 'A');
        }
    }
}

/// The `n`-th span from a token's start on holds at least one character.
proof fn lemma_span_not_empty(line: Seq<char>, i: int, n: int)
    requires
        0 <= i <= line.len(),
        0 <= n < spans_from(line, i).len(),
    ensures
        spans_from(line, i)[n].text.len() >= 1,
    decreases line.len() - i,
{
    if i < line.len() {
        lemma_token_bound(line, i);
        if n > 0 {
            lemma_span_not_empty(line, i + token_len(line, i), n - 1);
        }
    }
}

/// Every span of a line holds at least one character.
pub proof fn lemma_no_empty_span(line: Seq<char>)
    ensures
        forall|n: int|
            0 <= n < highlight(line).len() ==> (#[trigger] highlight(line)[n]).text.len() >= 1,
{
    assert forall|n: int| 0 <= n < highlight(line).len() implies (#[trigger] highlight(
        line,
    )[n]).text.len() >= 1 by {
        lemma_span_not_empty(line, 0, n);
    }
}

/// A run of word characters ends inside the line.
pub proof fn lemma_word_run_bound(line: Seq<char>, i: int)
    requires
        0 <= i <= line.len(),
    ensures
        i + word_run(line, i) <= line.len(),
    decreases line.len() - i,
{
    if i < line.len() && is_word_char(line[i]) {
        lemma_word_run_bound(line, i + 1);
    }
}

/// A token is not empty and ends inside the line.
pub proof fn lemma_token_bound(line: Seq<char>, i: int)
    requires
        0 <= i < line.len(),
    ensures
        1 <= token_len(line, i),
        i + token_len(line, i) <= line.len(),
{
    lemma_word_run_bound(line, i + 1);
}

/// The spans from a token's start on spell the line from there on.
pub proof fn lemma_spans_spell_rest(line: Seq<char>, i: int)
    requires
        0 <= i <= line.len(),
    ensures
        line_text(spans_from(line, i)) == line.skip(i),
    decreases line.len() - i,
{
    if i < line.len() {
        lemma_token_bound(line, i);
        let next = i + token_len(line, i);
        lemma_spans_spell_rest(line, next);
        assert(spans_from(line, i).skip(1) =~= spans_from(line, next));
    }
}

/// Span coverage: the texts of a line's spans, read in order, are the line.
pub proof fn lemma_spans_cover_line(line: Seq<char>)
    ensures
        line_text(highlight(line)) == line,
{
    lemma_spans_spell_rest(line, 0);
}

/// An empty line has no spans.
pub proof fn lemma_empty_line(line: Seq<char>)
    requires
        line.len() == 0,
    ensures
        highlight(line) == Seq::<SpanView>::empty(),
{
}

/// A run of word characters that begins before a character which is none
/// ends at that character at the latest, and is the same run in the line cut
/// off there.
proof fn lemma_word_run_stops(line: Seq<char>, k: int, i: int)
    requires
        0 <= i <= k < line.len(),
        !is_word_char(line[k]),
    ensures
        i + word_run(line, i) <= k,
        word_run(line.take(k), i) == word_run(line, i),
    decreases k - i,
{
    if i < k && is_word_char(line[i]) {
        lemma_word_run_stops(line, k, i + 1);
    }
}

/// Up to the first comment marker, the tokens of a line are those of the
/// text before the marker.
proof fn lemma_spans_before_comment(line: Seq<char>, k: int, i: int)
    requires
        0 <= i <= k,
        starts_comment(line, k),
        forall|j: int| i <= j < k ==> !starts_comment(line, j),
    ensures
        spans_from(line, i) == spans_from(line.take(k), i).push(comment_span(line.skip(k))),
    decreases k - i,
{
    let head = line.take(k);
    if i < k {
        // The token at `i` ends before the marker, and is the same token in
        // the text cut off there.
        lemma_word_run_stops(line, k, i + 1);
        let len = token_len(line, i);
        assert(head.subrange(i, i + len) =~= line.subrange(i, i + len));
        lemma_spans_before_comment(line, k, i + len);
    } else {
        // The comment is the last token.
        assert(spans_from(line, k + token_len(line, k)) =~= Seq::<SpanView>::empty());
    }
}

/// Comment precedence: where a line holds a comment marker, the spans are
/// those of the text before the first marker, and then one span in the
/// comment style that holds the marker and all that follows it, whatever
/// words and numbers stand there.
pub proof fn lemma_comment_runs_to_end(line: Seq<char>, k: int)
    requires
        starts_comment(line, k),
        forall|j: int| 0 <= j < k ==> !starts_comment(line, j),
    ensures
        highlight(line) == highlight(line.take(k)).push(comment_span(line.skip(k))),
        highlight(line).last() == comment_span(line.skip(k)),
{
    lemma_spans_before_comment(line, k, 0);
}

/// Finds the end of the run of word characters that begins at `from`.
fn word_end(chars: &[char], from: usize) -> (end: usize)
    requires
        from <= chars@.len(),
    ensures
        end == from + word_run(chars@, from as int),
        end <= chars@.len(),
{
    let n = chars.len();
    let mut end = from;
    while end < n && char_is_word_char(chars[end])
        invariant
            n == chars@.len(),
            from <= end <= n,
            from + word_run(chars@, from as int) == end + word_run(chars@, end as int),
        decreases n - end,
    {
        end += 1;
    }
    end
}

/// Classifies a word: keyword before type before number, else plain.
pub fn classify_word(word: &[char]) -> (class: TokenClass)
    ensures
        class == word_class(word@),
{
    if spells_keyword(word) {
        TokenClass::Keyword
    } else if spells_type(word) {
        TokenClass::Type
    } else if spells_float(word) {
        TokenClass::Number
    } else {
        TokenClass::Plain
    }
}

/// Tells whether a comment begins at `i`.
fn comment_at(chars: &[char], i: usize) -> (found: bool)
    requires
        i < chars@.len(),
    ensures
        found == starts_comment(chars@, i as int),
{
    let c = chars[i];
    c == '#' || (c == '/' && i + 1 < chars.len() && (chars[i + 1] == '/' || chars[i + 1] == '*'))
}

/// Reads the token that begins at `i`: where it ends, and its class.
fn scan_token(chars: &[char], i: usize) -> (token: (usize, TokenClass))
    requires
        i < chars@.len(),
    ensures
        token.0 == i + token_len(chars@, i as int),
        i < token.0 <= chars@.len(),
        token.1 == token_class(chars@, i as int),
{
    let c = chars[i];
    if comment_at(chars, i) {
        (chars.len(), TokenClass::Comment)
    } else if char_is_space(c) {
        (i + 1, TokenClass::Space)
    } else if char_is_word_start(c) {
        let end = word_end(chars, i + 1);
        (end, classify_word(&chars[i..end]))
    } else {
        (i + 1, TokenClass::Plain)
    }
}

/// Highlights a line given by its characters.
pub fn highlight_chars(chars: &[char]) -> (styled: StyledLine)
    ensures
        styled@ == highlight(chars@),
        line_text(styled@) == chars@,
{
    let n = chars.len();
    let mut spans: Vec<Span> = Vec::new();
    let mut i: usize = 0;
    while i < n
        invariant
            n == chars@.len(),
            i <= n,
            spans@.map_values(|span: Span| span@) + spans_from(chars@, i as int) == highlight(
                chars@,
            ),
        decreases n - i,
    {
        let (end, class) = scan_token(chars, i);
        let span = Span { text: text_of(&chars[i..end]), style: class.style() };
        spans.push(span);
        i = end;
    }
    let styled = StyledLine { spans };
    proof {
        lemma_spans_cover_line(chars@);
    }
    styled
}

/// Highlights one line of text: cuts it into spans that, read in order,
/// spell the line, each in the style of its class.
pub fn highlight_line(line: &str) -> (styled: StyledLine)
    ensures
        styled@ == highlight(line@),
        line_text(styled@) == line@,
{
    let chars = chars_of(line);
    highlight_chars(chars.as_slice())
}

} // verus!
