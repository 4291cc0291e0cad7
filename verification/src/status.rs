//! The texts around the content: the frame's title and the status line.

use vstd::prelude::*;

verus! {

/// The keys that the viewer answers to, as the status line lists them.
pub const KEY_LEGEND: &'static str =
    "↑↓/j k: line | PgUp/PgDn: page | g/G: top/bottom | q: quit";

/// The character of the digit `d`.
pub open spec fn digit_char(d: int) -> char
    recommends
        0 <= d < 10,
{
    ('0' as int + d) as char
}

/// The decimal numeral of `n`, without leading zeros.
pub open spec fn decimal(n: nat) -> Seq<char>
    decreases n,
{
    if n < 10 {
        seq![digit_char(n as int)]
    } else {
        decimal(n / 10).push(digit_char((n % 10) as int))
    }
}

/// The 1-based number of the last line that a window of `visible` lines at
/// `scroll` shows of a document of `total` lines.
pub open spec fn last_shown(scroll: nat, visible: nat, total: nat) -> nat {
    if scroll + visible <= total {
        scroll + visible
    } else {
        total
    }
}

/// The status line: the 1-based numbers of the first and the last line
/// shown, the number of lines, and the key legend.
pub open spec fn status_text(scroll: nat, visible: nat, total: nat) -> Seq<char> {
    "Line "@ + decimal(scroll + 1) + "-"@ + decimal(last_shown(scroll, visible, total)) + " of "@
        + decimal(total) + " | "@ + KEY_LEGEND@
}

/// The frame's title: the name between two spaces.
pub open spec fn title_text(name: Seq<char>) -> Seq<char> {
    " "@ + name + " "@
}

/// Appends the decimal numeral of `n` to `out`.
pub fn push_decimal(out: &mut String, n: u128)
    ensures
        final(out)@ == old(out)@ + decimal(n as nat),
    decreases n,
{
    if n >= 10 {
        push_decimal(out, n / 10);
    }
    let digit: u8 = (n % 10) as u8;
    out.push((48u8 + digit) as char);
}

/// The decimal numeral of `n`.
pub fn decimal_string(n: u128) -> (text: String)
    ensures
        text@ == decimal(n as nat),
{
    let mut text = String::new();
    push_decimal(&mut text, n);
    text
}

/// Composes the status line for a window of `visible` lines at `scroll` in a
/// document of `total` lines.
pub fn status_line(scroll: usize, visible: usize, total: usize) -> (text: String)
    ensures
        text@ == status_text(scroll as nat, visible as nat, total as nat),
{
    let first: u128 = scroll as u128 + 1;
    let end: u128 = scroll as u128 + visible as u128;
    let last: u128 = if end <= total as u128 {
        end
    } else {
        total as u128
    };
    let mut text = String::from_str("Line ");
    push_decimal(&mut text, first);
    text.append("-");
    push_decimal(&mut text, last);
    text.append(" of ");
    push_decimal(&mut text, total as u128);
    text.append(" | ");
    text.append(KEY_LEGEND);
    text
}

/// Composes the frame's title from the name to display.
pub fn title_line(name: &str) -> (text: String)
    ensures
        text@ == title_text(name@),
{
    let mut text = String::from_str(" ");
    text.append(name);
    text.append(" ");
    text
}

} // verus!
