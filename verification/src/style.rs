//! The styles that the highlighter gives to the parts of a line.

use vstd::prelude::*;

verus! {

/// A colour, by its red, green and blue parts.
#[derive(Clone, Copy, Debug, PartialEq, Eq)]
pub struct Color {
    pub r: u8,
    pub g: u8,
    pub b: u8,
}

/// How a span of text is drawn. Without a foreground colour the span takes
/// the colour of what surrounds it.
#[derive(Clone, Copy, Debug, PartialEq, Eq)]
pub struct Style {
    pub foreground: Option<Color>,
    pub bold: bool,
    pub italic: bool,
}

/// What the highlighter takes a span of text for.
#[derive(Clone, Copy, Debug, PartialEq, Eq)]
pub enum TokenClass {
    /// From a comment marker to the end of the line.
    Comment,
    /// One whitespace character.
    Space,
    /// A word of the keyword list.
    Keyword,
    /// A word of the type list.
    Type,
    /// A word that reads as a number.
    Number,
    /// Any other word, and any other single character.
    Plain,
}

/// The colour of each class of token; whitespace has none.
pub open spec fn class_color(class: TokenClass) -> Option<Color> {
    match class {
        TokenClass::Comment => Some(Color { r: 98, g: 114, b: 164 }),
        TokenClass::Space => None,
        TokenClass::Keyword => Some(Color { r: 189, g: 147, b: 249 }),
        TokenClass::Type => Some(Color { r: 139, g: 233, b: 253 }),
        TokenClass::Number => Some(Color { r: 255, g: 184, b: 108 }),
        TokenClass::Plain => Some(Color { r: 248, g: 248, b: 242 }),
    }
}

/// The style of each class of token: its colour, bold for keywords and
/// italic for comments.
pub open spec fn class_style(class: TokenClass) -> Style {
    Style {
        foreground: class_color(class),
        bold: class == TokenClass::Keyword,
        italic: class == TokenClass::Comment,
    }
}

impl TokenClass {
    /// The colour in which tokens of this class are drawn.
    pub fn color(self) -> (color: Option<Color>)
        ensures
            color == class_color(self),
    {
        match self {
            TokenClass::Comment => Some(Color { r: 98, g: 114, b: 164 }),
            TokenClass::Space => None,
            TokenClass::Keyword => Some(Color { r: 189, g: 147, b: 249 }),
            TokenClass::Type => Some(Color { r: 139, g: 233, b: 253 }),
            TokenClass::Number => Some(Color { r: 255, g: 184, b: 108 }),
            TokenClass::Plain => Some(Color { r: 248, g: 248, b: 242 }),
        }
    }

    /// The style in which tokens of this class are drawn.
    pub fn style(self) -> (style: Style)
        ensures
            style == class_style(self),
    {
        let bold = match self {
            TokenClass::Keyword => true,
            _ => false,
        };
        let italic = match self {
            TokenClass::Comment => true,
            _ => false,
        };
        Style { foreground: self.color(), bold, italic }
    }
}

} // verus!
