//! A read-only file pager for the terminal: a line highlighter and the
//! scroll state of a viewport, with the rules of both stated as contracts.
//!
//! - [`highlight`] cuts one line of text into styled spans; [`chars`],
//!   [`lexicon`] and [`number`] tell it what a word is and which words are
//!   keywords, type names and numbers, and [`style`] how each is drawn.
//! - [`viewport`] holds the scroll position: how it is clamped for a frame
//!   and what each key does to it.
//! - [`frame`] and [`status`] compose what one frame shows.
//! - [`pager`] ties a document to its viewport; the caller draws the frames
//!   it composes and hands it the keys it reads.

pub mod chars;
pub mod frame;
pub mod highlight;
pub mod lexicon;
pub mod number;
pub mod pager;
pub mod status;
pub mod style;
pub mod text;
pub mod viewport;
