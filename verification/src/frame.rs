//! What one frame shows: the title, the highlighted lines of the window, the
//! status line and the scrollbar.

use crate::highlight::{highlight, highlight_line, SpanView, StyledLine};
use crate::status::{status_line, status_text, title_line, title_text};
use crate::viewport::max_scroll;
use vstd::prelude::*;

verus! {

/// The scrollbar beside the content: how far the window can move, and where
/// it stands.
#[derive(Clone, Copy, Debug, PartialEq, Eq)]
pub struct Scrollbar {
    pub track_length: usize,
    pub position: usize,
}

/// One frame, ready to be drawn.
#[derive(Clone, Debug, PartialEq, Eq)]
pub struct Frame {
    /// The title of the border.
    pub title: String,
    /// The lines of the window, highlighted, from top to bottom.
    pub lines: Vec<StyledLine>,
    /// The status line below the content.
    pub status: String,
    /// The scrollbar at the right of the content.
    pub scrollbar: Scrollbar,
}

/// What a frame is.
pub struct FrameView {
    pub title: Seq<char>,
    pub lines: Seq<Seq<SpanView>>,
    pub status: Seq<char>,
    pub scrollbar: Scrollbar,
}

impl View for Frame {
    type V = FrameView;

    open spec fn view(&self) -> FrameView {
        FrameView {
            title: self.title@,
            lines: self.lines@.map_values(|line: StyledLine| line@),
            status: self.status@,
            scrollbar: self.scrollbar,
        }
    }
}

/// The lines of a document as texts.
pub open spec fn document_text(document: Seq<String>) -> Seq<Seq<char>> {
    document.map_values(|line: String| line@)
}

/// Index of the first line of the window, which is the end of the document
/// where `scroll` lies behind it.
pub open spec fn window_start(total: int, scroll: int) -> int {
    if scroll <= total {
        scroll
    } else {
        total
    }
}

/// Index behind the last line of the window: `visible` lines from `scroll`
/// on, or fewer where the document ends before.
pub open spec fn window_end(total: int, scroll: int, visible: int) -> int {
    if scroll + visible <= total {
        scroll + visible
    } else {
        total
    }
}

/// The lines of the document that the window shows.
pub open spec fn window(document: Seq<Seq<char>>, scroll: nat, visible: nat) -> Seq<Seq<char>> {
    document.subrange(
        window_start(document.len() as int, scroll as int),
        window_end(document.len() as int, scroll as int, visible as int),
    )
}

/// The frame that shows `visible` lines of `document` from `scroll` on,
/// under the title of `name`.
pub open spec fn frame_of(
    document: Seq<Seq<char>>,
    name: Seq<char>,
    scroll: nat,
    visible: nat,
) -> FrameView {
    FrameView {
        title: title_text(name),
        lines: window(document, scroll, visible).map_values(|line: Seq<char>| highlight(line)),
        status: status_text(scroll, visible, document.len()),
        scrollbar: Scrollbar {
            track_length: max_scroll(document.len() as int, visible as int) as usize,
            position: scroll as usize,
        },
    }
}

/// Highlights the lines of `document` that a window of `visible` lines at
/// `scroll` shows.
pub fn highlight_window(document: &Vec<String>, scroll: usize, visible: usize) -> (lines: Vec<
    StyledLine,
>)
    ensures
        lines@.map_values(|line: StyledLine| line@) == window(
            document_text(document@),
            scroll as nat,
            visible as nat,
        ).map_values(|line: Seq<char>| highlight(line)),
{
    let total = document.len();
    let start = if scroll <= total {
        scroll
    } else {
        total
    };
    let end = if visible <= total - start {
        start + visible
    } else {
        total
    };
    let ghost shown = window(document_text(document@), scroll as nat, visible as nat);
    let mut lines: Vec<StyledLine> = Vec::new();
    let mut i = start;
    while i < end
        invariant
            start <= i <= end <= total,
            total == document@.len(),
            shown == document_text(document@).subrange(start as int, end as int),
            lines@.len() == i - start,
            forall|j: int| 0 <= j < i - start ==> (#[trigger] lines@[j])@ == highlight(shown[j]),
        decreases end - i,
    {
        let line = highlight_line(document[i].as_str());
        lines.push(line);
        i += 1;
    }
    lines
}

/// Composes the frame that shows `visible` lines of `document` from `scroll`
/// on, under the title of `name`.
pub fn compose_frame(document: &Vec<String>, name: &str, scroll: usize, visible: usize) -> (frame:
    Frame)
    ensures
        frame@ == frame_of(document_text(document@), name@, scroll as nat, visible as nat),
{
    let total = document.len();
    Frame {
        title: title_line(name),
        lines: highlight_window(document, scroll, visible),
        status: status_line(scroll, visible, total),
        scrollbar: Scrollbar { track_length: total.saturating_sub(visible), position: scroll },
    }
}

/// After a clamp the window shows `visible` lines where the document has as
/// many, and the whole document where it has fewer.
pub proof fn lemma_window_after_clamp(document: Seq<Seq<char>>, scroll: nat, visible: nat)
    requires
        scroll <= max_scroll(document.len() as int, visible as int),
    ensures
        window(document, scroll, visible).len() == if document.len() >= visible {
            visible
        } else {
            document.len()
        },
        forall|j: int|
            0 <= j < window(document, scroll, visible).len() ==> window(
                document,
                scroll,
                visible,
            )[j] == document[scroll + j],
{
}

} // verus!
