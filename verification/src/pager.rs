//! The viewport controller: a document, its name, and the state of the
//! viewport, moved on by frames and keys.
//!
//! The caller runs the loop: it asks for a frame and draws it, waits for a
//! key and hands it in, until the pager no longer runs.

use crate::frame::{compose_frame, document_text, frame_of, Frame};
use crate::viewport::{initial_scroll, KeyEvent, ViewportState};
use vstd::prelude::*;

verus! {

/// Why a pager cannot be made.
#[derive(Clone, Copy, Debug, PartialEq, Eq)]
pub enum PagerError {
    /// The document has no lines.
    EmptyDocument,
}

impl PagerError {
    /// What to tell the user.
    pub fn message(&self) -> (text: String)
        ensures
            text@ == "File is empty."@,
    {
        match self {
            PagerError::EmptyDocument => String::from_str("File is empty."),
        }
    }
}

/// A document under view.
#[derive(Clone, Debug, PartialEq, Eq)]
pub struct Pager {
    /// The lines of the document, without line terminators.
    pub document: Vec<String>,
    /// The name shown in the title.
    pub display_name: String,
    /// Where the window stands, and whether the viewer still runs.
    pub state: ViewportState,
}

impl Pager {
    /// A pager holds a document of at least one line.
    pub open spec fn wf(&self) -> bool {
        self.document@.len() >= 1
    }

    /// The number of lines of the document.
    pub open spec fn total(&self) -> int {
        self.document@.len() as int
    }

    /// Makes a pager for `document`, with `start_line` (1-based) at the top.
    /// A document without lines is refused.
    pub fn new(
        document: Vec<String>,
        fixed_height: Option<usize>,
        start_line: Option<usize>,
        display_name: String,
    ) -> (made: Result<Pager, PagerError>)
        ensures
            made is Err <==> document@.len() == 0,
            made matches Err(error) ==> error == PagerError::EmptyDocument,
            made matches Ok(pager) ==> {
                &&& pager.wf()
                &&& pager.document == document
                &&& pager.display_name == display_name
                &&& pager.state.scroll == initial_scroll(start_line)
                &&& pager.state.fixed_height == fixed_height
                &&& pager.state.current_terminal_height == 0
                &&& pager.state.running
            },
    {
        if document.len() == 0 {
            Err(PagerError::EmptyDocument)
        } else {
            let state = ViewportState::new(fixed_height, start_line);
            Ok(Pager { document, display_name, state })
        }
    }

    /// Tells whether the viewer still runs.
    pub fn is_running(&self) -> (running: bool)
        ensures
            running == self.state.running,
    {
        self.state.running
    }

    /// The number of lines of the document.
    pub fn total_lines(&self) -> (total: usize)
        ensures
            total == self.total(),
    {
        self.document.len()
    }

    /// Composes the next frame for a terminal of `terminal_height` rows: the
    /// scroll position is clamped first, so that the window ends inside the
    /// document, and the frame shows the window at that position.
    pub fn render(&mut self, terminal_height: u16) -> (frame: Frame)
        ensures
            final(self).document == old(self).document,
            final(self).display_name == old(self).display_name,
            old(self).wf() ==> final(self).wf(),
            final(self).state == old(self).state.framed(terminal_height, old(self).total()),
            final(self).state.in_bounds(old(self).total()),
            frame@ == frame_of(
                document_text(old(self).document@),
                old(self).display_name@,
                final(self).state.scroll as nat,
                final(self).state.visible() as nat,
            ),
    {
        let visible = self.state.begin_frame(terminal_height, self.document.len());
        compose_frame(&self.document, self.display_name.as_str(), self.state.scroll, visible)
    }

    /// Handles one keyboard event: moves the window, or stops the viewer.
    pub fn handle_key(&mut self, event: KeyEvent)
        ensures
            final(self).document == old(self).document,
            final(self).display_name == old(self).display_name,
            old(self).wf() ==> final(self).wf(),
            final(self).state == old(self).state.keyed(event, old(self).total()),
    {
        self.state.handle_key(event, self.document.len());
    }
}

} // verus!
