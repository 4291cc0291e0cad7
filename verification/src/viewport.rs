//! The scroll state of the viewport: how many lines fit, where the window
//! may stand, and what each key does to it.

use vstd::prelude::*;

verus! {

/// Rows left for document lines in a terminal of `terminal_height` rows, two
/// of which are taken by the border and the status line.
pub open spec fn available_height(terminal_height: int) -> int {
    if terminal_height >= 2 {
        terminal_height - 2
    } else {
        0
    }
}

/// Lines shown by a frame: the fixed height if one is set, but never more
/// than the terminal has room for.
pub open spec fn visible_lines(fixed_height: Option<usize>, terminal_height: int) -> int {
    let available = available_height(terminal_height);
    match fixed_height {
        Some(height) => if height <= available {
            height as int
        } else {
            available
        },
        None => available,
    }
}

/// Lines that a page key moves by: the fixed height if one is set, else the
/// room the terminal has.
pub open spec fn page_lines(fixed_height: Option<usize>, terminal_height: int) -> int {
    match fixed_height {
        Some(height) => height as int,
        None => available_height(terminal_height),
    }
}

/// The largest scroll position at which a window of `visible` lines still
/// ends inside a document of `total` lines.
pub open spec fn max_scroll(total: int, visible: int) -> int {
    if total > visible {
        total - visible
    } else {
        0
    }
}

/// The scroll position after clamping: unchanged if the window fits below
/// it, else the largest position that does.
pub open spec fn clamped_scroll(scroll: int, total: int, visible: int) -> int {
    if scroll <= max_scroll(total, visible) {
        scroll
    } else {
        max_scroll(total, visible)
    }
}

/// Index of the last line of a document of `total` lines, 0 for an empty one.
pub open spec fn last_line(total: int) -> int {
    if total > 0 {
        total - 1
    } else {
        0
    }
}

/// The scroll position that puts the 1-based `start_line` at the top; line 1
/// where none is given, or 0 is.
pub open spec fn initial_scroll(start_line: Option<usize>) -> int {
    match start_line {
        Some(line) => if line >= 1 {
            line - 1
        } else {
            0
        },
        None => 0,
    }
}

/// A key of the keyboard, as far as the viewer tells keys apart.
#[derive(Clone, Copy, Debug, PartialEq, Eq)]
pub enum Key {
    Char(char),
    Esc,
    Up,
    Down,
    PageUp,
    PageDown,
    Other,
}

/// Whether a key went down, is held, or came up.
#[derive(Clone, Copy, Debug, PartialEq, Eq)]
pub enum KeyKind {
    Press,
    Repeat,
    Release,
}

/// One keyboard event.
#[derive(Clone, Copy, Debug, PartialEq, Eq)]
pub struct KeyEvent {
    pub key: Key,
    pub kind: KeyKind,
}

/// What a keyboard event asks of the viewer.
#[derive(Clone, Copy, Debug, PartialEq, Eq)]
pub enum Action {
    Quit,
    LineDown,
    LineUp,
    PageDown,
    PageUp,
    Top,
    Bottom,
    Nothing,
}

/// The key bindings: only presses count, and keys without a binding do
/// nothing.
pub open spec fn bound_action(event: KeyEvent) -> Action {
    if event.kind != KeyKind::Press {
        Action::Nothing
    } else {
        match event.key {
            Key::Char(c) => if c == 'q' {
                Action::Quit
            } else if c == 'j' {
                Action::LineDown
            } else if c == 'k' {
                Action::LineUp
            } else if c == 'g' {
                Action::Top
            } else if c == 'G' {
                Action::Bottom
            } else {
                Action::Nothing
            },
            Key::Esc => Action::Quit,
            Key::Down => Action::LineDown,
            Key::Up => Action::LineUp,
            Key::PageDown => Action::PageDown,
            Key::PageUp => Action::PageUp,
            Key::Other => Action::Nothing,
        }
    }
}

/// Where `action` moves a window that stands at `scroll`, in a document of
/// `total` lines and with pages of `page` lines.
pub open spec fn scroll_after(action: Action, scroll: int, total: int, page: int) -> int {
    match action {
        Action::LineDown => if total <= 0 {
            scroll
        } else if scroll + 1 <= total - 1 {
            scroll + 1
        } else {
            total - 1
        },
        Action::LineUp => if scroll >= 1 {
            scroll - 1
        } else {
            0
        },
        Action::PageDown => if scroll + page <= last_line(total) {
            scroll + page
        } else {
            last_line(total)
        },
        Action::PageUp => if scroll >= page {
            scroll - page
        } else {
            0
        },
        Action::Top => 0,
        Action::Bottom => max_scroll(total, page),
        Action::Quit | Action::Nothing => scroll,
    }
}

/// The state of the viewport between frames.
#[derive(Clone, Copy, Debug, PartialEq, Eq)]
pub struct ViewportState {
    /// 0-based index of the first visible line.
    pub scroll: usize,
    /// The number of lines to show, if the user fixed one.
    pub fixed_height: Option<usize>,
    /// Height of the terminal when the last frame was composed.
    pub current_terminal_height: u16,
    /// False once the user has asked to quit.
    pub running: bool,
}

impl ViewportState {
    /// Lines that a frame shows in this state.
    pub open spec fn visible(self) -> int {
        visible_lines(self.fixed_height, self.current_terminal_height as int)
    }

    /// Lines that a page key moves by in this state.
    pub open spec fn page(self) -> int {
        page_lines(self.fixed_height, self.current_terminal_height as int)
    }

    /// Whether the window stands where a frame may show it: the invariant
    /// that every frame establishes.
    pub open spec fn in_bounds(self, total: int) -> bool {
        self.scroll <= max_scroll(total, self.visible())
    }

    /// The state in which a frame is composed, for a terminal of
    /// `terminal_height` rows and a document of `total` lines.
    pub open spec fn framed(self, terminal_height: u16, total: int) -> ViewportState {
        ViewportState {
            scroll: clamped_scroll(
                self.scroll as int,
                total,
                visible_lines(self.fixed_height, terminal_height as int),
            ) as usize,
            fixed_height: self.fixed_height,
            current_terminal_height: terminal_height,
            running: self.running,
        }
    }

    /// The state after `action`, in a document of `total` lines.
    pub open spec fn acted(self, action: Action, total: int) -> ViewportState {
        ViewportState {
            scroll: scroll_after(action, self.scroll as int, total, self.page()) as usize,
            fixed_height: self.fixed_height,
            current_terminal_height: self.current_terminal_height,
            running: self.running && action != Action::Quit,
        }
    }

    /// The state after a keyboard event, in a document of `total` lines.
    pub open spec fn keyed(self, event: KeyEvent, total: int) -> ViewportState {
        self.acted(bound_action(event), total)
    }

    /// The state in which the viewer starts: running, with `start_line`
    /// (1-based) at the top and no terminal seen yet.
    pub fn new(fixed_height: Option<usize>, start_line: Option<usize>) -> (state: ViewportState)
        ensures
            state.scroll == initial_scroll(start_line),
            state.fixed_height == fixed_height,
            state.current_terminal_height == 0,
            state.running,
    {
        ViewportState {
            scroll: first_scroll(start_line),
            fixed_height,
            current_terminal_height: 0,
            running: true,
        }
    }

    /// The number of lines that a frame shows in this state.
    pub fn visible_rows(&self) -> (rows: usize)
        ensures
            rows == self.visible(),
    {
        visible_rows(self.fixed_height, self.current_terminal_height)
    }

    /// The number of lines that a page key moves by in this state.
    pub fn page_rows(&self) -> (rows: usize)
        ensures
            rows == self.page(),
    {
        page_rows(self.fixed_height, self.current_terminal_height)
    }

    /// Takes note of the terminal's height and clamps the scroll position for
    /// a document of `total_lines` lines. Returns the number of lines that
    /// the frame shows.
    pub fn begin_frame(&mut self, terminal_height: u16, total_lines: usize) -> (visible: usize)
        ensures
            *final(self) == old(self).framed(terminal_height, total_lines as int),
            visible == final(self).visible(),
            final(self).in_bounds(total_lines as int),
    {
        let visible = visible_rows(self.fixed_height, terminal_height);
        self.scroll = clamp_scroll(self.scroll, total_lines, visible);
        self.current_terminal_height = terminal_height;
        visible
    }

    /// Carries out `action` in a document of `total_lines` lines.
    pub fn apply(&mut self, action: Action, total_lines: usize)
        ensures
            *final(self) == old(self).acted(action, total_lines as int),
    {
        let page = page_rows(self.fixed_height, self.current_terminal_height);
        self.scroll = scroll_to(action, self.scroll, total_lines, page);
        match action {
            Action::Quit => {
                self.running = false;
            },
            _ => {},
        }
    }

    /// Handles one keyboard event in a document of `total_lines` lines.
    pub fn handle_key(&mut self, event: KeyEvent, total_lines: usize)
        ensures
            *final(self) == old(self).keyed(event, total_lines as int),
    {
        self.apply(action_for(event), total_lines);
    }
}

/// The scroll position that puts the 1-based `start_line` at the top.
pub fn first_scroll(start_line: Option<usize>) -> (scroll: usize)
    ensures
        scroll == initial_scroll(start_line),
{
    match start_line {
        Some(line) => line.saturating_sub(1),
        None => 0,
    }
}

/// Rows left for document lines in a terminal of `terminal_height` rows.
pub fn available_rows(terminal_height: u16) -> (rows: usize)
    ensures
        rows == available_height(terminal_height as int),
{
    terminal_height.saturating_sub(2) as usize
}

/// Lines shown by a frame in a terminal of `terminal_height` rows.
pub fn visible_rows(fixed_height: Option<usize>, terminal_height: u16) -> (rows: usize)
    ensures
        rows == visible_lines(fixed_height, terminal_height as int),
{
    let available = available_rows(terminal_height);
    match fixed_height {
        Some(height) => if height <= available {
            height
        } else {
            available
        },
        None => available,
    }
}

/// Lines that a page key moves by in a terminal of `terminal_height` rows.
pub fn page_rows(fixed_height: Option<usize>, terminal_height: u16) -> (rows: usize)
    ensures
        rows == page_lines(fixed_height, terminal_height as int),
{
    match fixed_height {
        Some(height) => height,
        None => available_rows(terminal_height),
    }
}

/// Clamps `scroll` so that a window of `visible` lines ends inside a
/// document of `total` lines: 0 where the whole document fits.
pub fn clamp_scroll(scroll: usize, total: usize, visible: usize) -> (clamped: usize)
    ensures
        clamped == clamped_scroll(scroll as int, total as int, visible as int),
        clamped <= scroll,
        clamped <= max_scroll(total as int, visible as int),
        total <= visible ==> clamped == 0,
{
    if total <= visible {
        0
    } else if scroll <= total - visible {
        scroll
    } else {
        total - visible
    }
}

/// Looks a keyboard event up in the key bindings.
pub fn action_for(event: KeyEvent) -> (action: Action)
    ensures
        action == bound_action(event),
{
    match event.kind {
        KeyKind::Press => match event.key {
            Key::Char('q') | Key::Esc => Action::Quit,
            Key::Char('j') | Key::Down => Action::LineDown,
            Key::Char('k') | Key::Up => Action::LineUp,
            Key::PageDown => Action::PageDown,
            Key::PageUp => Action::PageUp,
            Key::Char('g') => Action::Top,
            Key::Char('G') => Action::Bottom,
            _ => Action::Nothing,
        },
        _ => Action::Nothing,
    }
}

/// Moves a window that stands at `scroll` as `action` asks, in a document of
/// `total` lines and with pages of `page` lines.
pub fn scroll_to(action: Action, scroll: usize, total: usize, page: usize) -> (moved: usize)
    ensures
        moved == scroll_after(action, scroll as int, total as int, page as int),
{
    match action {
        Action::LineDown => if total == 0 {
            scroll
        } else if scroll < total - 1 {
            scroll + 1
        } else {
            total - 1
        },
        Action::LineUp => scroll.saturating_sub(1),
        Action::PageDown => {
            let last = total.saturating_sub(1);
            if scroll <= last && page <= last - scroll {
                scroll + page
            } else {
                last
            }
        },
        Action::PageUp => scroll.saturating_sub(page),
        Action::Top => 0,
        Action::Bottom => total.saturating_sub(page),
        Action::Quit | Action::Nothing => scroll,
    }
}

/// Clamping is idempotent: a second clamp against the same document and
/// window changes nothing.
pub proof fn lemma_clamp_idempotent(scroll: nat, total: nat, visible: nat)
    ensures
        clamped_scroll(
            clamped_scroll(scroll as int, total as int, visible as int),
            total as int,
            visible as int,
        ) == clamped_scroll(scroll as int, total as int, visible as int),
{
}

/// Composing a second frame for the same terminal and document leaves the
/// state of the first.
pub proof fn lemma_frame_idempotent(state: ViewportState, terminal_height: u16, total: usize)
    ensures
        state.framed(terminal_height, total as int).framed(terminal_height, total as int)
            == state.framed(terminal_height, total as int),
        state.framed(terminal_height, total as int).in_bounds(total as int),
{
}

/// A document that fits in the window is shown from its first line, wherever
/// the window stood before.
pub proof fn lemma_clamp_whole_document(scroll: nat, total: nat, visible: nat)
    requires
        total <= visible,
    ensures
        clamped_scroll(scroll as int, total as int, visible as int) == 0,
{
}

/// After a clamp the window starts at a line of the document, or at 0, and
/// ends inside the document wherever the document is longer than the window.
pub proof fn lemma_clamp_in_range(scroll: nat, total: nat, visible: nat)
    ensures
        0 <= clamped_scroll(scroll as int, total as int, visible as int) <= max_scroll(
            total as int,
            visible as int,
        ),
        total > visible ==> clamped_scroll(scroll as int, total as int, visible as int) + visible
            <= total,
{
}

/// `g` moves the window to the first line, `G` to the last page, and either
/// key pressed twice does what it does pressed once.
pub proof fn lemma_jumps(state: ViewportState, total: usize)
    ensures
        ({
            let top = KeyEvent { key: Key::Char('g'), kind: KeyKind::Press };
            &&& state.keyed(top, total as int).scroll == 0
            &&& state.keyed(top, total as int).keyed(top, total as int) == state.keyed(
                top,
                total as int,
            )
        }),
        ({
            let bottom = KeyEvent { key: Key::Char('G'), kind: KeyKind::Press };
            &&& state.keyed(bottom, total as int).scroll == max_scroll(total as int, state.page())
            &&& state.keyed(bottom, total as int).keyed(bottom, total as int) == state.keyed(
                bottom,
                total as int,
            )
        }),
{
}

/// `j` and the down arrow move the window down by at most one line and never
/// past the last line of the document; in an empty document they do nothing.
pub proof fn lemma_line_down_bounds(state: ViewportState, key: Key, total: usize)
    requires
        key == Key::Char('j') || key == Key::Down,
    ensures
        ({
            let next = state.keyed(KeyEvent { key, kind: KeyKind::Press }, total as int);
            &&& next.scroll <= state.scroll + 1
            &&& total > 0 ==> next.scroll <= total - 1
            &&& total > 0 && state.scroll < total - 1 ==> next.scroll == state.scroll + 1
            &&& total == 0 ==> next.scroll == state.scroll
        }),
{
}

/// `k` and the up arrow move the window up by one line, and leave it at the
/// first line once it is there.
pub proof fn lemma_line_up_bounds(state: ViewportState, key: Key, total: usize)
    requires
        key == Key::Char('k') || key == Key::Up,
    ensures
        ({
            let next = state.keyed(KeyEvent { key, kind: KeyKind::Press }, total as int);
            &&& 0 <= next.scroll <= state.scroll
            &&& state.scroll > 0 ==> next.scroll == state.scroll - 1
            &&& state.scroll == 0 ==> next.scroll == 0
        }),
{
}

/// Keys that are not pressed, and keys without a binding, leave the state as
/// it is; only `q` and Escape stop the viewer, and they leave the window
/// where it stands.
pub proof fn lemma_unbound_keys_and_quit(state: ViewportState, event: KeyEvent, total: usize)
    ensures
        event.kind != KeyKind::Press ==> state.keyed(event, total as int) == state,
        bound_action(event) == Action::Nothing ==> state.keyed(event, total as int) == state,
        state.keyed(event, total as int).running == (state.running && bound_action(event)
            != Action::Quit),
        bound_action(event) == Action::Quit <==> event.kind == KeyKind::Press && (event.key
            == Key::Char('q') || event.key == Key::Esc),
        bound_action(event) == Action::Quit ==> state.keyed(event, total as int).scroll
            == state.scroll,
{
}

} // verus!
