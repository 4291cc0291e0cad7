use filepeek::viewport::{
    action_for, available_rows, clamp_scroll, first_scroll, page_rows, scroll_to, visible_rows,
    Action, Key, KeyEvent, KeyKind, ViewportState,
};

fn press(key: Key) -> KeyEvent {
    KeyEvent { key, kind: KeyKind::Press }
}

fn state(scroll: usize, fixed_height: Option<usize>, height: u16) -> ViewportState {
    ViewportState { scroll, fixed_height, current_terminal_height: height, running: true }
}

#[test]
fn start_line_is_one_based() {
    assert_eq!(first_scroll(None), 0);
    assert_eq!(first_scroll(Some(0)), 0);
    assert_eq!(first_scroll(Some(1)), 0);
    assert_eq!(first_scroll(Some(2)), 1);
    assert_eq!(first_scroll(Some(50)), 49);
    assert_eq!(first_scroll(Some(usize::MAX)), usize::MAX - 1);
}

#[test]
fn new_state_runs_from_the_start_line() {
    let made = ViewportState::new(Some(10), Some(50));
    assert_eq!(
        made,
        ViewportState {
            scroll: 49,
            fixed_height: Some(10),
            current_terminal_height: 0,
            running: true
        }
    );
    assert_eq!(ViewportState::new(None, None).scroll, 0);
    assert_eq!(ViewportState::new(None, None).fixed_height, None);
}

#[test]
fn two_rows_are_reserved() {
    assert_eq!(available_rows(0), 0);
    assert_eq!(available_rows(1), 0);
    assert_eq!(available_rows(2), 0);
    assert_eq!(available_rows(3), 1);
    assert_eq!(available_rows(24), 22);
    assert_eq!(available_rows(u16::MAX), 65533);
}

#[test]
fn visible_rows_never_exceed_the_room() {
    assert_eq!(visible_rows(None, 24), 22);
    assert_eq!(visible_rows(Some(10), 24), 10);
    assert_eq!(visible_rows(Some(22), 24), 22);
    assert_eq!(visible_rows(Some(70), 24), 22);
    assert_eq!(visible_rows(Some(0), 24), 0);
    assert_eq!(visible_rows(Some(10), 1), 0);
    assert_eq!(visible_rows(None, 0), 0);
}

#[test]
fn page_rows_are_the_fixed_height_if_set() {
    assert_eq!(page_rows(None, 24), 22);
    assert_eq!(page_rows(Some(10), 24), 10);
    assert_eq!(page_rows(Some(70), 24), 70);
    assert_eq!(page_rows(None, 1), 0);
    assert_eq!(page_rows(Some(5), 0), 5);
}

#[test]
fn state_reports_its_rows() {
    let s = state(0, Some(70), 24);
    assert_eq!(s.visible_rows(), 22);
    assert_eq!(s.page_rows(), 70);
    let s = state(0, None, 12);
    assert_eq!(s.visible_rows(), 10);
    assert_eq!(s.page_rows(), 10);
}

#[test]
fn clamp_keeps_the_window_inside() {
    assert_eq!(clamp_scroll(0, 100, 10), 0);
    assert_eq!(clamp_scroll(49, 100, 10), 49);
    assert_eq!(clamp_scroll(90, 100, 10), 90);
    assert_eq!(clamp_scroll(91, 100, 10), 90);
    assert_eq!(clamp_scroll(1000, 100, 10), 90);
    assert_eq!(clamp_scroll(usize::MAX, 100, 10), 90);
    assert_eq!(clamp_scroll(100, 100, 0), 100);
    assert_eq!(clamp_scroll(101, 100, 0), 100);
}

#[test]
fn clamp_is_zero_when_the_document_fits() {
    for scroll in [0usize, 1, 5, 10, 1000, usize::MAX] {
        assert_eq!(clamp_scroll(scroll, 10, 10), 0);
        assert_eq!(clamp_scroll(scroll, 5, 10), 0);
        assert_eq!(clamp_scroll(scroll, 0, 10), 0);
        assert_eq!(clamp_scroll(scroll, 0, 0), 0);
        assert_eq!(clamp_scroll(scroll, 1, usize::MAX), 0);
    }
}

#[test]
fn clamp_twice_is_clamp_once() {
    for total in [0usize, 1, 2, 9, 10, 11, 100] {
        for visible in [0usize, 1, 5, 10, 22, 200] {
            for scroll in [0usize, 1, 4, 9, 10, 50, 99, 100, 101, usize::MAX] {
                let once = clamp_scroll(scroll, total, visible);
                assert_eq!(clamp_scroll(once, total, visible), once);
                assert!(once <= total.saturating_sub(visible));
                assert!(once <= scroll);
            }
        }
    }
}

#[test]
fn key_bindings() {
    assert_eq!(action_for(press(Key::Char('q'))), Action::Quit);
    assert_eq!(action_for(press(Key::Esc)), Action::Quit);
    assert_eq!(action_for(press(Key::Char('j'))), Action::LineDown);
    assert_eq!(action_for(press(Key::Down)), Action::LineDown);
    assert_eq!(action_for(press(Key::Char('k'))), Action::LineUp);
    assert_eq!(action_for(press(Key::Up)), Action::LineUp);
    assert_eq!(action_for(press(Key::PageDown)), Action::PageDown);
    assert_eq!(action_for(press(Key::PageUp)), Action::PageUp);
    assert_eq!(action_for(press(Key::Char('g'))), Action::Top);
    assert_eq!(action_for(press(Key::Char('G'))), Action::Bottom);
    assert_eq!(action_for(press(Key::Char('x'))), Action::Nothing);
    assert_eq!(action_for(press(Key::Char('Q'))), Action::Nothing);
    assert_eq!(action_for(press(Key::Char('J'))), Action::Nothing);
    assert_eq!(action_for(press(Key::Other)), Action::Nothing);
}

#[test]
fn only_presses_count() {
    for key in [Key::Char('q'), Key::Esc, Key::Char('j'), Key::Down, Key::PageUp, Key::Char('G')] {
        assert_eq!(action_for(KeyEvent { key, kind: KeyKind::Release }), Action::Nothing);
        assert_eq!(action_for(KeyEvent { key, kind: KeyKind::Repeat }), Action::Nothing);
    }
    let mut s = state(5, Some(10), 24);
    s.handle_key(KeyEvent { key: Key::Char('q'), kind: KeyKind::Release }, 100);
    assert_eq!(s, state(5, Some(10), 24));
    s.handle_key(KeyEvent { key: Key::Char('j'), kind: KeyKind::Repeat }, 100);
    assert_eq!(s, state(5, Some(10), 24));
}

#[test]
fn line_down_stops_at_the_last_line() {
    assert_eq!(scroll_to(Action::LineDown, 0, 100, 10), 1);
    assert_eq!(scroll_to(Action::LineDown, 98, 100, 10), 99);
    assert_eq!(scroll_to(Action::LineDown, 99, 100, 10), 99);
    assert_eq!(scroll_to(Action::LineDown, 100, 100, 10), 99);
    assert_eq!(scroll_to(Action::LineDown, usize::MAX, 100, 10), 99);
    assert_eq!(scroll_to(Action::LineDown, 0, 1, 10), 0);
    assert_eq!(scroll_to(Action::LineDown, 0, 0, 10), 0);
    assert_eq!(scroll_to(Action::LineDown, 7, 0, 10), 7);
}

#[test]
fn line_up_stops_at_the_first_line() {
    assert_eq!(scroll_to(Action::LineUp, 0, 100, 10), 0);
    assert_eq!(scroll_to(Action::LineUp, 1, 100, 10), 0);
    assert_eq!(scroll_to(Action::LineUp, 50, 100, 10), 49);
    assert_eq!(scroll_to(Action::LineUp, usize::MAX, 100, 10), usize::MAX - 1);
}

#[test]
fn page_down_stops_at_the_last_line() {
    assert_eq!(scroll_to(Action::PageDown, 0, 100, 10), 10);
    assert_eq!(scroll_to(Action::PageDown, 85, 100, 10), 95);
    assert_eq!(scroll_to(Action::PageDown, 89, 100, 10), 99);
    assert_eq!(scroll_to(Action::PageDown, 90, 100, 10), 99);
    assert_eq!(scroll_to(Action::PageDown, 99, 100, 10), 99);
    assert_eq!(scroll_to(Action::PageDown, 5, 100, 0), 5);
    assert_eq!(scroll_to(Action::PageDown, 5, 100, usize::MAX), 99);
    assert_eq!(scroll_to(Action::PageDown, usize::MAX, 100, usize::MAX), 99);
    assert_eq!(scroll_to(Action::PageDown, 200, 100, 10), 99);
    assert_eq!(scroll_to(Action::PageDown, 3, 0, 10), 0);
}

#[test]
fn page_up_stops_at_the_first_line() {
    assert_eq!(scroll_to(Action::PageUp, 50, 100, 10), 40);
    assert_eq!(scroll_to(Action::PageUp, 10, 100, 10), 0);
    assert_eq!(scroll_to(Action::PageUp, 9, 100, 10), 0);
    assert_eq!(scroll_to(Action::PageUp, 0, 100, 10), 0);
    assert_eq!(scroll_to(Action::PageUp, 9, 100, 0), 9);
}

#[test]
fn jumps() {
    for scroll in [0usize, 1, 49, 90, 99, 1000] {
        assert_eq!(scroll_to(Action::Top, scroll, 100, 10), 0);
        assert_eq!(scroll_to(Action::Bottom, scroll, 100, 10), 90);
        assert_eq!(scroll_to(Action::Bottom, scroll, 5, 10), 0);
        assert_eq!(scroll_to(Action::Bottom, scroll, 10, 10), 0);
        assert_eq!(scroll_to(Action::Bottom, scroll, 100, 0), 100);
    }
}

#[test]
fn jumps_twice_are_jumps_once() {
    let mut s = state(49, Some(10), 24);
    s.handle_key(press(Key::Char('G')), 100);
    assert_eq!(s.scroll, 90);
    let once = s;
    s.handle_key(press(Key::Char('G')), 100);
    assert_eq!(s, once);
    s.handle_key(press(Key::Char('g')), 100);
    assert_eq!(s.scroll, 0);
    let once = s;
    s.handle_key(press(Key::Char('g')), 100);
    assert_eq!(s, once);
}

#[test]
fn quit_and_nothing_keep_the_window() {
    assert_eq!(scroll_to(Action::Quit, 42, 100, 10), 42);
    assert_eq!(scroll_to(Action::Nothing, 42, 100, 10), 42);
}

#[test]
fn quit_stops_the_viewer() {
    for key in [Key::Char('q'), Key::Esc] {
        let mut s = state(5, None, 24);
        s.handle_key(press(key), 100);
        assert!(!s.running);
        assert_eq!(s.scroll, 5);
        s.handle_key(press(Key::Char('j')), 100);
        assert!(!s.running);
    }
    let mut s = state(5, None, 24);
    s.apply(Action::LineDown, 100);
    assert!(s.running);
    s.apply(Action::Quit, 100);
    assert!(!s.running);
}

#[test]
fn keys_move_the_state() {
    let mut s = state(49, None, 12);
    s.handle_key(press(Key::Char('j')), 100);
    assert_eq!(s.scroll, 50);
    s.handle_key(press(Key::Down), 100);
    assert_eq!(s.scroll, 51);
    s.handle_key(press(Key::Char('k')), 100);
    assert_eq!(s.scroll, 50);
    s.handle_key(press(Key::Up), 100);
    assert_eq!(s.scroll, 49);
    s.handle_key(press(Key::PageDown), 100);
    assert_eq!(s.scroll, 59);
    s.handle_key(press(Key::PageUp), 100);
    assert_eq!(s.scroll, 49);
    s.handle_key(press(Key::Char('z')), 100);
    assert_eq!(s, state(49, None, 12));
    assert_eq!(s.fixed_height, None);
    assert_eq!(s.current_terminal_height, 12);
}

#[test]
fn page_keys_use_the_fixed_height() {
    let mut s = state(0, Some(70), 24);
    s.handle_key(press(Key::PageDown), 1000);
    assert_eq!(s.scroll, 70);
    s.handle_key(press(Key::Char('G')), 1000);
    assert_eq!(s.scroll, 930);
    assert_eq!(s.begin_frame(24, 1000), 22);
    assert_eq!(s.scroll, 930);
}

#[test]
fn begin_frame_clamps_and_notes_the_height() {
    let mut s = ViewportState::new(Some(10), Some(500));
    assert_eq!(s.scroll, 499);
    assert_eq!(s.begin_frame(24, 100), 10);
    assert_eq!(s, state(90, Some(10), 24));
    assert_eq!(s.begin_frame(24, 100), 10);
    assert_eq!(s, state(90, Some(10), 24));
    assert_eq!(s.begin_frame(8, 100), 6);
    assert_eq!(s, state(90, Some(10), 8));
    assert_eq!(s.begin_frame(200, 100), 10);
    assert_eq!(s.scroll, 90);
    let mut s = state(3, None, 0);
    assert_eq!(s.begin_frame(200, 100), 198);
    assert_eq!(s.scroll, 0);
    let mut s = state(3, None, 0);
    assert_eq!(s.begin_frame(1, 100), 0);
    assert_eq!(s.scroll, 3);
}

#[test]
fn begin_frame_keeps_running_flag() {
    let mut s = state(3, None, 24);
    s.running = false;
    s.begin_frame(30, 100);
    assert!(!s.running);
}
