use termwin::curses::{ATTR_SHIFT, ERR, ITALIC_ATTR, NORMAL_ATTR};
use termwin::window::{Window, WindowError, WindowPosition, WindowSize};
use termwin::style::Style;
use termwin::ncurses_window::{attrs_from_style, cursor_reading, NcursesWindow};

fn sample_window() -> NcursesWindow {
    NcursesWindow::new(WindowPosition { x: 2, y: 1 }, WindowSize { width: 40, height: 10 })
}

#[test]
fn italic_style_combines_color_pair_and_italic() {
    let attrs = attrs_from_style(&Style { style_id: 3, italic: true });
    assert_eq!(attrs, ncurses::COLOR_PAIR(3) | ncurses::A_ITALIC());
    assert_eq!(attrs, 0x8000_0300);
}

#[test]
fn plain_style_combines_color_pair_and_normal() {
    let attrs = attrs_from_style(&Style { style_id: 3, italic: false });
    assert_eq!(attrs, ncurses::COLOR_PAIR(3) | ncurses::A_NORMAL());
    assert_eq!(attrs, 0x300);
}

#[test]
fn attribute_constants_match_the_library() {
    assert_eq!(ITALIC_ATTR, ncurses::A_ITALIC());
    assert_eq!(NORMAL_ATTR, ncurses::A_NORMAL());
    assert_eq!(1u32 << ATTR_SHIFT, ncurses::COLOR_PAIR(1));
    assert_eq!(ERR, ncurses::ERR);
}

#[test]
fn color_pair_zero_with_no_emphasis_is_empty() {
    assert_eq!(attrs_from_style(&Style { style_id: 0, italic: false }), 0);
}

#[test]
fn cursor_reading_passes_good_coordinates() {
    assert_eq!(cursor_reading(5, 7), ((5, 7), false));
    assert_eq!(cursor_reading(0, 0), ((0, 0), false));
}

#[test]
fn cursor_reading_flags_a_sentinel_row() {
    assert_eq!(cursor_reading(-1, 4), ((u32::MAX, 4), true));
}

#[test]
fn cursor_reading_flags_a_sentinel_column() {
    assert_eq!(cursor_reading(3, -1), ((3, u32::MAX), true));
}

#[test]
fn cursor_reading_flags_both_sentinels() {
    assert_eq!(cursor_reading(-1, -1), ((u32::MAX, u32::MAX), true));
}

#[test]
fn cursor_reading_other_negative_is_no_failure() {
    assert_eq!(cursor_reading(-2, 1), ((u32::MAX - 1, 1), false));
}

// No screen is set up in these tests, so the library refuses every request
// on the window; the window logs each failure and keeps going.

#[test]
fn create_logs_a_failed_first_refresh() {
    let mut w = sample_window();
    assert_eq!(w.errors().clone(), vec![WindowError::InitialRefresh]);
    assert_eq!(w.take_errors(), vec![WindowError::InitialRefresh]);
    assert!(w.errors().is_empty());
}

#[test]
fn size_is_kept_across_operations() {
    let size = WindowSize { width: 80, height: 24 };
    let mut w = NcursesWindow::new(WindowPosition { x: 0, y: 0 }, size);
    assert_eq!(w.get_size(), size);
    w.move_cursor(3, 4);
    w.refresh();
    w.append_ch('x', &Style { style_id: 1, italic: false });
    w.move_cursor_and_clear_line(2);
    let _ = w.get_cursor();
    assert_eq!(w.get_size(), size);
}

#[test]
fn clear_line_is_tried_after_a_failed_move() {
    let mut w = sample_window();
    w.take_errors();
    w.move_cursor_and_clear_line(5);
    assert_eq!(w.take_errors(), vec![WindowError::MoveForClear, WindowError::ClearLine]);
}

#[test]
fn each_failed_call_logs_one_error() {
    let mut w = sample_window();
    w.take_errors();
    w.move_cursor(1, 1);
    assert_eq!(w.errors().clone(), vec![WindowError::Move]);
    w.refresh();
    assert_eq!(w.errors().clone(), vec![WindowError::Move, WindowError::Refresh]);
    assert_eq!(w.get_size(), WindowSize { width: 40, height: 10 });
}

#[test]
fn append_logs_nothing() {
    let mut w = sample_window();
    w.take_errors();
    w.append_ch('A', &Style { style_id: 3, italic: true });
    assert!(w.errors().is_empty());
}

#[test]
fn cursor_without_a_screen_reads_origin() {
    let mut w = sample_window();
    w.take_errors();
    assert_eq!(w.get_cursor(), (0, 0));
    assert!(w.errors().is_empty());
}

#[test]
fn taking_errors_twice_gives_nothing_the_second_time() {
    let mut w = sample_window();
    assert_eq!(w.take_errors().len(), 1);
    assert_eq!(w.take_errors(), Vec::new());
}

fn size_through_capability<W: Window>(w: &W) -> WindowSize {
    w.get_size()
}

#[test]
fn capability_reports_the_created_size() {
    let mut w = sample_window();
    Window::move_cursor_and_clear_line(&mut w, 5);
    Window::refresh(&mut w);
    assert_eq!(size_through_capability(&w), WindowSize { width: 40, height: 10 });
    assert_eq!(
        w.take_errors(),
        vec![
            WindowError::InitialRefresh,
            WindowError::MoveForClear,
            WindowError::ClearLine,
            WindowError::Refresh,
        ]
    );
}

#[test]
fn largest_size_is_kept() {
    let size = WindowSize { width: u32::MAX, height: u32::MAX };
    let w = NcursesWindow::new(WindowPosition { x: u32::MAX, y: u32::MAX }, size);
    assert_eq!(w.get_size(), size);
}

#[test]
fn cursor_reading_wraps_a_sentinel_with_a_good_column() {
    assert_eq!(cursor_reading(-1, 7), ((4294967295, 7), true));
}
