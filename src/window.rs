//! The window capability: a region of the terminal with its own cursor.

use vstd::prelude::*;
use ncurses::WINDOW;
use crate::curses::{call_failed, color_pair_attr, extends, Call, Outcome, Request, ERR, ITALIC_ATTR, NORMAL_ATTR};
use crate::style::Style;

verus! {

/// The dimensions of a window, in character cells.
#[derive(Clone, Copy, Debug, PartialEq, Eq, Structural)]
pub struct WindowSize {
    /// Number of columns.
    pub width: u32,
    /// Number of rows.
    pub height: u32,
}

/// The offset of a window's top left corner on the screen.
#[derive(Clone, Copy, Debug, PartialEq, Eq, Structural)]
pub struct WindowPosition {
    /// Column offset.
    pub x: u32,
    /// Row offset.
    pub y: u32,
}

/// A failure that the terminal library reported to a window.
#[derive(Clone, Copy, Debug, PartialEq, Eq, Structural)]
pub enum WindowError {
    /// The refresh made while the window was being created failed.
    InitialRefresh,
    /// The cursor position could not be read.
    CursorQuery,
    /// The cursor could not be moved.
    Move,
    /// The cursor could not be moved to the start of a line to clear it.
    MoveForClear,
    /// The line could not be cleared.
    ClearLine,
    /// The window could not be refreshed.
    Refresh,
}

/// The entries a failure adds to the error log: `e` if `failed`, else none.
pub open spec fn logged_if(failed: bool, e: WindowError) -> Seq<WindowError> {
    if failed {
        seq![e]
    } else {
        Seq::empty()
    }
}

/// The attribute bits that draw a character in `style`.
pub open spec fn style_attr(style: Style) -> u32 {
    color_pair_attr(style.style_id) | if style.italic {
        ITALIC_ATTR
    } else {
        NORMAL_ATTR
    }
}

/// The value of the bits of `v` read as unsigned: `v` itself when it is not
/// negative, else `v + 2^32`.
pub open spec fn as_unsigned(v: i32) -> u32 {
    if v < 0 {
        (v + 4294967296) as u32
    } else {
        v as u32
    }
}

/// What a window offers to the code that draws on it.
///
/// A window drives one region of the terminal through its handle, keeps the
/// size it was created with, and logs the failures the library reports. Each
/// operation states the requests it makes, in order, and what it logs.
pub trait Window: Sized {
    /// The size the window was created with.
    spec fn size_of(&self) -> WindowSize;

    /// The window's internal invariant.
    spec fn inv(&self) -> bool;

    /// The handle of the region the window drives.
    spec fn handle_of(&self) -> WINDOW;

    /// Every request made for the window, oldest first, with its answer.
    spec fn calls_of(&self) -> Seq<Call>;

    /// Every failure logged by the window, oldest first.
    spec fn error_log_of(&self) -> Seq<WindowError>;

    /// The size the window was created with.
    fn get_size(&self) -> (r: WindowSize)
        ensures
            r == self.size_of(),
    ;

    /// The cursor position, as (row, column): what the query answered, read
    /// as unsigned. A failed query is logged.
    fn get_cursor(&mut self) -> (r: (u32, u32))
        requires
            old(self).inv(),
        ensures
            final(self).inv(),
            final(self).size_of() == old(self).size_of(),
            final(self).handle_of() == old(self).handle_of(),
            extends(old(self).calls_of(), final(self).calls_of(), seq![Request::CursorQuery]),
            match final(self).calls_of().last().outcome {
                Outcome::Position(y, x) => {
                    &&& r == (as_unsigned(y), as_unsigned(x))
                    &&& final(self).error_log_of() == old(self).error_log_of() + logged_if(
                        y == ERR || x == ERR,
                        WindowError::CursorQuery,
                    )
                },
                _ => false,
            },
    ;

    /// Move the cursor to row `y`, column `x`. A failure is logged.
    fn move_cursor(&mut self, y: u32, x: u32)
        requires
            old(self).inv(),
        ensures
            final(self).inv(),
            final(self).size_of() == old(self).size_of(),
            final(self).handle_of() == old(self).handle_of(),
            extends(
                old(self).calls_of(),
                final(self).calls_of(),
                seq![
                    Request::Move {
                        win: old(self).handle_of(),
                        y: #[verifier::truncate] (y as i32),
                        x: #[verifier::truncate] (x as i32),
                    },
                ],
            ),
            final(self).error_log_of() == old(self).error_log_of() + logged_if(
                call_failed(final(self).calls_of().last()),
                WindowError::Move,
            ),
    ;

    /// Move the cursor to the start of row `line`, then clear that row; the
    /// clear is requested whether or not the move succeeded. Each failure is
    /// logged.
    fn move_cursor_and_clear_line(&mut self, line: u32)
        requires
            old(self).inv(),
        ensures
            final(self).inv(),
            final(self).size_of() == old(self).size_of(),
            final(self).handle_of() == old(self).handle_of(),
            extends(
                old(self).calls_of(),
                final(self).calls_of(),
                seq![
                    Request::Move {
                        win: old(self).handle_of(),
                        y: #[verifier::truncate] (line as i32),
                        x: 0,
                    },
                    Request::ClearToEol { win: old(self).handle_of() },
                ],
            ),
            final(self).error_log_of() == old(self).error_log_of() + logged_if(
                call_failed(final(self).calls_of()[old(self).calls_of().len() as int]),
                WindowError::MoveForClear,
            ) + logged_if(
                call_failed(final(self).calls_of()[old(self).calls_of().len() + 1int]),
                WindowError::ClearLine,
            ),
    ;

    /// Write `ch` at the cursor in `style`. Nothing is logged.
    fn append_ch(&mut self, ch: char, style: &Style)
        requires
            old(self).inv(),
        ensures
            final(self).inv(),
            final(self).size_of() == old(self).size_of(),
            final(self).handle_of() == old(self).handle_of(),
            extends(
                old(self).calls_of(),
                final(self).calls_of(),
                seq![
                    Request::AddChar {
                        win: old(self).handle_of(),
                        cell: (ch as u32) | style_attr(*style),
                    },
                ],
            ),
            final(self).error_log_of() == old(self).error_log_of(),
    ;

    /// Flush pending writes to the display. A failure is logged.
    fn refresh(&mut self)
        requires
            old(self).inv(),
        ensures
            final(self).inv(),
            final(self).size_of() == old(self).size_of(),
            final(self).handle_of() == old(self).handle_of(),
            extends(
                old(self).calls_of(),
                final(self).calls_of(),
                seq![Request::Refresh { win: old(self).handle_of() }],
            ),
            final(self).error_log_of() == old(self).error_log_of() + logged_if(
                call_failed(final(self).calls_of().last()),
                WindowError::Refresh,
            ),
    ;
}

} // verus!
