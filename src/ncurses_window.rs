//! An adapter that maps the window capability onto one ncurses window.

use vstd::prelude::*;
use ncurses::WINDOW;
use crate::curses::{
    call_failed, new_window, refresh_window, move_to, clear_to_eol, add_char,
    cursor_position, extends, Call, CallLog, Outcome, Request,
    ERR,
};
use crate::window::{
    as_unsigned, logged_if, style_attr, Window, WindowError, WindowPosition, WindowSize,
};
use crate::style::Style;

verus! {

/// The attribute that renders a character in `style`: its color pair,
/// combined with italics or with no emphasis.
pub fn attrs_from_style(style: &Style) -> (r: u32)
    ensures
        r == style_attr(*style),
{
    let mut attrs = ncurses::COLOR_PAIR(style.style_id);
    attrs = attrs | if style.italic {
        ncurses::A_ITALIC()
    } else {
        ncurses::A_NORMAL()
    };
    attrs
}

/// Whether the window reports a failure of `call`: every failed request but
/// the creation of the window and the write of a character, whose answers go
/// unchecked.
pub open spec fn reported(call: Call) -> bool {
    call_failed(call) && !(call.request is NewWindow) && !(call.request is AddChar)
}

/// The number of calls in `calls` whose failure the window reports.
pub open spec fn failure_count(calls: Seq<Call>) -> nat
    decreases calls.len(),
{
    if calls.len() == 0 {
        0
    } else {
        failure_count(calls.drop_last()) + if reported(calls.last()) {
            1nat
        } else {
            0nat
        }
    }
}

proof fn lemma_failure_count_push(calls: Seq<Call>, c: Call)
    ensures
        failure_count(calls.push(c)) == failure_count(calls) + if reported(c) {
            1nat
        } else {
            0nat
        },
{
    assert(calls.push(c).drop_last() =~= calls);
}

proof fn lemma_failure_count_append(a: Seq<Call>, b: Seq<Call>)
    ensures
        failure_count(a + b) == failure_count(a) + failure_count(b),
    decreases b.len(),
{
    if b.len() > 0 {
        lemma_failure_count_append(a, b.drop_last());
        assert((a + b).drop_last() =~= a + b.drop_last());
    } else {
        assert(a + b =~= a);
    }
}

/// Each failure the window checks for is logged exactly once: from one
/// well-formed state of a window to a later one, the error log is longer by
/// the number of failed requests among those made in between, leaving out
/// the creation and the character writes, whose answers go unchecked.
pub proof fn lemma_one_entry_per_failure(prev: &NcursesWindow, w: &NcursesWindow, reqs: Seq<Request>)
    requires
        prev.wf(),
        w.wf(),
        w.follows(prev, reqs),
    ensures
        w.error_log().len() == prev.error_log().len() + failure_count(
            w.calls().skip(prev.calls().len() as int),
        ),
{
    let n = prev.calls().len() as int;
    assert(w.calls() =~= prev.calls() + w.calls().skip(n));
    lemma_failure_count_append(prev.calls(), w.calls().skip(n));
}

/// The size and position a window was created with survive every sequence of
/// operations on it, and the requests of consecutive operations add up in
/// order: a window that follows one which follows a third follows the third.
pub proof fn lemma_follows_trans(
    w0: &NcursesWindow,
    w1: &NcursesWindow,
    w2: &NcursesWindow,
    r1: Seq<Request>,
    r2: Seq<Request>,
)
    requires
        w1.follows(w0, r1),
        w2.follows(w1, r2),
    ensures
        w2.follows(w0, r1 + r2),
        w2.view_size() == w0.view_size(),
        w2.view_pos() == w0.view_pos(),
{
    let n0 = w0.calls().len() as int;
    let n1 = w1.calls().len() as int;
    assert(w2.calls().subrange(0, n0) =~= w2.calls().subrange(0, n1).subrange(0, n0));
    assert forall|j: int| n0 <= j < w2.calls().len() implies #[trigger] w2.calls()[j].request
        == (r1 + r2)[j - n0] by {
        if j < n1 {
            assert(w2.calls()[j] == w2.calls().subrange(0, n1)[j]);
            assert(w1.calls()[j].request == r1[j - n0]);
        }
    }
}

/// What a cursor query answered with row `y` and column `x` reads as: the
/// two coordinates taken as unsigned, and whether the query failed.
pub fn cursor_reading(y: i32, x: i32) -> (r: ((u32, u32), bool))
    ensures
        r.0 == (as_unsigned(y), as_unsigned(x)),
        r.1 == (y == ERR || x == ERR),
{
    ((unsigned_of(y), unsigned_of(x)), y == ERR || x == ERR)
}

fn unsigned_of(v: i32) -> (r: u32)
    ensures
        r == as_unsigned(v),
{
    if v < 0 {
        (v as i64 + 4294967296i64) as u32
    } else {
        v as u32
    }
}

/// A window region of the terminal, with the size and position it was
/// created with.
///
/// The window keeps a log of the failures the library reported. Its model is
/// the record of every request it made ([`NcursesWindow::calls`]) and every
/// failure logged since it was created ([`NcursesWindow::error_log`]), of
/// which the ones not yet taken are [`NcursesWindow::pending`].
pub struct NcursesWindow {
    win: WINDOW,
    size: WindowSize,
    pos: WindowPosition,
    log: CallLog,
    errors: Vec<WindowError>,
    taken: Ghost<Seq<WindowError>>,
}

impl NcursesWindow {
    /// The size the window was created with.
    pub closed spec fn view_size(&self) -> WindowSize {
        self.size
    }

    /// The position the window was created with.
    pub closed spec fn view_pos(&self) -> WindowPosition {
        self.pos
    }

    /// The handle of the window region this adapter drives.
    pub closed spec fn handle(&self) -> WINDOW {
        self.win
    }

    /// Every request made for this window, oldest first, with its answer.
    pub closed spec fn calls(&self) -> Seq<Call> {
        self.log@
    }

    /// The failures logged and not yet taken.
    pub closed spec fn pending(&self) -> Seq<WindowError> {
        self.errors@
    }

    /// Every failure logged since the window was created, oldest first.
    pub closed spec fn error_log(&self) -> Seq<WindowError> {
        self.taken@ + self.errors@
    }

    /// One failure is logged for each reported failure of a request.
    pub open spec fn wf(&self) -> bool {
        self.error_log().len() == failure_count(self.calls())
    }

    /// `self` is `prev` after the requests `reqs` were made, in that order,
    /// with the handle and the cached size and position untouched.
    pub open spec fn follows(&self, prev: &NcursesWindow, reqs: Seq<Request>) -> bool {
        &&& self.view_size() == prev.view_size()
        &&& self.view_pos() == prev.view_pos()
        &&& self.handle() == prev.handle()
        &&& extends(prev.calls(), self.calls(), reqs)
    }

    /// Create a new window at the given position with the given size, and
    /// refresh it once. A failure of that refresh is logged, and the window
    /// is returned all the same.
    pub fn new(pos: WindowPosition, size: WindowSize) -> (w: NcursesWindow)
        ensures
            w.wf(),
            w.view_size() == size,
            w.view_pos() == pos,
            w.calls().len() == 2,
            w.calls()[0] == (Call {
                request: Request::NewWindow {
                    rows: #[verifier::truncate] (size.height as i32),
                    cols: #[verifier::truncate] (size.width as i32),
                    y: #[verifier::truncate] (pos.y as i32),
                    x: #[verifier::truncate] (pos.x as i32),
                },
                outcome: Outcome::Created { win: w.handle(), null: w.handle()@.addr == 0 },
            }),
            w.calls()[1].request == (Request::Refresh { win: w.handle() }),
            w.error_log() == logged_if(call_failed(w.calls()[1]), WindowError::InitialRefresh),
            w.pending() == w.error_log(),
    {
        let mut log = CallLog::new();
        let win = new_window(
            &mut log,
            #[verifier::truncate] (size.height as i32),
            #[verifier::truncate] (size.width as i32),
            #[verifier::truncate] (pos.y as i32),
            #[verifier::truncate] (pos.x as i32),
        );
        let status = refresh_window(&mut log, win);
        let mut errors: Vec<WindowError> = Vec::new();
        if status == ERR {
            errors.push(WindowError::InitialRefresh);
        }
        let w = NcursesWindow { win, size, pos, log, errors, taken: Ghost(Seq::empty()) };
        proof {
            let calls = w.calls();
            assert(calls.drop_last() =~= seq![calls[0]]);
            assert(seq![calls[0]].drop_last() =~= Seq::<Call>::empty());
            assert(failure_count(Seq::<Call>::empty()) == 0);
            assert(!reported(seq![calls[0]].last()));
            assert(failure_count(seq![calls[0]]) == 0);
            assert(w.error_log() =~= logged_if(call_failed(calls[1]), WindowError::InitialRefresh));
        }
        w
    }

    /// The size the window was created with.
    pub fn get_size(&self) -> (r: WindowSize)
        ensures
            r == self.view_size(),
    {
        self.size
    }

    /// `self` is `prev` after the one request `req`, whose failure, if the
    /// library reported one, is logged as `e`.
    pub open spec fn after_request(&self, prev: &NcursesWindow, req: Request, e: WindowError) -> bool {
        &&& self.follows(prev, seq![req])
        &&& self.error_log() == prev.error_log() + logged_if(call_failed(self.calls().last()), e)
        &&& self.pending() == prev.pending() + logged_if(call_failed(self.calls().last()), e)
    }

    /// Log `e` if `failed`.
    fn log_failure(&mut self, failed: bool, e: WindowError)
        ensures
            final(self).view_size() == old(self).view_size(),
            final(self).view_pos() == old(self).view_pos(),
            final(self).handle() == old(self).handle(),
            final(self).calls() == old(self).calls(),
            final(self).pending() == old(self).pending() + logged_if(failed, e),
            final(self).error_log() == old(self).error_log() + logged_if(failed, e),
    {
        if failed {
            self.errors.push(e);
        }
        proof {
            assert(final(self).pending() =~= old(self).pending() + logged_if(failed, e));
            assert(final(self).error_log() =~= old(self).error_log() + logged_if(failed, e));
        }
    }

    /// Flush the window's pending writes to the display. A failure is logged.
    pub fn refresh(&mut self)
        requires
            old(self).wf(),
        ensures
            final(self).wf(),
            final(self).after_request(old(self), Request::Refresh { win: old(self).handle() }, WindowError::Refresh),
    {
        let status = refresh_window(&mut self.log, self.win);
        proof {
            lemma_failure_count_push(old(self).calls(), self.calls().last());
            assert(self.calls().subrange(0, old(self).calls().len() as int) =~= old(self).calls());
            assert(self.calls()[old(self).calls().len() as int].request == (Request::Refresh { win: old(self).handle() }));
        }
        self.log_failure(status == ERR, WindowError::Refresh);
    }

    /// The cursor position of the screen, as (row, column). A failed query
    /// is logged, and what it answered is returned all the same.
    pub fn get_cursor(&mut self) -> (r: (u32, u32))
        requires
            old(self).wf(),
        ensures
            final(self).wf(),
            final(self).after_request(old(self), Request::CursorQuery, WindowError::CursorQuery),
            match final(self).calls().last().outcome {
                Outcome::Position(y, x) => r == (as_unsigned(y), as_unsigned(x)),
                _ => false,
            },
    {
        let (y, x) = cursor_position(&mut self.log);
        let (cursor, failed) = cursor_reading(y, x);
        proof {
            lemma_failure_count_push(old(self).calls(), self.calls().last());
            assert(self.calls().subrange(0, old(self).calls().len() as int) =~= old(self).calls());
            assert(self.calls()[old(self).calls().len() as int].request == Request::CursorQuery);
        }
        self.log_failure(failed, WindowError::CursorQuery);
        cursor
    }

    /// Move the cursor to row `y`, column `x` of the window. A failure is
    /// logged.
    pub fn move_cursor(&mut self, y: u32, x: u32)
        requires
            old(self).wf(),
        ensures
            final(self).wf(),
            final(self).after_request(
                old(self),
                Request::Move {
                    win: old(self).handle(),
                    y: #[verifier::truncate] (y as i32),
                    x: #[verifier::truncate] (x as i32),
                },
                WindowError::Move,
            ),
    {
        let status = move_to(&mut self.log, self.win, #[verifier::truncate] (y as i32), #[verifier::truncate] (x as i32));
        proof {
            lemma_failure_count_push(old(self).calls(), self.calls().last());
            assert(self.calls().subrange(0, old(self).calls().len() as int) =~= old(self).calls());
        }
        self.log_failure(status == ERR, WindowError::Move);
    }

    /// Move the cursor to the start of row `line`, then clear that row from
    /// the cursor to its end. Each step logs its own failure, and the clear
    /// is requested whether or not the move succeeded.
    pub fn move_cursor_and_clear_line(&mut self, line: u32)
        requires
            old(self).wf(),
        ensures
            final(self).wf(),
            final(self).follows(
                old(self),
                seq![
                    Request::Move { win: old(self).handle(), y: #[verifier::truncate] (line as i32), x: 0 },
                    Request::ClearToEol { win: old(self).handle() },
                ],
            ),
            final(self).error_log() == old(self).error_log() + logged_if(
                call_failed(final(self).calls()[old(self).calls().len() as int]),
                WindowError::MoveForClear,
            ) + logged_if(
                call_failed(final(self).calls()[old(self).calls().len() + 1int]),
                WindowError::ClearLine,
            ),
            final(self).pending() == old(self).pending() + logged_if(
                call_failed(final(self).calls()[old(self).calls().len() as int]),
                WindowError::MoveForClear,
            ) + logged_if(
                call_failed(final(self).calls()[old(self).calls().len() + 1int]),
                WindowError::ClearLine,
            ),
    {
        let moved = move_to(&mut self.log, self.win, #[verifier::truncate] (line as i32), 0);
        proof {
            lemma_failure_count_push(old(self).calls(), self.calls().last());
        }
        self.log_failure(moved == ERR, WindowError::MoveForClear);
        let ghost mid = self.calls();
        let cleared = clear_to_eol(&mut self.log, self.win);
        proof {
            lemma_failure_count_push(mid, self.calls().last());
            assert(self.calls().subrange(0, old(self).calls().len() as int) =~= old(self).calls());
            assert(self.calls()[old(self).calls().len() as int].request == Request::Move {
                win: old(self).handle(),
                y: #[verifier::truncate] (line as i32),
                x: 0,
            });
            assert(self.calls()[old(self).calls().len() + 1int].request == (Request::ClearToEol { win: old(self).handle() }));
        }
        self.log_failure(cleared == ERR, WindowError::ClearLine);
    }

    /// Write `ch` at the cursor in `style`. The library's status is not
    /// checked, and nothing is logged.
    pub fn append_ch(&mut self, ch: char, style: &Style)
        requires
            old(self).wf(),
        ensures
            final(self).wf(),
            final(self).follows(
                old(self),
                seq![Request::AddChar { win: old(self).handle(), cell: (ch as u32) | style_attr(*style) }],
            ),
            final(self).error_log() == old(self).error_log(),
            final(self).pending() == old(self).pending(),
    {
        let attrs = attrs_from_style(style);
        add_char(&mut self.log, self.win, ch as u32 | attrs);
        proof {
            lemma_failure_count_push(old(self).calls(), self.calls().last());
            assert(self.calls().subrange(0, old(self).calls().len() as int) =~= old(self).calls());
        }
    }

    /// The failures logged and not yet taken, oldest first.
    pub fn errors(&self) -> (r: &Vec<WindowError>)
        ensures
            r@ == self.pending(),
    {
        &self.errors
    }

    /// Take the failures logged so far, oldest first, leaving none pending.
    pub fn take_errors(&mut self) -> (r: Vec<WindowError>)
        requires
            old(self).wf(),
        ensures
            final(self).wf(),
            final(self).follows(old(self), Seq::empty()),
            r@ == old(self).pending(),
            final(self).pending() == Seq::<WindowError>::empty(),
            final(self).error_log() == old(self).error_log(),
    {
        let mut out: Vec<WindowError> = Vec::new();
        core::mem::swap(&mut out, &mut self.errors);
        self.taken = Ghost(self.taken@ + out@);
        proof {
            assert(self.calls().subrange(0, old(self).calls().len() as int) =~= old(self).calls());
            assert(self.error_log() =~= old(self).error_log());
        }
        out
    }
}

} // verus!

verus! {

impl Window for NcursesWindow {
    open spec fn size_of(&self) -> WindowSize {
        self.view_size()
    }

    open spec fn inv(&self) -> bool {
        self.wf()
    }

    open spec fn handle_of(&self) -> WINDOW {
        self.handle()
    }

    open spec fn calls_of(&self) -> Seq<Call> {
        self.calls()
    }

    open spec fn error_log_of(&self) -> Seq<WindowError> {
        self.error_log()
    }

    fn get_size(&self) -> (r: WindowSize) {
        NcursesWindow::get_size(self)
    }

    fn get_cursor(&mut self) -> (r: (u32, u32)) {
        NcursesWindow::get_cursor(self)
    }

    fn move_cursor(&mut self, y: u32, x: u32) {
        NcursesWindow::move_cursor(self, y, x)
    }

    fn move_cursor_and_clear_line(&mut self, line: u32) {
        NcursesWindow::move_cursor_and_clear_line(self, line)
    }

    fn append_ch(&mut self, ch: char, style: &Style) {
        NcursesWindow::append_ch(self, ch, style)
    }

    fn refresh(&mut self) {
        NcursesWindow::refresh(self)
    }
}

} // verus!
