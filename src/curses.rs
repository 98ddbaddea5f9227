//! The ncurses primitives the window adapter relies on, with a model of the
//! requests they make.
//!
//! Every primitive that acts on the terminal takes the [`CallLog`] of the
//! window it serves and appends to it one [`Call`]: the request made and what
//! the library answered. Contracts further up speak of that record.

use vstd::prelude::*;
use ncurses::WINDOW;

verus! {

/// The value ncurses returns, in place of a result, when a call fails.
pub const ERR: i32 = -1;

/// Bit position at which ncurses stores a color pair number in an attribute.
pub const ATTR_SHIFT: u32 = 8;

/// The attribute ncurses uses for italics.
pub const ITALIC_ATTR: u32 = 0x8000_0000;

/// The attribute for text without emphasis.
pub const NORMAL_ATTR: u32 = 0;

/// The attribute that selects color pair `id`.
pub open spec fn color_pair_attr(id: i16) -> u32 {
    (id as u32) << ATTR_SHIFT
}

/// Relies on ncurses::COLOR_PAIR: a pure shift of the pair number into the
/// color bits of an attribute.
pub assume_specification[ ncurses::COLOR_PAIR ](n: i16) -> (r: ncurses::attr_t)
    ensures
        r == color_pair_attr(n),
;

/// Relies on ncurses::A_ITALIC: a constant attribute with only bit 31 set.
pub assume_specification[ ncurses::A_ITALIC ]() -> (r: ncurses::attr_t)
    ensures
        r == ITALIC_ATTR,
;

/// Relies on ncurses::A_NORMAL: the empty attribute.
pub assume_specification[ ncurses::A_NORMAL ]() -> (r: ncurses::attr_t)
    ensures
        r == NORMAL_ATTR,
;

/// A request made to the terminal library on behalf of one window.
#[derive(Clone, Copy, Debug)]
pub enum Request {
    /// Create the window region: `rows` by `cols` cells at row `y`, column `x`.
    NewWindow { rows: i32, cols: i32, y: i32, x: i32 },
    /// Flush the pending writes of the window `win` to the display.
    Refresh { win: WINDOW },
    /// Ask where the screen's cursor stands; no window is named.
    CursorQuery,
    /// Move the cursor of the window `win` to row `y`, column `x`.
    Move { win: WINDOW, y: i32, x: i32 },
    /// Clear the window `win` from its cursor to the end of the line.
    ClearToEol { win: WINDOW },
    /// Write one character cell to the window `win`: a code point combined
    /// with attribute bits.
    AddChar { win: WINDOW, cell: u32 },
}

/// What the terminal library answered to a request.
#[derive(Clone, Copy, Debug)]
pub enum Outcome {
    /// The window handle `win` was handed back; `null` when it is the null
    /// pointer, by which the library signals that no window could be made.
    Created { win: WINDOW, null: bool },
    /// A status code: [`ERR`] on failure.
    Status(i32),
    /// A cursor position, row then column; [`ERR`] in a coordinate on failure.
    Position(i32, i32),
}

/// One request and its answer.
#[derive(Clone, Copy, Debug)]
pub struct Call {
    pub request: Request,
    pub outcome: Outcome,
}

/// Whether the library signalled a failure in answer to `call`.
pub open spec fn call_failed(call: Call) -> bool {
    match call.outcome {
        Outcome::Created { null, .. } => null,
        Outcome::Status(s) => s == ERR,
        Outcome::Position(y, x) => y == ERR || x == ERR,
    }
}

/// `after` is `before` with one call appended for each of `reqs`, in order.
pub open spec fn extends(before: Seq<Call>, after: Seq<Call>, reqs: Seq<Request>) -> bool {
    &&& after.len() == before.len() + reqs.len()
    &&& after.subrange(0, before.len() as int) == before
    &&& forall|j: int|
        before.len() <= j < after.len() ==> #[trigger] after[j].request == reqs[j
            - before.len()]
}

/// The record of the requests made for one window, oldest first.
pub struct CallLog {
    calls: Ghost<Seq<Call>>,
}

impl View for CallLog {
    type V = Seq<Call>;

    closed spec fn view(&self) -> Seq<Call> {
        self.calls@
    }
}

impl CallLog {
    /// An empty record.
    pub fn new() -> (r: CallLog)
        ensures
            r@ == Seq::<Call>::empty(),
    {
        CallLog { calls: Ghost(Seq::empty()) }
    }
}

/// Relies on ncurses::newwin: requests a window region of `rows` by `cols`
/// cells whose top left corner is at row `y`, column `x`, and returns the
/// handle the C library gave back, null when it failed.
#[verifier::external_body]
pub(crate) fn new_window(log: &mut CallLog, rows: i32, cols: i32, y: i32, x: i32) -> (r: WINDOW)
    ensures
        final(log)@ == old(log)@.push(
            Call {
                request: Request::NewWindow { rows, cols, y, x },
                outcome: Outcome::Created { win: r, null: r@.addr == 0 },
            },
        ),
{
    ncurses::newwin(rows, cols, y, x)
}

/// Relies on ncurses::wrefresh: requests one refresh of `win` and returns the
/// library's status code.
#[verifier::external_body]
pub(crate) fn refresh_window(log: &mut CallLog, win: WINDOW) -> (r: i32)
    ensures
        final(log)@ == old(log)@.push(
            Call { request: Request::Refresh { win }, outcome: Outcome::Status(r) },
        ),
{
    ncurses::wrefresh(win)
}

/// Relies on ncurses::getsyx: reads the screen cursor as (row, column), both
/// set to `ERR` where the screen leaves its cursor untracked, and both left at
/// zero where no screen has been set up.
#[verifier::external_body]
pub(crate) fn cursor_position(log: &mut CallLog) -> (r: (i32, i32))
    ensures
        final(log)@ == old(log)@.push(
            Call { request: Request::CursorQuery, outcome: Outcome::Position(r.0, r.1) },
        ),
{
    let mut y: i32 = 0;
    let mut x: i32 = 0;
    ncurses::getsyx(&mut y, &mut x);
    (y, x)
}

/// Relies on ncurses::wmove: requests that the cursor of `win` move to row
/// `y`, column `x`, and returns the library's status code.
#[verifier::external_body]
pub(crate) fn move_to(log: &mut CallLog, win: WINDOW, y: i32, x: i32) -> (r: i32)
    ensures
        final(log)@ == old(log)@.push(
            Call { request: Request::Move { win, y, x }, outcome: Outcome::Status(r) },
        ),
{
    ncurses::wmove(win, y, x)
}

/// Relies on ncurses::wclrtoeol: requests that `win` clear its line from the
/// cursor to the end, and returns the library's status code.
#[verifier::external_body]
pub(crate) fn clear_to_eol(log: &mut CallLog, win: WINDOW) -> (r: i32)
    ensures
        final(log)@ == old(log)@.push(
            Call { request: Request::ClearToEol { win }, outcome: Outcome::Status(r) },
        ),
{
    ncurses::wclrtoeol(win)
}

/// Relies on ncurses::waddch: requests that `win` write the character cell
/// `cell` at its cursor, and returns the library's status code.
#[verifier::external_body]
pub(crate) fn add_char(log: &mut CallLog, win: WINDOW, cell: u32) -> (r: i32)
    ensures
        final(log)@ == old(log)@.push(
            Call { request: Request::AddChar { win, cell }, outcome: Outcome::Status(r) },
        ),
{
    ncurses::waddch(win, cell)
}

} // verus!
