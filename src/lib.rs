//! A window of a curses terminal: its geometry, the style of the characters
//! written to it, and an adapter that drives one ncurses window region while
//! keeping a record of every request it made and every failure it saw.

pub mod style;
pub mod window;
pub mod curses;
pub mod ncurses_window;
