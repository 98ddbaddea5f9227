use vstd::prelude::*;

verus! {

/// How a character is drawn: a color pair registered with the terminal
/// library, and whether the character is set in italics.
#[derive(Clone, Copy, Debug, PartialEq, Eq, Structural)]
pub struct Style {
    /// Identifier of a foreground/background color pair.
    pub style_id: i16,
    /// Draw in italics rather than with no emphasis.
    pub italic: bool,
}

} // verus!
