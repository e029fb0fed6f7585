//! Marks and text objects: the vocabulary in which the view asks the buffer
//! to move or delete.

use vstd::prelude::*;

verus! {

/// A named position kept by the buffer.
#[derive(Clone, Copy, Debug, PartialEq, Eq, Structural)]
pub enum Mark {
    /// A cursor; the number tells cursors apart.
    Cursor(usize),
    /// A mark used only for display, such as the first visible line.
    DisplayMark(usize),
}

/// Where within a unit of text a motion lands.
#[derive(Clone, Copy, Debug, PartialEq, Eq, Structural)]
pub enum Anchor {
    Start,
    End,
    Same,
}

/// The unit of text that a motion counts in.
#[derive(Clone, Copy, Debug, PartialEq, Eq, Structural)]
pub enum Kind {
    Char,
    Line(Anchor),
    Selection(Anchor),
}

/// How many units to move, in which direction, counted from which mark.
#[derive(Clone, Copy, Debug, PartialEq, Eq, Structural)]
pub enum Offset {
    Backward(usize, Mark),
    Forward(usize, Mark),
}

/// A place in the text, described relative to a mark.
#[derive(Clone, Copy, Debug, PartialEq, Eq, Structural)]
pub struct TextObject {
    pub kind: Kind,
    pub offset: Offset,
}

} // verus!
