//! Small closed vocabularies shared by commands and actions.

use vstd::prelude::*;

verus! {

/// One of the four sides of a pane.
#[derive(Clone, Copy, Debug, PartialEq, Eq, Structural)]
pub enum Direction {
    Left,
    Right,
    Up,
    Down,
}

/// Whether a resize grows or shrinks the focused pane.
#[derive(Clone, Copy, Debug, PartialEq, Eq, Structural)]
pub enum Resize {
    Increase,
    Decrease,
}

/// The input modes a client can be in.
#[derive(Clone, Copy, Debug, PartialEq, Eq, Structural)]
pub enum InputMode {
    Normal,
    Locked,
    Resize,
    Pane,
    Tab,
    Scroll,
    EnterSearch,
    Search,
    RenameTab,
    RenamePane,
    Session,
    Move,
    Prompt,
    Tmux,
}

/// A line of the screen; negative lines lie in the scrollback.
#[derive(Clone, Copy, Debug, PartialEq, Eq, Structural)]
pub struct Line(pub isize);

/// A column of the screen.
#[derive(Clone, Copy, Debug, PartialEq, Eq, Structural)]
pub struct Column(pub usize);

/// A point of the screen, as a mouse event reports it.
#[derive(Clone, Copy, Debug, PartialEq, Eq, Structural)]
pub struct Position {
    pub line: Line,
    pub column: Column,
}

impl Position {
    /// The point at the given line and column.
    pub fn new(line: i32, column: u16) -> (p: Position)
        ensures
            p.line.0 == line,
            p.column.0 == column,
    {
        Position { line: Line(line as isize), column: Column(column as usize) }
    }
}

/// What the session does when its terminal goes away.
#[derive(Clone, Copy, Debug, PartialEq, Eq, Structural)]
pub enum OnForceClose {
    Quit,
    Detach,
}

} // verus!
