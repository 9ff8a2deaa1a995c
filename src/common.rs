//! Plain values shared by the document, the input line and the editor.
use vstd::prelude::*;

verus! {

/// Height and width of a rectangle of terminal cells.
#[derive(Clone, Copy, Debug, PartialEq, Eq, Structural)]
pub struct Size {
    pub height: usize,
    pub width: usize,
}

/// A zero-based row and column.
#[derive(Clone, Copy, Debug, PartialEq, Eq, Structural)]
pub struct Position {
    pub row: usize,
    pub col: usize,
}

/// What the editor is asked to do after an input event.
#[derive(Clone, Debug, PartialEq, Eq)]
pub enum Task {
    /// Show a message on the input line.
    SetCommand(String),
    /// Collect a line of text behind the given prompt.
    AskInput(String),
    /// Open a new, empty document.
    NewDoc,
    /// Nothing to do.
    Nothing,
    /// Open the file at the given path in a new tab.
    OpenDoc(String),
    /// Write the active document to the given path.
    SaveFile(String),
    NextTab,
    PrevTab,
    CloseCurrentTab,
}

/// A key press, as far as the editor tells keys apart.
#[derive(Clone, Copy, Debug, PartialEq, Eq, Structural)]
pub enum Key {
    Backspace,
    Left,
    Right,
    Up,
    Down,
    Esc,
    /// A character typed without modifier; Enter is `Char('\n')`.
    Char(char),
    /// A character typed with Ctrl held.
    Ctrl(char),
    /// Any other key.
    Other,
}

/// A mouse button, or a turn of the wheel.
#[derive(Clone, Copy, Debug, PartialEq, Eq, Structural)]
pub enum MouseButton {
    Left,
    Right,
    Middle,
    WheelUp,
    WheelDown,
}

/// A mouse event.
#[derive(Clone, Copy, Debug, PartialEq, Eq, Structural)]
pub enum MouseEvent {
    Press(MouseButton),
    Release,
    Hold,
}

/// An input event of the terminal.
#[derive(Clone, Copy, Debug, PartialEq, Eq, Structural)]
pub enum Event {
    Key(Key),
    Mouse(MouseEvent),
    Unsupported,
}

} // verus!
