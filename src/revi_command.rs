use vstd::prelude::*;
use crate::mode::Mode;

verus! {

/// Every atomic action the editor can perform. Pure data: executing a
/// command is left to the caller.
#[derive(Debug, Clone, Copy, PartialEq, Eq, Hash, Structural)]
pub enum ReViCommand {
    StartUp,
    CursorUp,
    CursorDown,
    CursorLeft,
    CursorRight,
    ScrollUp,
    ScrollDown,
    Home,
    End,
    MoveForwardByWord,
    MoveBackwardByWord,
    JumpToFirstLineBuffer,
    JumpToLastLineBuffer,
    Backspace,
    NewLine,
    FirstCharInLine,
    DeleteChar,
    DeleteLine,
    InsertChar(char),
    Mode(Mode),
    Save,
    Quit,
}

} // verus!
