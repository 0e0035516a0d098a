//! Keys as the host reads them, and the logical symbols they stand for.

use vstd::prelude::*;

verus! {

/// A key press, reduced to what the editor tells apart.
#[derive(Clone, Copy, Debug, PartialEq, Eq, Structural)]
pub enum Key {
    /// A key that produces a character.
    Char(char),
    Enter,
    Backspace,
    /// Any other key.
    Other,
}

/// The logical symbols that drive the editor.
#[derive(Clone, Copy, Debug, PartialEq, Eq, Structural)]
pub enum Symbol {
    MoveLeft,
    MoveRight,
    MoveUp,
    MoveDown,
    PageUp,
    PageDown,
    JumpFirstRow,
    JumpLastRow,
    JumpFirstCol,
    JumpLastCol,
    InsertRowAfter,
    InsertRowBefore,
    DeleteRow,
    InsertColAfter,
    InsertColBefore,
    DeleteCol,
    /// Start editing the cell, keeping its text.
    EnterEdit,
    /// Clear the cell, then start editing it.
    ReplaceEdit,
    EnterHeaderEdit,
    Copy,
    Paste,
    PasteDate,
    Undo,
    Quit,
    Confirm,
    Backspace,
    Printable(char),
    Unrecognized,
}

/// What the host loop does after a symbol was handled.
#[derive(Clone, Copy, Debug, PartialEq, Eq, Structural)]
pub enum Flow {
    /// Redraw and read the next key.
    Continue,
    /// Write the document to its file and end the loop.
    Stop,
}

impl Symbol {
    /// Whether the symbol only moves the cursor.
    pub open spec fn moves(self) -> bool {
        ||| self == Symbol::MoveLeft
        ||| self == Symbol::MoveRight
        ||| self == Symbol::MoveUp
        ||| self == Symbol::MoveDown
        ||| self == Symbol::PageUp
        ||| self == Symbol::PageDown
        ||| self == Symbol::JumpFirstRow
        ||| self == Symbol::JumpLastRow
        ||| self == Symbol::JumpFirstCol
        ||| self == Symbol::JumpLastCol
    }

    /// The symbol a key stands for while the cursor moves over the grid.
    pub open spec fn navigating(key: Key) -> Symbol {
        match key {
            Key::Char(c) => {
                if c == 'h' {
                    Symbol::MoveLeft
                } else if c == 'l' {
                    Symbol::MoveRight
                } else if c == 'k' {
                    Symbol::MoveUp
                } else if c == 'j' {
                    Symbol::MoveDown
                } else if c == '{' {
                    Symbol::PageUp
                } else if c == '}' {
                    Symbol::PageDown
                } else if c == 'g' {
                    Symbol::JumpFirstRow
                } else if c == 'G' {
                    Symbol::JumpLastRow
                } else if c == 'I' {
                    Symbol::JumpFirstCol
                } else if c == 'A' {
                    Symbol::JumpLastCol
                } else if c == 'o' {
                    Symbol::InsertRowAfter
                } else if c == 'O' {
                    Symbol::InsertRowBefore
                } else if c == 'd' {
                    Symbol::DeleteRow
                } else if c == 'n' {
                    Symbol::InsertColAfter
                } else if c == 'N' {
                    Symbol::InsertColBefore
                } else if c == 'D' {
                    Symbol::DeleteCol
                } else if c == 'i' {
                    Symbol::EnterEdit
                } else if c == 'r' {
                    Symbol::ReplaceEdit
                } else if c == 'H' {
                    Symbol::EnterHeaderEdit
                } else if c == 'y' {
                    Symbol::Copy
                } else if c == 'p' {
                    Symbol::Paste
                } else if c == '.' {
                    Symbol::PasteDate
                } else if c == 'u' {
                    Symbol::Undo
                } else if c == 'q' {
                    Symbol::Quit
                } else {
                    Symbol::Unrecognized
                }
            },
            Key::Enter => Symbol::EnterEdit,
            Key::Backspace => Symbol::Unrecognized,
            Key::Other => Symbol::Unrecognized,
        }
    }

    /// The symbol a key stands for while a cell or a header is being edited.
    pub open spec fn editing(key: Key) -> Symbol {
        match key {
            Key::Char(c) => Symbol::Printable(c),
            Key::Enter => Symbol::Confirm,
            Key::Backspace => Symbol::Backspace,
            Key::Other => Symbol::Unrecognized,
        }
    }

    /// The symbol a key stands for: keys are text while `editing`, commands otherwise.
    pub open spec fn of_key(editing: bool, key: Key) -> Symbol {
        if editing {
            Symbol::editing(key)
        } else {
            Symbol::navigating(key)
        }
    }

    /// Maps a key to its symbol.
    pub fn from_key(editing: bool, key: Key) -> (symbol: Symbol)
        ensures
            symbol == Symbol::of_key(editing, key),
    {
        if editing {
            match key {
                Key::Char(c) => Symbol::Printable(c),
                Key::Enter => Symbol::Confirm,
                Key::Backspace => Symbol::Backspace,
                Key::Other => Symbol::Unrecognized,
            }
        } else {
            match key {
                Key::Char('h') => Symbol::MoveLeft,
                Key::Char('l') => Symbol::MoveRight,
                Key::Char('k') => Symbol::MoveUp,
                Key::Char('j') => Symbol::MoveDown,
                Key::Char('{') => Symbol::PageUp,
                Key::Char('}') => Symbol::PageDown,
                Key::Char('g') => Symbol::JumpFirstRow,
                Key::Char('G') => Symbol::JumpLastRow,
                Key::Char('I') => Symbol::JumpFirstCol,
                Key::Char('A') => Symbol::JumpLastCol,
                Key::Char('o') => Symbol::InsertRowAfter,
                Key::Char('O') => Symbol::InsertRowBefore,
                Key::Char('d') => Symbol::DeleteRow,
                Key::Char('n') => Symbol::InsertColAfter,
                Key::Char('N') => Symbol::InsertColBefore,
                Key::Char('D') => Symbol::DeleteCol,
                Key::Char('i') | Key::Enter => Symbol::EnterEdit,
                Key::Char('r') => Symbol::ReplaceEdit,
                Key::Char('H') => Symbol::EnterHeaderEdit,
                Key::Char('y') => Symbol::Copy,
                Key::Char('p') => Symbol::Paste,
                Key::Char('.') => Symbol::PasteDate,
                Key::Char('u') => Symbol::Undo,
                Key::Char('q') => Symbol::Quit,
                _ => Symbol::Unrecognized,
            }
        }
    }
}

} // verus!
