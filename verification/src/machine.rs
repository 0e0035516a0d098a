//! The state machine as mathematics: the mode with its cursor, the model of
//! the whole editor and the transition that every symbol causes.

use crate::keys::{Flow, Symbol};
use crate::table::{without_last, Table};
use vstd::prelude::*;

verus! {

/// Rows that a page movement skips.
pub const PAGE_SIZE: usize = 5;

/// The mode of the editor, each with the coordinates it owns.
#[derive(Clone, Copy, Debug, PartialEq, Eq, Structural)]
pub enum AppState {
    /// Moving over the grid, at `(row, col)`.
    Navigating(usize, usize),
    /// Typing into the cell `(row, col)`.
    Editing(usize, usize),
    /// Typing into the header of column `col`.
    EditingHeader(usize),
}

/// Mathematical model of the mode.
pub enum Mode {
    Navigating { row: nat, col: nat },
    EditingCell { row: nat, col: nat },
    EditingHeader { col: nat },
}

impl View for AppState {
    type V = Mode;

    open spec fn view(&self) -> Mode {
        match *self {
            AppState::Navigating(row, col) => Mode::Navigating { row: row as nat, col: col as nat },
            AppState::Editing(row, col) => Mode::EditingCell { row: row as nat, col: col as nat },
            AppState::EditingHeader(col) => Mode::EditingHeader { col: col as nat },
        }
    }
}

/// Whether `c` is one of the digits `0` to `9`.
pub open spec fn is_digit(c: char) -> bool {
    '0' <= c && c <= '9'
}

/// The shape of a calendar date as text: it ends in the last four digits of
/// the year, `-`, a month of two digits, `-` and a day of two digits. What
/// stands before them, the sign and the further digits of a year that four
/// digits cannot hold, is left open.
pub open spec fn is_date_text(text: Seq<char>) -> bool {
    let n = text.len() as int;
    &&& n >= 10
    &&& is_digit(text[n - 10]) && is_digit(text[n - 9]) && is_digit(text[n - 8]) && is_digit(text[n - 7])
    &&& text[n - 6] == '-'
    &&& is_digit(text[n - 5]) && is_digit(text[n - 4])
    &&& text[n - 3] == '-'
    &&& is_digit(text[n - 2]) && is_digit(text[n - 1])
}

/// The index among `0 .. n` that is nearest to `i`; 0 where `n` is 0.
pub open spec fn clamp_index(i: nat, n: nat) -> nat {
    if i < n {
        i
    } else if n == 0 {
        0
    } else {
        (n - 1) as nat
    }
}

/// Mathematical model of the editor.
pub struct ModelView {
    /// Path of the file the document came from.
    pub path: Seq<char>,
    /// The live document.
    pub table: Table,
    pub mode: Mode,
    /// Snapshots for undo, the latest last.
    pub history: Seq<Table>,
    pub clipboard: Option<Seq<char>>,
}

/// One input to the editor: a symbol, and the date text that was current
/// when it was given.
pub struct Event {
    pub symbol: Symbol,
    pub today: Seq<char>,
}

impl ModelView {
    /// The editor as it starts on `table`: at the top left, nothing to undo,
    /// nothing copied.
    pub open spec fn initial(path: Seq<char>, table: Table) -> ModelView {
        ModelView {
            path,
            table,
            mode: Mode::Navigating { row: 0, col: 0 },
            history: Seq::empty(),
            clipboard: None,
        }
    }

    /// The live document and every snapshot are rectangular.
    pub open spec fn tables_rectangular(self) -> bool {
        &&& self.table.rectangular()
        &&& forall|k: int| 0 <= k < self.history.len() ==> (#[trigger] self.history[k]).rectangular()
    }

    /// The coordinates of the mode address the grid. While navigating, a
    /// coordinate is 0 where the grid has no row, or no column, to address.
    pub open spec fn cursor_in_bounds(self) -> bool {
        match self.mode {
            Mode::Navigating { row, col } => {
                &&& row == clamp_index(row, self.table.rows.len())
                &&& col == clamp_index(col, self.table.headers.len())
            },
            Mode::EditingCell { row, col } => self.table.has_cell(row as int, col as int),
            Mode::EditingHeader { col } => col < self.table.headers.len(),
        }
    }

    /// The invariant of the editor.
    pub open spec fn well_formed(self) -> bool {
        self.tables_rectangular() && self.cursor_in_bounds()
    }

    /// Row and column of the mode; a header has row 0.
    pub open spec fn cursor(self) -> (nat, nat) {
        match self.mode {
            Mode::Navigating { row, col } => (row, col),
            Mode::EditingCell { row, col } => (row, col),
            Mode::EditingHeader { col } => (0, col),
        }
    }

    /// Navigating at `(row, col)`, all else unchanged.
    pub open spec fn at(self, row: nat, col: nat) -> ModelView {
        ModelView { mode: Mode::Navigating { row, col }, ..self }
    }

    /// In mode `mode`, all else unchanged.
    pub open spec fn with_mode(self, mode: Mode) -> ModelView {
        ModelView { mode, ..self }
    }

    /// With `table` as the live document, all else unchanged.
    pub open spec fn with_table(self, table: Table) -> ModelView {
        ModelView { table, ..self }
    }

    /// A snapshot of the live document pushed on the history.
    pub open spec fn saved(self) -> ModelView {
        ModelView { history: self.history.push(self.table), ..self }
    }

    /// The latest snapshot put in place of the live document and taken off
    /// the history. The cursor goes to the last row, first column, where its
    /// row is gone; else its column is clamped to the restored width. With
    /// nothing to undo, nothing changes.
    pub open spec fn undo(self) -> ModelView {
        if self.history.len() == 0 {
            self
        } else {
            let table = self.history.last();
            let (row, col) = self.cursor();
            let mode = if row >= table.rows.len() {
                Mode::Navigating { row: clamp_index(row, table.rows.len()), col: 0 }
            } else {
                Mode::Navigating { row, col: clamp_index(col, table.headers.len()) }
            };
            ModelView { table, mode, history: self.history.drop_last(), ..self }
        }
    }

    /// The cell under the cursor copied to the clipboard, while navigating on a cell.
    pub open spec fn copied(self) -> ModelView {
        match self.mode {
            Mode::Navigating { row, col } if self.table.has_cell(row as int, col as int) => ModelView {
                clipboard: Some(self.table.rows[row as int][col as int]),
                ..self
            },
            _ => self,
        }
    }

    /// The cell under the cursor overwritten with `value`, while navigating on a cell.
    pub open spec fn overwritten(self, value: Seq<char>) -> ModelView {
        match self.mode {
            Mode::Navigating { row, col } if self.table.has_cell(row as int, col as int) => self.with_table(
                self.table.with_cell(row as int, col as int, value),
            ),
            _ => self,
        }
    }

    /// Whether the editor is navigating with its cursor on a cell of the grid.
    pub open spec fn on_cell(self) -> bool {
        self.mode matches Mode::Navigating { row, col } && self.table.has_cell(row as int, col as int)
    }

    /// The paste: while navigating on a cell with a text on the clipboard, a
    /// snapshot is pushed and the cell is then overwritten with that text,
    /// which stays on the clipboard. Else nothing changes.
    pub open spec fn pasted(self) -> ModelView {
        match self.clipboard {
            Some(value) if self.on_cell() => self.saved().overwritten(value),
            _ => self,
        }
    }

    /// The date paste: while navigating on a cell, a snapshot is pushed and
    /// the cell is then overwritten with `today`. Else nothing changes.
    pub open spec fn date_pasted(self, today: Seq<char>) -> ModelView {
        if self.on_cell() {
            self.saved().overwritten(today)
        } else {
            self
        }
    }

    /// What a symbol does while navigating at `(row, col)`.
    pub open spec fn navigate(self, row: nat, col: nat, symbol: Symbol, today: Seq<char>) -> ModelView {
        let height = self.table.rows.len();
        let width = self.table.headers.len();
        let on_cell = self.table.has_cell(row as int, col as int);
        match symbol {
            Symbol::MoveLeft => self.at(row, if col > 0 { (col - 1) as nat } else { col }),
            Symbol::MoveRight => self.at(row, if col + 1 < width { col + 1 } else { col }),
            Symbol::MoveUp => self.at(if row > 0 { (row - 1) as nat } else { row }, col),
            Symbol::MoveDown => self.at(if row + 1 < height { row + 1 } else { row }, col),
            Symbol::PageUp => self.at(if row >= PAGE_SIZE { (row - PAGE_SIZE) as nat } else { 0 }, col),
            Symbol::PageDown => self.at(clamp_index(row + PAGE_SIZE as nat, height), col),
            Symbol::JumpFirstRow => self.at(0, col),
            Symbol::JumpLastRow => self.at(clamp_index(height, height), col),
            Symbol::JumpFirstCol => self.at(row, 0),
            Symbol::JumpLastCol => self.at(row, clamp_index(width, width)),
            Symbol::Undo => self.undo(),
            Symbol::InsertRowAfter => if row < height {
                self.saved().with_table(self.table.insert_row(row as int + 1)).at(row + 1, col)
            } else {
                self
            },
            Symbol::InsertRowBefore => if row < height {
                self.saved().with_table(self.table.insert_row(row as int)).at(row, col)
            } else {
                self
            },
            Symbol::DeleteRow => if row < height {
                self.saved().with_table(self.table.delete_row(row as int)).at(
                    clamp_index(row, (height - 1) as nat),
                    col,
                )
            } else {
                self
            },
            Symbol::InsertColAfter => if col < width {
                self.saved().with_table(self.table.insert_col(col as int + 1)).at(row, col + 1)
            } else {
                self
            },
            Symbol::InsertColBefore => if col < width {
                self.saved().with_table(self.table.insert_col(col as int)).at(row, col)
            } else {
                self
            },
            Symbol::DeleteCol => if col < width {
                self.saved().with_table(self.table.delete_col(col as int)).at(
                    row,
                    clamp_index(col, (width - 1) as nat),
                )
            } else {
                self
            },
            Symbol::EnterEdit => if on_cell {
                self.saved().with_mode(Mode::EditingCell { row, col })
            } else {
                self
            },
            Symbol::ReplaceEdit => if on_cell {
                self.saved().overwritten(Seq::empty()).with_mode(Mode::EditingCell { row, col })
            } else {
                self
            },
            Symbol::EnterHeaderEdit => if col < width {
                self.saved().with_mode(Mode::EditingHeader { col })
            } else {
                self
            },
            Symbol::Copy => self.copied(),
            Symbol::Paste => self.pasted(),
            Symbol::PasteDate => self.date_pasted(today),
            Symbol::Quit => self,
            Symbol::Confirm => self,
            Symbol::Backspace => self,
            Symbol::Printable(_) => self,
            Symbol::Unrecognized => self,
        }
    }

    /// What a symbol does while the cell `(row, col)` is edited.
    pub open spec fn edit_cell(self, row: nat, col: nat, symbol: Symbol) -> ModelView {
        let text = self.table.rows[row as int][col as int];
        match symbol {
            Symbol::Printable(c) => self.with_table(self.table.with_cell(row as int, col as int, text.push(c))),
            Symbol::Backspace => self.with_table(
                self.table.with_cell(row as int, col as int, without_last(text)),
            ),
            Symbol::Confirm => self.at(row, col),
            _ => self,
        }
    }

    /// What a symbol does while the header of column `col` is edited.
    pub open spec fn edit_header(self, col: nat, symbol: Symbol) -> ModelView {
        let text = self.table.headers[col as int];
        match symbol {
            Symbol::Printable(c) => self.with_table(self.table.with_header(col as int, text.push(c))),
            Symbol::Backspace => self.with_table(self.table.with_header(col as int, without_last(text))),
            Symbol::Confirm => self.at(0, col),
            _ => self,
        }
    }

    /// The editor after `symbol`; `today` is the text that a date paste writes.
    pub open spec fn step(self, symbol: Symbol, today: Seq<char>) -> ModelView {
        match self.mode {
            Mode::Navigating { row, col } => self.navigate(row, col, symbol, today),
            Mode::EditingCell { row, col } => self.edit_cell(row, col, symbol),
            Mode::EditingHeader { col } => self.edit_header(col, symbol),
        }
    }

    /// Whether text is being typed, into a cell or a header.
    pub open spec fn editing(self) -> bool {
        !(self.mode is Navigating)
    }

    /// The loop ends on the quit symbol given while navigating, and on nothing else.
    pub open spec fn flow(self, symbol: Symbol) -> Flow {
        if self.mode is Navigating && symbol == Symbol::Quit {
            Flow::Stop
        } else {
            Flow::Continue
        }
    }

    /// The editor after the events of `events`, in order.
    pub open spec fn run(self, events: Seq<Event>) -> ModelView
        decreases events.len(),
    {
        if events.len() == 0 {
            self
        } else {
            self.run(events.drop_last()).step(events.last().symbol, events.last().today)
        }
    }

    /// The editor after `count` undos.
    pub open spec fn undo_times(self, count: nat) -> ModelView
        decreases count,
    {
        if count == 0 {
            self
        } else {
            self.undo_times((count - 1) as nat).undo()
        }
    }
}

/// The undo symbol, `count` times over.
pub open spec fn undo_events(count: nat, today: Seq<char>) -> Seq<Event> {
    Seq::new(count, |k: int| Event { symbol: Symbol::Undo, today })
}

} // verus!
