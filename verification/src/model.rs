//! The editor itself: document, mode, undo history and clipboard.

use crate::clock::local_date;
use crate::keys::{Flow, Key, Symbol};
use crate::laws::lemma_step_keeps_well_formed;
use crate::machine::{clamp_index, is_date_text, AppState, Mode, ModelView, PAGE_SIZE};
use crate::table::{Document, Table};
use vstd::prelude::*;

verus! {

/// The editing model of one file.
#[derive(Debug)]
pub struct CSVModel {
    file_path: String,
    document: Document,
    state: AppState,
    working_states: Vec<Document>,
    copy_buffer: Option<String>,
}

impl View for CSVModel {
    type V = ModelView;

    closed spec fn view(&self) -> ModelView {
        ModelView {
            path: self.file_path@,
            table: self.document@,
            mode: self.state@,
            history: Seq::new(self.working_states@.len(), |k: int| self.working_states@[k]@),
            clipboard: match self.copy_buffer {
                Some(text) => Some(text@),
                None => None,
            },
        }
    }
}

/// The index among `0 .. n` nearest to `i`; 0 where `n` is 0.
fn clamp(i: usize, n: usize) -> (index: usize)
    ensures
        index == clamp_index(i as nat, n as nat),
{
    if i < n {
        i
    } else if n == 0 {
        0
    } else {
        n - 1
    }
}

impl CSVModel {
    /// The invariant of the editor: rectangular tables and a cursor in bounds.
    pub open spec fn well_formed(&self) -> bool {
        self@.well_formed()
    }

    /// An editor on the document made of `headers` and `rows`, each row
    /// fitted to the header's width.
    pub fn new(file_path: String, headers: Vec<String>, rows: Vec<Vec<String>>) -> (model: CSVModel)
        ensures
            model.well_formed(),
            model@ == ModelView::initial(
                file_path@,
                Table::normalized(headers.deep_view(), rows.deep_view()),
            ),
    {
        let model = CSVModel {
            file_path,
            document: Document::new(headers, rows),
            state: AppState::Navigating(0, 0),
            working_states: Vec::new(),
            copy_buffer: None,
        };
        assert(model@.history =~= Seq::empty());
        model
    }

    /// Tests the invariant.
    pub fn is_well_formed(&self) -> (ok: bool)
        ensures
            ok == self.well_formed(),
    {
        if !self.document.is_rectangular() {
            return false;
        }
        let mut k: usize = 0;
        while k < self.working_states.len()
            invariant
                k <= self.working_states.len(),
                forall|j: int| 0 <= j < k ==> (#[trigger] self@.history[j]).rectangular(),
            decreases self.working_states.len() - k,
        {
            if !self.working_states[k].is_rectangular() {
                assert(!self@.history[k as int].rectangular());
                return false;
            }
            k += 1;
        }
        let height = self.document.row_count();
        let width = self.document.col_count();
        match self.state {
            AppState::Navigating(row, col) => row == clamp(row, height) && col == clamp(col, width),
            AppState::Editing(row, col) => row < height && col < width,
            AppState::EditingHeader(col) => col < width,
        }
    }

    /// Path of the file the document belongs to.
    pub fn file_path(&self) -> (path: &String)
        ensures
            path@ == self@.path,
    {
        &self.file_path
    }

    /// The header texts.
    pub fn headers(&self) -> (headers: &Vec<String>)
        ensures
            headers.deep_view() == self@.table.headers,
    {
        self.document.headers()
    }

    /// The rows of the grid.
    pub fn grid(&self) -> (rows: &Vec<Vec<String>>)
        ensures
            rows.deep_view() == self@.table.rows,
    {
        self.document.rows()
    }

    /// The live document.
    pub fn document(&self) -> (document: &Document)
        ensures
            document@ == self@.table,
    {
        &self.document
    }

    /// The mode with its coordinates.
    pub fn state(&self) -> (state: AppState)
        ensures
            state@ == self@.mode,
    {
        self.state
    }

    /// The text on the clipboard, if any.
    pub fn copy_buffer(&self) -> (text: Option<&String>)
        ensures
            text.is_some() == self@.clipboard.is_some(),
            text matches Some(t) ==> self@.clipboard == Some(t@),
    {
        match &self.copy_buffer {
            Some(text) => Some(text),
            None => None,
        }
    }

    /// How many snapshots undo can go back.
    pub fn undo_depth(&self) -> (depth: usize)
        ensures
            depth == self@.history.len(),
    {
        self.working_states.len()
    }

    /// Row and column of the cursor; a header counts as row 0.
    pub fn get_current_row_and_col(&self) -> (cursor: (usize, usize))
        ensures
            (cursor.0 as nat, cursor.1 as nat) == self@.cursor(),
    {
        match self.state {
            AppState::Navigating(row, col) => (row, col),
            AppState::Editing(row, col) => (row, col),
            AppState::EditingHeader(col) => (0, col),
        }
    }

    /// Pushes a snapshot of the live document on the undo history.
    pub fn save_current_state(&mut self)
        ensures
            final(self)@ == old(self)@.saved(),
    {
        let snapshot = self.document.snapshot();
        self.working_states.push(snapshot);
        assert(self@.history =~= old(self)@.history.push(old(self)@.table));
    }

    /// Undo: puts the latest snapshot in place of the live document and takes
    /// it off the history, then brings the cursor back into the restored
    /// grid. With an empty history nothing changes.
    pub fn restore_last_state(&mut self)
        ensures
            final(self)@ == old(self)@.undo(),
    {
        let (row, col) = self.get_current_row_and_col();
        match self.working_states.pop() {
            Some(snapshot) => {
                self.document = snapshot;
                let height = self.document.row_count();
                if row >= height {
                    self.state = AppState::Navigating(clamp(row, height), 0);
                } else {
                    self.state = AppState::Navigating(row, clamp(col, self.document.col_count()));
                }
                assert(self@.history =~= old(self)@.history.drop_last());
            },
            None => {
            },
        }
    }

    /// Saves a snapshot, then places a blank row after row `row`. The cursor
    /// is left as it is.
    pub fn insert_empty_row_after(&mut self, row: usize)
        requires
            old(self)@.table.rectangular(),
            row < old(self)@.table.rows.len(),
        ensures
            final(self)@ == old(self)@.saved().with_table(old(self)@.table.insert_row(row as int + 1)),
    {
        let height = self.document.row_count();
        self.save_current_state();
        self.document.insert_row(row + 1);
    }

    /// Saves a snapshot, then places a blank row before row `row`. The cursor
    /// is left as it is.
    pub fn insert_empty_row_before(&mut self, row: usize)
        requires
            old(self)@.table.rectangular(),
            row < old(self)@.table.rows.len(),
        ensures
            final(self)@ == old(self)@.saved().with_table(old(self)@.table.insert_row(row as int)),
    {
        self.save_current_state();
        self.document.insert_row(row);
    }

    /// Saves a snapshot, then removes row `row`. The cursor is left as it is:
    /// the caller brings it back into the grid.
    pub fn delete_row(&mut self, row: usize)
        requires
            old(self)@.table.rectangular(),
            row < old(self)@.table.rows.len(),
        ensures
            final(self)@ == old(self)@.saved().with_table(old(self)@.table.delete_row(row as int)),
    {
        self.save_current_state();
        self.document.delete_row(row);
    }

    /// Saves a snapshot, then places an empty column after column `col`, in
    /// the headers and in every row. The cursor is left as it is.
    pub fn insert_empty_col_after(&mut self, col: usize)
        requires
            old(self)@.table.rectangular(),
            col < old(self)@.table.headers.len(),
        ensures
            final(self)@ == old(self)@.saved().with_table(old(self)@.table.insert_col(col as int + 1)),
    {
        let width = self.document.col_count();
        self.save_current_state();
        self.document.insert_col(col + 1);
    }

    /// Saves a snapshot, then places an empty column before column `col`, in
    /// the headers and in every row. The cursor is left as it is.
    pub fn insert_empty_col_before(&mut self, col: usize)
        requires
            old(self)@.table.rectangular(),
            col < old(self)@.table.headers.len(),
        ensures
            final(self)@ == old(self)@.saved().with_table(old(self)@.table.insert_col(col as int)),
    {
        self.save_current_state();
        self.document.insert_col(col);
    }

    /// Saves a snapshot, then removes column `col` from the headers and from
    /// every row. The cursor is left as it is: the caller brings it back
    /// into the grid.
    pub fn delete_col(&mut self, col: usize)
        requires
            old(self)@.table.rectangular(),
            col < old(self)@.table.headers.len(),
        ensures
            final(self)@ == old(self)@.saved().with_table(old(self)@.table.delete_col(col as int)),
    {
        self.save_current_state();
        self.document.delete_col(col);
    }

    /// Copies the text of the cell under the cursor to the clipboard. Does
    /// nothing unless the editor is navigating on a cell.
    pub fn copy_selected_cell_to_buffer(&mut self)
        requires
            old(self)@.table.rectangular(),
        ensures
            final(self)@ == old(self)@.copied(),
    {
        match self.state {
            AppState::Navigating(row, col) => {
                if row < self.document.row_count() && col < self.document.col_count() {
                    let text = self.document.cell(row, col).clone();
                    self.copy_buffer = Some(text);
                }
            },
            _ => {},
        }
    }

    /// Overwrites the cell under the cursor with `value`. Does nothing unless
    /// the editor is navigating on a cell. Pushes no snapshot: the caller has.
    fn overwrite_selected_cell(&mut self, value: String)
        requires
            old(self)@.table.rectangular(),
        ensures
            final(self)@ == old(self)@.overwritten(value@),
    {
        match self.state {
            AppState::Navigating(row, col) => {
                if row < self.document.row_count() && col < self.document.col_count() {
                    self.document.set_cell(row, col, value);
                }
            },
            _ => {},
        }
    }

    /// Whether the editor is navigating with its cursor on a cell.
    pub fn on_cell(&self) -> (yes: bool)
        ensures
            yes == self@.on_cell(),
    {
        match self.state {
            AppState::Navigating(row, col) => row < self.document.row_count() && col
                < self.document.col_count(),
            _ => false,
        }
    }

    /// The paste: pushes a snapshot, then overwrites the cell under the
    /// cursor with the clipboard's text. The clipboard keeps its text. Does
    /// nothing, and pushes nothing, where the clipboard is empty or the
    /// editor is not navigating on a cell.
    pub fn paste_from_buffer(&mut self)
        requires
            old(self)@.table.rectangular(),
        ensures
            final(self)@ == old(self)@.pasted(),
    {
        let value = match &self.copy_buffer {
            Some(text) => Some(text.clone()),
            None => None,
        };
        match value {
            Some(text) => {
                if self.on_cell() {
                    self.save_current_state();
                    self.overwrite_selected_cell(text);
                }
            },
            None => {},
        }
    }

    /// The date paste with `today` as the date: pushes a snapshot, then
    /// overwrites the cell under the cursor with `today`. Does nothing, and
    /// pushes nothing, unless the editor is navigating on a cell.
    pub fn paste_date_text(&mut self, today: String)
        requires
            old(self)@.table.rectangular(),
        ensures
            final(self)@ == old(self)@.date_pasted(today@),
    {
        if self.on_cell() {
            self.save_current_state();
            self.overwrite_selected_cell(today);
        }
    }

    /// Moves the cursor while navigating.
    fn move_to(&mut self, row: usize, col: usize)
        ensures
            final(self)@ == old(self)@.at(row as nat, col as nat),
    {
        self.state = AppState::Navigating(row, col);
    }

    /// Handles a symbol given while navigating at `(row, col)`.
    fn navigate(&mut self, row: usize, col: usize, symbol: Symbol, today: String)
        requires
            old(self).well_formed(),
            old(self)@.mode == (Mode::Navigating { row: row as nat, col: col as nat }),
        ensures
            final(self)@ == old(self)@.navigate(row as nat, col as nat, symbol, today@),
    {
        let height = self.document.row_count();
        let width = self.document.col_count();
        let on_cell = row < height && col < width;
        match symbol {
            Symbol::MoveLeft => {
                if col > 0 {
                    self.move_to(row, col - 1);
                }
            },
            Symbol::MoveRight => {
                if col + 1 < width {
                    self.move_to(row, col + 1);
                }
            },
            Symbol::MoveUp => {
                if row > 0 {
                    self.move_to(row - 1, col);
                }
            },
            Symbol::MoveDown => {
                if row + 1 < height {
                    self.move_to(row + 1, col);
                }
            },
            Symbol::PageUp => {
                if row >= PAGE_SIZE {
                    self.move_to(row - PAGE_SIZE, col);
                } else {
                    self.move_to(0, col);
                }
            },
            Symbol::PageDown => {
                if row < height && height - row > PAGE_SIZE {
                    self.move_to(row + PAGE_SIZE, col);
                } else {
                    self.move_to(clamp(height, height), col);
                }
            },
            Symbol::JumpFirstRow => self.move_to(0, col),
            Symbol::JumpLastRow => self.move_to(clamp(height, height), col),
            Symbol::JumpFirstCol => self.move_to(row, 0),
            Symbol::JumpLastCol => self.move_to(row, clamp(width, width)),
            Symbol::Undo => self.restore_last_state(),
            Symbol::InsertRowAfter => {
                if row < height {
                    self.insert_empty_row_after(row);
                    self.move_to(row + 1, col);
                }
            },
            Symbol::InsertRowBefore => {
                if row < height {
                    self.insert_empty_row_before(row);
                    self.move_to(row, col);
                }
            },
            Symbol::DeleteRow => {
                if row < height {
                    self.delete_row(row);
                    self.move_to(clamp(row, height - 1), col);
                }
            },
            Symbol::InsertColAfter => {
                if col < width {
                    self.insert_empty_col_after(col);
                    self.move_to(row, col + 1);
                }
            },
            Symbol::InsertColBefore => {
                if col < width {
                    self.insert_empty_col_before(col);
                    self.move_to(row, col);
                }
            },
            Symbol::DeleteCol => {
                if col < width {
                    self.delete_col(col);
                    self.move_to(row, clamp(col, width - 1));
                }
            },
            Symbol::EnterEdit => {
                if on_cell {
                    self.save_current_state();
                    self.state = AppState::Editing(row, col);
                }
            },
            Symbol::ReplaceEdit => {
                if on_cell {
                    self.save_current_state();
                    self.overwrite_selected_cell(String::new());
                    self.state = AppState::Editing(row, col);
                }
            },
            Symbol::EnterHeaderEdit => {
                if col < width {
                    self.save_current_state();
                    self.state = AppState::EditingHeader(col);
                }
            },
            Symbol::Copy => self.copy_selected_cell_to_buffer(),
            Symbol::Paste => self.paste_from_buffer(),
            Symbol::PasteDate => self.paste_date_text(today),
            Symbol::Quit => {},
            Symbol::Confirm => {},
            Symbol::Backspace => {},
            Symbol::Printable(_) => {},
            Symbol::Unrecognized => {},
        }
    }

    /// Handles a symbol given while the cell `(row, col)` is edited.
    fn edit_cell(&mut self, row: usize, col: usize, symbol: Symbol)
        requires
            old(self).well_formed(),
            old(self)@.mode == (Mode::EditingCell { row: row as nat, col: col as nat }),
        ensures
            final(self)@ == old(self)@.edit_cell(row as nat, col as nat, symbol),
    {
        match symbol {
            Symbol::Printable(c) => self.document.append_char(row, col, c),
            Symbol::Backspace => self.document.pop_char(row, col),
            Symbol::Confirm => self.move_to(row, col),
            _ => {},
        }
    }

    /// Handles a symbol given while the header of column `col` is edited.
    fn edit_header(&mut self, col: usize, symbol: Symbol)
        requires
            old(self).well_formed(),
            old(self)@.mode == (Mode::EditingHeader { col: col as nat }),
        ensures
            final(self)@ == old(self)@.edit_header(col as nat, symbol),
    {
        match symbol {
            Symbol::Printable(c) => self.document.append_header_char(col, c),
            Symbol::Backspace => self.document.pop_header_char(col),
            Symbol::Confirm => self.move_to(0, col),
            _ => {},
        }
    }

    /// Handles one symbol: the editor makes the transition that the symbol
    /// causes in its mode, and says whether the host loop goes on. `today`
    /// is the text that a date paste writes; no other symbol reads it.
    /// On `Flow::Stop` the host writes the document to its file.
    pub fn apply(&mut self, symbol: Symbol, today: String) -> (flow: Flow)
        requires
            old(self).well_formed(),
        ensures
            final(self).well_formed(),
            final(self)@ == old(self)@.step(symbol, today@),
            flow == old(self)@.flow(symbol),
    {
        proof {
            lemma_step_keeps_well_formed(self@, symbol, today@);
        }
        match self.state {
            AppState::Navigating(row, col) => {
                self.navigate(row, col, symbol, today);
                match symbol {
                    Symbol::Quit => Flow::Stop,
                    _ => Flow::Continue,
                }
            },
            AppState::Editing(row, col) => {
                self.edit_cell(row, col, symbol);
                Flow::Continue
            },
            AppState::EditingHeader(col) => {
                self.edit_header(col, symbol);
                Flow::Continue
            },
        }
    }

    /// The date paste: pushes a snapshot, then overwrites the cell under the
    /// cursor with today's date, read from the system clock and written as
    /// year, month and day with `-` between them. Does nothing, and pushes
    /// nothing, unless the editor is navigating on a cell.
    pub fn paste_date(&mut self)
        requires
            old(self)@.table.rectangular(),
        ensures
            exists|today: Seq<char>|
                is_date_text(today) && final(self)@ == #[trigger] old(self)@.date_pasted(today),
    {
        let today = local_date();
        self.paste_date_text(today);
    }

    /// Handles one key: maps it to the symbol it stands for in the current
    /// mode and makes that symbol's transition. For a date paste the date is
    /// read from the system clock and has the shape of a date; no other
    /// symbol depends on it.
    /// On `Flow::Stop` the host writes the document to its file.
    pub fn handle_keyboard_input(&mut self, key: Key) -> (flow: Flow)
        requires
            old(self).well_formed(),
        ensures
            final(self).well_formed(),
            flow == old(self)@.flow(Symbol::of_key(old(self)@.editing(), key)),
            exists|today: Seq<char>|
                (Symbol::of_key(old(self)@.editing(), key) == Symbol::PasteDate ==> is_date_text(today))
                    && final(self)@ == #[trigger] old(self)@.step(
                    Symbol::of_key(old(self)@.editing(), key),
                    today,
                ),
            Symbol::of_key(old(self)@.editing(), key) != Symbol::PasteDate ==> forall|today: Seq<char>|
                final(self)@ == #[trigger] old(self)@.step(Symbol::of_key(old(self)@.editing(), key), today),
    {
        let editing = match self.state {
            AppState::Navigating(_, _) => false,
            _ => true,
        };
        let symbol = Symbol::from_key(editing, key);
        let today = match symbol {
            Symbol::PasteDate => local_date(),
            _ => String::new(),
        };
        self.apply(symbol, today)
    }
}

} // verus!
