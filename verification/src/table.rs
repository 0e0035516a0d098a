//! The document: a header line and a rectangular grid of text cells.

use vstd::prelude::*;

verus! {

/// Mathematical model of a document: the header texts and the rows of cell texts.
pub struct Table {
    pub headers: Seq<Seq<char>>,
    pub rows: Seq<Seq<Seq<char>>>,
}

/// `row` cut or padded with empty texts to exactly `width` cells.
pub open spec fn fit(row: Seq<Seq<char>>, width: nat) -> Seq<Seq<char>> {
    Seq::new(
        width,
        |j: int|
            if j < row.len() {
                row[j]
            } else {
                Seq::<char>::empty()
            },
    )
}

impl Table {
    /// Every row has exactly as many cells as there are headers.
    pub open spec fn rectangular(self) -> bool {
        forall|i: int| 0 <= i < self.rows.len() ==> (#[trigger] self.rows[i]).len() == self.headers.len()
    }

    /// The table made of `headers` and of each of `rows` fitted to the header's width.
    pub open spec fn normalized(headers: Seq<Seq<char>>, rows: Seq<Seq<Seq<char>>>) -> Table {
        Table { headers, rows: Seq::new(rows.len(), |i: int| fit(rows[i], headers.len())) }
    }

    /// A row of empty cells, one per header.
    pub open spec fn blank_row(self) -> Seq<Seq<char>> {
        Seq::new(self.headers.len(), |j: int| Seq::<char>::empty())
    }

    /// Whether `(row, col)` addresses a cell of the grid.
    pub open spec fn has_cell(self, row: int, col: int) -> bool {
        0 <= row < self.rows.len() && 0 <= col < self.headers.len()
    }

    /// A blank row placed at index `at`; the rows from `at` on move down by one.
    pub open spec fn insert_row(self, at: int) -> Table {
        Table { headers: self.headers, rows: self.rows.insert(at, self.blank_row()) }
    }

    /// The row at index `at` taken out.
    pub open spec fn delete_row(self, at: int) -> Table {
        Table { headers: self.headers, rows: self.rows.remove(at) }
    }

    /// An empty column placed at index `at`, in the headers and in every row alike.
    pub open spec fn insert_col(self, at: int) -> Table {
        Table {
            headers: self.headers.insert(at, Seq::<char>::empty()),
            rows: Seq::new(self.rows.len(), |i: int| self.rows[i].insert(at, Seq::<char>::empty())),
        }
    }

    /// The column at index `at` taken out of the headers and of every row alike.
    pub open spec fn delete_col(self, at: int) -> Table {
        Table {
            headers: self.headers.remove(at),
            rows: Seq::new(self.rows.len(), |i: int| self.rows[i].remove(at)),
        }
    }

    /// The cell `(row, col)` replaced by `value`.
    pub open spec fn with_cell(self, row: int, col: int, value: Seq<char>) -> Table {
        Table { headers: self.headers, rows: self.rows.update(row, self.rows[row].update(col, value)) }
    }

    /// The header of column `col` replaced by `value`.
    pub open spec fn with_header(self, col: int, value: Seq<char>) -> Table {
        Table { headers: self.headers.update(col, value), rows: self.rows }
    }
}

/// `text` without its last character; the empty text stays empty.
pub open spec fn without_last(text: Seq<char>) -> Seq<char> {
    if text.len() == 0 {
        text
    } else {
        text.drop_last()
    }
}

/// The headers and the row grid, kept rectangular by every operation.
#[derive(Debug)]
pub struct Document {
    headers: Vec<String>,
    rows: Vec<Vec<String>>,
}

impl View for Document {
    type V = Table;

    closed spec fn view(&self) -> Table {
        Table { headers: self.headers.deep_view(), rows: self.rows.deep_view() }
    }
}

/// A copy of `row`, cell by cell.
fn copy_row(row: &Vec<String>) -> (copy: Vec<String>)
    ensures
        copy.deep_view() == row.deep_view(),
{
    let mut copy: Vec<String> = Vec::new();
    let mut j: usize = 0;
    while j < row.len()
        invariant
            j <= row.len(),
            copy.len() == j,
            forall|k: int| 0 <= k < j ==> copy@[k]@ == row@[k]@,
        decreases row.len() - j,
    {
        copy.push(row[j].clone());
        j += 1;
    }
    copy
}

/// A copy of `row` cut or padded with empty cells to `width` cells.
fn fit_row(row: &Vec<String>, width: usize) -> (fitted: Vec<String>)
    ensures
        fitted.deep_view() == fit(row.deep_view(), width as nat),
{
    let mut fitted: Vec<String> = Vec::new();
    let mut j: usize = 0;
    while j < width
        invariant
            j <= width,
            fitted.len() == j,
            forall|k: int|
                0 <= k < j ==> fitted@[k]@ == (if k < row.len() {
                    row@[k]@
                } else {
                    Seq::<char>::empty()
                }),
        decreases width - j,
    {
        if j < row.len() {
            fitted.push(row[j].clone());
        } else {
            fitted.push(String::new());
        }
        j += 1;
    }
    fitted
}

/// A row of `width` empty cells.
fn blank_cells(width: usize) -> (row: Vec<String>)
    ensures
        row.deep_view() == Seq::new(width as nat, |j: int| Seq::<char>::empty()),
{
    let mut row: Vec<String> = Vec::new();
    let mut j: usize = 0;
    while j < width
        invariant
            j <= width,
            row.len() == j,
            forall|k: int| 0 <= k < j ==> row@[k]@ == Seq::<char>::empty(),
        decreases width - j,
    {
        row.push(String::new());
        j += 1;
    }
    row
}

impl Document {
    /// The invariant of a document: its table is rectangular.
    pub open spec fn well_formed(&self) -> bool {
        self@.rectangular()
    }

    /// Builds a document from a header line and rows, fitting each row to the
    /// header's width: longer rows lose their surplus cells, shorter ones get
    /// empty cells. Rows that already have the header's width are kept as they are.
    pub fn new(headers: Vec<String>, rows: Vec<Vec<String>>) -> (doc: Document)
        ensures
            doc.well_formed(),
            doc@ == Table::normalized(headers.deep_view(), rows.deep_view()),
    {
        let width = headers.len();
        let mut fitted: Vec<Vec<String>> = Vec::new();
        let mut i: usize = 0;
        while i < rows.len()
            invariant
                i <= rows.len(),
                fitted.len() == i,
                width == headers.len(),
                forall|k: int|
                    0 <= k < i ==> (#[trigger] fitted@[k]).deep_view() == fit(
                        rows@[k].deep_view(),
                        width as nat,
                    ),
            decreases rows.len() - i,
        {
            fitted.push(fit_row(&rows[i], width));
            i += 1;
        }
        let doc = Document { headers, rows: fitted };
        assert(doc@.rows =~= Table::normalized(headers.deep_view(), rows.deep_view()).rows);
        doc
    }

    /// Tests the invariant: whether every row has the header's width.
    pub fn is_rectangular(&self) -> (ok: bool)
        ensures
            ok == self.well_formed(),
    {
        let width = self.headers.len();
        let mut i: usize = 0;
        while i < self.rows.len()
            invariant
                i <= self.rows.len(),
                width == self@.headers.len(),
                forall|k: int| 0 <= k < i ==> (#[trigger] self@.rows[k]).len() == width,
            decreases self.rows.len() - i,
        {
            if self.rows[i].len() != width {
                assert(self@.rows[i as int].len() == self.rows@[i as int]@.len());
                return false;
            }
            i += 1;
        }
        true
    }

    /// The header texts, in column order.
    pub fn headers(&self) -> (headers: &Vec<String>)
        ensures
            headers.deep_view() == self@.headers,
    {
        &self.headers
    }

    /// The rows, each a list of cell texts in column order.
    pub fn rows(&self) -> (rows: &Vec<Vec<String>>)
        ensures
            rows.deep_view() == self@.rows,
    {
        &self.rows
    }

    /// The number of rows.
    pub fn row_count(&self) -> (n: usize)
        ensures
            n == self@.rows.len(),
    {
        self.rows.len()
    }

    /// The number of columns.
    pub fn col_count(&self) -> (n: usize)
        ensures
            n == self@.headers.len(),
    {
        self.headers.len()
    }

    /// The text of cell `(row, col)`.
    pub fn cell(&self, row: usize, col: usize) -> (text: &String)
        requires
            self.well_formed(),
            self@.has_cell(row as int, col as int),
        ensures
            text@ == self@.rows[row as int][col as int],
    {
        assert(self.rows@[row as int].deep_view() == self@.rows[row as int]);
        &self.rows[row][col]
    }

    /// The text of the header of column `col`.
    pub fn header(&self, col: usize) -> (text: &String)
        requires
            col < self@.headers.len(),
        ensures
            text@ == self@.headers[col as int],
    {
        &self.headers[col]
    }

    /// A full copy of the document, as kept for undo.
    pub fn snapshot(&self) -> (copy: Document)
        ensures
            copy@ == self@,
    {
        let headers = copy_row(&self.headers);
        let mut rows: Vec<Vec<String>> = Vec::new();
        let mut i: usize = 0;
        while i < self.rows.len()
            invariant
                i <= self.rows.len(),
                rows.len() == i,
                forall|k: int| 0 <= k < i ==> (#[trigger] rows@[k]).deep_view() == self.rows@[k].deep_view(),
            decreases self.rows.len() - i,
        {
            rows.push(copy_row(&self.rows[i]));
            i += 1;
        }
        let copy = Document { headers, rows };
        assert(copy@.rows =~= self@.rows);
        copy
    }

    /// Places a blank row at index `at`: before the row that was there, or
    /// after the last row where `at` is the number of rows.
    pub fn insert_row(&mut self, at: usize)
        requires
            old(self).well_formed(),
            at <= old(self)@.rows.len(),
        ensures
            final(self).well_formed(),
            final(self)@ == old(self)@.insert_row(at as int),
    {
        let blank = blank_cells(self.headers.len());
        self.rows.insert(at, blank);
        assert(self@.rows =~= old(self)@.rows.insert(at as int, old(self)@.blank_row()));
    }

    /// Removes the row at index `at`. Removing the only row leaves a grid of no rows.
    pub fn delete_row(&mut self, at: usize)
        requires
            old(self).well_formed(),
            at < old(self)@.rows.len(),
        ensures
            final(self).well_formed(),
            final(self)@ == old(self)@.delete_row(at as int),
    {
        self.rows.remove(at);
        assert(self@.rows =~= old(self)@.rows.remove(at as int));
    }

    /// Places an empty column at index `at`, in the headers and in every row.
    pub fn insert_col(&mut self, at: usize)
        requires
            old(self).well_formed(),
            at <= old(self)@.headers.len(),
        ensures
            final(self).well_formed(),
            final(self)@ == old(self)@.insert_col(at as int),
    {
        let ghost before = self@;
        self.headers.insert(at, String::new());
        let n = self.rows.len();
        let mut i: usize = 0;
        while i < n
            invariant
                i <= n,
                n == self.rows.len(),
                n == before.rows.len(),
                before.rectangular(),
                at <= before.headers.len(),
                self.headers.deep_view() == before.headers.insert(at as int, Seq::<char>::empty()),
                forall|k: int|
                    0 <= k < i ==> (#[trigger] self.rows@[k]).deep_view() == before.rows[k].insert(
                        at as int,
                        Seq::<char>::empty(),
                    ),
                forall|k: int| i <= k < n ==> (#[trigger] self.rows@[k]).deep_view() == before.rows[k],
            decreases n - i,
        {
            self.rows[i].insert(at, String::new());
            i += 1;
        }
        assert(self@.rows =~= before.insert_col(at as int).rows);
    }

    /// Removes the column at index `at` from the headers and from every row.
    pub fn delete_col(&mut self, at: usize)
        requires
            old(self).well_formed(),
            at < old(self)@.headers.len(),
        ensures
            final(self).well_formed(),
            final(self)@ == old(self)@.delete_col(at as int),
    {
        let ghost before = self@;
        self.headers.remove(at);
        let n = self.rows.len();
        let mut i: usize = 0;
        while i < n
            invariant
                i <= n,
                n == self.rows.len(),
                n == before.rows.len(),
                before.rectangular(),
                at < before.headers.len(),
                self.headers.deep_view() == before.headers.remove(at as int),
                forall|k: int|
                    0 <= k < i ==> (#[trigger] self.rows@[k]).deep_view() == before.rows[k].remove(at as int),
                forall|k: int| i <= k < n ==> (#[trigger] self.rows@[k]).deep_view() == before.rows[k],
            decreases n - i,
        {
            self.rows[i].remove(at);
            i += 1;
        }
        assert(self@.rows =~= before.delete_col(at as int).rows);
    }

    /// Overwrites cell `(row, col)` with `value`.
    pub fn set_cell(&mut self, row: usize, col: usize, value: String)
        requires
            old(self).well_formed(),
            old(self)@.has_cell(row as int, col as int),
        ensures
            final(self).well_formed(),
            final(self)@ == old(self)@.with_cell(row as int, col as int, value@),
    {
        let ghost before = self@;
        assert(self.rows@[row as int].deep_view() == before.rows[row as int]);
        self.rows[row][col] = value;
        assert(self.rows@[row as int].deep_view() =~= before.rows[row as int].update(col as int, value@));
        assert(self@.rows =~= before.with_cell(row as int, col as int, value@).rows);
    }

    /// Overwrites the header of column `col` with `value`.
    pub fn set_header(&mut self, col: usize, value: String)
        requires
            old(self).well_formed(),
            col < old(self)@.headers.len(),
        ensures
            final(self).well_formed(),
            final(self)@ == old(self)@.with_header(col as int, value@),
    {
        let ghost before = self@;
        self.headers[col] = value;
        assert(self@.headers =~= before.headers.update(col as int, value@));
        assert(self@.rows == before.rows);
    }

    /// Appends `ch` to the text of cell `(row, col)`.
    pub fn append_char(&mut self, row: usize, col: usize, ch: char)
        requires
            old(self).well_formed(),
            old(self)@.has_cell(row as int, col as int),
        ensures
            final(self).well_formed(),
            final(self)@ == old(self)@.with_cell(
                row as int,
                col as int,
                old(self)@.rows[row as int][col as int].push(ch),
            ),
    {
        let ghost before = self@;
        assert(self.rows@[row as int].deep_view() == before.rows[row as int]);
        self.rows[row][col].push(ch);
        let ghost value = before.rows[row as int][col as int].push(ch);
        assert(self.rows@[row as int].deep_view() =~= before.rows[row as int].update(col as int, value));
        assert(self@.rows =~= before.with_cell(row as int, col as int, value).rows);
    }

    /// Removes the last character of the text of cell `(row, col)`; an empty
    /// cell stays empty.
    pub fn pop_char(&mut self, row: usize, col: usize)
        requires
            old(self).well_formed(),
            old(self)@.has_cell(row as int, col as int),
        ensures
            final(self).well_formed(),
            final(self)@ == old(self)@.with_cell(
                row as int,
                col as int,
                without_last(old(self)@.rows[row as int][col as int]),
            ),
    {
        let ghost before = self@;
        assert(self.rows@[row as int].deep_view() == before.rows[row as int]);
        self.rows[row][col].pop();
        let ghost value = without_last(before.rows[row as int][col as int]);
        assert(self.rows@[row as int].deep_view() =~= before.rows[row as int].update(col as int, value));
        assert(self@.rows =~= before.with_cell(row as int, col as int, value).rows);
    }

    /// Appends `ch` to the header of column `col`.
    pub fn append_header_char(&mut self, col: usize, ch: char)
        requires
            old(self).well_formed(),
            col < old(self)@.headers.len(),
        ensures
            final(self).well_formed(),
            final(self)@ == old(self)@.with_header(col as int, old(self)@.headers[col as int].push(ch)),
    {
        let ghost before = self@;
        self.headers[col].push(ch);
        assert(self@.headers =~= before.headers.update(col as int, before.headers[col as int].push(ch)));
        assert(self@.rows == before.rows);
    }

    /// Removes the last character of the header of column `col`; an empty
    /// header stays empty.
    pub fn pop_header_char(&mut self, col: usize)
        requires
            old(self).well_formed(),
            col < old(self)@.headers.len(),
        ensures
            final(self).well_formed(),
            final(self)@ == old(self)@.with_header(col as int, without_last(old(self)@.headers[col as int])),
    {
        let ghost before = self@;
        self.headers[col].pop();
        assert(self@.headers =~= before.headers.update(col as int, without_last(before.headers[col as int])));
        assert(self@.rows == before.rows);
    }
}

} // verus!
