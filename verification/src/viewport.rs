//! What a renderer needs to decide before it paints: where the visible rows
//! start, how wide a column is, and which cells stand out.

use crate::machine::{AppState, Mode};
use vstd::prelude::*;

verus! {

/// Rows kept between the top of the viewport and the cursor before the
/// view starts to scroll, counted from the viewport's height.
pub const SCROLL_MARGIN: usize = 10;

/// How a cell or a header is painted.
#[derive(Clone, Copy, Debug, PartialEq, Eq, Structural)]
pub enum Highlight {
    Plain,
    /// The cell under the cursor while navigating.
    Selected,
    /// The cell or header that is being edited.
    Edited,
}

/// The topmost visible row for a cursor on `row` in a viewport `height`
/// rows high: the view scrolls once the cursor comes within
/// `SCROLL_MARGIN` rows of the viewport's height.
pub open spec fn scroll_anchor(row: nat, height: nat) -> nat {
    if row + SCROLL_MARGIN >= height {
        (row + SCROLL_MARGIN - height) as nat
    } else {
        0
    }
}

/// The share of the width, in percent, that each of `columns` columns gets.
pub open spec fn column_percent(columns: nat) -> nat {
    if columns == 0 {
        100
    } else {
        100nat / columns
    }
}

impl Mode {
    /// How the cell `(row, col)` is painted in this mode.
    pub open spec fn cell_highlight(self, row: nat, col: nat) -> Highlight {
        if self == (Mode::Navigating { row, col }) {
            Highlight::Selected
        } else if self == (Mode::EditingCell { row, col }) {
            Highlight::Edited
        } else {
            Highlight::Plain
        }
    }

    /// How the header of column `col` is painted in this mode.
    pub open spec fn header_highlight(self, col: nat) -> Highlight {
        if self == (Mode::EditingHeader { col }) {
            Highlight::Edited
        } else {
            Highlight::Plain
        }
    }
}

/// Computes the topmost visible row. A sum beyond `usize` counts as `usize::MAX`.
pub fn scroll_offset(selected_row: usize, height: u16) -> (offset: usize)
    ensures
        selected_row + SCROLL_MARGIN <= usize::MAX ==> offset == scroll_anchor(
            selected_row as nat,
            height as nat,
        ),
        selected_row + SCROLL_MARGIN > usize::MAX ==> offset == usize::MAX - height,
{
    selected_row.saturating_add(SCROLL_MARGIN).saturating_sub(height as usize)
}

/// Computes the width of a column in percent.
pub fn column_share(columns: usize) -> (percent: u16)
    ensures
        percent == column_percent(columns as nat),
{
    if columns == 0 {
        100
    } else {
        assert(0 <= 100int / (columns as int) <= 100) by (nonlinear_arith)
            requires
                columns > 0,
        ;
        (100 / columns) as u16
    }
}

impl AppState {
    /// Decides how the cell `(row, col)` is painted.
    pub fn cell_highlight(&self, row: usize, col: usize) -> (highlight: Highlight)
        ensures
            highlight == self@.cell_highlight(row as nat, col as nat),
    {
        match *self {
            AppState::Navigating(r, c) if r == row && c == col => Highlight::Selected,
            AppState::Editing(r, c) if r == row && c == col => Highlight::Edited,
            _ => Highlight::Plain,
        }
    }

    /// Decides how the header of column `col` is painted.
    pub fn header_highlight(&self, col: usize) -> (highlight: Highlight)
        ensures
            highlight == self@.header_highlight(col as nat),
    {
        match *self {
            AppState::EditingHeader(c) if c == col => Highlight::Edited,
            _ => Highlight::Plain,
        }
    }
}

} // verus!
