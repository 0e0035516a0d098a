//! What holds of the editor whatever is typed.

use crate::keys::Symbol;
use crate::machine::{undo_events, Event, Mode, ModelView};
use crate::table::{without_last, Table};
use vstd::prelude::*;

verus! {

/// Column operations keep the table rectangular: after an empty column is
/// placed at any index up to the width, or the column at any index is
/// removed, each row still has as many cells as there are headers.
pub proof fn lemma_column_operations_keep_rectangular(table: Table, at: int)
    requires
        table.rectangular(),
    ensures
        0 <= at <= table.headers.len() ==> table.insert_col(at).rectangular()
            && table.insert_col(at).headers.len() == table.headers.len() + 1
            && table.insert_col(at).rows.len() == table.rows.len(),
        0 <= at < table.headers.len() ==> table.delete_col(at).rectangular()
            && table.delete_col(at).headers.len() == table.headers.len() - 1
            && table.delete_col(at).rows.len() == table.rows.len(),
{
}

/// Row operations and cell edits keep the table rectangular.
pub proof fn lemma_row_operations_keep_rectangular(table: Table, row: int, col: int, value: Seq<char>)
    requires
        table.rectangular(),
    ensures
        0 <= row <= table.rows.len() ==> table.insert_row(row).rectangular(),
        0 <= row < table.rows.len() ==> table.delete_row(row).rectangular(),
        table.has_cell(row, col) ==> table.with_cell(row, col, value).rectangular(),
        0 <= col < table.headers.len() ==> table.with_header(col, value).rectangular(),
{
}

/// Saving a snapshot keeps every table rectangular.
pub proof fn lemma_saved_keeps_rectangular(model: ModelView)
    requires
        model.tables_rectangular(),
    ensures
        model.saved().tables_rectangular(),
{
}

/// Undo with a snapshot to go back to establishes the invariant, from any
/// mode; with none it changes nothing.
pub proof fn lemma_undo_keeps_well_formed(model: ModelView)
    requires
        model.tables_rectangular(),
    ensures
        model.history.len() > 0 ==> model.undo().well_formed(),
        model.history.len() == 0 ==> model.undo() == model,
{
}

/// In a state that meets the invariant the cursor addresses the grid:
/// where the grid has rows, the cursor's row is one of them, and where it
/// has columns, the cursor's column is one of them, in the headers and in
/// the cursor's row alike.
pub proof fn lemma_cursor_addresses_grid(model: ModelView)
    requires
        model.well_formed(),
    ensures
        model.table.rows.len() > 0 ==> model.cursor().0 < model.table.rows.len(),
        model.table.headers.len() > 0 ==> model.cursor().1 < model.table.headers.len(),
        model.table.rows.len() > 0 && model.table.headers.len() > 0 ==> model.cursor().1
            < model.table.rows[model.cursor().0 as int].len(),
{
}

/// The invariant survives every symbol given while navigating.
proof fn lemma_navigate_keeps_well_formed(model: ModelView, row: nat, col: nat, symbol: Symbol, today: Seq<char>)
    requires
        model.well_formed(),
        model.mode == (Mode::Navigating { row, col }),
    ensures
        model.navigate(row, col, symbol, today).well_formed(),
{
    let table = model.table;
    lemma_saved_keeps_rectangular(model);
    match symbol {
        Symbol::Undo => {
            lemma_undo_keeps_well_formed(model);
        },
        Symbol::InsertRowAfter => {
            lemma_row_operations_keep_rectangular(table, row as int + 1, col as int, today);
        },
        Symbol::InsertRowBefore | Symbol::DeleteRow | Symbol::PasteDate => {
            lemma_row_operations_keep_rectangular(table, row as int, col as int, today);
        },
        Symbol::InsertColAfter => {
            lemma_column_operations_keep_rectangular(table, col as int + 1);
        },
        Symbol::InsertColBefore | Symbol::DeleteCol => {
            lemma_column_operations_keep_rectangular(table, col as int);
        },
        Symbol::ReplaceEdit => {
            lemma_row_operations_keep_rectangular(table, row as int, col as int, Seq::empty());
        },
        Symbol::Paste => {
            if model.clipboard.is_some() {
                lemma_row_operations_keep_rectangular(table, row as int, col as int, model.clipboard.unwrap());
            }
        },
        _ => {},
    }
}

/// The invariant survives every symbol given while a cell or a header is edited.
proof fn lemma_edit_keeps_well_formed(model: ModelView, symbol: Symbol, today: Seq<char>)
    requires
        model.well_formed(),
        !(model.mode is Navigating),
    ensures
        model.step(symbol, today).well_formed(),
{
    let table = model.table;
    match model.mode {
        Mode::EditingCell { row, col } => {
            let text = table.rows[row as int][col as int];
            match symbol {
                Symbol::Printable(c) => {
                    lemma_row_operations_keep_rectangular(table, row as int, col as int, text.push(c));
                },
                Symbol::Backspace => {
                    lemma_row_operations_keep_rectangular(table, row as int, col as int, without_last(text));
                },
                _ => {},
            }
        },
        Mode::EditingHeader { col } => {
            let text = table.headers[col as int];
            match symbol {
                Symbol::Printable(c) => {
                    lemma_row_operations_keep_rectangular(table, 0, col as int, text.push(c));
                },
                Symbol::Backspace => {
                    lemma_row_operations_keep_rectangular(table, 0, col as int, without_last(text));
                },
                _ => {},
            }
        },
        Mode::Navigating { .. } => {},
    }
}

/// The invariant survives every transition: after any symbol, in any mode,
/// the tables are rectangular and the cursor addresses the grid.
pub proof fn lemma_step_keeps_well_formed(model: ModelView, symbol: Symbol, today: Seq<char>)
    requires
        model.well_formed(),
    ensures
        model.step(symbol, today).well_formed(),
{
    match model.mode {
        Mode::Navigating { row, col } => lemma_navigate_keeps_well_formed(model, row, col, symbol, today),
        _ => lemma_edit_keeps_well_formed(model, symbol, today),
    }
}

/// The invariant survives every sequence of events.
pub proof fn lemma_run_keeps_well_formed(start: ModelView, events: Seq<Event>)
    requires
        start.well_formed(),
    ensures
        start.run(events).well_formed(),
    decreases events.len(),
{
    if events.len() > 0 {
        lemma_run_keeps_well_formed(start, events.drop_last());
        lemma_step_keeps_well_formed(start.run(events.drop_last()), events.last().symbol, events.last().today);
    }
}

/// The invariant holds after each event of a sequence: header and rows
/// agree in width, and the cursor addresses the grid, after every prefix.
pub proof fn lemma_invariant_holds_after_each_event(start: ModelView, events: Seq<Event>)
    requires
        start.well_formed(),
    ensures
        forall|n: int| 0 <= n <= events.len() ==> (#[trigger] start.run(events.take(n))).well_formed(),
{
    assert forall|n: int| 0 <= n <= events.len() implies (#[trigger] start.run(events.take(n))).well_formed() by {
        lemma_run_keeps_well_formed(start, events.take(n));
    }
}

/// The cursor stays in bounds: after any transition from a state that meets
/// the invariant, the cursor's row is a row of the grid where the grid has
/// rows, and its column is a column of the headers, and of that row, where
/// there are columns.
pub proof fn lemma_cursor_stays_in_bounds(model: ModelView, symbol: Symbol, today: Seq<char>)
    requires
        model.well_formed(),
    ensures
        ({
            let after = model.step(symbol, today);
            let (row, col) = after.cursor();
            &&& after.table.rows.len() > 0 ==> row < after.table.rows.len()
            &&& after.table.headers.len() > 0 ==> col < after.table.headers.len()
            &&& after.table.rows.len() > 0 && after.table.headers.len() > 0 ==> col
                < after.table.rows[row as int].len()
        }),
{
    lemma_step_keeps_well_formed(model, symbol, today);
    lemma_cursor_addresses_grid(model.step(symbol, today));
}

/// A transition other than undo leaves the history as it is or pushes one
/// snapshot, that of the document before the transition. While navigating,
/// nothing changes the document or starts an edit without that push, and
/// moving, copying and quitting push nothing.
pub proof fn lemma_step_pushes_at_most_one_snapshot(model: ModelView, symbol: Symbol, today: Seq<char>)
    requires
        symbol != Symbol::Undo,
    ensures
        model.step(symbol, today).history == model.history || model.step(symbol, today).history
            == model.history.push(model.table),
        model.mode is Navigating && model.step(symbol, today).history == model.history ==> model.step(
            symbol,
            today,
        ).table == model.table && model.step(symbol, today).mode is Navigating,
        symbol.moves() || symbol == Symbol::Copy || symbol == Symbol::Quit ==> model.step(symbol, today).history
            == model.history && model.step(symbol, today).table == model.table,
{
}

/// What a run without undo leaves of its start: the history it started with
/// is still the bottom of the history, and the first snapshot above it, if
/// any, is the document of the start. With no snapshot pushed, the document
/// is that of the start and the editor is still navigating.
proof fn lemma_run_keeps_start_recoverable(start: ModelView, events: Seq<Event>)
    requires
        start.mode is Navigating,
        forall|k: int| 0 <= k < events.len() ==> (#[trigger] events[k]).symbol != Symbol::Undo,
    ensures
        start.run(events).history.len() >= start.history.len(),
        start.run(events).history.take(start.history.len() as int) == start.history,
        start.run(events).history.len() > start.history.len() ==> start.run(
            events,
        ).history[start.history.len() as int] == start.table,
        start.run(events).history.len() == start.history.len() ==> start.run(events).table == start.table
            && start.run(events).mode is Navigating,
    decreases events.len(),
{
    if events.len() > 0 {
        let earlier = events.drop_last();
        assert forall|k: int| 0 <= k < earlier.len() implies (#[trigger] earlier[k]).symbol != Symbol::Undo by {
            assert(earlier[k] == events[k]);
        }
        lemma_run_keeps_start_recoverable(start, earlier);
        lemma_step_pushes_at_most_one_snapshot(start.run(earlier), events.last().symbol, events.last().today);
    }
}

/// Undoing as often as the history is deep above `depth` brings back the
/// snapshot at `depth` and the history below it.
proof fn lemma_undo_times_unwinds(model: ModelView, depth: nat)
    requires
        depth < model.history.len(),
    ensures
        model.undo_times((model.history.len() - depth) as nat).table == model.history[depth as int],
        model.undo_times((model.history.len() - depth) as nat).history == model.history.take(depth as int),
    decreases model.history.len() - depth,
{
    let count = (model.history.len() - depth) as nat;
    if count > 1 {
        lemma_undo_times_unwinds(model, depth + 1);
    }
    assert(model.undo_times(count) == model.undo_times((count - 1) as nat).undo());
}

/// Undo is a strict inverse. Start while navigating and give any events but
/// undo: moves, structural changes, edits, pastes, in any order. Then as
/// many undos as snapshots were pushed bring back the document and the
/// history of the start.
pub proof fn lemma_undo_reverts_mutations(start: ModelView, events: Seq<Event>)
    requires
        start.mode is Navigating,
        forall|k: int| 0 <= k < events.len() ==> (#[trigger] events[k]).symbol != Symbol::Undo,
    ensures
        start.run(events).history.len() >= start.history.len(),
        ({
            let pushed = (start.run(events).history.len() - start.history.len()) as nat;
            &&& start.run(events).undo_times(pushed).table == start.table
            &&& start.run(events).undo_times(pushed).history == start.history
        }),
{
    lemma_run_keeps_start_recoverable(start, events);
    let end = start.run(events);
    if end.history.len() > start.history.len() {
        lemma_undo_times_unwinds(end, start.history.len());
    }
}

/// While navigating, the undo symbol given `count` times is `count` undos,
/// and the editor is navigating afterwards.
pub proof fn lemma_undo_symbols_are_undos(model: ModelView, count: nat, today: Seq<char>)
    requires
        model.mode is Navigating,
    ensures
        model.run(undo_events(count, today)) == model.undo_times(count),
        model.undo_times(count).mode is Navigating,
    decreases count,
{
    if count > 0 {
        lemma_undo_symbols_are_undos(model, (count - 1) as nat, today);
        assert(undo_events(count, today).drop_last() =~= undo_events((count - 1) as nat, today));
    }
}

/// Undo as the keys give it. After the events of `lemma_undo_reverts_mutations`,
/// once the editor is navigating again, the undo symbol given as often as
/// snapshots were pushed brings back the document and the history of the start.
pub proof fn lemma_undo_symbols_revert_mutations(start: ModelView, events: Seq<Event>, today: Seq<char>)
    requires
        start.mode is Navigating,
        forall|k: int| 0 <= k < events.len() ==> (#[trigger] events[k]).symbol != Symbol::Undo,
        start.run(events).mode is Navigating,
    ensures
        start.run(events).history.len() >= start.history.len(),
        ({
            let pushed = (start.run(events).history.len() - start.history.len()) as nat;
            &&& start.run(events).run(undo_events(pushed, today)).table == start.table
            &&& start.run(events).run(undo_events(pushed, today)).history == start.history
        }),
{
    lemma_undo_reverts_mutations(start, events);
    let end = start.run(events);
    lemma_undo_symbols_are_undos(end, (end.history.len() - start.history.len()) as nat, today);
}

/// A paste and a date paste push exactly one snapshot, that of the document
/// before the cell is written, and one undo takes them back: document and
/// history are then those from before the paste.
pub proof fn lemma_one_undo_reverts_a_paste(model: ModelView, today: Seq<char>)
    requires
        model.on_cell(),
    ensures
        model.date_pasted(today).history == model.history.push(model.table),
        model.date_pasted(today).undo().table == model.table,
        model.date_pasted(today).undo().history == model.history,
        model.clipboard.is_some() ==> model.pasted().history == model.history.push(model.table),
        model.clipboard.is_some() ==> model.pasted().undo().table == model.table,
        model.clipboard.is_some() ==> model.pasted().undo().history == model.history,
{
    assert(model.history.push(model.table).drop_last() =~= model.history);
}

/// Only the copy symbol changes the clipboard.
pub proof fn lemma_clipboard_changes_only_on_copy(model: ModelView, events: Seq<Event>)
    requires
        forall|k: int| 0 <= k < events.len() ==> (#[trigger] events[k]).symbol != Symbol::Copy,
    ensures
        model.run(events).clipboard == model.clipboard,
    decreases events.len(),
{
    if events.len() > 0 {
        let earlier = events.drop_last();
        assert forall|k: int| 0 <= k < earlier.len() implies (#[trigger] earlier[k]).symbol != Symbol::Copy by {
            assert(earlier[k] == events[k]);
        }
        lemma_clipboard_changes_only_on_copy(model, earlier);
    }
}

/// Copy then paste is by value. Copy the cell under the cursor, then give
/// any events but another copy, which may move the cursor and may change or
/// remove the copied cell. A paste on a cell then writes the text that the
/// copied cell held when it was copied, and leaves it on the clipboard for
/// the next paste.
pub proof fn lemma_copy_then_paste_is_by_value(source: ModelView, events: Seq<Event>, today: Seq<char>)
    requires
        source.well_formed(),
        source.mode is Navigating,
        source.table.has_cell(source.cursor().0 as int, source.cursor().1 as int),
        forall|k: int| 0 <= k < events.len() ==> (#[trigger] events[k]).symbol != Symbol::Copy,
        source.step(Symbol::Copy, today).run(events).mode is Navigating,
        source.step(Symbol::Copy, today).run(events).table.has_cell(
            source.step(Symbol::Copy, today).run(events).cursor().0 as int,
            source.step(Symbol::Copy, today).run(events).cursor().1 as int,
        ),
    ensures
        ({
            let copied = source.table.rows[source.cursor().0 as int][source.cursor().1 as int];
            let target = source.step(Symbol::Copy, today).run(events);
            let pasted = target.step(Symbol::Paste, today);
            &&& source.step(Symbol::Copy, today).table == source.table
            &&& pasted.table.rows[target.cursor().0 as int][target.cursor().1 as int] == copied
            &&& pasted.clipboard == Some(copied)
        }),
{
    let held = source.step(Symbol::Copy, today);
    lemma_clipboard_changes_only_on_copy(held, events);
    lemma_step_keeps_well_formed(source, Symbol::Copy, today);
    lemma_run_keeps_well_formed(held, events);
}

/// Writing one cell leaves every other cell as it was.
pub proof fn lemma_cells_are_independent(table: Table, row: int, col: int, value: Seq<char>, other_row: int, other_col: int)
    requires
        table.rectangular(),
        table.has_cell(row, col),
        table.has_cell(other_row, other_col),
        row != other_row || col != other_col,
    ensures
        table.with_cell(row, col, value).rows[other_row][other_col] == table.rows[other_row][other_col],
        table.with_cell(row, col, value).rows[row][col] == value,
{
}

} // verus!
