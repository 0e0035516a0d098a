use csv_editor::keys::{Flow, Key, Symbol};
use csv_editor::machine::{AppState, PAGE_SIZE};
use csv_editor::model::CSVModel;

fn texts(cells: &[&str]) -> Vec<String> {
    cells.iter().map(|cell| cell.to_string()).collect()
}

fn numbered(rows: usize) -> CSVModel {
    let grid = (0..rows).map(|i| vec![format!("a{}", i), format!("b{}", i), format!("c{}", i)]).collect();
    CSVModel::new(String::from("numbers.csv"), texts(&["A", "B", "C"]), grid)
}

fn press(model: &mut CSVModel, keys: &str) {
    for c in keys.chars() {
        assert_eq!(model.handle_keyboard_input(Key::Char(c)), Flow::Continue);
        assert!(model.is_well_formed());
    }
}

#[test]
fn starts_navigating_at_the_top_left() {
    let model = numbered(3);
    assert_eq!(model.state(), AppState::Navigating(0, 0));
    assert_eq!(model.get_current_row_and_col(), (0, 0));
    assert_eq!(model.undo_depth(), 0);
    assert_eq!(model.copy_buffer(), None);
    assert_eq!(model.file_path(), "numbers.csv");
    assert!(model.is_well_formed());
}

#[test]
fn movement_is_clamped_at_the_edges() {
    let mut model = numbered(2);
    press(&mut model, "h");
    assert_eq!(model.state(), AppState::Navigating(0, 0));
    press(&mut model, "k");
    assert_eq!(model.state(), AppState::Navigating(0, 0));
    press(&mut model, "l");
    assert_eq!(model.state(), AppState::Navigating(0, 1));
    press(&mut model, "ll");
    assert_eq!(model.state(), AppState::Navigating(0, 2));
    press(&mut model, "j");
    assert_eq!(model.state(), AppState::Navigating(1, 2));
    press(&mut model, "j");
    assert_eq!(model.state(), AppState::Navigating(1, 2));
    press(&mut model, "hk");
    assert_eq!(model.state(), AppState::Navigating(0, 1));
    assert_eq!(model.undo_depth(), 0);
}

#[test]
fn page_movement_skips_five_rows() {
    assert_eq!(PAGE_SIZE, 5);
    let mut model = numbered(12);
    press(&mut model, "}");
    assert_eq!(model.state(), AppState::Navigating(5, 0));
    press(&mut model, "}");
    assert_eq!(model.state(), AppState::Navigating(10, 0));
    press(&mut model, "}");
    assert_eq!(model.state(), AppState::Navigating(11, 0));
    press(&mut model, "{");
    assert_eq!(model.state(), AppState::Navigating(6, 0));
    press(&mut model, "{");
    assert_eq!(model.state(), AppState::Navigating(1, 0));
    press(&mut model, "{");
    assert_eq!(model.state(), AppState::Navigating(0, 0));
}

#[test]
fn page_down_lands_on_the_last_row_when_six_rows_remain() {
    let mut model = numbered(6);
    press(&mut model, "}");
    assert_eq!(model.state(), AppState::Navigating(5, 0));
    let mut model = numbered(5);
    press(&mut model, "}");
    assert_eq!(model.state(), AppState::Navigating(4, 0));
}

#[test]
fn jumps_reach_the_four_edges() {
    let mut model = numbered(4);
    press(&mut model, "jl");
    press(&mut model, "G");
    assert_eq!(model.state(), AppState::Navigating(3, 1));
    press(&mut model, "A");
    assert_eq!(model.state(), AppState::Navigating(3, 2));
    press(&mut model, "g");
    assert_eq!(model.state(), AppState::Navigating(0, 2));
    press(&mut model, "I");
    assert_eq!(model.state(), AppState::Navigating(0, 0));
}

#[test]
fn unrecognized_keys_change_nothing() {
    let mut model = numbered(2);
    press(&mut model, "jl");
    press(&mut model, "xzQ1 ");
    assert_eq!(model.handle_keyboard_input(Key::Backspace), Flow::Continue);
    assert_eq!(model.handle_keyboard_input(Key::Other), Flow::Continue);
    assert_eq!(model.state(), AppState::Navigating(1, 1));
    assert_eq!(model.undo_depth(), 0);
    assert_eq!(model.grid()[1], texts(&["a1", "b1", "c1"]));
}

#[test]
fn quit_stops_the_loop_and_changes_nothing() {
    let mut model = numbered(2);
    press(&mut model, "j");
    assert_eq!(model.handle_keyboard_input(Key::Char('q')), Flow::Stop);
    assert_eq!(model.state(), AppState::Navigating(1, 0));
    assert_eq!(model.undo_depth(), 0);
    assert_eq!(model.grid().len(), 2);
}

#[test]
fn quit_key_is_text_while_editing() {
    let mut model = numbered(1);
    press(&mut model, "i");
    assert_eq!(model.handle_keyboard_input(Key::Char('q')), Flow::Continue);
    assert_eq!(model.grid()[0][0], "a0q");
    assert_eq!(model.state(), AppState::Editing(0, 0));
}

#[test]
fn keys_map_to_symbols_by_mode() {
    assert_eq!(Symbol::from_key(false, Key::Char('j')), Symbol::MoveDown);
    assert_eq!(Symbol::from_key(false, Key::Char('k')), Symbol::MoveUp);
    assert_eq!(Symbol::from_key(false, Key::Char('h')), Symbol::MoveLeft);
    assert_eq!(Symbol::from_key(false, Key::Char('l')), Symbol::MoveRight);
    assert_eq!(Symbol::from_key(false, Key::Char('}')), Symbol::PageDown);
    assert_eq!(Symbol::from_key(false, Key::Char('{')), Symbol::PageUp);
    assert_eq!(Symbol::from_key(false, Key::Char('g')), Symbol::JumpFirstRow);
    assert_eq!(Symbol::from_key(false, Key::Char('G')), Symbol::JumpLastRow);
    assert_eq!(Symbol::from_key(false, Key::Char('I')), Symbol::JumpFirstCol);
    assert_eq!(Symbol::from_key(false, Key::Char('A')), Symbol::JumpLastCol);
    assert_eq!(Symbol::from_key(false, Key::Char('o')), Symbol::InsertRowAfter);
    assert_eq!(Symbol::from_key(false, Key::Char('O')), Symbol::InsertRowBefore);
    assert_eq!(Symbol::from_key(false, Key::Char('d')), Symbol::DeleteRow);
    assert_eq!(Symbol::from_key(false, Key::Char('n')), Symbol::InsertColAfter);
    assert_eq!(Symbol::from_key(false, Key::Char('N')), Symbol::InsertColBefore);
    assert_eq!(Symbol::from_key(false, Key::Char('D')), Symbol::DeleteCol);
    assert_eq!(Symbol::from_key(false, Key::Char('i')), Symbol::EnterEdit);
    assert_eq!(Symbol::from_key(false, Key::Enter), Symbol::EnterEdit);
    assert_eq!(Symbol::from_key(false, Key::Char('r')), Symbol::ReplaceEdit);
    assert_eq!(Symbol::from_key(false, Key::Char('H')), Symbol::EnterHeaderEdit);
    assert_eq!(Symbol::from_key(false, Key::Char('y')), Symbol::Copy);
    assert_eq!(Symbol::from_key(false, Key::Char('p')), Symbol::Paste);
    assert_eq!(Symbol::from_key(false, Key::Char('.')), Symbol::PasteDate);
    assert_eq!(Symbol::from_key(false, Key::Char('u')), Symbol::Undo);
    assert_eq!(Symbol::from_key(false, Key::Char('q')), Symbol::Quit);
    assert_eq!(Symbol::from_key(false, Key::Char('x')), Symbol::Unrecognized);
    assert_eq!(Symbol::from_key(false, Key::Backspace), Symbol::Unrecognized);
    assert_eq!(Symbol::from_key(false, Key::Other), Symbol::Unrecognized);
    assert_eq!(Symbol::from_key(true, Key::Char('j')), Symbol::Printable('j'));
    assert_eq!(Symbol::from_key(true, Key::Enter), Symbol::Confirm);
    assert_eq!(Symbol::from_key(true, Key::Backspace), Symbol::Backspace);
    assert_eq!(Symbol::from_key(true, Key::Other), Symbol::Unrecognized);
}

#[test]
fn symbols_without_meaning_in_a_mode_do_nothing() {
    let mut model = numbered(2);
    for symbol in [Symbol::Confirm, Symbol::Backspace, Symbol::Printable('x'), Symbol::Unrecognized] {
        assert_eq!(model.apply(symbol, String::new()), Flow::Continue);
    }
    assert_eq!(model.state(), AppState::Navigating(0, 0));
    assert_eq!(model.grid()[0], texts(&["a0", "b0", "c0"]));
    assert_eq!(model.apply(Symbol::EnterEdit, String::new()), Flow::Continue);
    for symbol in [Symbol::MoveDown, Symbol::DeleteRow, Symbol::Undo, Symbol::Quit, Symbol::Paste, Symbol::PasteDate] {
        assert_eq!(model.apply(symbol, String::from("2024-01-01")), Flow::Continue);
    }
    assert_eq!(model.state(), AppState::Editing(0, 0));
    assert_eq!(model.grid().len(), 2);
    assert_eq!(model.grid()[0], texts(&["a0", "b0", "c0"]));
    assert_eq!(model.undo_depth(), 1);
}

#[test]
fn a_grid_without_rows_still_moves_over_its_columns() {
    let mut model = CSVModel::new(String::from("empty.csv"), texts(&["A", "B"]), Vec::new());
    press(&mut model, "jG}l");
    assert_eq!(model.state(), AppState::Navigating(0, 1));
    press(&mut model, "lA");
    assert_eq!(model.state(), AppState::Navigating(0, 1));
    press(&mut model, "I");
    assert_eq!(model.state(), AppState::Navigating(0, 0));
}

#[test]
fn a_document_without_columns_keeps_the_cursor_at_the_origin() {
    let mut model = CSVModel::new(String::from("none.csv"), Vec::new(), Vec::new());
    press(&mut model, "hjklgGIA{}oOdnNDirHyp.u");
    assert_eq!(model.state(), AppState::Navigating(0, 0));
    assert_eq!(model.undo_depth(), 0);
    assert_eq!(model.headers().len(), 0);
    assert_eq!(model.grid().len(), 0);
}
