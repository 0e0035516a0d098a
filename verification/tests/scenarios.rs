use csv_editor::keys::{Flow, Key};
use csv_editor::machine::AppState;
use csv_editor::model::CSVModel;

fn texts(cells: &[&str]) -> Vec<String> {
    cells.iter().map(|cell| cell.to_string()).collect()
}

fn people() -> CSVModel {
    CSVModel::new(
        String::from("people.csv"),
        texts(&["Name", "Age"]),
        vec![texts(&["Alice", "30"]), texts(&["Bob", "25"])],
    )
}

fn press(model: &mut CSVModel, keys: &str) {
    for c in keys.chars() {
        assert_eq!(model.handle_keyboard_input(Key::Char(c)), Flow::Continue);
    }
}

#[test]
fn replace_edit_then_undo_restores_the_cell() {
    let mut model = people();
    press(&mut model, "l");
    assert_eq!(model.state(), AppState::Navigating(0, 1));
    press(&mut model, "r");
    assert_eq!(model.state(), AppState::Editing(0, 1));
    assert_eq!(model.grid()[0], texts(&["Alice", ""]));
    press(&mut model, "31");
    assert_eq!(model.handle_keyboard_input(Key::Enter), Flow::Continue);
    assert_eq!(model.state(), AppState::Navigating(0, 1));
    assert_eq!(model.grid()[0], texts(&["Alice", "31"]));
    assert_eq!(model.grid()[1], texts(&["Bob", "25"]));
    press(&mut model, "u");
    assert_eq!(model.grid()[0], texts(&["Alice", "30"]));
    assert_eq!(model.grid()[1], texts(&["Bob", "25"]));
    assert_eq!(model.undo_depth(), 0);
}

#[test]
fn deleting_the_only_row_leaves_a_well_defined_empty_grid() {
    let mut model = CSVModel::new(String::from("one.csv"), texts(&["Name", "Age"]), vec![texts(&["Alice", "30"])]);
    press(&mut model, "d");
    assert_eq!(model.grid().len(), 0);
    assert_eq!(model.state(), AppState::Navigating(0, 0));
    press(&mut model, "jk}{gG");
    assert_eq!(model.state(), AppState::Navigating(0, 0));
    press(&mut model, "l");
    assert_eq!(model.state(), AppState::Navigating(0, 1));
    press(&mut model, "iryp.oO");
    assert_eq!(model.state(), AppState::Navigating(0, 1));
    assert_eq!(model.grid().len(), 0);
    assert_eq!(model.undo_depth(), 1);
    press(&mut model, "u");
    assert_eq!(model.grid().len(), 1);
    assert_eq!(model.grid()[0], texts(&["Alice", "30"]));
}

#[test]
fn copy_then_paste_is_repeatable() {
    let mut model = people();
    press(&mut model, "y");
    assert_eq!(model.copy_buffer(), Some(&String::from("Alice")));
    press(&mut model, "jl");
    assert_eq!(model.state(), AppState::Navigating(1, 1));
    press(&mut model, "p");
    assert_eq!(model.grid()[1][1], "Alice");
    press(&mut model, "k");
    assert_eq!(model.state(), AppState::Navigating(0, 1));
    press(&mut model, "p");
    assert_eq!(model.grid()[0][1], "Alice");
    assert_eq!(model.grid()[0][0], "Alice");
    assert_eq!(model.copy_buffer(), Some(&String::from("Alice")));
}
