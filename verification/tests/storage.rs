use csv_editor::keys::{Flow, Key};
use csv_editor::machine::AppState;
use csv_editor::model::CSVModel;
use csv_editor::storage::read_records;
use csv_editor::table::Document;

fn texts(cells: &[&str]) -> Vec<String> {
    cells.iter().map(|cell| cell.to_string()).collect()
}

#[test]
fn build_reads_the_header_line_and_the_rows() {
    let path = String::from("people.csv");
    let model = CSVModel::build_from_file_path(&path, b"Name,Age\nAlice,30\nBob,25\n").unwrap();
    assert_eq!(model.file_path(), "people.csv");
    assert_eq!(model.headers(), &texts(&["Name", "Age"]));
    assert_eq!(model.grid(), &vec![texts(&["Alice", "30"]), texts(&["Bob", "25"])]);
    assert_eq!(model.state(), AppState::Navigating(0, 0));
    assert_eq!(model.undo_depth(), 0);
    assert_eq!(model.copy_buffer(), None);
    assert!(model.is_well_formed());
}

#[test]
fn build_understands_quotes_and_empty_fields() {
    let path = String::from("quoted.csv");
    let data = "a,b,c\n\"x,1\",,\"say \"\"hi\"\"\"\n,\"two\nlines\",\n";
    let model = CSVModel::build_from_file_path(&path, data.as_bytes()).unwrap();
    assert_eq!(model.headers(), &texts(&["a", "b", "c"]));
    assert_eq!(model.grid()[0], texts(&["x,1", "", "say \"hi\""]));
    assert_eq!(model.grid()[1], texts(&["", "two\nlines", ""]));
}

#[test]
fn build_from_no_bytes_gives_no_columns_and_no_rows() {
    let path = String::from("empty.csv");
    let model = CSVModel::build_from_file_path(&path, b"").unwrap();
    assert_eq!(model.headers().len(), 0);
    assert_eq!(model.grid().len(), 0);
    assert!(model.is_well_formed());
}

#[test]
fn build_from_a_header_line_alone_gives_no_rows() {
    let path = String::from("header.csv");
    let model = CSVModel::build_from_file_path(&path, b"Name,Age\n").unwrap();
    assert_eq!(model.headers(), &texts(&["Name", "Age"]));
    assert_eq!(model.grid().len(), 0);
}

#[test]
fn build_rejects_rows_of_another_width() {
    let path = String::from("ragged.csv");
    let error = CSVModel::build_from_file_path(&path, b"a,b\n1,2\n3\n4,5\n").unwrap_err();
    assert_eq!(error.record, 2);
    assert!(error.message.contains("2 fields"));
}

#[test]
fn build_rejects_text_that_is_not_utf8() {
    let path = String::from("latin.csv");
    let error = CSVModel::build_from_file_path(&path, b"a,b\n\xff,2\n").unwrap_err();
    assert_eq!(error.record, 1);
    assert!(!error.message.is_empty());
    let error = CSVModel::build_from_file_path(&path, b"\xff,b\n1,2\n").unwrap_err();
    assert_eq!(error.record, 0);
}

#[test]
fn read_records_keeps_the_header_as_the_first_record() {
    let records = read_records(b"h1,h2\nv1,v2\n").unwrap();
    assert_eq!(records, vec![texts(&["h1", "h2"]), texts(&["v1", "v2"])]);
    assert_eq!(read_records(b"").unwrap().len(), 0);
    assert_eq!(read_records(b"a,b\n1\n").unwrap_err().record, 1);
}

#[test]
fn from_records_splits_header_and_rows() {
    let model = CSVModel::from_records(
        String::from("records.csv"),
        vec![texts(&["A", "B"]), texts(&["1", "2"]), texts(&["3"])],
    );
    assert_eq!(model.headers(), &texts(&["A", "B"]));
    assert_eq!(model.grid(), &vec![texts(&["1", "2"]), texts(&["3", ""])]);
    let model = CSVModel::from_records(String::from("records.csv"), Vec::new());
    assert_eq!(model.headers().len(), 0);
    assert_eq!(model.grid().len(), 0);
}

#[test]
fn file_contents_are_the_header_line_then_every_row() {
    let model = CSVModel::new(
        String::from("people.csv"),
        texts(&["Name", "Age"]),
        vec![texts(&["Alice", "30"]), texts(&["Bob", "25"])],
    );
    assert_eq!(model.file_contents().unwrap(), b"Name,Age\nAlice,30\nBob,25\n".to_vec());
}

#[test]
fn file_contents_quote_what_needs_quoting_and_keep_empty_fields() {
    let doc = Document::new(
        texts(&["a", "b", "c"]),
        vec![texts(&["x,1", "", "say \"hi\""]), texts(&["", "", ""]), texts(&["", "two\nlines", ""])],
    );
    let expected = "a,b,c\n\"x,1\",,\"say \"\"hi\"\"\"\n,,\n,\"two\nlines\",\n";
    assert_eq!(doc.to_bytes().unwrap(), expected.as_bytes().to_vec());
}

#[test]
fn a_single_empty_cell_is_written_as_a_quoted_field() {
    let doc = Document::new(texts(&["only"]), vec![texts(&[""]), texts(&["x"])]);
    assert_eq!(doc.to_bytes().unwrap(), b"only\n\"\"\nx\n".to_vec());
}

#[test]
fn save_then_reload_gives_the_same_document() {
    let path = String::from("round.csv");
    let mut model = CSVModel::new(
        path.clone(),
        texts(&["Name", "Note", "Age"]),
        vec![
            texts(&["Alice", "likes, commas", "30"]),
            texts(&["", "", ""]),
            texts(&["Bob", "said \"no\"\ntwice", ""]),
            texts(&["Zoë", " padded ", "25"]),
        ],
    );
    for c in "jorx".chars() {
        model.handle_keyboard_input(Key::Char(c));
    }
    assert_eq!(model.handle_keyboard_input(Key::Enter), Flow::Continue);
    assert_eq!(model.handle_keyboard_input(Key::Char('q')), Flow::Stop);
    let bytes = model.file_contents().unwrap();
    let reloaded = CSVModel::build_from_file_path(&path, &bytes).unwrap();
    assert_eq!(reloaded.headers(), model.headers());
    assert_eq!(reloaded.grid().len(), 5);
    assert_eq!(reloaded.grid(), model.grid());
    assert_eq!(reloaded.grid()[1], texts(&["", "", ""]));
    assert_eq!(reloaded.grid()[2], texts(&["x", "", ""]));
    assert_eq!(reloaded.file_contents().unwrap(), bytes);
}

#[test]
fn save_then_reload_keeps_a_single_column_of_empty_cells() {
    let path = String::from("single.csv");
    let model = CSVModel::new(path.clone(), texts(&[""]), vec![texts(&[""]), texts(&[""])]);
    let bytes = model.file_contents().unwrap();
    let reloaded = CSVModel::build_from_file_path(&path, &bytes).unwrap();
    assert_eq!(reloaded.headers(), &texts(&[""]));
    assert_eq!(reloaded.grid(), &vec![texts(&[""]), texts(&[""])]);
}
