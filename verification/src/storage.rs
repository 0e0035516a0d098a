//! Delimited text: reading a document from the bytes of a file and writing
//! it back, with the `csv` crate doing the parsing and the quoting.

use crate::machine::ModelView;
use crate::model::CSVModel;
use crate::table::{Document, Table};
use vstd::prelude::*;

verus! {

/// `csv::Reader`, carried through as an opaque value; what it has yet to
/// hand out is `unread`.
#[verifier::external_type_specification]
#[verifier::external_body]
#[verifier::reject_recursive_types(R)]
pub struct ExReader<R>(csv::Reader<R>);

/// `csv::Error`, carried through as an opaque value.
#[verifier::external_type_specification]
#[verifier::external_body]
pub struct ExError(csv::Error);

/// What a `csv` reader with default settings, told that there is no header
/// line, reads from `data`: one entry per record, the texts of its fields,
/// or `None` where the reader reports the record as an error (a field that
/// is not UTF-8, or a number of fields other than that of the first record).
pub uninterp spec fn records_in(data: Seq<u8>) -> Seq<Option<Seq<Seq<char>>>>;

/// The entries that a reader has not handed out yet.
pub uninterp spec fn unread(reader: csv::Reader<&[u8]>) -> Seq<Option<Seq<Seq<char>>>>;

/// The bytes that a fresh `csv` writer with default settings writes for one
/// record: its fields, quoted where needed, with commas between them and a
/// line end after them. `None` where the writer reports an error.
pub uninterp spec fn record_bytes(fields: Seq<Seq<char>>) -> Option<Seq<u8>>;

/// `csv::ReaderBuilder::new().has_headers(false).from_reader(data)`: a
/// reader at the start of `data` that hands out every record, the first
/// line included. All of `records_in(data)` is still unread.
#[verifier::external_body]
fn open_reader<'a>(data: &'a [u8]) -> (reader: csv::Reader<&'a [u8]>)
    ensures
        unread(reader) == records_in(data@),
{
    csv::ReaderBuilder::new().has_headers(false).from_reader(data)
}

/// `csv::Reader::read_record`: reads the next record. At the end of the
/// data it returns `Ok(None)` and stays at the end. Else it takes the first
/// unread entry: for a record it returns the texts of the fields, for an
/// error the error, and either way the reader has moved past that record.
#[verifier::external_body]
fn read_record(reader: &mut csv::Reader<&[u8]>) -> (result: Result<Option<Vec<String>>, csv::Error>)
    ensures
        unread(*final(reader)) == (if unread(*old(reader)).len() == 0 {
            unread(*old(reader))
        } else {
            unread(*old(reader)).drop_first()
        }),
        unread(*old(reader)).len() == 0 ==> (result matches Ok(None)),
        unread(*old(reader)).len() > 0 ==> (match unread(*old(reader))[0] {
            Some(fields) => result matches Ok(Some(row)) && row.deep_view() == fields,
            None => result is Err,
        }),
{
    let mut record = csv::StringRecord::new();
    match reader.read_record(&mut record) {
        Ok(true) => Ok(Some(record.iter().map(String::from).collect())),
        Ok(false) => Ok(None),
        Err(error) => Err(error),
    }
}

/// `csv::Error`'s `Display`: the error in words.
#[verifier::external_body]
fn describe(error: &csv::Error) -> (message: String) {
    error.to_string()
}

/// `csv::Writer::write_record` on a fresh writer over an empty byte vector
/// (`Writer::from_writer`), and `Writer::into_inner` for the bytes written.
/// The outcome depends on the fields alone: the bytes of the one record, or
/// the writer's error.
#[verifier::external_body]
fn write_record(fields: &Vec<String>) -> (result: Result<Vec<u8>, csv::Error>)
    ensures
        record_bytes(fields.deep_view()) == (match result {
            Ok(bytes) => Some(bytes@),
            Err(_) => None,
        }),
{
    let mut writer = csv::Writer::from_writer(Vec::new());
    writer.write_record(fields)?;
    writer.into_inner().map_err(|failed| csv::Error::from(failed.into_error()))
}

/// Why the bytes of a file are no document.
#[derive(Debug)]
pub struct LoadError {
    /// Index of the first record in error, the header line being record 0.
    pub record: usize,
    /// The error in words.
    pub message: String,
}

/// Why a document could not be written as delimited text.
#[derive(Debug)]
pub struct SaveError {
    /// The error in words.
    pub message: String,
}

/// Entry `at` is in error and no entry before it is.
pub open spec fn is_first_error(outcomes: Seq<Option<Seq<Seq<char>>>>, at: int) -> bool {
    &&& 0 <= at < outcomes.len()
    &&& outcomes[at].is_none()
    &&& forall|k: int| 0 <= k < at ==> (#[trigger] outcomes[k]).is_some()
}

/// No entry is in error.
pub open spec fn all_records(outcomes: Seq<Option<Seq<Seq<char>>>>) -> bool {
    forall|k: int| 0 <= k < outcomes.len() ==> (#[trigger] outcomes[k]).is_some()
}

/// The records of entries that are all records.
pub open spec fn records_of(outcomes: Seq<Option<Seq<Seq<char>>>>) -> Seq<Seq<Seq<char>>> {
    Seq::new(outcomes.len(), |k: int| outcomes[k].unwrap())
}

/// The table that a list of records stands for: the first record is the
/// header line, each further record a row fitted to the header's width. No
/// record at all gives the table without columns and rows.
pub open spec fn table_of(records: Seq<Seq<Seq<char>>>) -> Table {
    if records.len() == 0 {
        Table { headers: Seq::empty(), rows: Seq::empty() }
    } else {
        Table::normalized(records[0], records.subrange(1, records.len() as int))
    }
}

/// The bytes of `records`, record after record; `None` where one of them
/// cannot be written.
pub open spec fn records_bytes(records: Seq<Seq<Seq<char>>>) -> Option<Seq<u8>>
    decreases records.len(),
{
    if records.len() == 0 {
        Some(Seq::empty())
    } else {
        match (records_bytes(records.drop_last()), record_bytes(records.last())) {
            (Some(head), Some(line)) => Some(head + line),
            _ => None,
        }
    }
}

/// The bytes of a table: the header line first, then every row.
pub open spec fn table_bytes(table: Table) -> Option<Seq<u8>> {
    records_bytes(seq![table.headers] + table.rows)
}

/// Where the first records cannot be written, no more records make it so.
proof fn lemma_unwritable_stays_unwritable(records: Seq<Seq<Seq<char>>>, upto: int)
    requires
        0 <= upto <= records.len(),
        records_bytes(records.take(upto)).is_none(),
    ensures
        records_bytes(records).is_none(),
    decreases records.len() - upto,
{
    if upto < records.len() {
        assert(records.take(upto + 1).drop_last() =~= records.take(upto));
        lemma_unwritable_stays_unwritable(records, upto + 1);
    } else {
        assert(records.take(upto) =~= records);
    }
}

/// Reads delimited text into its records, the header line first. Fails at
/// the first record that the reader reports as an error, and names it.
pub fn read_records(data: &[u8]) -> (result: Result<Vec<Vec<String>>, LoadError>)
    ensures
        match result {
            Ok(records) => all_records(records_in(data@)) && records.deep_view() == records_of(
                records_in(data@),
            ),
            Err(error) => is_first_error(records_in(data@), error.record as int),
        },
{
    let ghost all = records_in(data@);
    let mut reader = open_reader(data);
    let mut records: Vec<Vec<String>> = Vec::new();
    loop
        invariant
            records.len() <= all.len(),
            unread(reader) == all.subrange(records.len() as int, all.len() as int),
            forall|k: int| 0 <= k < records.len() ==> #[trigger] all[k] == Some(records@[k].deep_view()),
            all == records_in(data@),
        decreases unread(reader).len(),
    {
        match read_record(&mut reader) {
            Ok(Some(row)) => records.push(row),
            Ok(None) => return Ok(records),
            Err(error) => return Err(LoadError { record: records.len(), message: describe(&error) }),
        }
    }
}

impl Document {
    /// The document as delimited text: the header line, then every row,
    /// empty cells as empty fields. Fails where the writer reports an error
    /// for a record.
    pub fn to_bytes(&self) -> (result: Result<Vec<u8>, SaveError>)
        ensures
            match result {
                Ok(bytes) => table_bytes(self@) == Some(bytes@),
                Err(_) => table_bytes(self@).is_none(),
            },
    {
        let ghost all = seq![self@.headers] + self@.rows;
        let rows = self.rows();
        assert(all.take(1).drop_last() =~= Seq::empty());
        let mut bytes: Vec<u8> = match write_record(self.headers()) {
            Ok(line) => line,
            Err(error) => {
                proof {
                    lemma_unwritable_stays_unwritable(all, 1);
                }
                return Err(SaveError { message: describe(&error) });
            },
        };
        assert(records_bytes(Seq::empty()) == Some(Seq::<u8>::empty()));
        let mut i: usize = 0;
        while i < rows.len()
            invariant
                i <= rows.len(),
                rows.deep_view() == self@.rows,
                all == seq![self@.headers] + self@.rows,
                records_bytes(all.take(i as int + 1)) == Some(bytes@),
            decreases rows.len() - i,
        {
            assert(all.take(i as int + 2).drop_last() =~= all.take(i as int + 1));
            match write_record(&rows[i]) {
                Ok(mut line) => bytes.append(&mut line),
                Err(error) => {
                    proof {
                        lemma_unwritable_stays_unwritable(all, i as int + 2);
                    }
                    return Err(SaveError { message: describe(&error) });
                },
            }
            i += 1;
        }
        assert(all.take(i as int + 1) =~= all);
        Ok(bytes)
    }
}

impl CSVModel {
    /// An editor on the document that `records` stand for: the first record
    /// is the header line, the others are the rows.
    pub fn from_records(file_path: String, records: Vec<Vec<String>>) -> (model: CSVModel)
        ensures
            model.well_formed(),
            model@ == ModelView::initial(file_path@, table_of(records.deep_view())),
    {
        let mut rows = records;
        if rows.len() == 0 {
            let headers: Vec<String> = Vec::new();
            proof {
                let blank = Table::normalized(headers.deep_view(), rows.deep_view());
                assert(blank.headers =~= Seq::empty());
                assert(blank.rows =~= Seq::empty());
            }
            CSVModel::new(file_path, headers, rows)
        } else {
            let headers = rows.remove(0);
            assert(rows.deep_view() =~= records.deep_view().subrange(1, records.len() as int));
            CSVModel::new(file_path, headers, rows)
        }
    }

    /// An editor on the document read from `contents`, the bytes of the file
    /// at `file_path`. Fails where the reader reports a record as an error.
    pub fn build_from_file_path(file_path: &String, contents: &[u8]) -> (result: Result<CSVModel, LoadError>)
        ensures
            match result {
                Ok(model) => {
                    &&& model.well_formed()
                    &&& all_records(records_in(contents@))
                    &&& model@ == ModelView::initial(file_path@, table_of(records_of(records_in(contents@))))
                },
                Err(error) => is_first_error(records_in(contents@), error.record as int),
            },
    {
        match read_records(contents) {
            Ok(records) => Ok(CSVModel::from_records(file_path.clone(), records)),
            Err(error) => Err(error),
        }
    }

    /// The bytes to write to the file on quit: the live document as
    /// delimited text.
    pub fn file_contents(&self) -> (result: Result<Vec<u8>, SaveError>)
        ensures
            match result {
                Ok(bytes) => table_bytes(self@.table) == Some(bytes@),
                Err(_) => table_bytes(self@.table).is_none(),
            },
    {
        self.document().to_bytes()
    }
}

} // verus!
