//! The tabular store's shape: the fixed header, the rendering of one record
//! as one row of cells, and the trusted bridge between rows and CSV text.

use vstd::prelude::*;
use crate::models::{DataStruct, RecordModel, records_view, opt_string_view};
use crate::numfmt::{dec_str, u64_to_string};

verus! {

pub const COL_ID: usize = 0;

pub const COL_TYPE: usize = 1;

pub const COL_ORDER: usize = 2;

pub const COL_TITLE: usize = 3;

pub const COL_SLUG: usize = 4;

pub const COL_RELATIVE_URL: usize = 5;

pub const COL_PROGRESS_KEY: usize = 6;

pub const COL_PARENT_TOPIC: usize = 7;

pub const COL_PARENT_ID: usize = 8;

pub const COL_PARENT_TYPE: usize = 9;

pub const COL_PARENT_TITLE: usize = 10;

pub const COL_PARENT_SLUG: usize = 11;

pub const COL_PARENT_RELATIVE_URL: usize = 12;

pub const COL_PERCENTAGE: usize = 13;

pub const COL_POINTS_EARNED: usize = 14;

pub const COL_STATUS: usize = 15;

pub const COL_COMPLETION_STATUS: usize = 16;

pub const COL_NUM_ATTEMPTED: usize = 17;

pub const COL_NUM_CORRECT: usize = 18;

pub const COL_NUM_INCORRECT: usize = 19;

/// How many columns the table has.
pub const NUM_COLS: usize = 20;

/// The fixed header row, in storage order.
pub open spec fn header_row() -> Seq<Seq<char>> {
    seq![
        "id"@,
        "typeName"@,
        "order"@,
        "title"@,
        "slug"@,
        "relativeUrl"@,
        "progressKey"@,
        "parentTopic"@,
        "parentId"@,
        "parentType"@,
        "parentTitle"@,
        "parentSlug"@,
        "parentRelativeUrl"@,
        "percentage"@,
        "pointsEarned"@,
        "status"@,
        "completionStatus"@,
        "numAttempted"@,
        "numCorrect"@,
        "numIncorrect"@,
    ]
}

/// Builds the header row.
pub fn csv_header() -> (r: Vec<String>)
    ensures
        r.deep_view() == header_row(),
        r@.len() == NUM_COLS,
{
    let mut r: Vec<String> = Vec::new();
    r.push("id".to_owned());
    r.push("typeName".to_owned());
    r.push("order".to_owned());
    r.push("title".to_owned());
    r.push("slug".to_owned());
    r.push("relativeUrl".to_owned());
    r.push("progressKey".to_owned());
    r.push("parentTopic".to_owned());
    r.push("parentId".to_owned());
    r.push("parentType".to_owned());
    r.push("parentTitle".to_owned());
    r.push("parentSlug".to_owned());
    r.push("parentRelativeUrl".to_owned());
    r.push("percentage".to_owned());
    r.push("pointsEarned".to_owned());
    r.push("status".to_owned());
    r.push("completionStatus".to_owned());
    r.push("numAttempted".to_owned());
    r.push("numCorrect".to_owned());
    r.push("numIncorrect".to_owned());
    proof {
        assert(r.deep_view() =~= header_row());
    }
    r
}

/// The text an optional cell renders to: the value, or nothing.
pub open spec fn opt_view(o: Option<Seq<char>>) -> Seq<char> {
    match o {
        Some(s) => s,
        None => Seq::empty(),
    }
}

/// The row of cells a record renders to, in storage order.
pub open spec fn row_of(m: RecordModel) -> Seq<Seq<char>> {
    seq![
        m.id,
        m.node_type,
        dec_str(m.order as nat),
        m.title,
        m.slug,
        m.relative_url,
        opt_view(m.progress_key),
        opt_view(m.parent_topic),
        opt_view(m.parent_id),
        opt_view(m.parent_type),
        opt_view(m.parent_title),
        opt_view(m.parent_slug),
        opt_view(m.parent_relative_url),
        opt_view(m.percentage),
        opt_view(m.points_earned),
        opt_view(m.status),
        opt_view(m.completion_status),
        opt_view(m.num_attempted),
        opt_view(m.num_correct),
        opt_view(m.num_incorrect),
    ]
}

/// The rows a record sequence renders to.
pub open spec fn rows_of(records: Seq<RecordModel>) -> Seq<Seq<Seq<char>>> {
    records.map_values(|m: RecordModel| row_of(m))
}

/// Renders an optional cell.
fn opt_cell(o: &Option<String>) -> (r: String)
    ensures
        r@ == opt_view(opt_string_view(*o)),
{
    match o {
        Some(s) => s.clone(),
        None => String::new(),
    }
}

/// Renders one record as its row of cells.
pub fn record_to_row(d: &DataStruct) -> (r: Vec<String>)
    ensures
        r.deep_view() == row_of(d@),
        r@.len() == NUM_COLS,
{
    let mut r: Vec<String> = Vec::new();
    r.push(d.id.clone());
    r.push(d.node_type.clone());
    r.push(u64_to_string(d.order));
    r.push(d.title.clone());
    r.push(d.slug.clone());
    r.push(d.relative_url.clone());
    r.push(opt_cell(&d.progress_key));
    r.push(opt_cell(&d.parent_topic));
    r.push(opt_cell(&d.parent_id));
    r.push(opt_cell(&d.parent_type));
    r.push(opt_cell(&d.parent_title));
    r.push(opt_cell(&d.parent_slug));
    r.push(opt_cell(&d.parent_relative_url));
    r.push(opt_cell(&d.percentage));
    r.push(opt_cell(&d.points_earned));
    r.push(opt_cell(&d.status));
    r.push(opt_cell(&d.completion_status));
    r.push(opt_cell(&d.num_attempted));
    r.push(opt_cell(&d.num_correct));
    r.push(opt_cell(&d.num_incorrect));
    proof {
        assert(r.deep_view() =~= row_of(d@));
    }
    r
}

/// The CSV text that writing these rows produces: one line per row, cells
/// comma-separated and quoted by the writer's fixed rules.
pub uninterp spec fn csv_text_of(rows: Seq<Seq<Seq<char>>>) -> Seq<char>;

/// Relies on csv's `Writer` over an in-memory buffer, with the length check
/// off: writing to memory cannot fail, and the text written depends on the
/// rows alone.
#[verifier::external_body]
pub fn rows_to_csv(rows: &Vec<Vec<String>>) -> (r: String)
    ensures
        r@ == csv_text_of(rows.deep_view()),
{
    let mut writer = csv::WriterBuilder::new().flexible(true).from_writer(Vec::new());
    for row in rows {
        writer.write_record(row).unwrap();
    }
    String::from_utf8(writer.into_inner().unwrap()).unwrap()
}

/// The rows that reading `s` as headerless CSV yields: `None` when the rows
/// would not share one width.
pub uninterp spec fn csv_rows_of(s: Seq<char>) -> Option<Seq<Seq<Seq<char>>>>;

/// Relies on csv's `Reader` over the text's bytes, headers off: the rows
/// read depend on the text alone, and reading fails only on rows of
/// unequal width.
#[verifier::external_body]
pub fn csv_to_rows(text: &str) -> (r: Option<Vec<Vec<String>>>)
    ensures
        match r {
            Some(v) => csv_rows_of(text@) == Some(v.deep_view()),
            None => csv_rows_of(text@) is None,
        },
{
    let mut reader = csv::ReaderBuilder::new().has_headers(false).from_reader(text.as_bytes());
    let mut out: Vec<Vec<String>> = Vec::new();
    for record in reader.records() {
        match record {
            Ok(row) => out.push(row.iter().map(|cell| cell.to_string()).collect()),
            Err(_) => return None,
        }
    }
    Some(out)
}

/// Renders the freshly flattened records as the complete initial table:
/// the fixed header, then one row per record, in order.
pub fn create_csv(records: &Vec<DataStruct>) -> (r: String)
    ensures
        r@ == csv_text_of(seq![header_row()] + rows_of(records_view(records@))),
{
    let mut rows: Vec<Vec<String>> = Vec::new();
    rows.push(csv_header());
    let mut i: usize = 0;
    while i < records.len()
        invariant
            i <= records@.len(),
            rows.deep_view() == seq![header_row()] + rows_of(records_view(records@.take(i as int))),
        decreases records@.len() - i,
    {
        let row = record_to_row(&records[i]);
        proof {
            assert(rows.deep_view().push(row_of(records@[i as int]@)) =~= seq![header_row()]
                + rows_of(records_view(records@.take(i as int + 1))));
        }
        rows.push(row);
        i = i + 1;
    }
    proof {
        assert(records@.take(records@.len() as int) =~= records@);
    }
    rows_to_csv(&rows)
}

/// Appends one record's row to an in-memory table.
pub fn append_data_to_csv(content: &DataStruct, rows: &mut Vec<Vec<String>>)
    ensures
        final(rows).deep_view() == old(rows).deep_view().push(row_of(content@)),
        final(rows)@.len() == old(rows)@.len() + 1,
{
    rows.push(record_to_row(content));
    proof {
        assert(rows.deep_view() =~= old(rows).deep_view().push(row_of(content@)));
    }
}

} // verus!
