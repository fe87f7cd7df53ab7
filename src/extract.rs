//! Card rows out of one CSV page: the header line is dropped, the records are
//! read by the `csv` crate, and two fields are taken from each by position.
use vstd::prelude::*;
use crate::text::{join_with, views_of, join_strs};

verus! {

#[verifier::external_type_specification]
#[verifier::external_body]
pub struct ExCsvError(csv::Error);

/// Position of the card name in a record.
pub const NAME_COLUMN: usize = 6;

/// Position of the rarity in a record.
pub const RARITY_COLUMN: usize = 5;

/// One card of the cube: its name, and its rarity where rarity was asked for.
#[derive(Debug)]
pub struct CardRow {
    pub name: String,
    pub rarity: Option<String>,
}

impl View for CardRow {
    type V = (Seq<char>, Option<Seq<char>>);

    open spec fn view(&self) -> (Seq<char>, Option<Seq<char>>) {
        (self.name@, match self.rarity {
            Some(r) => Some(r@),
            None => None,
        })
    }
}

/// What can make a page unreadable.
#[derive(Debug, Clone, Copy, PartialEq, Eq)]
pub enum ExtractError {
    /// The CSV reader refused the page (for example, records of unequal length).
    Malformed,
    /// The record at this position has no field at the name or rarity position.
    MissingColumns(usize),
}

/// The views of a list of card rows.
pub open spec fn row_views(v: Seq<CardRow>) -> Seq<(Seq<char>, Option<Seq<char>>)> {
    v.map_values(|c: CardRow| c@)
}

/// The views of a list of records, each a list of fields.
pub open spec fn record_views(v: Seq<Vec<String>>) -> Seq<Seq<Seq<char>>> {
    v.map_values(|r: Vec<String>| views_of(r@))
}

/// Where the first line of `s` ends: the position of its first newline, or
/// the length of `s` if it has none.
pub open spec fn line_end(s: Seq<char>) -> nat
    decreases s.len(),
{
    if s.len() == 0 || s[0] == '\n' {
        0
    } else {
        1 + line_end(s.drop_first())
    }
}

/// A line without the carriage return that ended it, if one did.
pub open spec fn without_cr(l: Seq<char>) -> Seq<char> {
    if l.len() > 0 && l.last() == '\r' {
        l.drop_last()
    } else {
        l
    }
}

/// The lines of `s` as `str::lines` gives them: split at `\n`, a `\r` before
/// the `\n` removed, and no empty last line after a final newline.
pub open spec fn lines_of(s: Seq<char>) -> Seq<Seq<char>>
    decreases s.len(),
{
    if s.len() == 0 {
        Seq::empty()
    } else if line_end(s) >= s.len() {
        seq![s]
    } else {
        seq![without_cr(s.take(line_end(s) as int))] + lines_of(s.skip(line_end(s) as int + 1))
    }
}

/// The data of a page: every line but the first, joined by `\n`.
pub open spec fn page_body(text: Seq<char>) -> Seq<char> {
    join_with(lines_of(text).skip(if lines_of(text).len() == 0 { 0 } else { 1 }), "\n"@)
}

/// The records that the `csv` crate reads from `data` when no header is
/// expected, each a list of fields; `None` where it reports an error.
pub uninterp spec fn csv_records_of(data: Seq<char>) -> Option<Seq<Seq<Seq<char>>>>;

/// Whether every record has a field at the name and the rarity position.
pub open spec fn all_complete(recs: Seq<Seq<Seq<char>>>) -> bool {
    forall|i: int| 0 <= i < recs.len() ==> #[trigger] recs[i].len() > NAME_COLUMN
}

/// The card row of one complete record.
pub open spec fn record_row(rec: Seq<Seq<char>>, with_rarity: bool) -> (Seq<char>, Option<Seq<char>>) {
    (rec[NAME_COLUMN as int], if with_rarity { Some(rec[RARITY_COLUMN as int]) } else { None })
}

/// The card rows of complete records, in record order.
pub open spec fn rows_of_records(recs: Seq<Seq<Seq<char>>>, with_rarity: bool) -> Seq<(Seq<char>, Option<Seq<char>>)> {
    recs.map_values(|r: Seq<Seq<char>>| record_row(r, with_rarity))
}

/// The card rows of a page, or `None` where the page cannot be read.
pub open spec fn page_rows(text: Seq<char>, with_rarity: bool) -> Option<Seq<(Seq<char>, Option<Seq<char>>)>> {
    match csv_records_of(page_body(text)) {
        Some(recs) => if all_complete(recs) {
            Some(rows_of_records(recs, with_rarity))
        } else {
            None
        },
        None => None,
    }
}

/// Relies on `str::lines`: the lines of the text, terminators removed.
#[verifier::external_body]
fn text_lines(text: &str) -> (r: Vec<String>)
    ensures
        views_of(r@) == lines_of(text@),
{
    text.lines().map(|l| l.to_string()).collect()
}

/// Relies on `csv::ReaderBuilder` with `has_headers(false)` and on
/// `Reader::records`: every record of the data as its list of fields, or the
/// first error the reader reports.
#[verifier::external_body]
fn read_records(data: &str) -> (r: Result<Vec<Vec<String>>, csv::Error>)
    ensures
        r is Ok <==> csv_records_of(data@) is Some,
        r is Ok ==> record_views(r->Ok_0@) == csv_records_of(data@)->Some_0,
{
    let mut rdr = csv::ReaderBuilder::new().has_headers(false).from_reader(data.as_bytes());
    rdr.records().map(|rec| rec.map(|f| f.iter().map(|s| s.to_string()).collect())).collect()
}

/// Drops the header line of a page and joins the remaining lines with `\n`.
pub fn strip_header(text: &str) -> (r: String)
    ensures
        r@ == page_body(text@),
{
    let lines = text_lines(text);
    let start: usize = if lines.len() == 0 { 0 } else { 1 };
    let mut rest: Vec<String> = Vec::new();
    let mut i: usize = start;
    while i < lines.len()
        invariant
            start <= i <= lines.len(),
            start == (if lines@.len() == 0 { 0usize } else { 1usize }),
            views_of(rest@) =~= views_of(lines@).subrange(start as int, i as int),
        decreases lines.len() - i,
    {
        let line = lines[i].clone();
        let ghost prev = rest@;
        rest.push(line);
        assert(views_of(rest@) =~= views_of(prev).push(lines@[i as int]@));
        i = i + 1;
    }
    assert(views_of(rest@) =~= views_of(lines@).skip(start as int));
    join_strs(&rest, "\n")
}

/// Takes the name, and the rarity where asked for, from each record. Fails on
/// the first record that has no field at the name position.
pub fn extract_rows(records: &Vec<Vec<String>>, with_rarity: bool) -> (r: Result<Vec<CardRow>, ExtractError>)
    ensures
        r is Ok <==> all_complete(record_views(records@)),
        r is Ok ==> row_views(r->Ok_0@) == rows_of_records(record_views(records@), with_rarity),
        r matches Err(e) ==> ({
            &&& e matches ExtractError::MissingColumns(i)
            &&& i < records@.len()
            &&& records@[i as int]@.len() <= NAME_COLUMN
            &&& all_complete(record_views(records@).take(i as int))
        }),
{
    let mut rows: Vec<CardRow> = Vec::new();
    let mut i: usize = 0;
    while i < records.len()
        invariant
            i <= records.len(),
            all_complete(record_views(records@).take(i as int)),
            row_views(rows@) =~= rows_of_records(record_views(records@).take(i as int), with_rarity),
        decreases records.len() - i,
    {
        let rec = &records[i];
        if rec.len() <= NAME_COLUMN {
            assert(record_views(records@)[i as int].len() <= NAME_COLUMN);
            return Err(ExtractError::MissingColumns(i));
        }
        let name = rec[NAME_COLUMN].clone();
        let rarity = if with_rarity {
            Some(rec[RARITY_COLUMN].clone())
        } else {
            None
        };
        let row = CardRow { name, rarity };
        let ghost prev = rows@;
        rows.push(row);
        proof {
            let rv = record_views(records@);
            assert(rv.take(i + 1) =~= rv.take(i as int).push(rv[i as int]));
            assert(row@ == record_row(rv[i as int], with_rarity));
            assert(row_views(rows@) =~= row_views(prev).push(row@));
        }
        i = i + 1;
    }
    assert(record_views(records@).take(records.len() as int) =~= record_views(records@));
    Ok(rows)
}

/// The card rows of one CSV page: the header line is dropped, the rest is read
/// as records, and the name (and rarity, where asked for) is taken from each.
pub fn process_csv_text(text: &str, with_rarity: bool) -> (r: Result<Vec<CardRow>, ExtractError>)
    ensures
        r is Ok <==> page_rows(text@, with_rarity) is Some,
        r is Ok ==> row_views(r->Ok_0@) == page_rows(text@, with_rarity)->Some_0,
        r == Err::<Vec<CardRow>, ExtractError>(ExtractError::Malformed)
            <==> csv_records_of(page_body(text@)) is None,
        r matches Err(ExtractError::MissingColumns(i)) ==> {
            let recs = csv_records_of(page_body(text@))->Some_0;
            &&& csv_records_of(page_body(text@)) is Some
            &&& i < recs.len()
            &&& recs[i as int].len() <= NAME_COLUMN
            &&& all_complete(recs.take(i as int))
        },
{
    let body = strip_header(text);
    match read_records(body.as_str()) {
        Ok(records) => extract_rows(&records, with_rarity),
        Err(_) => Err(ExtractError::Malformed),
    }
}

} // verus!
