//! The page that a batch becomes, and the store of pages it is written to.

use crate::record::{row_of, AlarmBatch, AlarmRecordView, Column, COLUMNS};
use vstd::prelude::*;

verus! {

/// The heading row: the label of each column, from left to right.
pub open spec fn heading_row() -> Seq<Seq<char>> {
    Seq::new(COLUMNS as nat, |i: int| Column::order()[i].label_text())
}

/// The rows that replace a page when a batch is written: the heading row,
/// then one row for each record, in the order of the batch. An empty batch
/// leaves the page without any row, the heading row included.
pub open spec fn page_of(batch: Seq<AlarmRecordView>) -> Seq<Seq<Seq<char>>> {
    if batch.len() == 0 {
        Seq::empty()
    } else {
        seq![heading_row()] + batch.map_values(|record: AlarmRecordView| row_of(record))
    }
}

/// A store of pages, each found by the identifier of its document and by its
/// own name.
pub struct Sink {
    pub pages: Map<(Seq<char>, Seq<char>), Seq<Seq<Seq<char>>>>,
}

impl Sink {
    /// The store after `rows` have replaced the page `sheet` of `document`.
    /// Whatever the page held before is gone; every other page is as it was.
    pub open spec fn overwrite(
        self,
        document: Seq<char>,
        sheet: Seq<char>,
        rows: Seq<Seq<Seq<char>>>,
    ) -> Sink {
        Sink { pages: self.pages.insert((document, sheet), rows) }
    }
}

/// Writing the same rows to the same page twice leaves the store as writing
/// them once does.
pub proof fn lemma_overwrite_twice(
    sink: Sink,
    document: Seq<char>,
    sheet: Seq<char>,
    rows: Seq<Seq<Seq<char>>>,
)
    ensures
        sink.overwrite(document, sheet, rows).overwrite(document, sheet, rows) == sink.overwrite(
            document,
            sheet,
            rows,
        ),
{
    assert(sink.pages.insert((document, sheet), rows).insert((document, sheet), rows)
        =~= sink.pages.insert((document, sheet), rows));
}

/// A page has no row but for a batch with a record; then it has one row more
/// than the batch has records, every row has a cell for each column, and the
/// row after the heading row and `i` others shows the record at `i`.
pub proof fn lemma_page_shape(batch: Seq<AlarmRecordView>)
    ensures
        batch.len() == 0 ==> page_of(batch).len() == 0,
        batch.len() > 0 ==> page_of(batch).len() == batch.len() + 1,
        batch.len() > 0 ==> page_of(batch)[0] == heading_row(),
        forall|i: int| 0 <= i < batch.len() ==> #[trigger] page_of(batch)[i + 1] == row_of(batch[i]),
        forall|i: int| 0 <= i < page_of(batch).len() ==> (#[trigger] page_of(batch)[i]).len() == COLUMNS,
{
}

/// The heading row.
pub fn headings() -> (cells: Vec<String>)
    ensures
        cells.deep_view() == heading_row(),
{
    let columns = Column::all();
    let mut cells: Vec<String> = Vec::new();
    let mut i: usize = 0;
    while i < COLUMNS
        invariant
            i <= COLUMNS,
            columns@ == Column::order(),
            cells@.len() == i,
            forall|k: int| 0 <= k < i ==> (#[trigger] cells@[k])@ == Column::order()[k].label_text(),
        decreases COLUMNS - i,
    {
        cells.push(String::from_str(columns[i].label()));
        i += 1;
    }
    assert(cells.deep_view() =~= heading_row());
    cells
}

/// The rows that replace the page when `batch` is written.
pub fn page(batch: &AlarmBatch) -> (rows: Vec<Vec<String>>)
    ensures
        rows.deep_view() == page_of(batch@),
{
    let mut rows: Vec<Vec<String>> = Vec::new();
    if batch.records.len() == 0 {
        assert(rows.deep_view() =~= page_of(batch@));
        return rows;
    }
    rows.push(headings());
    let mut i: usize = 0;
    while i < batch.records.len()
        invariant
            i <= batch.records.len(),
            rows@.len() == i + 1,
            rows@[0].deep_view() == heading_row(),
            forall|k: int| 0 <= k < i ==> (#[trigger] rows@[k + 1]).deep_view() == row_of(batch@[k]),
        decreases batch.records.len() - i,
    {
        rows.push(batch.records[i].row());
        i += 1;
    }
    assert forall|k: int| 0 <= k < rows@.len() implies #[trigger] rows.deep_view()[k] == page_of(
        batch@,
    )[k] by {
        if k > 0 {
            assert(rows@[(k - 1) + 1].deep_view() == row_of(batch@[k - 1]));
        }
    }
    assert(rows.deep_view() =~= page_of(batch@));
    rows
}

} // verus!
