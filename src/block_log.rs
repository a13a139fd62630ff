use vstd::prelude::*;
use vstd::string::*;
use crate::error::LogError;
use crate::json::{JsonValue, count_of, text_of, views};
use crate::series::{
    Series, cell, cell_count, cell_text, cells, find_column, first_series_fields, has_column,
    rows_aligned, row_width, series_columns, series_fields_ok, series_rows, column_index,
};
use crate::text::{append_decimal, decimal};

verus! {

/// A status change of an observing block, as the scheduler reports it.
#[derive(Debug)]
pub struct BlockLog {
    pub time: String,
    pub id: String,
    pub status: String,
    pub hash: String,
    pub sal_index: usize,
}

/// The display name of a control-system group.
pub open spec fn index_label(sal_index: nat) -> Seq<char> {
    if sal_index == 1 {
        "Maintel"@
    } else if sal_index == 2 {
        "AuxTel"@
    } else if sal_index == 3 {
        "OCS"@
    } else {
        "Unknown["@ + decimal(sal_index) + "]"@
    }
}

/// Whether the columns a block status is read from are all present.
pub open spec fn block_columns_ok(cols: Seq<Seq<char>>) -> bool {
    &&& has_column(cols, "time"@)
    &&& has_column(cols, "id"@)
    &&& has_column(cols, "status"@)
    &&& has_column(cols, "hash"@)
    &&& has_column(cols, "salIndex"@)
}

/// Whether the cells of a row have the types of a block status's fields.
pub open spec fn block_cells_ok(cols: Seq<Seq<char>>, row: JsonValue) -> bool {
    &&& text_of(cell(cols, row, "time"@)) is Some
    &&& text_of(cell(cols, row, "id"@)) is Some
    &&& text_of(cell(cols, row, "status"@)) is Some
    &&& text_of(cell(cols, row, "hash"@)) is Some
    &&& count_of(cell(cols, row, "salIndex"@)) is Some
}

/// Whether `b` holds the cells of a row, each taken by its column's name.
pub open spec fn block_from_row(cols: Seq<Seq<char>>, row: JsonValue, b: BlockLog) -> bool {
    &&& text_of(cell(cols, row, "time"@)) == Some(b.time@)
    &&& text_of(cell(cols, row, "id"@)) == Some(b.id@)
    &&& text_of(cell(cols, row, "status"@)) == Some(b.status@)
    &&& text_of(cell(cols, row, "hash"@)) == Some(b.hash@)
    &&& count_of(cell(cols, row, "salIndex"@)) == Some(b.sal_index)
}

/// What reading block statuses out of the rows of a series gives: one per row,
/// in order; `SchemaMismatch` when a column is missing or a row does not have
/// one cell per column; `Parse` when a cell has the wrong type.
pub open spec fn block_result(
    cols: Seq<Seq<char>>,
    rows: Seq<JsonValue>,
    r: Result<Vec<BlockLog>, LogError>,
) -> bool {
    let shape_ok = block_columns_ok(cols) && rows_aligned(cols.len(), rows);
    let cells_ok = forall|i: int| 0 <= i < rows.len() ==> #[trigger] block_cells_ok(cols, rows[i]);
    &&& r is Ok <==> shape_ok && cells_ok
    &&& (r is Err && r->Err_0 is SchemaMismatch) <==> !shape_ok
    &&& (r is Err && r->Err_0 is Parse) <==> shape_ok && !cells_ok
    &&& r is Ok ==> r->Ok_0@.len() == rows.len() && forall|i: int|
        0 <= i < rows.len() ==> block_from_row(cols, rows[i], #[trigger] r->Ok_0@[i])
}

/// A row with fewer or more cells than there are columns makes reading block statuses
/// fail with `SchemaMismatch`; no partial result is given.
pub proof fn lemma_block_misaligned_row(
    cols: Seq<Seq<char>>,
    rows: Seq<JsonValue>,
    r: Result<Vec<BlockLog>, LogError>,
    i: int,
)
    requires
        block_result(cols, rows, r),
        0 <= i < rows.len(),
        row_width(rows[i]) != cols.len(),
    ensures
        r is Err && r->Err_0 is SchemaMismatch,
{
    assert(!rows_aligned(cols.len(), rows));
}

impl Series {
    /// Reads one block status from each row, locating cells by column name.
    pub fn into_block_log(&self) -> (r: Result<Vec<BlockLog>, LogError>)
        ensures
            block_result(views(self.columns@), self.values@, r),
    {
        let ghost cols = views(self.columns@);
        let ghost rows = self.values@;
        let ti = find_column(&self.columns, "time");
        let ii = find_column(&self.columns, "id");
        let st = find_column(&self.columns, "status");
        let hi = find_column(&self.columns, "hash");
        let si = find_column(&self.columns, "salIndex");
        let (ti, ii, st, hi, si) = match (ti, ii, st, hi, si) {
            (Some(a), Some(b), Some(c), Some(d), Some(e)) => (a, b, c, d, e),
            _ => return Err(LogError::SchemaMismatch),
        };
        if !self.is_aligned() {
            return Err(LogError::SchemaMismatch);
        }
        let mut out: Vec<BlockLog> = Vec::new();
        let mut i: usize = 0;
        while i < self.values.len()
            invariant
                i <= rows.len(),
                rows == self.values@,
                cols == views(self.columns@),
                block_columns_ok(cols),
                rows_aligned(cols.len(), rows),
                column_index(cols, "time"@) == ti as int,
                column_index(cols, "id"@) == ii as int,
                column_index(cols, "status"@) == st as int,
                column_index(cols, "hash"@) == hi as int,
                column_index(cols, "salIndex"@) == si as int,
                ti < cols.len() && ii < cols.len() && st < cols.len() && hi < cols.len() && si
                    < cols.len(),
                out@.len() == i,
                forall|j: int| 0 <= j < i ==> #[trigger] block_cells_ok(cols, rows[j]),
                forall|j: int| 0 <= j < i ==> block_from_row(cols, rows[j], #[trigger] out@[j]),
            decreases self.values.len() - i,
        {
            assert(row_width(rows[i as int]) == cols.len());
            let row = match &self.values[i] {
                JsonValue::Array(c) => c,
                _ => return Err(LogError::SchemaMismatch),
            };
            assert(cells(rows[i as int]) == row@);
            let time = cell_text(row, ti);
            let id = cell_text(row, ii);
            let status = cell_text(row, st);
            let hash = cell_text(row, hi);
            let sal_index = cell_count(row, si);
            match (time, id, status, hash, sal_index) {
                (Some(time), Some(id), Some(status), Some(hash), Some(sal_index)) => {
                    out.push(BlockLog { time, id, status, hash, sal_index });
                },
                _ => {
                    assert(!block_cells_ok(cols, rows[i as int]));
                    return Err(LogError::Parse);
                },
            }
            i = i + 1;
        }
        Ok(out)
    }
}

impl BlockLog {
    /// When the status was reported.
    pub fn get_date_added(&self) -> (r: &str)
        ensures
            r@ == self.time@,
    {
        self.time.as_str()
    }

    /// The display name of the block's control-system group.
    pub fn get_index_label(&self) -> (r: String)
        ensures
            r@ == index_label(self.sal_index as nat),
    {
        if self.sal_index == 1 {
            String::from_str("Maintel")
        } else if self.sal_index == 2 {
            String::from_str("AuxTel")
        } else if self.sal_index == 3 {
            String::from_str("OCS")
        } else {
            let mut s = String::from_str("Unknown[");
            append_decimal(&mut s, self.sal_index as u64);
            s.append("]");
            s
        }
    }

    /// Reads the block statuses out of a time-series answer.
    pub fn from_envelope(env: JsonValue) -> (r: Result<Vec<BlockLog>, LogError>)
        ensures
            match first_series_fields(env) {
                Err(e) => r == Err::<Vec<BlockLog>, LogError>(e),
                Ok(f) => if series_fields_ok(f) {
                    block_result(series_columns(f), series_rows(f), r)
                } else {
                    r is Err && r->Err_0 is Parse
                },
            },
    {
        match Series::from_envelope(env) {
            Ok(series) => series.into_block_log(),
            Err(e) => Err(e),
        }
    }
}

} // verus!
