use vstd::prelude::*;
use crate::error::LogError;
use crate::json::{JsonValue, count_of, text_of, views};
use crate::series::{
    Series, cell, cell_count, cell_text, cells, find_column, first_series_fields, has_column,
    rows_aligned, row_width, series_columns, series_fields_ok, series_rows, column_index,
};

verus! {

/// An alarm raised by the observatory's watcher.
#[derive(Debug)]
pub struct FaultLog {
    pub name: String,
    pub severity: usize,
    pub reason: String,
    pub time: String,
}

/// Whether the columns an alarm is read from are all present.
pub open spec fn fault_columns_ok(cols: Seq<Seq<char>>) -> bool {
    &&& has_column(cols, "time"@)
    &&& has_column(cols, "name"@)
    &&& has_column(cols, "reason"@)
    &&& has_column(cols, "severity"@)
}

/// Whether the cells of a row have the types of an alarm's fields.
pub open spec fn fault_cells_ok(cols: Seq<Seq<char>>, row: JsonValue) -> bool {
    &&& text_of(cell(cols, row, "time"@)) is Some
    &&& text_of(cell(cols, row, "name"@)) is Some
    &&& text_of(cell(cols, row, "reason"@)) is Some
    &&& count_of(cell(cols, row, "severity"@)) is Some
}

/// Whether `f` holds the cells of a row, each taken by its column's name.
pub open spec fn fault_from_row(cols: Seq<Seq<char>>, row: JsonValue, f: FaultLog) -> bool {
    &&& text_of(cell(cols, row, "time"@)) == Some(f.time@)
    &&& text_of(cell(cols, row, "name"@)) == Some(f.name@)
    &&& text_of(cell(cols, row, "reason"@)) == Some(f.reason@)
    &&& count_of(cell(cols, row, "severity"@)) == Some(f.severity)
}

/// What reading alarms out of the rows of a series gives: one alarm per row, in
/// order; `SchemaMismatch` when a column is missing or a row does not have one
/// cell per column; `Parse` when a cell has the wrong type.
pub open spec fn fault_result(
    cols: Seq<Seq<char>>,
    rows: Seq<JsonValue>,
    r: Result<Vec<FaultLog>, LogError>,
) -> bool {
    let shape_ok = fault_columns_ok(cols) && rows_aligned(cols.len(), rows);
    let cells_ok = forall|i: int| 0 <= i < rows.len() ==> #[trigger] fault_cells_ok(cols, rows[i]);
    &&& r is Ok <==> shape_ok && cells_ok
    &&& (r is Err && r->Err_0 is SchemaMismatch) <==> !shape_ok
    &&& (r is Err && r->Err_0 is Parse) <==> shape_ok && !cells_ok
    &&& r is Ok ==> r->Ok_0@.len() == rows.len() && forall|i: int|
        0 <= i < rows.len() ==> fault_from_row(cols, rows[i], #[trigger] r->Ok_0@[i])
}

/// A row with fewer or more cells than there are columns makes reading alarms
/// fail with `SchemaMismatch`; no partial result is given.
pub proof fn lemma_fault_misaligned_row(
    cols: Seq<Seq<char>>,
    rows: Seq<JsonValue>,
    r: Result<Vec<FaultLog>, LogError>,
    i: int,
)
    requires
        fault_result(cols, rows, r),
        0 <= i < rows.len(),
        row_width(rows[i]) != cols.len(),
    ensures
        r is Err && r->Err_0 is SchemaMismatch,
{
    assert(!rows_aligned(cols.len(), rows));
}

impl Series {
    /// Reads one alarm from each row, locating cells by column name.
    pub fn into_fault_log(&self) -> (r: Result<Vec<FaultLog>, LogError>)
        ensures
            fault_result(views(self.columns@), self.values@, r),
    {
        let ghost cols = views(self.columns@);
        let ghost rows = self.values@;
        let ti = find_column(&self.columns, "time");
        let ni = find_column(&self.columns, "name");
        let ri = find_column(&self.columns, "reason");
        let si = find_column(&self.columns, "severity");
        let (ti, ni, ri, si) = match (ti, ni, ri, si) {
            (Some(a), Some(b), Some(c), Some(d)) => (a, b, c, d),
            _ => return Err(LogError::SchemaMismatch),
        };
        if !self.is_aligned() {
            return Err(LogError::SchemaMismatch);
        }
        let mut out: Vec<FaultLog> = Vec::new();
        let mut i: usize = 0;
        while i < self.values.len()
            invariant
                i <= rows.len(),
                rows == self.values@,
                cols == views(self.columns@),
                fault_columns_ok(cols),
                rows_aligned(cols.len(), rows),
                column_index(cols, "time"@) == ti as int,
                column_index(cols, "name"@) == ni as int,
                column_index(cols, "reason"@) == ri as int,
                column_index(cols, "severity"@) == si as int,
                ti < cols.len() && ni < cols.len() && ri < cols.len() && si < cols.len(),
                out@.len() == i,
                forall|j: int| 0 <= j < i ==> #[trigger] fault_cells_ok(cols, rows[j]),
                forall|j: int| 0 <= j < i ==> fault_from_row(cols, rows[j], #[trigger] out@[j]),
            decreases self.values.len() - i,
        {
            assert(row_width(rows[i as int]) == cols.len());
            let row = match &self.values[i] {
                JsonValue::Array(c) => c,
                _ => return Err(LogError::SchemaMismatch),
            };
            assert(cells(rows[i as int]) == row@);
            let time = cell_text(row, ti);
            let name = cell_text(row, ni);
            let reason = cell_text(row, ri);
            let severity = cell_count(row, si);
            match (time, name, reason, severity) {
                (Some(time), Some(name), Some(reason), Some(severity)) => {
                    out.push(FaultLog { name, severity, reason, time });
                },
                _ => {
                    assert(!fault_cells_ok(cols, rows[i as int]));
                    return Err(LogError::Parse);
                },
            }
            i = i + 1;
        }
        Ok(out)
    }
}

impl FaultLog {
    /// Reads the alarms out of a time-series answer.
    pub fn from_envelope(env: JsonValue) -> (r: Result<Vec<FaultLog>, LogError>)
        ensures
            match first_series_fields(env) {
                Err(e) => r == Err::<Vec<FaultLog>, LogError>(e),
                Ok(f) => if series_fields_ok(f) {
                    fault_result(series_columns(f), series_rows(f), r)
                } else {
                    r is Err && r->Err_0 is Parse
                },
            },
    {
        match Series::from_envelope(env) {
            Ok(series) => series.into_fault_log(),
            Err(e) => Err(e),
        }
    }
}

} // verus!
