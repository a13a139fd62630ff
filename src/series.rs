use vstd::prelude::*;
use crate::error::LogError;
use crate::json::{
    JsonValue, member, object_fields, opt_text_of, opt_view, texts_of, views, get_opt_text, get_texts, take_member,
    text_of, count_of,
};
use crate::text::same_text;

verus! {

/// One series of a time-series answer: its column names and its rows, each
/// row an array of cells in column order.
pub struct Series {
    pub name: Option<String>,
    pub columns: Vec<String>,
    pub values: Vec<JsonValue>,
}

/// The members of the first series of the first statement of a time-series
/// answer `{results: [{series: [{name, columns, values}]}]}`, or why there is none.
pub open spec fn first_series_fields(env: JsonValue) -> Result<Seq<(String, JsonValue)>, LogError> {
    match env {
        JsonValue::Object(top) => match member(top@, "results"@) {
            Some(JsonValue::Array(results)) => if results@.len() == 0 {
                Err(LogError::EmptyResult)
            } else {
                match results@[0] {
                    JsonValue::Object(statement) => match member(statement@, "series"@) {
                        None => Err(LogError::EmptyResult),
                        Some(JsonValue::Null) => Err(LogError::EmptyResult),
                        Some(JsonValue::Array(series)) => if series@.len() == 0 {
                            Err(LogError::EmptyResult)
                        } else {
                            match series@[0] {
                                JsonValue::Object(s) => Ok(s@),
                                _ => Err(LogError::Parse),
                            }
                        },
                        _ => Err(LogError::Parse),
                    },
                    _ => Err(LogError::Parse),
                }
            },
            _ => Err(LogError::Parse),
        },
        _ => Err(LogError::Parse),
    }
}

/// The statements of a time-series answer.
pub open spec fn statements(env: JsonValue) -> Seq<JsonValue> {
    match member(object_fields(env), "results"@) {
        Some(JsonValue::Array(results)) => results@,
        _ => Seq::empty(),
    }
}

/// The list of series of a statement, when it has one.
pub open spec fn series_list(statement: JsonValue) -> Option<Seq<JsonValue>> {
    match member(object_fields(statement), "series"@) {
        Some(JsonValue::Array(series)) => Some(series@),
        _ => None,
    }
}

/// An answer with no statement, or whose first statement has an empty list of
/// series, reads as `EmptyResult`: no rows is not a failed query.
pub proof fn lemma_no_series_is_empty_result(env: JsonValue)
    requires
        env is Object,
        member(object_fields(env), "results"@) is Some,
        member(object_fields(env), "results"@)->0 is Array,
        statements(env).len() == 0 || (statements(env)[0] is Object && series_list(
            statements(env)[0],
        ) == Some(Seq::<JsonValue>::empty())),
    ensures
        first_series_fields(env) == Err::<Seq<(String, JsonValue)>, LogError>(
            LogError::EmptyResult,
        ),
{
}

/// Whether the members of a series have the expected types.
pub open spec fn series_fields_ok(fields: Seq<(String, JsonValue)>) -> bool {
    &&& opt_text_of(member(fields, "name"@)) is Some
    &&& texts_of(member(fields, "columns"@)) is Some
    &&& member(fields, "values"@) is Some
    &&& member(fields, "values"@)->0 is Array
}

/// The column names of a series.
pub open spec fn series_columns(fields: Seq<(String, JsonValue)>) -> Seq<Seq<char>> {
    texts_of(member(fields, "columns"@))->0
}

/// The rows of a series.
pub open spec fn series_rows(fields: Seq<(String, JsonValue)>) -> Seq<JsonValue> {
    match member(fields, "values"@) {
        Some(JsonValue::Array(rows)) => rows@,
        _ => Seq::empty(),
    }
}

/// Whether `s` holds what the members of a series say.
pub open spec fn series_from(fields: Seq<(String, JsonValue)>, s: Series) -> bool {
    &&& opt_text_of(member(fields, "name"@)) == Some(opt_view(s.name))
    &&& views(s.columns@) == series_columns(fields)
    &&& s.values@ == series_rows(fields)
}

/// Whether `i` is the first position of column `c`.
pub open spec fn is_first_index(cols: Seq<Seq<char>>, c: Seq<char>, i: int) -> bool {
    &&& 0 <= i < cols.len()
    &&& cols[i] == c
    &&& forall|j: int| 0 <= j < i ==> cols[j] != c
}

/// Whether column `c` is present.
pub open spec fn has_column(cols: Seq<Seq<char>>, c: Seq<char>) -> bool {
    exists|i: int| 0 <= i < cols.len() && cols[i] == c
}

/// The first position of column `c`.
pub open spec fn column_index(cols: Seq<Seq<char>>, c: Seq<char>) -> int {
    choose|i: int| is_first_index(cols, c, i)
}

/// The cells of a row (none when it is not an array).
pub open spec fn cells(row: JsonValue) -> Seq<JsonValue> {
    match row {
        JsonValue::Array(c) => c@,
        _ => Seq::empty(),
    }
}

/// The number of cells of a row, or -1 when it is not an array.
pub open spec fn row_width(row: JsonValue) -> int {
    match row {
        JsonValue::Array(c) => c@.len() as int,
        _ => -1,
    }
}

/// Whether every row is an array with one cell per column.
pub open spec fn rows_aligned(width: nat, rows: Seq<JsonValue>) -> bool {
    forall|i: int| 0 <= i < rows.len() ==> #[trigger] row_width(rows[i]) == width
}

/// The cell of a row under column `c`.
pub open spec fn cell(cols: Seq<Seq<char>>, row: JsonValue, c: Seq<char>) -> Option<JsonValue> {
    Some(cells(row)[column_index(cols, c)])
}

proof fn lemma_first_index_unique(cols: Seq<Seq<char>>, c: Seq<char>, i: int)
    requires
        is_first_index(cols, c, i),
    ensures
        column_index(cols, c) == i,
{
    let k = column_index(cols, c);
    assert(is_first_index(cols, c, k));
    if k < i {
        assert(cols[k] != c);
    } else if k > i {
        assert(cols[i] != c);
    }
}

/// The first position of the column named `name`.
pub fn find_column(columns: &Vec<String>, name: &str) -> (r: Option<usize>)
    ensures
        match r {
            Some(i) => is_first_index(views(columns@), name@, i as int) && column_index(
                views(columns@),
                name@,
            ) == i,
            None => !has_column(views(columns@), name@),
        },
{
    let ghost cols = views(columns@);
    let mut i: usize = 0;
    while i < columns.len()
        invariant
            i <= columns@.len(),
            cols == views(columns@),
            forall|j: int| 0 <= j < i ==> cols[j] != name@,
        decreases columns.len() - i,
    {
        if same_text(columns[i].as_str(), name) {
            proof {
                lemma_first_index_unique(cols, name@, i as int);
            }
            return Some(i);
        }
        i = i + 1;
    }
    None
}

/// A string cell.
pub fn cell_text(row: &Vec<JsonValue>, k: usize) -> (r: Option<String>)
    requires
        k < row@.len(),
    ensures
        opt_view(r) == text_of(Some(row@[k as int])),
{
    match &row[k] {
        JsonValue::Str(s) => Some(s.clone()),
        _ => None,
    }
}

/// A non-negative integer cell that fits in `usize`.
pub fn cell_count(row: &Vec<JsonValue>, k: usize) -> (r: Option<usize>)
    requires
        k < row@.len(),
    ensures
        r == count_of(Some(row@[k as int])),
{
    match &row[k] {
        JsonValue::UInt(n) => if *n <= usize::MAX as u64 {
            Some(*n as usize)
        } else {
            None
        },
        _ => None,
    }
}

impl Series {
    /// Takes the first series of the first statement out of a time-series answer.
    pub fn from_envelope(env: JsonValue) -> (r: Result<Series, LogError>)
        ensures
            match first_series_fields(env) {
                Err(e) => r == Err::<Series, LogError>(e),
                Ok(f) => match r {
                    Ok(s) => series_fields_ok(f) && series_from(f, s),
                    Err(e) => !series_fields_ok(f) && e is Parse,
                },
            },
    {
        let top = match env {
            JsonValue::Object(top) => top,
            _ => return Err(LogError::Parse),
        };
        let mut results = match take_member(top, "results") {
            Some(JsonValue::Array(results)) => results,
            _ => return Err(LogError::Parse),
        };
        if results.len() == 0 {
            return Err(LogError::EmptyResult);
        }
        let statement = match results.remove(0) {
            JsonValue::Object(statement) => statement,
            _ => return Err(LogError::Parse),
        };
        let mut series = match take_member(statement, "series") {
            None => return Err(LogError::EmptyResult),
            Some(JsonValue::Null) => return Err(LogError::EmptyResult),
            Some(JsonValue::Array(series)) => series,
            _ => return Err(LogError::Parse),
        };
        if series.len() == 0 {
            return Err(LogError::EmptyResult);
        }
        let fields = match series.remove(0) {
            JsonValue::Object(fields) => fields,
            _ => return Err(LogError::Parse),
        };
        let name = match get_opt_text(&fields, "name") {
            Ok(name) => name,
            Err(_) => return Err(LogError::Parse),
        };
        let columns = match get_texts(&fields, "columns") {
            Some(columns) => columns,
            None => return Err(LogError::Parse),
        };
        let values = match take_member(fields, "values") {
            Some(JsonValue::Array(values)) => values,
            _ => return Err(LogError::Parse),
        };
        Ok(Series { name, columns, values })
    }

    /// Whether every row is an array with one cell per column.
    pub fn is_aligned(&self) -> (r: bool)
        ensures
            r == rows_aligned(self.columns@.len(), self.values@),
    {
        let width = self.columns.len();
        let mut i: usize = 0;
        while i < self.values.len()
            invariant
                i <= self.values@.len(),
                width == self.columns@.len(),
                forall|j: int| 0 <= j < i ==> #[trigger] row_width(self.values@[j]) == width,
            decreases self.values.len() - i,
        {
            match &self.values[i] {
                JsonValue::Array(c) => {
                    if c.len() != width {
                        assert(row_width(self.values@[i as int]) != width);
                        return false;
                    }
                },
                _ => {
                    assert(row_width(self.values@[i as int]) == -1);
                    return false;
                },
            }
            i = i + 1;
        }
        true
    }
}

} // verus!
