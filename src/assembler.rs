//! Builds the table of column names and rendered rows from a query's rows.
use vstd::prelude::*;

use crate::formatter::{format_value, formats_as};
use crate::model::{Cell, Column, QueryResult, QueryRows};

verus! {

/// Whether `r` is the table built from `q`: empty when no row came back,
/// whatever the schema; otherwise the schema's names, in order, and every
/// cell rendered by its column's wire type.
pub open spec fn assembled_from(q: QueryRows, r: QueryResult) -> bool {
    if q.rows.len() == 0 {
        r.columns.len() == 0 && r.rows.len() == 0
    } else {
        &&& r.columns.len() == q.schema.len()
        &&& forall|j: int| 0 <= j < q.schema.len() ==> #[trigger] r.columns[j]@ == q.schema[j].name@
        &&& r.rows.len() == q.rows.len()
        &&& forall|i: int|
            0 <= i < q.rows.len() ==> {
                &&& #[trigger] r.rows[i].len() == q.schema.len()
                &&& forall|j: int|
                    0 <= j < q.schema.len() ==> formats_as(
                        q.schema[j].tag,
                        q.rows[i][j],
                        #[trigger] r.rows[i][j],
                    )
            }
    }
}

fn column_names(schema: &Vec<Column>) -> (names: Vec<String>)
    ensures
        names.len() == schema.len(),
        forall|j: int| 0 <= j < schema.len() ==> #[trigger] names[j]@ == schema[j].name@,
{
    let mut names: Vec<String> = Vec::new();
    let mut j: usize = 0;
    while j < schema.len()
        invariant
            j <= schema.len(),
            names.len() == j,
            forall|k: int| 0 <= k < j ==> #[trigger] names[k]@ == schema[k].name@,
        decreases schema.len() - j,
    {
        names.push(schema[j].name.clone());
        j = j + 1;
    }
    names
}

fn format_row(schema: &Vec<Column>, row: &Vec<Cell>) -> (out: Vec<String>)
    requires
        row.len() == schema.len(),
        forall|j: int| 0 <= j < schema.len() ==> crate::model::cell_fits(schema[j].tag, #[trigger] row[j]),
    ensures
        out.len() == schema.len(),
        forall|j: int| 0 <= j < schema.len() ==> formats_as(schema[j].tag, row[j], #[trigger] out[j]),
{
    let mut out: Vec<String> = Vec::new();
    let mut j: usize = 0;
    while j < row.len()
        invariant
            row.len() == schema.len(),
            j <= row.len(),
            out.len() == j,
            forall|k: int| 0 <= k < j ==> formats_as(schema[k].tag, row[k], #[trigger] out[k]),
            forall|k: int| 0 <= k < schema.len() ==> crate::model::cell_fits(schema[k].tag, #[trigger] row[k]),
        decreases row.len() - j,
    {
        out.push(format_value(&row[j], schema[j].tag));
        j = j + 1;
    }
    out
}

/// Builds the result table: no columns and no rows when the query returned
/// no row; otherwise the schema's column names and each row rendered cell by cell.
pub fn assemble_result(q: &QueryRows) -> (r: QueryResult)
    requires
        q.wf(),
    ensures
        assembled_from(*q, r),
        r.rows.len() == q.rows.len(),
        forall|i: int| 0 <= i < r.rows.len() ==> #[trigger] r.rows[i].len() == r.columns.len(),
{
    if q.rows.len() == 0 {
        return QueryResult { columns: Vec::new(), rows: Vec::new() };
    }
    let columns = column_names(&q.schema);
    let mut rows: Vec<Vec<String>> = Vec::new();
    let mut i: usize = 0;
    while i < q.rows.len()
        invariant
            q.wf(),
            i <= q.rows.len(),
            rows.len() == i,
            forall|k: int|
                0 <= k < i ==> {
                    &&& #[trigger] rows[k].len() == q.schema.len()
                    &&& forall|j: int|
                        0 <= j < q.schema.len() ==> formats_as(
                            q.schema[j].tag,
                            q.rows[k][j],
                            #[trigger] rows[k][j],
                        )
                },
        decreases q.rows.len() - i,
    {
        assert(q.rows[i as int].len() == q.schema.len());
        let formatted = format_row(&q.schema, &q.rows[i]);
        rows.push(formatted);
        i = i + 1;
    }
    QueryResult { columns, rows }
}

} // verus!
