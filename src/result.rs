//! Results handed to the consumer: rendered query results with their
//! truncation flag, and the name lists of schema browsing.

use vstd::prelude::*;
use crate::render::{cell_text, render_cell, Datum};

verus! {

/// A column of a table with its declared data type.
#[derive(Clone, Debug)]
pub struct ColumnMetadata {
    pub name: String,
    pub data_type: String,
}

/// The rendered outcome of a statement.
pub struct QueryResult {
    /// Column names, in order.
    pub columns: Vec<String>,
    /// Rendered rows, at most the requested limit of them; each holds one text
    /// per column.
    pub rows: Vec<Vec<String>>,
    /// How many rows the server returned.
    pub row_count: usize,
    /// How long the statement took.
    pub duration: std::time::Duration,
    /// Whether the server returned more rows than `rows` holds.
    pub truncated: bool,
}

/// A cell as the driver decoded it: a value, SQL NULL, or a failure.
pub type Cell = Result<Option<Datum>, ()>;

/// The characters of each string, in order.
pub open spec fn texts(v: Seq<String>) -> Seq<Seq<char>> {
    v.map(|_i: int, s: String| s@)
}

/// The characters of each rendered cell, row by row.
pub open spec fn table_texts(rows: Seq<Vec<String>>) -> Seq<Seq<Seq<char>>> {
    rows.map(|_i: int, row: Vec<String>| texts(row@))
}

/// The display text of each cell of a decoded row.
pub open spec fn row_text(row: Seq<Cell>) -> Seq<Seq<char>> {
    row.map(|_i: int, c: Cell| cell_text(c))
}

/// The number of rows kept under a limit.
pub open spec fn kept(total: nat, limit: nat) -> nat {
    if total <= limit { total } else { limit }
}

/// The display text of the first `limit` decoded rows.
pub open spec fn rendered(rows: Seq<Vec<Cell>>, limit: nat) -> Seq<Seq<Seq<char>>> {
    rows.take(kept(rows.len(), limit) as int).map(|_i: int, row: Vec<Cell>| row_text(row@))
}

/// The names that decoded, in their order; rows that failed to decode are
/// left out.
pub open spec fn decoded_names(rows: Seq<Result<String, ()>>) -> Seq<Seq<char>>
    decreases rows.len(),
{
    if rows.len() == 0 {
        Seq::empty()
    } else {
        let rest = decoded_names(rows.drop_last());
        match rows.last() {
            Ok(s) => rest.push(s@),
            Err(_) => rest,
        }
    }
}

/// A column's name and data type, as characters.
pub open spec fn column_text(c: ColumnMetadata) -> (Seq<char>, Seq<char>) {
    (c.name@, c.data_type@)
}

/// The columns whose name and data type both decoded, in their order.
pub open spec fn decoded_columns(rows: Seq<(Result<String, ()>, Result<String, ()>)>) -> Seq<
    (Seq<char>, Seq<char>),
>
    decreases rows.len(),
{
    if rows.len() == 0 {
        Seq::empty()
    } else {
        let rest = decoded_columns(rows.drop_last());
        match rows.last() {
            (Ok(n), Ok(t)) => rest.push((n@, t@)),
            _ => rest,
        }
    }
}

/// Renders one decoded row, cell by cell.
pub fn render_row(row: &Vec<Cell>) -> (r: Vec<String>)
    ensures
        texts(r@) == row_text(row@),
{
    let mut out: Vec<String> = Vec::new();
    let mut i: usize = 0;
    while i < row.len()
        invariant
            i <= row@.len(),
            out@.len() == i,
            texts(out@) == row_text(row@.subrange(0, i as int)),
        decreases row@.len() - i,
    {
        let s = render_cell(&row[i]);
        let ghost before = out@;
        out.push(s);
        proof {
            let sub = row@.subrange(0, i + 1);
            assert forall|k: int| 0 <= k <= i implies texts(out@)[k] == row_text(sub)[k] by {
                if k < i {
                    assert(out@[k] == before[k]);
                    assert(texts(before)[k] == row_text(row@.subrange(0, i as int))[k]);
                    assert(sub[k] == row@.subrange(0, i as int)[k]);
                }
            }
            assert(texts(out@) =~= row_text(sub));
        }
        i = i + 1;
        assert(texts(out@) =~= row_text(row@.subrange(0, i as int)));
    }
    assert(row@.subrange(0, row@.len() as int) =~= row@);
    out
}

/// Renders the first `limit` decoded rows.
pub fn convert_rows(rows: &Vec<Vec<Cell>>, limit: usize) -> (r: Vec<Vec<String>>)
    ensures
        table_texts(r@) == rendered(rows@, limit as nat),
        r@.len() == kept(rows@.len(), limit as nat),
{
    let n = if rows.len() <= limit { rows.len() } else { limit };
    let mut out: Vec<Vec<String>> = Vec::new();
    let mut i: usize = 0;
    while i < n
        invariant
            n == kept(rows@.len(), limit as nat),
            i <= n,
            table_texts(out@) == rendered(rows@, limit as nat).take(i as int),
            out@.len() == i,
        decreases n - i,
    {
        let row = render_row(&rows[i]);
        out.push(row);
        i = i + 1;
        assert(table_texts(out@) =~= rendered(rows@, limit as nat).take(i as int));
    }
    assert(rendered(rows@, limit as nat).take(n as int) =~= rendered(rows@, limit as nat));
    out
}

/// The result of a statement whose rows the driver decoded: the first `limit`
/// rows rendered, all of them counted, and the result marked truncated
/// exactly when more than `limit` rows came back. Statements and table
/// previews alike follow this one rule.
pub fn query_result(
    columns: Vec<String>,
    rows: &Vec<Vec<Cell>>,
    limit: usize,
    duration: std::time::Duration,
) -> (r: QueryResult)
    ensures
        r.columns == columns,
        table_texts(r.rows@) == rendered(rows@, limit as nat),
        r.rows@.len() == kept(rows@.len(), limit as nat),
        r.row_count == rows@.len(),
        r.truncated == (rows@.len() > limit),
        r.duration == duration,
{
    let data = convert_rows(rows, limit);
    QueryResult {
        columns,
        rows: data,
        row_count: rows.len(),
        duration,
        truncated: rows.len() > limit,
    }
}

/// The names that decoded, in the order the catalog listed them; a row that
/// failed to decode is skipped.
pub fn collect_names(rows: &Vec<Result<String, ()>>) -> (r: Vec<String>)
    ensures
        texts(r@) == decoded_names(rows@),
{
    let mut out: Vec<String> = Vec::new();
    let mut i: usize = 0;
    while i < rows.len()
        invariant
            i <= rows@.len(),
            texts(out@) == decoded_names(rows@.subrange(0, i as int)),
        decreases rows@.len() - i,
    {
        proof {
            let next = rows@.subrange(0, i + 1);
            assert(next.drop_last() =~= rows@.subrange(0, i as int));
        }
        match &rows[i] {
            Ok(name) => {
                out.push(name.clone());
            },
            Err(_) => {},
        }
        i = i + 1;
        assert(texts(out@) =~= decoded_names(rows@.subrange(0, i as int)));
    }
    assert(rows@.subrange(0, rows@.len() as int) =~= rows@);
    out
}

/// The columns whose name and data type both decoded, in the catalog's
/// order; a row that failed to decode is skipped.
pub fn collect_columns(rows: &Vec<(Result<String, ()>, Result<String, ()>)>) -> (r: Vec<
    ColumnMetadata,
>)
    ensures
        r@.map(|_i: int, c: ColumnMetadata| column_text(c)) == decoded_columns(rows@),
{
    let mut out: Vec<ColumnMetadata> = Vec::new();
    let mut i: usize = 0;
    while i < rows.len()
        invariant
            i <= rows@.len(),
            out@.map(|_i: int, c: ColumnMetadata| column_text(c)) == decoded_columns(
                rows@.subrange(0, i as int),
            ),
        decreases rows@.len() - i,
    {
        proof {
            let next = rows@.subrange(0, i + 1);
            assert(next.drop_last() =~= rows@.subrange(0, i as int));
        }
        match &rows[i] {
            (Ok(name), Ok(data_type)) => {
                out.push(ColumnMetadata { name: name.clone(), data_type: data_type.clone() });
            },
            _ => {},
        }
        i = i + 1;
        assert(out@.map(|_i: int, c: ColumnMetadata| column_text(c)) =~= decoded_columns(
            rows@.subrange(0, i as int),
        ));
    }
    assert(rows@.subrange(0, rows@.len() as int) =~= rows@);
    out
}

} // verus!
