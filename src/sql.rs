//! SQL text built by the session: quoted identifiers, the bounded table
//! preview, and the catalog queries behind schema browsing.

use vstd::prelude::*;
use crate::text::{chars_of, decimal, push_char, push_decimal};

verus! {

/// The most rows a result hands to the consumer.
pub const ROW_LIMIT: usize = 1000;

/// The row count a table preview asks for by default.
pub const PREVIEW_LIMIT: usize = 50;

/// Lists the schemas of the database by name, leaving out the system
/// catalogs.
pub const SCHEMAS_QUERY: &'static str = "select schema_name from information_schema.schemata where schema_name not in ('pg_catalog', 'pg_toast', 'information_schema') order by schema_name";

/// Lists the base tables of the schema given as the first parameter, by name.
pub const TABLES_QUERY: &'static str = "select table_name from information_schema.tables where table_schema = $1 and table_type = 'BASE TABLE' order by table_name";

/// Lists the columns, with their declared types, of the table named by the
/// two parameters (schema, table), in declared order.
pub const COLUMNS_QUERY: &'static str = "select column_name, data_type from information_schema.columns where table_schema = $1 and table_name = $2 order by ordinal_position";

/// What one character becomes inside a quoted identifier: a double quote is
/// doubled, anything else stays.
pub open spec fn escaped_char(c: char) -> Seq<char> {
    if c == '"' {
        seq!['"', '"']
    } else {
        seq![c]
    }
}

/// The body of a quoted identifier: each character escaped, in order.
pub open spec fn escaped(s: Seq<char>) -> Seq<char>
    decreases s.len(),
{
    if s.len() == 0 {
        Seq::empty()
    } else {
        escaped(s.drop_last()) + escaped_char(s.last())
    }
}

/// A name as a quoted SQL identifier.
pub open spec fn quoted(s: Seq<char>) -> Seq<char> {
    seq!['"'] + escaped(s) + seq!['"']
}

/// A table name qualified by its schema, both quoted.
pub open spec fn qualified(schema: Seq<char>, table: Seq<char>) -> Seq<char> {
    quoted(schema) + seq!['.'] + quoted(table)
}

/// Reads back the body of a quoted identifier: a doubled quote stands for one.
pub open spec fn unescaped(s: Seq<char>) -> Seq<char>
    decreases s.len(),
{
    if s.len() == 0 {
        Seq::empty()
    } else if s.len() >= 2 && s.last() == '"' {
        unescaped(s.subrange(0, s.len() - 2)).push('"')
    } else {
        unescaped(s.drop_last()).push(s.last())
    }
}

/// Reads back a quoted identifier: the outer quotes dropped, the body
/// unescaped.
pub open spec fn unquoted(q: Seq<char>) -> Seq<char> {
    unescaped(q.subrange(1, q.len() - 1))
}

/// The row count a preview asks for: the request, capped at `ROW_LIMIT`.
pub open spec fn preview_row_cap(limit: nat) -> nat {
    if limit <= ROW_LIMIT { limit } else { ROW_LIMIT as nat }
}

/// `select * from <schema>.<table> limit <n>`, names quoted and `n` capped.
pub open spec fn preview_query(schema: Seq<char>, table: Seq<char>, limit: nat) -> Seq<char> {
    "select * from "@ + qualified(schema, table) + " limit "@ + decimal(preview_row_cap(limit))
}

/// Quoting loses nothing: reading back a quoted name gives the name.
pub proof fn quoting_round_trip(s: Seq<char>)
    ensures
        unquoted(quoted(s)) == s,
    decreases s.len(),
{
    let q = quoted(s);
    assert(q.subrange(1, q.len() - 1) =~= escaped(s));
    unescaping_inverts(s);
}

proof fn unescaping_inverts(s: Seq<char>)
    ensures
        unescaped(escaped(s)) == s,
    decreases s.len(),
{
    if s.len() > 0 {
        let e = escaped(s);
        let prev = escaped(s.drop_last());
        unescaping_inverts(s.drop_last());
        if s.last() == '"' {
            assert(e.subrange(0, e.len() - 2) =~= prev);
        } else {
            assert(e.drop_last() =~= prev);
        }
        assert(s.drop_last().push(s.last()) =~= s);
    } else {
        assert(s =~= Seq::<char>::empty());
    }
}

fn push_quoted(out: &mut String, value: &str)
    ensures
        final(out)@ == old(out)@ + quoted(value@),
{
    let chars = chars_of(value);
    let ghost start = out@;
    push_char(out, '"');
    let mut i: usize = 0;
    while i < chars.len()
        invariant
            chars@ == value@,
            i <= chars@.len(),
            out@ == start + seq!['"'] + escaped(value@.subrange(0, i as int)),
        decreases chars@.len() - i,
    {
        let c = chars[i];
        if c == '"' {
            push_char(out, '"');
        }
        push_char(out, c);
        proof {
            let next = value@.subrange(0, i + 1);
            assert(next.drop_last() =~= value@.subrange(0, i as int));
            assert(next.last() == c);
        }
        i = i + 1;
        assert(out@ =~= start + seq!['"'] + escaped(value@.subrange(0, i as int)));
    }
    push_char(out, '"');
    assert(value@.subrange(0, value@.len() as int) =~= value@);
    assert(out@ =~= start + quoted(value@));
}

/// Quotes a name for use as an SQL identifier: wrapped in double quotes, each
/// double quote inside doubled.
pub fn quote_identifier(value: &str) -> (r: String)
    ensures
        r@ == quoted(value@),
{
    let mut out = String::new();
    push_quoted(&mut out, value);
    assert(out@ =~= quoted(value@));
    out
}

/// The schema-qualified name of a table, both parts quoted.
pub fn qualified_table_name(schema: &str, table: &str) -> (r: String)
    ensures
        r@ == qualified(schema@, table@),
{
    let mut out = String::new();
    push_quoted(&mut out, schema);
    push_char(&mut out, '.');
    push_quoted(&mut out, table);
    assert(out@ =~= qualified(schema@, table@));
    out
}

/// The row count a preview asks for: `limit`, capped at `ROW_LIMIT`.
pub fn preview_row_limit(limit: usize) -> (r: usize)
    ensures
        r == preview_row_cap(limit as nat),
{
    if limit <= ROW_LIMIT { limit } else { ROW_LIMIT }
}

/// The statement behind a table preview: every column of the quoted,
/// schema-qualified table, at most `limit` rows, capped at `ROW_LIMIT`.
pub fn preview_sql(schema: &str, table: &str, limit: usize) -> (r: String)
    ensures
        r@ == preview_query(schema@, table@, limit as nat),
{
    let mut out = String::new();
    out.append("select * from ");
    push_quoted(&mut out, schema);
    push_char(&mut out, '.');
    push_quoted(&mut out, table);
    out.append(" limit ");
    push_decimal(&mut out, preview_row_limit(limit) as u64);
    assert(out@ =~= preview_query(schema@, table@, limit as nat));
    out
}

} // verus!
