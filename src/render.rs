//! Display text for the typed values of a result set.
//!
//! The driver decodes each cell according to its declared column type; this
//! module picks the type category from the type's identifier and turns a
//! decoded cell into the text a result table shows. Rendering is total:
//! SQL `NULL` shows as `NULL`, a cell that failed to decode as `<err>`, and a
//! value of a type without a rule as `<unsupported>`.

use vstd::prelude::*;
use crate::text::{hex_bytes, push_char, push_hex_bytes, push_signed_decimal, signed_decimal};

verus! {

/// The rendering category of a column's declared type.
#[derive(Clone, Copy, Debug, PartialEq, Eq, Structural)]
pub enum ColumnKind {
    Bool,
    Int2,
    Int4,
    Int8,
    Float4,
    Float8,
    Text,
    Timestamp,
    TimestampTz,
    Date,
    Uuid,
    Json,
    Bytea,
    Unsupported,
}

/// The category of the built-in type with identifier (OID) `oid`.
pub open spec fn kind_of_oid(oid: u32) -> ColumnKind {
    if oid == 16 { ColumnKind::Bool }
    else if oid == 21 { ColumnKind::Int2 }
    else if oid == 23 { ColumnKind::Int4 }
    else if oid == 20 { ColumnKind::Int8 }
    else if oid == 700 { ColumnKind::Float4 }
    else if oid == 701 { ColumnKind::Float8 }
    else if oid == 25 || oid == 1043 || oid == 1042 || oid == 19 { ColumnKind::Text }
    else if oid == 1114 { ColumnKind::Timestamp }
    else if oid == 1184 { ColumnKind::TimestampTz }
    else if oid == 1082 { ColumnKind::Date }
    else if oid == 2950 { ColumnKind::Uuid }
    else if oid == 114 || oid == 3802 { ColumnKind::Json }
    else if oid == 17 { ColumnKind::Bytea }
    else { ColumnKind::Unsupported }
}

/// The rendering category of a column from its type identifier (OID): bool,
/// int2, int4, int8, float4, float8; text, varchar, bpchar and name as text;
/// timestamp, timestamptz, date, uuid; json and jsonb; bytea; anything else is
/// unsupported.
pub fn column_kind(oid: u32) -> (r: ColumnKind)
    ensures
        r == kind_of_oid(oid),
{
    if oid == 16 { ColumnKind::Bool }
    else if oid == 21 { ColumnKind::Int2 }
    else if oid == 23 { ColumnKind::Int4 }
    else if oid == 20 { ColumnKind::Int8 }
    else if oid == 700 { ColumnKind::Float4 }
    else if oid == 701 { ColumnKind::Float8 }
    else if oid == 25 || oid == 1043 || oid == 1042 || oid == 19 { ColumnKind::Text }
    else if oid == 1114 { ColumnKind::Timestamp }
    else if oid == 1184 { ColumnKind::TimestampTz }
    else if oid == 1082 { ColumnKind::Date }
    else if oid == 2950 { ColumnKind::Uuid }
    else if oid == 114 || oid == 3802 { ColumnKind::Json }
    else if oid == 17 { ColumnKind::Bytea }
    else { ColumnKind::Unsupported }
}

/// A calendar date, as the number of days since 1 January of year 1 (that day
/// is day 1).
#[derive(Clone, Copy, Debug, PartialEq, Eq, Structural)]
pub struct CalendarDate {
    pub days_from_ce: i32,
}

/// A date and time of day without time zone.
#[derive(Clone, Copy, Debug, PartialEq, Eq, Structural)]
pub struct NaiveTimestamp {
    pub days_from_ce: i32,
    /// Seconds since midnight.
    pub seconds: u32,
    /// Fraction of the second in nanoseconds; from 1_000_000_000 on it marks a
    /// leap second.
    pub nanos: u32,
}

/// An instant in UTC, as seconds and nanoseconds since the Unix epoch.
#[derive(Clone, Copy, Debug, PartialEq, Eq, Structural)]
pub struct UtcTimestamp {
    pub seconds: i64,
    pub nanos: u32,
}

/// A non-null cell value as the driver decoded it for its column's category.
pub enum Datum {
    Bool(bool),
    Int2(i16),
    Int4(i32),
    Int8(i64),
    /// A float4 or float8 value, as the float type itself prints it.
    Float(String),
    Text(String),
    Timestamp(NaiveTimestamp),
    TimestampTz(UtcTimestamp),
    Date(CalendarDate),
    Uuid([u8; 16]),
    /// A json or jsonb value as compact JSON text.
    Json(String),
    Bytes(Vec<u8>),
    /// A value of a type that has no rendering rule.
    Unsupported,
}

/// The text of a date in ISO 8601 form (`YYYY-MM-DD`) as chrono prints it;
/// `None` where chrono has no such date.
pub uninterp spec fn iso_date_of(days_from_ce: int) -> Option<Seq<char>>;

/// The text of a date and time as chrono's `NaiveDateTime` prints it; `None`
/// where chrono has no such date or time.
pub uninterp spec fn naive_datetime_of(days_from_ce: int, seconds: int, nanos: int) -> Option<
    Seq<char>,
>;

/// The RFC 3339 text of an instant as chrono's `DateTime<Utc>` prints it;
/// `None` where chrono has no such instant.
pub uninterp spec fn rfc3339_of(seconds: int, nanos: int) -> Option<Seq<char>>;

/// The characters of an optional string.
pub open spec fn opt_text(o: Option<String>) -> Option<Seq<char>> {
    match o {
        Some(s) => Some(s@),
        None => None,
    }
}

/// Relies on chrono: `NaiveDate::from_num_days_from_ce_opt` builds the date,
/// and its `Display` prints it.
#[verifier::external_body]
fn iso_date_text(days_from_ce: i32) -> (r: Option<String>)
    ensures
        opt_text(r) == iso_date_of(days_from_ce as int),
{
    match chrono::NaiveDate::from_num_days_from_ce_opt(days_from_ce) {
        Some(date) => Some(date.to_string()),
        None => None,
    }
}

/// Relies on chrono: `NaiveDate::from_num_days_from_ce_opt` and
/// `NaiveTime::from_num_seconds_from_midnight_opt` build the parts, and the
/// `Display` of `NaiveDateTime` prints them.
#[verifier::external_body]
fn naive_datetime_text(days_from_ce: i32, seconds: u32, nanos: u32) -> (r: Option<String>)
    ensures
        opt_text(r) == naive_datetime_of(days_from_ce as int, seconds as int, nanos as int),
{
    let date = chrono::NaiveDate::from_num_days_from_ce_opt(days_from_ce);
    let time = chrono::NaiveTime::from_num_seconds_from_midnight_opt(seconds, nanos);
    match (date, time) {
        (Some(d), Some(t)) => Some(chrono::NaiveDateTime::new(d, t).to_string()),
        _ => None,
    }
}

/// Relies on chrono: `DateTime::from_timestamp` builds the UTC instant, and
/// `DateTime::to_rfc3339` prints it.
#[verifier::external_body]
fn rfc3339_text(seconds: i64, nanos: u32) -> (r: Option<String>)
    ensures
        opt_text(r) == rfc3339_of(seconds as int, nanos as int),
{
    match chrono::DateTime::from_timestamp(seconds, nanos) {
        Some(instant) => Some(instant.to_rfc3339()),
        None => None,
    }
}

/// The hyphenated form of a UUID: lowercase hexadecimal digits of its bytes in
/// order, in groups of 8-4-4-4-12 digits.
pub open spec fn hyphenated(b: Seq<u8>) -> Seq<char> {
    hex_bytes(b.subrange(0, 4)) + seq!['-'] + hex_bytes(b.subrange(4, 6)) + seq!['-']
        + hex_bytes(b.subrange(6, 8)) + seq!['-'] + hex_bytes(b.subrange(8, 10)) + seq!['-']
        + hex_bytes(b.subrange(10, 16))
}

/// Relies on uuid: `Uuid::from_bytes` and its `Display`, which prints the
/// hyphenated lowercase form.
#[verifier::external_body]
pub(crate) fn uuid_text(bytes: [u8; 16]) -> (r: String)
    ensures
        r@ == hyphenated(bytes@),
{
    uuid::Uuid::from_bytes(bytes).to_string()
}

/// A text that chrono could not produce shows as a decoding failure.
pub open spec fn text_or_err(o: Option<Seq<char>>) -> Seq<char> {
    match o {
        Some(t) => t,
        None => "<err>"@,
    }
}

/// Binary data as `\x` followed by two lowercase hexadecimal digits per byte.
pub open spec fn bytea_text(b: Seq<u8>) -> Seq<char> {
    seq!['\\', 'x'] + hex_bytes(b)
}

/// The display text of a non-null value.
pub open spec fn datum_text(d: Datum) -> Seq<char> {
    match d {
        Datum::Bool(b) => if b { "true"@ } else { "false"@ },
        Datum::Int2(n) => signed_decimal(n as int),
        Datum::Int4(n) => signed_decimal(n as int),
        Datum::Int8(n) => signed_decimal(n as int),
        Datum::Float(s) => s@,
        Datum::Text(s) => s@,
        Datum::Timestamp(t) => text_or_err(
            naive_datetime_of(t.days_from_ce as int, t.seconds as int, t.nanos as int),
        ),
        Datum::TimestampTz(t) => text_or_err(rfc3339_of(t.seconds as int, t.nanos as int)),
        Datum::Date(d) => text_or_err(iso_date_of(d.days_from_ce as int)),
        Datum::Uuid(b) => hyphenated(b@),
        Datum::Json(s) => s@,
        Datum::Bytes(b) => bytea_text(b@),
        Datum::Unsupported => "<unsupported>"@,
    }
}

/// The display text of an optional decoded value: the value's own text,
/// `NULL` for SQL NULL, `<err>` where decoding failed.
pub open spec fn optional_text<E>(value: Result<Option<String>, E>) -> Seq<char> {
    match value {
        Ok(Some(s)) => s@,
        Ok(None) => "NULL"@,
        Err(_) => "<err>"@,
    }
}

/// The display text of a cell: `<err>` where decoding failed, `NULL` for SQL
/// NULL, otherwise the value's text.
pub open spec fn cell_text<E>(value: Result<Option<Datum>, E>) -> Seq<char> {
    match value {
        Ok(Some(d)) => datum_text(d),
        Ok(None) => "NULL"@,
        Err(_) => "<err>"@,
    }
}

fn or_err(o: Option<String>) -> (r: String)
    ensures
        r@ == text_or_err(opt_text(o)),
{
    match o {
        Some(s) => s,
        None => String::from_str("<err>"),
    }
}

/// Binary data as `\x` followed by two lowercase hexadecimal digits per byte.
pub fn format_bytea(bytes: &[u8]) -> (r: String)
    ensures
        r@ == bytea_text(bytes@),
{
    let mut out = String::new();
    push_char(&mut out, '\\');
    push_char(&mut out, 'x');
    push_hex_bytes(&mut out, bytes);
    assert(out@ =~= bytea_text(bytes@));
    out
}

fn signed_text(n: i64) -> (r: String)
    ensures
        r@ == signed_decimal(n as int),
{
    let mut out = String::new();
    push_signed_decimal(&mut out, n);
    assert(out@ =~= signed_decimal(n as int));
    out
}

/// The display text of a non-null value.
pub fn render_datum(d: &Datum) -> (r: String)
    ensures
        r@ == datum_text(*d),
{
    match d {
        Datum::Bool(b) => if *b {
            String::from_str("true")
        } else {
            String::from_str("false")
        },
        Datum::Int2(n) => signed_text(*n as i64),
        Datum::Int4(n) => signed_text(*n as i64),
        Datum::Int8(n) => signed_text(*n),
        Datum::Float(s) => s.clone(),
        Datum::Text(s) => s.clone(),
        Datum::Timestamp(t) => or_err(naive_datetime_text(t.days_from_ce, t.seconds, t.nanos)),
        Datum::TimestampTz(t) => or_err(rfc3339_text(t.seconds, t.nanos)),
        Datum::Date(d) => or_err(iso_date_text(d.days_from_ce)),
        Datum::Uuid(b) => uuid_text(*b),
        Datum::Json(s) => s.clone(),
        Datum::Bytes(b) => format_bytea(b.as_slice()),
        Datum::Unsupported => String::from_str("<unsupported>"),
    }
}

/// The display text of an optional decoded value: the value's text, `NULL`
/// for SQL NULL, `<err>` where decoding failed.
pub fn format_optional<E>(value: Result<Option<String>, E>) -> (r: String)
    ensures
        r@ == optional_text(value),
{
    match value {
        Ok(Some(s)) => s,
        Ok(None) => String::from_str("NULL"),
        Err(_) => String::from_str("<err>"),
    }
}

/// The display text of a cell as the driver decoded it. Never fails: every
/// outcome has a text.
pub fn render_cell<E>(value: &Result<Option<Datum>, E>) -> (r: String)
    ensures
        r@ == cell_text(*value),
        *value matches Ok(None) ==> r@ == "NULL"@,
        *value matches Ok(Some(Datum::Unsupported)) ==> r@ == "<unsupported>"@,
{
    let shown: Result<Option<String>, ()> = match value {
        Ok(Some(d)) => Ok(Some(render_datum(d))),
        Ok(None) => Ok(None),
        Err(_) => Err(()),
    };
    format_optional(shown)
}

} // verus!
