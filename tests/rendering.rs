use chrono::{Datelike, NaiveDate, Timelike};
use dbmiru::render::{
    column_kind, format_bytea, format_optional, render_cell, render_datum, CalendarDate,
    ColumnKind, Datum, NaiveTimestamp, UtcTimestamp,
};

#[test]
fn null_renders_as_null() {
    let cell: Result<Option<Datum>, ()> = Ok(None);
    assert_eq!(render_cell(&cell), "NULL");
}

#[test]
fn unsupported_type_renders_sentinel() {
    let cell: Result<Option<Datum>, ()> = Ok(Some(Datum::Unsupported));
    assert_eq!(render_cell(&cell), "<unsupported>");
}

#[test]
fn decode_failure_renders_err() {
    let cell: Result<Option<Datum>, ()> = Err(());
    assert_eq!(render_cell(&cell), "<err>");
}

#[test]
fn format_optional_cases() {
    assert_eq!(format_optional::<()>(Ok(Some("x".to_string()))), "x");
    assert_eq!(format_optional::<()>(Ok(None)), "NULL");
    assert_eq!(format_optional::<&str>(Err("bad")), "<err>");
}

#[test]
fn booleans_and_integers_render_natively() {
    assert_eq!(render_datum(&Datum::Bool(true)), "true");
    assert_eq!(render_datum(&Datum::Bool(false)), "false");
    assert_eq!(render_datum(&Datum::Int2(-32768)), "-32768");
    assert_eq!(render_datum(&Datum::Int4(0)), "0");
    assert_eq!(render_datum(&Datum::Int4(1234567)), "1234567");
    assert_eq!(render_datum(&Datum::Int8(i64::MIN)), i64::MIN.to_string());
    assert_eq!(render_datum(&Datum::Int8(i64::MAX)), i64::MAX.to_string());
}

#[test]
fn text_float_and_json_render_as_given() {
    assert_eq!(render_datum(&Datum::Text("héllo".to_string())), "héllo");
    assert_eq!(render_datum(&Datum::Float(1.5f64.to_string())), "1.5");
    assert_eq!(render_datum(&Datum::Json("{\"a\":1}".to_string())), "{\"a\":1}");
}

#[test]
fn bytea_renders_lowercase_hex() {
    assert_eq!(format_bytea(&[0x00, 0xff, 0x1a]), "\\x00ff1a");
    assert_eq!(format_bytea(&[]), "\\x");
    assert_eq!(render_datum(&Datum::Bytes(vec![0xde, 0xad])), "\\xdead");
}

#[test]
fn uuid_renders_hyphenated() {
    let bytes = [
        0xa1, 0xa2, 0xa3, 0xa4, 0xb1, 0xb2, 0xc1, 0xc2, 0xd1, 0xd2, 0xd3, 0xd4, 0xd5, 0xd6, 0xd7,
        0xd8,
    ];
    assert_eq!(render_datum(&Datum::Uuid(bytes)), "a1a2a3a4-b1b2-c1c2-d1d2-d3d4d5d6d7d8");
}

#[test]
fn date_renders_iso() {
    let d = NaiveDate::from_ymd_opt(2024, 1, 2).unwrap();
    let cell = Datum::Date(CalendarDate { days_from_ce: d.num_days_from_ce() });
    assert_eq!(render_datum(&cell), "2024-01-02");
}

#[test]
fn timestamp_renders_naive() {
    let t = NaiveDate::from_ymd_opt(2023, 12, 31)
        .unwrap()
        .and_hms_milli_opt(23, 59, 58, 250)
        .unwrap();
    let cell = Datum::Timestamp(NaiveTimestamp {
        days_from_ce: t.date().num_days_from_ce(),
        seconds: t.time().num_seconds_from_midnight(),
        nanos: t.time().nanosecond(),
    });
    assert_eq!(render_datum(&cell), "2023-12-31 23:59:58.250");
}

#[test]
fn timestamptz_renders_rfc3339() {
    let cell = Datum::TimestampTz(UtcTimestamp { seconds: 0, nanos: 0 });
    assert_eq!(render_datum(&cell), "1970-01-01T00:00:00+00:00");
}

#[test]
fn impossible_time_renders_err() {
    let cell = Datum::Timestamp(NaiveTimestamp { days_from_ce: 1, seconds: 90_000, nanos: 0 });
    assert_eq!(render_datum(&cell), "<err>");
}

#[test]
fn column_kinds_by_type_oid() {
    assert_eq!(column_kind(16), ColumnKind::Bool);
    assert_eq!(column_kind(21), ColumnKind::Int2);
    assert_eq!(column_kind(23), ColumnKind::Int4);
    assert_eq!(column_kind(20), ColumnKind::Int8);
    assert_eq!(column_kind(700), ColumnKind::Float4);
    assert_eq!(column_kind(701), ColumnKind::Float8);
    for oid in [25, 1043, 1042, 19] {
        assert_eq!(column_kind(oid), ColumnKind::Text);
    }
    assert_eq!(column_kind(1114), ColumnKind::Timestamp);
    assert_eq!(column_kind(1184), ColumnKind::TimestampTz);
    assert_eq!(column_kind(1082), ColumnKind::Date);
    assert_eq!(column_kind(2950), ColumnKind::Uuid);
    assert_eq!(column_kind(114), ColumnKind::Json);
    assert_eq!(column_kind(3802), ColumnKind::Json);
    assert_eq!(column_kind(17), ColumnKind::Bytea);
    assert_eq!(column_kind(1700), ColumnKind::Unsupported);
}
