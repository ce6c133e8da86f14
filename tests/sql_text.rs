use dbmiru::sql::{
    preview_row_limit, preview_sql, qualified_table_name, quote_identifier, PREVIEW_LIMIT,
    ROW_LIMIT, SCHEMAS_QUERY,
};

#[test]
fn quote_identifier_doubles_embedded_quotes() {
    assert_eq!(quote_identifier("a\"b"), "\"a\"\"b\"");
}

#[test]
fn quote_identifier_plain_and_empty() {
    assert_eq!(quote_identifier("orders"), "\"orders\"");
    assert_eq!(quote_identifier(""), "\"\"");
    assert_eq!(quote_identifier("\""), "\"\"\"\"");
}

#[test]
fn qualified_table_name_quotes_both_parts() {
    assert_eq!(qualified_table_name("public", "o\"rd"), "\"public\".\"o\"\"rd\"");
}

#[test]
fn quote_identifier_keeps_unicode() {
    assert_eq!(quote_identifier("tábla"), "\"tábla\"");
}

#[test]
fn preview_sql_uses_requested_limit() {
    assert_eq!(
        preview_sql("public", "orders", PREVIEW_LIMIT),
        "select * from \"public\".\"orders\" limit 50"
    );
}

#[test]
fn preview_sql_caps_limit_at_row_limit() {
    assert_eq!(
        preview_sql("s", "t", 5000),
        "select * from \"s\".\"t\" limit 1000"
    );
    assert_eq!(preview_row_limit(5000), ROW_LIMIT);
    assert_eq!(preview_row_limit(0), 0);
    assert_eq!(preview_sql("s", "t", 0), "select * from \"s\".\"t\" limit 0");
}

#[test]
fn schema_query_excludes_system_catalogs_and_sorts() {
    assert!(SCHEMAS_QUERY.contains("not in ('pg_catalog', 'pg_toast', 'information_schema')"));
    assert!(SCHEMAS_QUERY.ends_with("order by schema_name"));
}
