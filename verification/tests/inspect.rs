use db_spyer::error::DatabaseError;
use db_spyer::models::PragmaColumnRow;
use db_spyer::numfmt::u64_to_decimal;
use db_spyer::probe::probe_status;
use db_spyer::query::build_read_result;
use db_spyer::query::build_write_result;
use db_spyer::schema::columns_from_pragma;
use db_spyer::schema::row_count_from_cell;
use db_spyer::schema::table_info_from_rows;
use db_spyer::schema::user_tables_from_names;
use db_spyer::sqltext::count_query_for;
use db_spyer::sqltext::is_select_sql;
use db_spyer::sqltext::quote_identifier;

fn pragma_row(
    name: &str,
    data_type: &str,
    notnull: i64,
    default_value: Option<&str>,
    primary_key_index: i64,
) -> PragmaColumnRow {
    PragmaColumnRow {
        name: name.to_string(),
        data_type: data_type.to_string(),
        notnull,
        default_value: default_value.map(|s| s.to_string()),
        primary_key_index,
    }
}

#[test]
fn user_tables_excludes_internal_prefix() {
    let names = vec![
        Some("users".to_string()),
        Some("sqlite_sequence".to_string()),
        None,
        Some("orders".to_string()),
        Some("SQLITE_STAT1".to_string()),
    ];
    let tables = user_tables_from_names(names);
    assert_eq!(tables, vec!["users".to_string(), "orders".to_string()]);
}

#[test]
fn user_tables_keeps_short_and_near_miss_names() {
    let names = vec![
        Some("sql".to_string()),
        Some("sqlite".to_string()),
        Some("sqlite_".to_string()),
        Some("sqlitex_t".to_string()),
    ];
    let tables = user_tables_from_names(names);
    assert_eq!(
        tables,
        vec!["sql".to_string(), "sqlite".to_string(), "sqlitex_t".to_string()]
    );
}

#[test]
fn user_tables_of_empty_catalog_is_empty() {
    let tables = user_tables_from_names(Vec::new());
    assert!(tables.is_empty());
}

#[test]
fn describe_table_maps_every_column() {
    let rows = vec![
        pragma_row("id", "INTEGER", 1, None, 1),
        pragma_row("name", "TEXT", 0, Some("'unnamed'"), 0),
        pragma_row("note", "", 0, None, 0),
    ];
    let info = table_info_from_rows("people".to_string(), &rows, Some(7)).unwrap();
    assert_eq!(info.name, "people");
    assert_eq!(info.row_count, Some(7));
    assert_eq!(info.columns.len(), 3);

    assert_eq!(info.columns[0].name, "id");
    assert_eq!(info.columns[0].data_type, "INTEGER");
    assert!(!info.columns[0].nullable);
    assert!(info.columns[0].primary_key);
    assert_eq!(info.columns[0].default_value, None);

    assert_eq!(info.columns[1].name, "name");
    assert_eq!(info.columns[1].data_type, "TEXT");
    assert!(info.columns[1].nullable);
    assert!(!info.columns[1].primary_key);
    assert_eq!(info.columns[1].default_value, Some("'unnamed'".to_string()));

    assert_eq!(info.columns[2].name, "note");
    assert_eq!(info.columns[2].data_type, "");
    assert!(info.columns[2].nullable);
    assert!(!info.columns[2].primary_key);
    assert_eq!(info.columns[2].default_value, None);
}

#[test]
fn describe_composite_key_flags_every_key_column() {
    let rows = vec![
        pragma_row("a", "INTEGER", 1, None, 1),
        pragma_row("b", "INTEGER", 1, None, 2),
        pragma_row("c", "TEXT", 0, None, 0),
    ];
    let cols = columns_from_pragma(&rows);
    assert!(cols[0].primary_key);
    assert!(cols[1].primary_key);
    assert!(!cols[2].primary_key);
}

#[test]
fn describe_missing_table_is_table_not_found() {
    let rows: Vec<PragmaColumnRow> = Vec::new();
    let err = table_info_from_rows("ghost".to_string(), &rows, None).unwrap_err();
    match &err {
        DatabaseError::TableNotFound(name) => assert_eq!(name, "ghost"),
        _ => panic!("expected TableNotFound"),
    }
    assert_eq!(err.message(), "Table not found ghost");
}

#[test]
fn row_count_cell_interpretation() {
    assert_eq!(row_count_from_cell(Some(0)), Some(0));
    assert_eq!(row_count_from_cell(Some(41)), Some(41));
    assert_eq!(row_count_from_cell(Some(-1)), None);
    assert_eq!(row_count_from_cell(None), None);
}

#[test]
fn classification_finds_select() {
    assert!(is_select_sql("SELECT 1"));
    assert!(is_select_sql("select * from users"));
    assert!(is_select_sql("  \t\n SeLeCt 1"));
    assert!(is_select_sql("SELECT"));
    assert!(is_select_sql("\u{17f}ELECT 1"));
}

#[test]
fn classification_treats_everything_else_as_write() {
    assert!(!is_select_sql("INSERT INTO t VALUES (1)"));
    assert!(!is_select_sql("SELEC 1"));
    assert!(!is_select_sql(""));
    assert!(!is_select_sql("   "));
    assert!(!is_select_sql("SELE"));
    // Known limitation of the textual heuristic: a CTE read classifies as
    // a write.
    assert!(!is_select_sql("WITH x AS (SELECT 1) SELECT * FROM x"));
}

#[test]
fn select_one_shapes_one_cell() {
    let cells = vec![vec![Some("1".to_string())]];
    let r = build_read_result(&cells, 3);
    assert_eq!(r.columns, vec!["col_0".to_string()]);
    assert_eq!(r.rows, vec![vec![Some("1".to_string())]]);
    assert_eq!(r.row_count, 1);
    assert_eq!(r.execution_time_ms, 3);
}

#[test]
fn empty_read_result_is_empty_shape() {
    let cells: Vec<Vec<Option<String>>> = Vec::new();
    let r = build_read_result(&cells, 5);
    assert!(r.columns.is_empty());
    assert!(r.rows.is_empty());
    assert_eq!(r.row_count, 0);
    assert_eq!(r.execution_time_ms, 5);
}

#[test]
fn read_result_preserves_values_and_nulls() {
    let cells = vec![
        vec![Some("42".to_string()), None, Some(String::new())],
        vec![Some("x".to_string()), Some("null".to_string()), None],
    ];
    let r = build_read_result(&cells, 0);
    assert_eq!(r.columns.len(), 3);
    assert_eq!(r.columns[2], "col_2");
    assert_eq!(r.rows, cells);
    assert_eq!(r.row_count, 2);
}

#[test]
fn read_result_rows_are_brought_to_first_row_width() {
    let cells = vec![
        vec![Some("a".to_string()), Some("b".to_string())],
        vec![Some("c".to_string())],
        vec![Some("d".to_string()), Some("e".to_string()), Some("f".to_string())],
    ];
    let r = build_read_result(&cells, 0);
    assert_eq!(r.columns, vec!["col_0".to_string(), "col_1".to_string()]);
    assert_eq!(
        r.rows,
        vec![
            vec![Some("a".to_string()), Some("b".to_string())],
            vec![Some("c".to_string()), None],
            vec![Some("d".to_string()), Some("e".to_string())],
        ]
    );
}

#[test]
fn read_result_labels_are_positional() {
    let wide: Vec<Option<String>> = (0..11).map(|i| Some(i.to_string())).collect();
    let r = build_read_result(&vec![wide], 0);
    assert_eq!(r.columns[0], "col_0");
    assert_eq!(r.columns[9], "col_9");
    assert_eq!(r.columns[10], "col_10");
}

#[test]
fn insert_into_empty_table_reports_one_affected_row() {
    assert!(!is_select_sql("INSERT INTO t VALUES (1)"));
    let r = build_write_result(1, 2);
    assert_eq!(r.columns, vec!["affected_rows".to_string()]);
    assert_eq!(r.rows, vec![vec![Some("1".to_string())]]);
    assert_eq!(r.row_count, 1);
    assert_eq!(r.execution_time_ms, 2);
}

#[test]
fn write_result_renders_large_counts() {
    let r = build_write_result(18446744073709551615, 0);
    assert_eq!(r.rows[0][0], Some("18446744073709551615".to_string()));
}

#[test]
fn decimal_rendering_is_exact() {
    assert_eq!(u64_to_decimal(0), "0");
    assert_eq!(u64_to_decimal(7), "7");
    assert_eq!(u64_to_decimal(10), "10");
    assert_eq!(u64_to_decimal(409), "409");
    assert_eq!(u64_to_decimal(18446744073709551615), "18446744073709551615");
}

#[test]
fn error_messages_carry_the_diagnostic() {
    let c = DatabaseError::ConnectionError("unable to open database file".to_string());
    assert_eq!(c.message(), "Connection failed: unable to open database file");
    let q = DatabaseError::QueryError("near \"SELEC\": syntax error".to_string());
    assert_eq!(q.message(), "Query failed: near \"SELEC\": syntax error");
    let t = DatabaseError::TableNotFound("missing".to_string());
    assert_eq!(t.message(), "Table not found missing");
}

#[test]
fn probe_never_raises_and_reports_the_outcome() {
    assert!(!probe_status(false).can_open);
    assert!(probe_status(true).can_open);
}

#[test]
fn identifier_quoting_blocks_breakout() {
    assert_eq!(quote_identifier("t"), "\"t\"");
    assert_eq!(quote_identifier("my table"), "\"my table\"");
    assert_eq!(quote_identifier("ta\"ble"), "\"ta\"\"ble\"");
    assert_eq!(
        quote_identifier("x\"; DROP TABLE users; --"),
        "\"x\"\"; DROP TABLE users; --\""
    );
}

#[test]
fn count_query_embeds_the_quoted_name() {
    assert_eq!(count_query_for("people"), "SELECT COUNT(*) FROM \"people\"");
    assert_eq!(
        count_query_for("odd \"name\""),
        "SELECT COUNT(*) FROM \"odd \"\"name\"\"\""
    );
}
