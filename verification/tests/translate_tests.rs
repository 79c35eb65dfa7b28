//! Result translation: schema from the first row, row marshaling, the
//! error taxonomy, and the typed variant.

use sqlx4k::errors::code_or_sentinel;
use sqlx4k::errors::error_code;
use sqlx4k::errors::DriverError;
use sqlx4k::errors::ErrorCode;
use sqlx4k::kind::TypeTag;
use sqlx4k::translate::exec_result_of;
use sqlx4k::translate::fetch_result_of;
use sqlx4k::translate::notification_result_of;
use sqlx4k::translate::DriverColumn;
use sqlx4k::translate::DriverField;
use sqlx4k::translate::DriverRow;
use sqlx4k::typed::typed_row_of;

fn text_column(name: &str, kind: &str, value: &str) -> DriverColumn {
    DriverColumn {
        name: String::from(name),
        kind: String::from(kind),
        value: DriverField::Text(String::from(value)),
    }
}

#[test]
fn fetch_translates_one_row_one_column() {
    // The boundary scenario: fetching `select 1 as x` completes with no
    // error, one row, one column named x carrying the text "1".
    let rows = vec![DriverRow { columns: vec![text_column("x", "INT4", "1")] }];
    let r = fetch_result_of(Ok(rows));
    assert_eq!(code_or_sentinel(&r.error), -1);
    assert!(r.error_message.is_none());
    assert_eq!(r.rows_affected, 0);
    assert!(r.tx.is_none());
    assert_eq!(r.schema.len(), 1);
    assert_eq!(r.schema[0].ordinal, 0);
    assert_eq!(r.schema[0].name, "x");
    assert_eq!(r.schema[0].kind, "INT4");
    assert_eq!(r.rows.len(), 1);
    assert_eq!(r.rows[0].columns.len(), 1);
    assert_eq!(r.rows[0].columns[0].ordinal, 0);
    assert_eq!(r.rows[0].columns[0].value.as_deref(), Some("1"));
}

#[test]
fn fetch_schema_comes_from_first_row_only() {
    let rows = vec![
        DriverRow {
            columns: vec![text_column("a", "TEXT", "first"), text_column("b", "INT8", "1")],
        },
        DriverRow {
            columns: vec![text_column("a", "TEXT", "second"), text_column("b", "INT8", "2")],
        },
    ];
    let r = fetch_result_of(Ok(rows));
    assert_eq!(r.schema.len(), 2);
    assert_eq!(r.schema[0].name, "a");
    assert_eq!(r.schema[1].name, "b");
    assert_eq!(r.schema[1].ordinal, 1);
    assert_eq!(r.rows.len(), 2);
    for row in &r.rows {
        assert_eq!(row.columns.len(), 2);
        for (j, col) in row.columns.iter().enumerate() {
            assert_eq!(col.ordinal, j);
        }
    }
    assert_eq!(r.rows[1].columns[0].value.as_deref(), Some("second"));
}

#[test]
fn fetch_of_no_rows_has_empty_schema() {
    let r = fetch_result_of(Ok(vec![]));
    assert!(r.error.is_none());
    assert_eq!(r.schema.len(), 0);
    assert_eq!(r.rows.len(), 0);
}

#[test]
fn null_stays_distinguishable_from_empty() {
    let rows = vec![DriverRow {
        columns: vec![
            DriverColumn {
                name: String::from("n"),
                kind: String::from("TEXT"),
                value: DriverField::Null,
            },
            text_column("e", "TEXT", ""),
        ],
    }];
    let r = fetch_result_of(Ok(rows));
    assert_eq!(r.rows[0].columns[0].value, None);
    assert_eq!(r.rows[0].columns[1].value.as_deref(), Some(""));
}

#[test]
fn blob_values_render_as_hex() {
    let rows = vec![DriverRow {
        columns: vec![DriverColumn {
            name: String::from("b"),
            kind: String::from("BLOB"),
            value: DriverField::Blob(vec![0xca, 0xfe]),
        }],
    }];
    let r = fetch_result_of(Ok(rows));
    assert_eq!(r.rows[0].columns[0].value.as_deref(), Some("cafe"));
}

#[test]
fn mutation_reports_rows_affected() {
    let r = exec_result_of(Ok(3));
    assert!(r.error.is_none());
    assert_eq!(r.rows_affected, 3);
    assert_eq!(r.rows.len(), 0);
    assert_eq!(r.schema.len(), 0);
}

#[test]
fn database_error_carries_code_and_message() {
    let e = DriverError::Database {
        code: Some(String::from("42P01")),
        message: String::from("relation does not exist"),
    };
    let r = fetch_result_of(Err(e));
    assert_eq!(r.error, Some(ErrorCode::Database));
    assert_eq!(code_or_sentinel(&r.error), 0);
    assert_eq!(r.error_message.as_deref(), Some("[42P01] relation does not exist"));
    assert_eq!(r.rows.len(), 0);
}

#[test]
fn database_error_without_code_keeps_plain_message() {
    let e = DriverError::Database { code: None, message: String::from("boom") };
    let r = exec_result_of(Err(e));
    assert_eq!(r.error, Some(ErrorCode::Database));
    assert_eq!(r.error_message.as_deref(), Some("boom"));
}

#[test]
fn pool_errors_map_to_their_codes() {
    let r = exec_result_of(Err(DriverError::PoolTimedOut));
    assert_eq!(r.error, Some(ErrorCode::PoolTimedOut));
    assert_eq!(code_or_sentinel(&r.error), 1);
    assert_eq!(r.error_message.as_deref(), Some("PoolTimedOut"));

    let r = exec_result_of(Err(DriverError::PoolClosed));
    assert_eq!(r.error, Some(ErrorCode::PoolClosed));
    assert_eq!(code_or_sentinel(&r.error), 2);
    assert_eq!(r.error_message.as_deref(), Some("The connection pool is already closed"));

    let r = exec_result_of(Err(DriverError::WorkerCrashed));
    assert_eq!(r.error, Some(ErrorCode::WorkerCrashed));
    assert_eq!(code_or_sentinel(&r.error), 3);
    assert_eq!(r.error_message.as_deref(), Some("WorkerCrashed"));
}

#[test]
fn fatal_categories_are_not_classified() {
    for e in [
        DriverError::Configuration,
        DriverError::Io,
        DriverError::Tls,
        DriverError::Protocol,
        DriverError::RowNotFound,
        DriverError::TypeNotFound,
        DriverError::ColumnIndexOutOfBounds,
        DriverError::ColumnNotFound,
        DriverError::ColumnDecode,
        DriverError::Decode,
        DriverError::AnyDriver,
        DriverError::Migrate,
        DriverError::Other,
    ] {
        assert_eq!(error_code(&e), None);
    }
}

#[test]
fn notification_is_one_row_with_channel_schema() {
    let r = notification_result_of("c1", "p1");
    assert!(r.error.is_none());
    assert_eq!(r.schema.len(), 1);
    assert_eq!(r.schema[0].ordinal, 0);
    assert_eq!(r.schema[0].name, "c1");
    assert_eq!(r.schema[0].kind, "TEXT");
    assert_eq!(r.rows.len(), 1);
    assert_eq!(r.rows[0].columns.len(), 1);
    assert_eq!(r.rows[0].columns[0].ordinal, 0);
    assert_eq!(r.rows[0].columns[0].value.as_deref(), Some("p1"));
}

#[test]
fn typed_rows_carry_tags() {
    let row = DriverRow {
        columns: vec![
            text_column("flag", "BOOL", "t"),
            text_column("n", "INT4", "7"),
            text_column("s", "TEXT", "hello"),
        ],
    };
    let typed = typed_row_of(&row).unwrap();
    assert_eq!(typed.columns.len(), 3);
    assert_eq!(typed.columns[0].tag, TypeTag::Bool);
    assert_eq!(typed.columns[0].tag.code(), 0);
    assert_eq!(typed.columns[1].tag, TypeTag::Int4);
    assert_eq!(typed.columns[1].tag.code(), 2);
    assert_eq!(typed.columns[2].tag, TypeTag::Text);
    assert_eq!(typed.columns[2].tag.code(), 9);
    assert_eq!(typed.columns[1].ordinal, 1);
    assert_eq!(typed.columns[1].value.as_deref(), Some("7"));
}

#[test]
fn typed_row_rejects_unknown_type_names() {
    let row = DriverRow { columns: vec![text_column("x", "MONEY", "1.00")] };
    assert!(typed_row_of(&row).is_none());
}

#[test]
fn tag_codes_cover_the_enumerated_set() {
    let tags = [
        TypeTag::Bool,
        TypeTag::Int2,
        TypeTag::Int4,
        TypeTag::Int8,
        TypeTag::Float4,
        TypeTag::Float8,
        TypeTag::Numeric,
        TypeTag::Char,
        TypeTag::Varchar,
        TypeTag::Text,
        TypeTag::Timestamp,
        TypeTag::Timestamptz,
        TypeTag::Date,
        TypeTag::Time,
        TypeTag::Bytea,
        TypeTag::Uuid,
        TypeTag::Json,
        TypeTag::Jsonb,
    ];
    for (i, tag) in tags.iter().enumerate() {
        assert_eq!(tag.code(), i as i32);
        assert_eq!(TypeTag::of_type_name(&tag_name(*tag)), Some(*tag));
    }
    assert_eq!(TypeTag::of_type_name("bool"), None);
    assert_eq!(TypeTag::of_type_name(""), None);
}

fn tag_name(tag: TypeTag) -> String {
    let name = match tag {
        TypeTag::Bool => "BOOL",
        TypeTag::Int2 => "INT2",
        TypeTag::Int4 => "INT4",
        TypeTag::Int8 => "INT8",
        TypeTag::Float4 => "FLOAT4",
        TypeTag::Float8 => "FLOAT8",
        TypeTag::Numeric => "NUMERIC",
        TypeTag::Char => "CHAR",
        TypeTag::Varchar => "VARCHAR",
        TypeTag::Text => "TEXT",
        TypeTag::Timestamp => "TIMESTAMP",
        TypeTag::Timestamptz => "TIMESTAMPTZ",
        TypeTag::Date => "DATE",
        TypeTag::Time => "TIME",
        TypeTag::Bytea => "BYTEA",
        TypeTag::Uuid => "UUID",
        TypeTag::Json => "JSON",
        TypeTag::Jsonb => "JSONB",
    };
    String::from(name)
}
