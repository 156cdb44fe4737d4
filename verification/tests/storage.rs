use name_history::storage;
use name_history::storage::config::DatabaseConfig;
use name_history::storage::data;
use name_history::storage::data::NameHistoryElement;
use name_history::storage::data::SystemTimeTransformationError;
use name_history::storage::data::Update;
use name_history::storage::Argument;
use name_history::utils::json;
use name_history::utils::time::Timestamp;

const U1: u128 = 0x4566e69fc90748ee8d71d7ba5aa00d20;

fn u1_bytes() -> Vec<u8> {
    vec![
        0x45, 0x66, 0xe6, 0x9f, 0xc9, 0x07, 0x48, 0xee, 0x8d, 0x71, 0xd7, 0xba, 0x5a, 0xa0, 0x0d,
        0x20,
    ]
}

fn shape(arguments: &[Argument]) -> Vec<String> {
    arguments.iter().map(|a| format!("{:?}", a)).collect()
}

#[test]
fn identifier_is_stored_as_its_sixteen_bytes() {
    assert_eq!(data::into_argument_uuid(U1), u1_bytes());
    assert_eq!(data::into_argument_uuid(0), vec![0u8; 16]);
    assert_eq!(data::into_argument_uuid(u128::MAX), vec![0xffu8; 16]);
    let mut one = vec![0u8; 16];
    one[15] = 1;
    assert_eq!(data::into_argument_uuid(1), one);
    let parsed = uuid::Uuid::parse_str("4566e69fc90748ee8d71d7ba5aa00d20").unwrap();
    assert_eq!(data::into_argument_uuid(parsed.as_u128()), parsed.as_bytes().to_vec());
}

#[test]
fn time_of_change_is_stored_in_milliseconds() {
    let t = Timestamp::from_millis(1_650_000_000_123);
    let raw = NameHistoryElement::into_argument_systemtime(&t).unwrap();
    assert_eq!(raw, 1_650_000_000_123);
    let back = NameHistoryElement::from_row("n".to_string(), Some(raw)).unwrap();
    assert_eq!(back.changed_to_at, Some(t));
    assert_eq!(NameHistoryElement::into_argument_systemtime(&Timestamp::from_millis(0)).unwrap(), 0);
}

#[test]
fn time_of_change_beyond_the_column_is_refused() {
    let last = Timestamp::from_millis(i64::MAX as u128);
    assert_eq!(NameHistoryElement::into_argument_systemtime(&last).unwrap(), i64::MAX);
    let beyond = Timestamp::from_millis(i64::MAX as u128 + 1);
    let e = NameHistoryElement::into_argument_systemtime(&beyond).unwrap_err();
    assert_eq!(e.0, 9_223_372_036_854_775_808);
    assert_eq!(e.message(), "SystemTimeTransformationError[timestamp = 9223372036854775808]");
}

#[test]
fn time_of_check_is_stored_in_whole_seconds() {
    let t = Timestamp::from_millis(1_650_000_000_999);
    let raw = Update::into_argument_systemtime(&t).unwrap();
    assert_eq!(raw, 1_650_000_000);
    let back = Update::from_row(raw, true).unwrap();
    assert_eq!(back, Update::new(Timestamp::from_millis(1_650_000_000_000), true));
    assert_eq!(Update::into_argument_systemtime(&Timestamp::from_millis(999)).unwrap(), 0);
    assert_eq!(Update::into_argument_systemtime(&Timestamp::from_millis(1000)).unwrap(), 1);
}

#[test]
fn time_of_check_beyond_the_column_is_refused() {
    let last = Timestamp::from_millis(i64::MAX as u128 * 1000 + 999);
    assert_eq!(Update::into_argument_systemtime(&last).unwrap(), i64::MAX);
    let beyond = Timestamp::from_millis((i64::MAX as u128 + 1) * 1000);
    let e = Update::into_argument_systemtime(&beyond).unwrap_err();
    assert_eq!(e.0, 9_223_372_036_854_775_808_000);
}

#[test]
fn row_without_a_time_is_the_first_known_name() {
    let e = NameHistoryElement::from_row("name1".to_string(), None).unwrap();
    assert_eq!(e.name, "name1");
    assert_eq!(e.changed_to_at, None);
    let initial = NameHistoryElement::new_initial("name1".to_string());
    assert_eq!(initial.name, "name1");
    assert_eq!(initial.changed_to_at, None);
    let later = NameHistoryElement::new("name2".to_string(), Timestamp::from_millis(5));
    assert_eq!(later.name, "name2");
    assert_eq!(later.changed_to_at, Some(Timestamp::from_millis(5)));
}

#[test]
fn negative_count_is_no_time_of_change() {
    let e = NameHistoryElement::from_row("n".to_string(), Some(-1)).unwrap_err();
    assert_eq!(e.index, "changedToAt");
    assert_eq!(e.source.0, -1);
    assert_eq!(e.source.message(), "SystemTimeTransformationError[timestamp = -1]");
    let e = NameHistoryElement::from_row("n".to_string(), Some(i64::MIN)).unwrap_err();
    assert_eq!(
        e.source.message(),
        "SystemTimeTransformationError[timestamp = -9223372036854775808]"
    );
    let ok = NameHistoryElement::from_row("n".to_string(), Some(i64::MAX)).unwrap();
    assert_eq!(ok.changed_to_at, Some(Timestamp::from_millis(9_223_372_036_854_775_807)));
}

#[test]
fn negative_count_is_no_time_of_check() {
    let e = Update::from_row(-5, false).unwrap_err();
    assert_eq!(e.index, "update");
    assert_eq!(e.source.0, -5);
    let ok = Update::from_row(i64::MAX, false).unwrap();
    assert_eq!(ok.update.as_millis(), 9_223_372_036_854_775_807_000);
    assert!(!ok.changed);
    assert_eq!(Update::from_row(0, true).unwrap(), Update::new(Timestamp::from_millis(0), true));
}

#[test]
fn systemtime_error_names_the_column() {
    let e = data::systemtime_error("update", 42);
    assert_eq!(e.index, "update");
    assert_eq!(e.source.0, 42);
    assert_eq!(e.source.message(), "SystemTimeTransformationError[timestamp = 42]");
    assert_eq!(SystemTimeTransformationError(0i64).message(), "SystemTimeTransformationError[timestamp = 0]");
}

#[test]
fn schema_is_four_statements_that_create_what_is_missing() {
    let statements = storage::init();
    let sql: Vec<&str> = statements.iter().map(|s| s.sql).collect();
    assert_eq!(
        sql,
        vec![
            data::CREATE_TABLE_NAMES,
            data::CREATE_INDEX_NAMES,
            data::CREATE_TABLE_UPDATES,
            data::CREATE_INDEX_UPDATES,
        ]
    );
    for s in &statements {
        assert!(s.arguments.is_empty());
        assert!(s.sql.starts_with("CREATE ") && s.sql.contains(" IF NOT EXISTS "));
    }
}

#[test]
fn history_query_binds_the_identifier() {
    let s = storage::get_name_history(U1);
    assert_eq!(s.sql, data::QUERY_NAME_HISTORY);
    assert_eq!(shape(&s.arguments), vec![format!("Blob({:?})", u1_bytes())]);
    let s = storage::get_update(U1);
    assert_eq!(s.sql, data::QUERY_UPDATE);
    assert_eq!(shape(&s.arguments), vec![format!("Blob({:?})", u1_bytes())]);
}

#[test]
fn append_with_a_time_binds_four_values() {
    let record = NameHistoryElement::new("name2".to_string(), Timestamp::from_millis(77));
    let s = storage::add_name_history(U1, &record, 1).unwrap();
    assert_eq!(s.sql, data::INSERT_NAME);
    assert_eq!(
        shape(&s.arguments),
        vec![
            format!("Blob({:?})", u1_bytes()),
            "Text(\"name2\")".to_string(),
            "Integer(77)".to_string(),
            "Unsigned(1)".to_string(),
        ]
    );
}

#[test]
fn append_without_a_time_binds_three_values() {
    let record = NameHistoryElement::new_initial("name1".to_string());
    let s = storage::add_name_history(U1, &record, 9).unwrap();
    assert_eq!(s.sql, data::INSERT_FIRST_NAME);
    assert_eq!(
        shape(&s.arguments),
        vec![
            format!("Blob({:?})", u1_bytes()),
            "Text(\"name1\")".to_string(),
            "Unsigned(9)".to_string(),
        ]
    );
}

#[test]
fn append_with_a_time_beyond_the_column_is_refused() {
    let record =
        NameHistoryElement::new("n".to_string(), Timestamp::from_millis(i64::MAX as u128 + 1));
    let e = storage::add_name_history(U1, &record, 1).unwrap_err();
    assert_eq!(e.0, i64::MAX as u128 + 1);
}

#[test]
fn record_of_a_check_is_inserted_and_overwritten() {
    let record = Update::new(Timestamp::from_millis(12_345), true);
    let s = storage::insert_update(U1, &record).unwrap();
    assert_eq!(s.sql, data::NEW_UPDATE);
    assert_eq!(
        shape(&s.arguments),
        vec![
            format!("Blob({:?})", u1_bytes()),
            "Integer(12)".to_string(),
            "Boolean(true)".to_string(),
        ]
    );
    let record = Update::new(Timestamp::from_millis(99_000), false);
    let s = storage::refresh_update(U1, &record).unwrap();
    assert_eq!(s.sql, data::REFRESH_UPDATE);
    assert_eq!(
        shape(&s.arguments),
        vec![
            "Integer(99)".to_string(),
            "Boolean(false)".to_string(),
            format!("Blob({:?})", u1_bytes()),
        ]
    );
    let beyond = Update::new(Timestamp::from_millis((i64::MAX as u128 + 1) * 1000), false);
    assert_eq!(storage::insert_update(U1, &beyond).unwrap_err().0, beyond.update.as_millis());
    assert_eq!(storage::refresh_update(U1, &beyond).unwrap_err().0, beyond.update.as_millis());
}

#[test]
fn statements_have_as_many_placeholders_as_arguments() {
    let record = NameHistoryElement::new("n".to_string(), Timestamp::from_millis(1));
    let first = NameHistoryElement::new_initial("n".to_string());
    let update = Update::new(Timestamp::from_millis(1), true);
    let all = vec![
        storage::get_name_history(U1),
        storage::get_update(U1),
        storage::add_name_history(U1, &record, 1).unwrap(),
        storage::add_name_history(U1, &first, 1).unwrap(),
        storage::insert_update(U1, &update).unwrap(),
        storage::refresh_update(U1, &update).unwrap(),
    ];
    for s in all {
        assert_eq!(s.sql.matches('?').count(), s.arguments.len(), "{}", s.sql);
    }
}

#[test]
fn default_store_is_a_file_beside_the_program() {
    let cfg = DatabaseConfig::default();
    assert_eq!(cfg.url, "sqlite://data.db");
    assert_eq!(cfg.timeout.as_millis(), 16_000);
    assert_eq!(cfg.pool_timeout.as_millis(), 32_000);
    assert_eq!(cfg.pool_max_connections, 2);
}

#[test]
fn entry_is_serialized_without_a_missing_time() {
    let first = NameHistoryElement::new_initial("Alice".to_string());
    assert_eq!(first.serialize(), r#"{"name":"Alice"}"#);
    let later = NameHistoryElement::new("Alice".to_string(), Timestamp::from_millis(1000));
    assert_eq!(later.serialize(), r#"{"name":"Alice","changedToAt":1000}"#);
    let zero = NameHistoryElement::new("".to_string(), Timestamp::from_millis(0));
    assert_eq!(zero.serialize(), r#"{"name":"","changedToAt":0}"#);
}

#[test]
fn name_is_escaped_in_a_serialized_entry() {
    let e = NameHistoryElement::new("a\"b\\c\n\u{e9}".to_string(), Timestamp::from_millis(5));
    assert_eq!(e.serialize(), "{\"name\":\"a\\\"b\\\\c\\n\u{e9}\",\"changedToAt\":5}");
    let parsed: serde_json::Value = serde_json::from_str(&e.serialize()).unwrap();
    assert_eq!(parsed["name"], "a\"b\\c\n\u{e9}");
    assert_eq!(parsed["changedToAt"], 5);
}

#[test]
fn entry_is_written_from_its_parts() {
    assert_eq!(data::entry_json("\"Alice\"", Some(1000)), r#"{"name":"Alice","changedToAt":1000}"#);
    assert_eq!(data::entry_json("\"Alice\"", None), r#"{"name":"Alice"}"#);
    assert_eq!(data::entry_json("x", Some(0)), r#"{"name":x,"changedToAt":0}"#);
    assert_eq!(
        data::entry_json("x", Some(u128::MAX)),
        format!("{{\"name\":x,\"changedToAt\":{}}}", u128::MAX)
    );
}

#[test]
fn array_is_written_with_commas_between_its_elements() {
    assert_eq!(json::array(&Vec::new()), "[]");
    assert_eq!(json::array(&vec!["1".to_string()]), "[1]");
    assert_eq!(json::array(&vec!["1".to_string(), "{}".to_string()]), "[1,{}]");
    assert_eq!(
        json::array(&vec!["a".to_string(), "".to_string(), "c".to_string()]),
        "[a,,c]"
    );
}
