use rbdb::exec::{process_query, Warning};
use rbdb::query::{Query, QueryType};
use rbdb::table::Table;

fn command(q_type: QueryType, key: &str, value: Option<&str>) -> Query {
    Query { q_type, key: key.to_string(), value: value.map(|v| v.to_string()) }
}

#[test]
fn insert_query() {
    let query = Query {
        q_type: QueryType::Insert,
        key: "some_key".to_string(),
        value: Some("some_value".to_string()),
    };
    let mut store = Table::new();
    let query_result = process_query(&query, &mut store).text;
    let result_string = "SUCCESS: Inserted some_key:some_value into database".to_string();
    assert_eq!(query_result, result_string);
}

#[test]
fn select_query() {
    let mut store = Table::new();
    store.insert("some_key".to_string(), "some_value".to_string());
    let query = Query { q_type: QueryType::Select, key: "some_key".to_string(), value: None };
    let query_result = process_query(&query, &mut store).text;
    let result_string = "some_value".to_string();
    assert_eq!(query_result, result_string);
}

#[test]
fn update_query() {
    let mut store = Table::new();
    store.insert("some_key".to_string(), "some_value".to_string());
    let query = Query {
        q_type: QueryType::Update,
        key: "some_key".to_string(),
        value: Some("new_value".to_string()),
    };
    let query_result = process_query(&query, &mut store).text;
    let result_string = "SUCCESS: Updated some_key with new_value".to_string();
    assert_eq!(query_result, result_string);
}

#[test]
fn delete_query() {
    let mut store = Table::new();
    store.insert("some_key".to_string(), "some_value".to_string());
    let query = Query { q_type: QueryType::Delete, key: "some_key".to_string(), value: None };
    let query_result = process_query(&query, &mut store).text;
    let result_string = "SUCCESS: Deleted some_key".to_string();
    assert_eq!(query_result, result_string);
}

#[test]
fn insert_then_select_round_trip() {
    let mut store = Table::new();
    let out = process_query(&command(QueryType::Insert, "a", Some("1")), &mut store);
    assert_eq!(out.text, "SUCCESS: Inserted a:1 into database");
    assert!(out.warnings.is_empty());
    let out = process_query(&command(QueryType::Select, "a", None), &mut store);
    assert_eq!(out.text, "1");
    assert!(out.warnings.is_empty());
}

#[test]
fn update_changes_existing_value() {
    let mut store = Table::new();
    process_query(&command(QueryType::Insert, "a", Some("1")), &mut store);
    let out = process_query(&command(QueryType::Update, "a", Some("2")), &mut store);
    assert_eq!(out.text, "SUCCESS: Updated a with 2");
    assert!(out.warnings.is_empty());
    let out = process_query(&command(QueryType::Select, "a", None), &mut store);
    assert_eq!(out.text, "2");
}

#[test]
fn delete_removes() {
    let mut store = Table::new();
    process_query(&command(QueryType::Insert, "a", Some("1")), &mut store);
    let out = process_query(&command(QueryType::Delete, "a", None), &mut store);
    assert_eq!(out.text, "SUCCESS: Deleted a");
    assert!(out.warnings.is_empty());
    assert!(!store.contains_key("a"));
    let out = process_query(&command(QueryType::Select, "a", None), &mut store);
    assert_eq!(out.text, "");
    assert_eq!(out.warnings, vec![Warning::NotFound]);
}

#[test]
fn second_delete_only_warns() {
    let mut store = Table::new();
    process_query(&command(QueryType::Insert, "a", Some("1")), &mut store);
    process_query(&command(QueryType::Insert, "b", Some("2")), &mut store);
    let first = process_query(&command(QueryType::Delete, "a", None), &mut store);
    assert_eq!(first.text, "SUCCESS: Deleted a");
    let second = process_query(&command(QueryType::Delete, "a", None), &mut store);
    assert_eq!(second.text, "");
    assert_eq!(second.warnings, vec![Warning::NotFound]);
    assert_eq!(store.get("b").map(|v| v.as_str()), Some("2"));
}

#[test]
fn select_on_empty_table_finds_nothing() {
    for key in ["a", "foo", "some_key", ""] {
        let mut store = Table::new();
        let out = process_query(&command(QueryType::Select, key, None), &mut store);
        assert_eq!(out.text, "");
        assert_eq!(out.warnings, vec![Warning::NotFound]);
        assert!(!store.contains_key(key));
    }
}

#[test]
fn insert_on_existing_key_warns_and_overwrites() {
    let mut store = Table::new();
    process_query(&command(QueryType::Insert, "a", Some("1")), &mut store);
    let out = process_query(&command(QueryType::Insert, "a", Some("2")), &mut store);
    assert_eq!(out.text, "SUCCESS: Inserted a:2 into database");
    assert_eq!(out.warnings, vec![Warning::KeyExists]);
    assert_eq!(store.get("a").map(|v| v.as_str()), Some("2"));
}

#[test]
fn insert_without_value_changes_nothing() {
    let mut store = Table::new();
    let out = process_query(&command(QueryType::Insert, "a", None), &mut store);
    assert_eq!(out.text, "");
    assert_eq!(out.warnings, vec![Warning::InsertNeedsValue]);
    assert!(!store.contains_key("a"));
}

#[test]
fn insert_without_value_on_existing_key_warns_twice() {
    let mut store = Table::new();
    store.insert("a".to_string(), "1".to_string());
    let out = process_query(&command(QueryType::Insert, "a", None), &mut store);
    assert_eq!(out.text, "");
    assert_eq!(out.warnings, vec![Warning::KeyExists, Warning::InsertNeedsValue]);
    assert_eq!(store.get("a").map(|v| v.as_str()), Some("1"));
}

#[test]
fn update_on_missing_key_changes_nothing() {
    let mut store = Table::new();
    let out = process_query(&command(QueryType::Update, "a", Some("1")), &mut store);
    assert_eq!(out.text, "");
    assert_eq!(out.warnings, vec![Warning::NotFound]);
    assert!(!store.contains_key("a"));
    let out = process_query(&command(QueryType::Update, "a", None), &mut store);
    assert_eq!(out.text, "");
    assert_eq!(out.warnings, vec![Warning::NotFound]);
}

#[test]
fn update_without_value_changes_nothing() {
    let mut store = Table::new();
    store.insert("a".to_string(), "1".to_string());
    let out = process_query(&command(QueryType::Update, "a", None), &mut store);
    assert_eq!(out.text, "");
    assert_eq!(out.warnings, vec![Warning::UpdateNeedsValue]);
    assert_eq!(store.get("a").map(|v| v.as_str()), Some("1"));
}

#[test]
fn delete_on_missing_key_warns() {
    let mut store = Table::new();
    store.insert("b".to_string(), "2".to_string());
    let out = process_query(&command(QueryType::Delete, "a", None), &mut store);
    assert_eq!(out.text, "");
    assert_eq!(out.warnings, vec![Warning::NotFound]);
    assert!(store.contains_key("b"));
}

#[test]
fn select_ignores_a_value_and_shows_an_empty_one() {
    let mut store = Table::new();
    store.insert("a".to_string(), "".to_string());
    let out = process_query(&command(QueryType::Select, "a", Some("x")), &mut store);
    assert_eq!(out.text, "");
    assert!(out.warnings.is_empty());
}

#[test]
fn commands_leave_other_keys_alone() {
    let mut store = Table::new();
    store.insert("a".to_string(), "1".to_string());
    store.insert("b".to_string(), "2".to_string());
    process_query(&command(QueryType::Update, "a", Some("3")), &mut store);
    process_query(&command(QueryType::Delete, "a", None), &mut store);
    process_query(&command(QueryType::Insert, "c", Some("4")), &mut store);
    assert_eq!(store.get("b").map(|v| v.as_str()), Some("2"));
    assert_eq!(store.get("c").map(|v| v.as_str()), Some("4"));
    assert_eq!(store.get("a"), None);
}

#[test]
fn keys_are_case_sensitive() {
    let mut store = Table::new();
    process_query(&command(QueryType::Insert, "Key", Some("1")), &mut store);
    let out = process_query(&command(QueryType::Select, "key", None), &mut store);
    assert_eq!(out.warnings, vec![Warning::NotFound]);
    let out = process_query(&command(QueryType::Select, "Key", None), &mut store);
    assert_eq!(out.text, "1");
}

#[test]
fn warning_messages() {
    assert_eq!(
        Warning::KeyExists.message("foo"),
        "Key foo already exists. Use UPDATE query instead"
    );
    assert_eq!(
        Warning::InsertNeedsValue.message("foo"),
        "INSERT requires a value, but none was provided"
    );
    assert_eq!(
        Warning::UpdateNeedsValue.message("foo"),
        "UPDATE requres a value, but none was provided"
    );
    assert_eq!(Warning::NotFound.message("foo"), "No entry found for key = foo");
}

#[test]
fn table_basics() {
    let mut table = Table::new();
    assert!(!table.contains_key("a"));
    assert_eq!(table.get("a"), None);
    table.insert("a".to_string(), "1".to_string());
    assert!(table.contains_key("a"));
    assert_eq!(table.get("a").map(|v| v.as_str()), Some("1"));
    table.insert("a".to_string(), "2".to_string());
    assert_eq!(table.get("a").map(|v| v.as_str()), Some("2"));
    assert!(table.remove("a"));
    assert!(!table.remove("a"));
    assert!(!table.contains_key("a"));
}
