//! Tests of the fetch-or-create engine's branching and of the exit-code
//! translation, scenario by scenario.

use dynhdl::attr::AttributeValue;
use dynhdl::engine::{decide, prepare, Decision, QueryOutcome};
use dynhdl::errors::{exit_code_of, success_exit_code, DynHdlErr, JsonKind};
use dynhdl::json::{Item, JsonValue};

fn item_of(pairs: Vec<(&str, JsonValue)>) -> Item {
    Item { fields: pairs.into_iter().map(|(k, v)| (k.to_string(), v)).collect() }
}

fn ana_item() -> Item {
    item_of(vec![
        ("id", JsonValue::Num("42".to_string())),
        ("name", JsonValue::Str("Ana".to_string())),
    ])
}

fn key_42() -> AttributeValue {
    AttributeValue::NumberValue("42".to_string())
}

#[test]
fn prepare_assembles_query_inputs() {
    let raw = r#"{"id":42,"name":"Ana"}"#.to_string();
    let prep = prepare(&raw, &"id".to_string()).unwrap();
    assert_eq!(prep.item, ana_item());
    assert_eq!(prep.key_attr, key_42());
}

#[test]
fn prepare_string_key() {
    let raw = r#"{"id":"abc"}"#.to_string();
    let prep = prepare(&raw, &"id".to_string()).unwrap();
    assert_eq!(prep.key_attr, AttributeValue::StringValue("abc".to_string()));
}

#[test]
fn prepare_rejects_compound_key() {
    let raw = r#"{"id":{"nested":1}}"#.to_string();
    match prepare(&raw, &"id".to_string()) {
        Err(DynHdlErr::UnsupportedType { field, kind }) => {
            assert_eq!(field, "id");
            assert_eq!(kind, JsonKind::Object);
        }
        other => panic!("expected an unsupported-type failure, got {:?}", other),
    }
}

#[test]
fn count_zero_decides_insert() {
    let item = ana_item();
    let outcome = QueryOutcome { count: 0, item: None };
    let d = decide(&item, &"id".to_string(), &key_42(), &"Users".to_string(), outcome).unwrap();
    assert_eq!(
        d,
        Decision::Insert(vec![
            ("id".to_string(), AttributeValue::NumberValue("42".to_string())),
            ("name".to_string(), AttributeValue::StringValue("Ana".to_string())),
        ])
    );
}

#[test]
fn count_zero_unsupported_field_blocks_insert() {
    let item = item_of(vec![
        ("id", JsonValue::Num("42".to_string())),
        ("tags", JsonValue::Array),
    ]);
    let outcome = QueryOutcome { count: 0, item: None };
    match decide(&item, &"id".to_string(), &key_42(), &"Users".to_string(), outcome) {
        Err(DynHdlErr::UnsupportedType { field, kind }) => {
            assert_eq!(field, "tags");
            assert_eq!(kind, JsonKind::Array);
        }
        other => panic!("expected an unsupported-type failure, got {:?}", other),
    }
}

#[test]
fn count_one_reports_item_unchanged() {
    let item = ana_item();
    let matched = ana_item();
    let outcome = QueryOutcome { count: 1, item: Some(matched) };
    let d = decide(&item, &"id".to_string(), &key_42(), &"Users".to_string(), outcome).unwrap();
    assert_eq!(d, Decision::Found(ana_item()));
}

#[test]
fn count_two_is_too_many_records() {
    let item = ana_item();
    let outcome = QueryOutcome { count: 2, item: None };
    match decide(&item, &"id".to_string(), &key_42(), &"Users".to_string(), outcome) {
        Err(DynHdlErr::TooManyRecords { pk_name, pk, table }) => {
            assert_eq!(pk_name, "id");
            assert_eq!(pk, "42");
            assert_eq!(table, "Users");
        }
        other => panic!("expected a too-many-records failure, got {:?}", other),
    }
}

#[test]
fn scenario_count_zero_inserts_mapped_item() {
    let raw = r#"{"id":42,"name":"Ana"}"#.to_string();
    let prep = prepare(&raw, &"id".to_string()).unwrap();
    let outcome = QueryOutcome { count: 0, item: None };
    let d = decide(
        &prep.item,
        &"id".to_string(),
        &prep.key_attr,
        &"Users".to_string(),
        outcome,
    )
    .unwrap();
    match d {
        Decision::Insert(fields) => {
            assert_eq!(
                fields,
                vec![
                    ("id".to_string(), AttributeValue::NumberValue("42".to_string())),
                    ("name".to_string(), AttributeValue::StringValue("Ana".to_string())),
                ]
            );
        }
        other => panic!("expected an insert decision, got {:?}", other),
    }
}

#[test]
fn scenario_count_one_returns_backend_item() {
    let raw = r#"{"id":42,"name":"Ana"}"#.to_string();
    let prep = prepare(&raw, &"id".to_string()).unwrap();
    let outcome = QueryOutcome { count: 1, item: Some(ana_item()) };
    let d = decide(
        &prep.item,
        &"id".to_string(),
        &prep.key_attr,
        &"Users".to_string(),
        outcome,
    )
    .unwrap();
    assert_eq!(d, Decision::Found(ana_item()));
}

#[test]
fn scenario_missing_key_is_data_format_error() {
    let raw = r#"{"id":42}"#.to_string();
    let e = prepare(&raw, &"owner".to_string()).unwrap_err();
    assert!(matches!(
        e,
        DynHdlErr::PKNotFound { ref pk_name, ref item } if pk_name == "owner" && *item == raw
    ));
    assert_eq!(exit_code_of(&e), 65);
}

#[test]
fn scenario_bad_json_is_data_format_error() {
    let raw = "{bad json".to_string();
    let e = prepare(&raw, &"id".to_string()).unwrap_err();
    assert!(matches!(e, DynHdlErr::Parsing { .. }));
    assert_eq!(exit_code_of(&e), 65);
}

#[test]
fn scenario_duplicate_records_is_usage_error() {
    let raw = r#"{"id":42,"name":"Ana"}"#.to_string();
    let prep = prepare(&raw, &"id".to_string()).unwrap();
    let outcome = QueryOutcome { count: 2, item: None };
    let e = decide(
        &prep.item,
        &"id".to_string(),
        &prep.key_attr,
        &"Users".to_string(),
        outcome,
    )
    .unwrap_err();
    assert!(matches!(e, DynHdlErr::TooManyRecords { .. }));
    assert_eq!(exit_code_of(&e), 64);
}

#[test]
fn exit_codes_by_failure_kind() {
    assert_eq!(success_exit_code(), 0);
    let parsing = DynHdlErr::Parsing { item: "x".to_string(), err_msg: "m".to_string() };
    assert_eq!(exit_code_of(&parsing), 65);
    let missing = DynHdlErr::PKNotFound { pk_name: "k".to_string(), item: "x".to_string() };
    assert_eq!(exit_code_of(&missing), 65);
    let unsupported = DynHdlErr::UnsupportedType { field: "f".to_string(), kind: JsonKind::Null };
    assert_eq!(exit_code_of(&unsupported), 65);
    let get = DynHdlErr::GetItem {
        pk_name: "k".to_string(),
        pk: "1".to_string(),
        table: "t".to_string(),
        err_msg: "m".to_string(),
    };
    assert_eq!(exit_code_of(&get), 74);
    let put = DynHdlErr::PutItem { table: "t".to_string(), err_msg: "m".to_string() };
    assert_eq!(exit_code_of(&put), 74);
    let many = DynHdlErr::TooManyRecords {
        pk_name: "k".to_string(),
        pk: "1".to_string(),
        table: "t".to_string(),
    };
    assert_eq!(exit_code_of(&many), 64);
}
