use collab::map_wrapper::{CollabContext, CollabError, CustomMapRef, MapRefWrapper};
use yrs::{Any, Array, Doc};

fn root() -> MapRefWrapper {
    CollabContext::new(Doc::new()).root_map("root").unwrap()
}

fn strings(items: &[&str]) -> Vec<Any> {
    items.iter().map(|s| Any::from(*s)).collect()
}

#[test]
fn create_array_twice_keeps_first_defaults() {
    let root = root();
    {
        let mut txn = root.collab_ctx.transact_mut().unwrap();
        root.create_array_if_not_exist_with_txn(&mut txn, "tags", strings(&["x", "y"]));
        let array = root.create_array_if_not_exist_with_txn(&mut txn, "tags", strings(&["z"]));
        assert_eq!(array.array_ref.len(&txn), 2);
    }
    let json = root.to_json_value().unwrap();
    assert_eq!(json, serde_json::from_str::<serde_json::Value>(r#"{"tags": ["x", "y"]}"#).unwrap());
}

#[test]
fn create_map_twice_keeps_first_content() {
    let root = root();
    let mut txn = root.collab_ctx.transact_mut().unwrap();
    let first = root.create_map_with_txn_if_not_exist(&mut txn, "cfg");
    first.insert_with_txn(&mut txn, "a", Any::BigInt(1));
    let second = root.create_map_with_txn_if_not_exist(&mut txn, "cfg");
    let again = second.get_map_with_txn(&txn, "missing");
    assert!(again.is_none());
    drop(txn);
    assert_eq!(root.to_json_str().unwrap(), r#"{"cfg":{"a":1}}"#);
}

#[test]
fn absent_and_wrong_kind_lookups_find_nothing() {
    let root = root();
    let mut txn = root.collab_ctx.transact_mut().unwrap();
    assert!(root.get_map_with_txn(&txn, "never").is_none());
    assert!(root.get_array_ref_with_txn(&txn, "never").is_none());
    assert!(root.get_text_ref_with_txn(&txn, "never").is_none());
    root.insert_array_with_txn(&mut txn, "list", strings(&["a"]));
    assert!(root.get_map_with_txn(&txn, "list").is_none());
    assert!(root.get_text_ref_with_txn(&txn, "list").is_none());
    assert!(root.get_array_ref_with_txn(&txn, "list").is_some());
    root.insert_text_with_txn(&mut txn, "note");
    assert!(root.get_text_ref_with_txn(&txn, "note").is_some());
    assert!(root.get_map_with_txn(&txn, "note").is_none());
}

#[test]
fn structured_value_round_trip() {
    let root = root();
    assert!(root.insert_json("cfg", vec![("a".to_string(), Any::BigInt(1))]));
    let value = root.get_json("cfg").unwrap();
    assert_eq!(value, serde_json::from_str::<serde_json::Value>(r#"{"a": 1}"#).unwrap());
    assert_eq!(
        root.to_json_value().unwrap(),
        serde_json::from_str::<serde_json::Value>(r#"{"cfg": {"a": 1}}"#).unwrap()
    );
}

#[test]
fn mixed_shapes_round_trip() {
    let root = root();
    let nested = Any::from(std::collections::HashMap::from([("k".to_string(), Any::Bool(true))]));
    let list = Any::from(vec![Any::BigInt(3), Any::from("s"), Any::Null]);
    let fields = vec![
        ("n".to_string(), Any::BigInt(-4)),
        ("s".to_string(), Any::from("text")),
        ("m".to_string(), nested),
        ("l".to_string(), list),
    ];
    assert!(root.insert_json("v", fields));
    let expected: serde_json::Value =
        serde_json::from_str(r#"{"n": -4, "s": "text", "m": {"k": true}, "l": [3, "s", null]}"#).unwrap();
    assert_eq!(root.get_json("v").unwrap(), expected);
}

#[test]
fn structured_read_of_non_map_is_absent() {
    let root = root();
    assert!(root.insert("x", Any::BigInt(5)));
    assert!(root.get_json("x").is_none());
    assert!(root.get_json("missing").is_none());
}

#[test]
fn structured_insert_replaces_previous_content() {
    let root = root();
    assert!(root.insert_json("cfg", vec![("a".to_string(), Any::BigInt(1)), ("b".to_string(), Any::BigInt(2))]));
    assert!(root.insert_json("cfg", vec![("c".to_string(), Any::BigInt(3))]));
    let expected: serde_json::Value = serde_json::from_str(r#"{"c": 3}"#).unwrap();
    assert_eq!(root.get_json("cfg").unwrap(), expected);
}

#[test]
fn second_writer_waits_for_first() {
    let root = root();
    let other = root.clone();
    let mut txn = root.collab_ctx.transact_mut().unwrap();
    root.insert_with_txn(&mut txn, "a", Any::BigInt(1));
    assert!(!other.insert("b", Any::BigInt(2)));
    assert_eq!(other.to_json_str(), Err(CollabError::TransactionUnavailable));
    drop(txn);
    assert!(other.insert("b", Any::BigInt(2)));
    assert_eq!(
        other.to_json_value().unwrap(),
        serde_json::from_str::<serde_json::Value>(r#"{"a": 1, "b": 2}"#).unwrap()
    );
}

#[test]
fn create_map_replaces_and_get_or_insert_array_creates() {
    let root = root();
    let mut txn = root.collab_ctx.transact_mut().unwrap();
    root.insert_with_txn(&mut txn, "k", Any::BigInt(1));
    root.create_map_with_txn(&mut txn, "k");
    assert!(root.get_map_with_txn(&txn, "k").is_some());
    let array = root.get_or_insert_array_with_txn(&mut txn, "list");
    assert_eq!(array.array_ref.len(&txn), 0);
    root.insert_map_with_txn(&mut txn, "m", vec![("z".to_string(), Any::Null)]);
    drop(txn);
    assert_eq!(
        root.to_json_value().unwrap(),
        serde_json::from_str::<serde_json::Value>(r#"{"k": {}, "list": [], "m": {"z": null}}"#).unwrap()
    );
}

#[test]
fn handles_share_the_node() {
    let root = root();
    let same = MapRefWrapper::from_map_ref(root.clone());
    assert!(same.insert("k", Any::from("v")));
    assert_eq!(root.to_json_str().unwrap(), r#"{"k":"v"}"#);
}

#[test]
fn lookup_returns_the_node_under_the_key() {
    let root = root();
    let mut txn = root.collab_ctx.transact_mut().unwrap();
    let created = root.create_map_with_txn(&mut txn, "child");
    created.insert_with_txn(&mut txn, "x", Any::BigInt(7));
    let found = root.get_map_with_txn(&txn, "child").unwrap();
    assert!(found.get_map_with_txn(&txn, "x").is_none());
    assert_eq!(found.map_ref(), created.map_ref());
    drop(txn);
    assert_eq!(root.to_json_str().unwrap(), r#"{"child":{"x":7}}"#);
}

#[test]
fn later_pair_with_same_key_wins() {
    let root = root();
    assert!(root.insert_map("m", vec![("a".to_string(), Any::BigInt(1)), ("a".to_string(), Any::BigInt(2))]));
    assert_eq!(root.to_json_str().unwrap(), r#"{"m":{"a":2}}"#);
}

#[test]
fn projections_with_a_given_transaction() {
    let root = root();
    {
        let mut txn = root.collab_ctx.transact_mut().unwrap();
        root.insert_with_txn(&mut txn, "b", Any::BigInt(2));
        root.insert_with_txn(&mut txn, "a", Any::from("x"));
        root.insert_text_with_txn(&mut txn, "t");
    }
    let txn = root.transact().unwrap();
    let value = root.to_json_value_with_txn(&txn).unwrap();
    let text = root.to_json_str_with_txn(&txn).unwrap();
    assert_eq!(text, r#"{"a":"x","b":2,"t":""}"#);
    assert_eq!(serde_json::from_str::<serde_json::Value>(&text).unwrap(), value);
}

#[test]
fn map_lookup_of_array_key_reads_no_json() {
    let root = root();
    assert!(root.insert_array("list", strings(&["x"])).is_some());
    assert!(root.get_json("list").is_none());
}
