use zutils::errors::UtilError;
use zutils::yaml::flatten_yaml;
use zutils::yaml::get_mapped_value;
use zutils::yaml::insert_value;
use zutils::yaml::Value;

fn keys(v: &[&str]) -> Vec<String> {
    v.iter().map(|s| s.to_string()).collect()
}

fn scalar_at(doc: &Value, path: &[&str]) -> String {
    match get_mapped_value(doc, &keys(path)) {
        Ok(Value::Scalar(s)) => s.clone(),
        _ => panic!("expected a scalar at the path"),
    }
}

#[test]
fn test_patch_empty_document_synthesizes_path() {
    let mut doc = Value::Mapping(Vec::new());
    let r = insert_value(&mut doc, &keys(&["a", "b"]), "c", "v");
    assert!(r.is_ok());
    assert_eq!(scalar_at(&doc, &["a", "b", "c"]), "v");
}

#[test]
fn test_repatch_overwrites_without_duplication() {
    let mut doc = Value::Mapping(Vec::new());
    insert_value(&mut doc, &keys(&["a", "b"]), "c", "v").unwrap();
    insert_value(&mut doc, &keys(&["a", "b"]), "c", "w").unwrap();
    assert_eq!(scalar_at(&doc, &["a", "b", "c"]), "w");
    // The mapping at a.b still has exactly one entry.
    match get_mapped_value(&doc, &keys(&["a", "b"])) {
        Ok(Value::Mapping(m)) => assert_eq!(m.len(), 1),
        _ => panic!("expected a mapping at a.b"),
    }
}

#[test]
fn test_patch_through_scalar_fails() {
    let mut entries: Vec<(String, Value)> = Vec::new();
    entries.push(("a".to_string(), Value::Scalar("s".to_string())));
    let mut doc = Value::Mapping(entries);
    let r = insert_value(&mut doc, &keys(&["a", "b"]), "c", "v");
    assert_eq!(r, Err(UtilError::StructureMismatch));
    // The document is unchanged.
    assert_eq!(scalar_at(&doc, &["a"]), "s");
}

#[test]
fn test_patch_keeps_siblings() {
    let mut doc = Value::Mapping(Vec::new());
    insert_value(&mut doc, &keys(&["a"]), "x", "1").unwrap();
    insert_value(&mut doc, &keys(&["a"]), "y", "2").unwrap();
    assert_eq!(scalar_at(&doc, &["a", "x"]), "1");
    assert_eq!(scalar_at(&doc, &["a", "y"]), "2");
}

#[test]
fn test_lookup_missing_key_fails() {
    let doc = Value::Mapping(Vec::new());
    assert_eq!(
        get_mapped_value(&doc, &keys(&["nope"])).err(),
        Some(UtilError::StructureMismatch)
    );
}

fn nested_example() -> Value {
    // {a: {b: {c: "1"}, d: "2"}}
    let mut b: Vec<(String, Value)> = Vec::new();
    b.push(("c".to_string(), Value::Scalar("1".to_string())));
    let mut a: Vec<(String, Value)> = Vec::new();
    a.push(("b".to_string(), Value::Mapping(b)));
    a.push(("d".to_string(), Value::Scalar("2".to_string())));
    let mut root: Vec<(String, Value)> = Vec::new();
    root.push(("a".to_string(), Value::Mapping(a)));
    Value::Mapping(root)
}

#[test]
fn test_flatten_nested_mappings() {
    let flat = flatten_yaml(&nested_example());
    match flat {
        Value::Mapping(m) => {
            assert_eq!(m.len(), 2);
            assert_eq!(m[0].0, "a.b.c");
            assert!(matches!(&m[0].1, Value::Scalar(s) if s == "1"));
            assert_eq!(m[1].0, "a.d");
            assert!(matches!(&m[1].1, Value::Scalar(s) if s == "2"));
        },
        _ => panic!("expected a mapping"),
    }
}

#[test]
fn test_flatten_scalar_root_unchanged() {
    let flat = flatten_yaml(&Value::Scalar("x".to_string()));
    assert!(matches!(&flat, Value::Scalar(s) if s == "x"));
}

#[test]
fn test_flatten_collision_last_write_wins() {
    // {a: {b: "1"}, "a.b": "2"} — both entries produce the key "a.b".
    let mut a: Vec<(String, Value)> = Vec::new();
    a.push(("b".to_string(), Value::Scalar("1".to_string())));
    let mut root: Vec<(String, Value)> = Vec::new();
    root.push(("a".to_string(), Value::Mapping(a)));
    root.push(("a.b".to_string(), Value::Scalar("2".to_string())));
    let flat = flatten_yaml(&Value::Mapping(root));
    match flat {
        Value::Mapping(m) => {
            assert_eq!(m.len(), 1);
            assert_eq!(m[0].0, "a.b");
            assert!(matches!(&m[0].1, Value::Scalar(s) if s == "2"));
        },
        _ => panic!("expected a mapping"),
    }
}
