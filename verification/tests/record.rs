use upload_gui::{Record, Value};

#[test]
fn new_record_holds_nothing() {
    let record = Record::new();
    assert!(record.fields().is_empty());
    assert_eq!(record.get("anything"), None);
    assert_eq!(record.text("anything"), None);
    assert_eq!(record.bool("anything"), None);
    assert_eq!(record.unsigned("anything"), None);
}

#[test]
fn insert_then_get_gives_the_value() {
    let mut record = Record::new();
    record.insert("flag".to_string(), Value::Bool(true));
    record.insert("count".to_string(), Value::Unsigned(9));
    record.insert("label".to_string(), Value::Text("hello".to_string()));
    record.insert("rest".to_string(), Value::Other);
    assert_eq!(record.get("flag"), Some(&Value::Bool(true)));
    assert_eq!(record.get("count"), Some(&Value::Unsigned(9)));
    assert_eq!(record.get("label"), Some(&Value::Text("hello".to_string())));
    assert_eq!(record.get("rest"), Some(&Value::Other));
    assert_eq!(record.get("missing"), None);
    assert_eq!(record.fields().len(), 4);
}

#[test]
fn insert_replaces_the_value_under_a_present_name() {
    let mut record = Record::new();
    record.insert("a".to_string(), Value::Unsigned(1));
    record.insert("b".to_string(), Value::Unsigned(2));
    record.insert("a".to_string(), Value::Text("again".to_string()));
    assert_eq!(record.get("a"), Some(&Value::Text("again".to_string())));
    assert_eq!(record.get("b"), Some(&Value::Unsigned(2)));
    assert_eq!(record.fields().len(), 2);
}

#[test]
fn fields_list_each_name_once() {
    let mut record = Record::new();
    for round in 0..3u64 {
        record.insert("x".to_string(), Value::Unsigned(round));
        record.insert("y".to_string(), Value::Unsigned(round + 10));
    }
    let mut names: Vec<&str> = record.fields().iter().map(|field| field.name.as_str()).collect();
    names.sort();
    assert_eq!(names, vec!["x", "y"]);
    for field in record.fields() {
        assert_eq!(record.get(&field.name), Some(&field.value));
    }
    assert_eq!(record.unsigned("x"), Some(2));
    assert_eq!(record.unsigned("y"), Some(12));
}

#[test]
fn names_are_compared_exactly() {
    let mut record = Record::new();
    record.insert("name".to_string(), Value::Bool(true));
    assert_eq!(record.get("Name"), None);
    assert_eq!(record.get("name "), None);
    assert_eq!(record.get(""), None);
    record.insert(String::new(), Value::Bool(false));
    assert_eq!(record.get(""), Some(&Value::Bool(false)));
    assert_eq!(record.get("name"), Some(&Value::Bool(true)));
}

#[test]
fn typed_getters_answer_only_for_their_kind() {
    let mut record = Record::new();
    record.insert("flag".to_string(), Value::Bool(false));
    record.insert("count".to_string(), Value::Unsigned(u64::MAX));
    record.insert("label".to_string(), Value::Text(String::new()));
    record.insert("rest".to_string(), Value::Other);

    assert_eq!(record.bool("flag"), Some(false));
    assert_eq!(record.unsigned("flag"), None);
    assert_eq!(record.text("flag"), None);

    assert_eq!(record.unsigned("count"), Some(u64::MAX));
    assert_eq!(record.bool("count"), None);
    assert_eq!(record.text("count"), None);

    assert_eq!(record.text("label"), Some(String::new()));
    assert_eq!(record.bool("label"), None);
    assert_eq!(record.unsigned("label"), None);

    assert_eq!(record.text("rest"), None);
    assert_eq!(record.bool("rest"), None);
    assert_eq!(record.unsigned("rest"), None);
}

#[test]
fn value_clone_is_equal() {
    let values = vec![
        Value::Bool(true),
        Value::Unsigned(42),
        Value::Text("copy me".to_string()),
        Value::Other,
    ];
    for value in &values {
        assert_eq!(&value.clone(), value);
    }
}
