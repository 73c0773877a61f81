use llmdp::facts::Facts;

#[test]
fn empty_facts_encode_as_empty_object() {
    let facts = Facts::new();
    assert!(facts.is_empty());
    assert_eq!(facts.len(), 0);
    assert_eq!(facts.to_json(), "{}");
}

#[test]
fn facts_record_and_look_up_booleans() {
    let mut facts = Facts::new();
    facts.insert(String::from("tests_ok"), true);
    facts.insert(String::from("lint_ok"), false);
    assert_eq!(facts.len(), 2);
    assert_eq!(facts.get("tests_ok"), Some(true));
    assert_eq!(facts.get("lint_ok"), Some(false));
    assert_eq!(facts.get("fmt_ok"), None);
}

#[test]
fn facts_encode_in_recording_order() {
    let mut facts = Facts::new();
    facts.insert(String::from("tests_ok"), true);
    facts.insert(String::from("lint_ok"), false);
    assert_eq!(facts.to_json(), "{\"tests_ok\":true,\"lint_ok\":false}");
}

#[test]
fn facts_json_parses_back_as_the_same_object() {
    let mut facts = Facts::new();
    facts.insert(String::from("fmt_ok"), true);
    facts.insert(String::from("audit_ok"), false);
    let text = facts.to_json();
    let value: serde_json::Value = serde_json::from_str(&text).unwrap();
    let object = value.as_object().unwrap();
    assert_eq!(object.len(), 2);
    assert_eq!(object.get("fmt_ok").and_then(serde_json::Value::as_bool), Some(true));
    assert_eq!(object.get("audit_ok").and_then(serde_json::Value::as_bool), Some(false));
}
