use nya::json::{Json, Member};

fn object(entries: Vec<(&str, Json)>) -> Json {
    Json::Object(entries.into_iter().map(|(k, v)| Member { key: k.to_string(), value: v }).collect())
}

#[test]
fn json_get_reads_the_last_entry_of_a_key() {
    let value = object(vec![("a", Json::text("first")), ("b", Json::Null), ("a", Json::text("last"))]);
    assert_eq!(value.get("a").unwrap().as_str(), Some("last"));
    assert_eq!(value.get("b"), Some(&Json::Null));
    assert_eq!(value.get("c"), None);
    assert_eq!(Json::text("a").get("a"), None);
}

#[test]
fn json_with_member_adds_and_overwrites() {
    let value = object(vec![("a", Json::text("1"))]);
    let value = value.with_member("b".to_string(), Json::text("2"));
    assert_eq!(value, object(vec![("a", Json::text("1")), ("b", Json::text("2"))]));
    let value = value.with_member("a".to_string(), Json::text("3"));
    assert_eq!(value, object(vec![("a", Json::text("3")), ("b", Json::text("2"))]));
}

#[test]
fn json_with_member_leaves_other_kinds_alone() {
    assert_eq!(Json::Null.with_member("a".to_string(), Json::Null), Json::Null);
    assert_eq!(Json::text("s").with_member("a".to_string(), Json::Null), Json::text("s"));
}

#[test]
fn json_kind_tests() {
    assert!(object(vec![]).is_object());
    assert!(!Json::Array(vec![]).is_object());
    assert_eq!(Json::text("abc").as_str(), Some("abc"));
    assert_eq!(Json::Bool(true).as_str(), None);
}

#[test]
fn json_clone_is_deep() {
    let value = object(vec![("a", Json::Array(vec![object(vec![("b", Json::text("c"))])]))]);
    assert_eq!(value.clone(), value);
}
