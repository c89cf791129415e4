use nya::codec::{debug, parse, to_string, to_string_pretty};
use nya::json::{Json, Member};

#[test]
fn parse_reads_every_kind_of_value() {
    let doc = parse("{\"s\": \"x\", \"b\": true, \"n\": null, \"a\": [\"y\"], \"o\": {\"k\": \"v\"}}").unwrap();
    assert_eq!(doc.get("s"), Some(&Json::String("x".to_string())));
    assert_eq!(doc.get("b"), Some(&Json::Bool(true)));
    assert_eq!(doc.get("n"), Some(&Json::Null));
    assert_eq!(doc.get("a"), Some(&Json::Array(vec![Json::text("y")])));
    assert_eq!(doc.get("o").unwrap().get("k").unwrap().as_str(), Some("v"));
    assert_eq!(doc.get("missing"), None);
}

#[test]
fn parse_reports_the_error_of_bad_text() {
    let err = parse("{\"a\": }").err().unwrap();
    assert!(err.contains("line 1"));
}

#[test]
fn to_string_writes_compact_text() {
    let value = Json::Object(vec![
        Member { key: "b".to_string(), value: Json::Array(vec![Json::Bool(true), Json::Null]) },
        Member { key: "a".to_string(), value: Json::text("x") },
    ]);
    assert_eq!(to_string(&value).unwrap(), "{\"a\":\"x\",\"b\":[true,null]}");
}

#[test]
fn to_string_pretty_writes_indented_text() {
    let value = Json::Object(vec![Member { key: "a".to_string(), value: Json::text("x") }]);
    assert_eq!(to_string_pretty(&value).unwrap(), "{\n  \"a\": \"x\"\n}");
    assert_eq!(to_string_pretty(&Json::Null).unwrap(), "null");
}

#[test]
fn numbers_pass_through_unchanged() {
    let doc = parse("{\"i\": 42, \"f\": 1.5, \"neg\": -7}").unwrap();
    assert_eq!(to_string(&doc).unwrap(), "{\"f\":1.5,\"i\":42,\"neg\":-7}");
    let copy = doc.clone();
    assert_eq!(copy, doc);
}

#[test]
fn debug_gives_the_diagnostic_form() {
    assert_eq!(debug(&Json::Null), "Null");
    assert_eq!(debug(&Json::text("x")), "String(\"x\")");
    assert_eq!(debug(&Json::Bool(false)), "Bool(false)");
}

#[test]
fn text_round_trips_through_parse() {
    let text = "{\"a\":[1,{\"b\":null}],\"c\":\"d\"}";
    assert_eq!(to_string(&parse(text).unwrap()).unwrap(), text);
}
