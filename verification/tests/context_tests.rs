use nya::json::Json;
use nya::kernel::context::{get_context, NyaContext};
use nya::codec::parse;

#[test]
fn get_nya_context_returns_context() {
    // "./context/nya_test_context.json" holds this document.
    let nya_context = get_context("{\"test1\": \"value1\", \"port\": 8080}").expect("context load failed");
    let stored = nya_context.get("test1");
    let test_value = stored.as_str().expect("test1 not found or not a string");
    assert_eq!(test_value, "value1");
}

#[test]
fn context_get_of_absent_key_is_null() {
    let ctx = get_context("{\"a\": 1}").unwrap();
    assert_eq!(ctx.get("b"), Json::Null);
    assert_eq!(NyaContext::empty().get("a"), Json::Null);
}

#[test]
fn context_get_returns_the_stored_value_exactly() {
    let text = "{\"flag\": true, \"list\": [1, \"two\", null], \"nested\": {\"k\": {\"deep\": 2.5}}}";
    let ctx = get_context(text).unwrap();
    let whole = parse(text).unwrap();
    assert_eq!(ctx.get("flag"), Json::Bool(true));
    assert_eq!(Some(&ctx.get("list")), whole.get("list"));
    assert_eq!(Some(&ctx.get("nested")), whole.get("nested"));
}

#[test]
fn context_set_then_get_round_trips() {
    let mut ctx = NyaContext::empty();
    ctx.set("k", Json::text("v1"));
    assert_eq!(ctx.get("k").as_str(), Some("v1"));
    ctx.set("other", Json::Bool(false));
    ctx.set("k", Json::text("v2"));
    assert_eq!(ctx.get("k").as_str(), Some("v2"));
    assert_eq!(ctx.get("other"), Json::Bool(false));
}

#[test]
fn context_keys_are_literal() {
    let ctx = get_context("{\"nya\":{\"control_plane\":{\"vars\":{}}}}").unwrap();
    assert_eq!(ctx.get("nya.control_plane"), Json::Null);
    assert!(ctx.get("nya").is_object());
}

#[test]
fn context_set_converted_drops_a_failed_conversion() {
    let mut ctx = NyaContext::empty();
    ctx.set("k", Json::text("kept"));
    ctx.set_converted("k", None);
    assert_eq!(ctx.get("k").as_str(), Some("kept"));
    ctx.set_converted("k", Some(Json::Null));
    assert_eq!(ctx.get("k"), Json::Null);
}

#[test]
fn context_refuses_text_that_is_no_json() {
    let err = get_context("{not json").err().unwrap();
    assert!(err.starts_with("Failed to parse context: "));
}

#[test]
fn context_refuses_a_document_that_is_no_object() {
    let err = get_context("[1, 2]").err().unwrap();
    assert_eq!(err, "Failed to parse context: the document is not a JSON object");
}

#[test]
fn context_from_document_with_repeated_key_keeps_the_last() {
    let ctx = get_context("{\"a\": 1, \"a\": 2}").unwrap();
    assert_eq!(Some(&ctx.get("a")), parse("{\"x\": 2}").unwrap().get("x"));
}
