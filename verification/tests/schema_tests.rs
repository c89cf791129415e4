use nya::kernel::registry::register_schemas;
use nya::kernel::schema::{decode_steps, find_schema, get_schema, is_json_file, NyaSchema, SchemaFile};
use nya::codec::parse;

fn file(name: &str, content: &str) -> SchemaFile {
    SchemaFile { name: name.to_string(), content: content.to_string() }
}

#[test]
fn can_get_schema() {
    let found = NyaSchema::new("test_cmd");
    let steps_len: usize = 2;
    assert_eq!(found.steps.len(), steps_len);
}

#[test]
#[should_panic]
fn panics_for_nonexistent_schema() {
    _ = NyaSchema::new("nonexistent");
}

#[test]
fn schema_load_says_why_a_command_is_unknown() {
    let err = NyaSchema::load("nonexistent").err().unwrap();
    assert_eq!(err, "Get Schema(): wasn't able to successfully retrieve schema");
    assert_eq!(NyaSchema::load("test_cmd").unwrap().steps, vec!["test_event", "test_event2"]);
}

#[test]
fn core_schema_names_the_base_commands() {
    assert_eq!(
        get_schema("base:build").unwrap(),
        vec!["onBuildMainServer", "onBuildNodeServers", "onRunPostBuild", "onValidateCluster"]
    );
    assert_eq!(get_schema("base:destroy").unwrap(), vec!["onDestroyNodes", "onDestroyControlPlane"]);
}

#[test]
fn later_documents_overwrite_earlier_ones() {
    let files = vec![
        file("a.json", "{\"cmd\": {\"steps\": [\"one\"]}, \"only_a\": {\"steps\": []}}"),
        file("b.json", "{\"cmd\": {\"steps\": [\"two\", \"three\"]}}"),
    ];
    assert_eq!(find_schema(&files, "cmd").unwrap(), vec!["two", "three"]);
    assert_eq!(find_schema(&files, "only_a").unwrap(), Vec::<String>::new());
    assert_eq!(
        find_schema(&files, "nope").err().unwrap(),
        "Get Schema(): wasn't able to successfully retrieve schema"
    );
}

#[test]
fn a_refused_document_ends_the_lookup() {
    let files = vec![
        file("a.json", "{\"cmd\": {\"steps\": [\"one\"]}}"),
        file("bad.json", "{\"x\": {\"steps\": [1]}}"),
        file("c.json", "{\"cmd\": {\"steps\": [\"late\"]}}"),
    ];
    assert_eq!(
        find_schema(&files, "cmd").err().unwrap(),
        "Failed to parse bad.json: a schema is not an object with a list of step names"
    );
    let files = vec![file("list.json", "[]")];
    assert_eq!(
        find_schema(&files, "cmd").err().unwrap(),
        "Failed to parse list.json: the document is not a JSON object"
    );
    let files = vec![file("broken.json", "{")];
    assert!(find_schema(&files, "cmd").err().unwrap().starts_with("Failed to parse broken.json: "));
}

#[test]
fn no_documents_means_no_schema() {
    assert!(find_schema(&vec![], "cmd").is_err());
}

#[test]
fn decode_steps_wants_a_list_of_strings() {
    assert_eq!(decode_steps(&parse("{\"steps\": [\"a\", \"b\"]}").unwrap()), Some(vec!["a".to_string(), "b".to_string()]));
    assert_eq!(decode_steps(&parse("{\"steps\": []}").unwrap()), Some(vec![]));
    assert_eq!(decode_steps(&parse("{\"steps\": [\"a\", 2]}").unwrap()), None);
    assert_eq!(decode_steps(&parse("{\"steps\": \"a\"}").unwrap()), None);
    assert_eq!(decode_steps(&parse("{\"other\": []}").unwrap()), None);
    assert_eq!(decode_steps(&parse("[\"a\"]").unwrap()), None);
}

#[test]
fn registry_looks_commands_up() {
    let registry = register_schemas();
    assert_eq!(registry.get_schema("test_cmd").unwrap().steps.len(), 2);
    assert!(registry.get_schema("nonexistent").is_err());
}

#[test]
fn documents_without_the_json_extension_contribute_nothing() {
    let files = vec![
        file("a.json", "{\"c\": {\"steps\": [\"s1\"]}}"),
        file("b.json", "{\"c\": {\"steps\": [\"s2\", \"s2b\"]}}"),
        file("c.txt", "{\"c\": {\"steps\": [\"s3\"]}}"),
        file("notes", "this is no json at all"),
    ];
    assert_eq!(find_schema(&files, "c").unwrap(), vec!["s2", "s2b"]);
    let files = vec![file("only.yaml", "{\"c\": {\"steps\": []}}")];
    assert!(find_schema(&files, "c").is_err());
}

#[test]
fn json_extension_is_told_by_the_name() {
    assert!(is_json_file("core_schema.json"));
    assert!(is_json_file("dir/a.json"));
    assert!(is_json_file("..json"));
    assert!(!is_json_file(".json"));
    assert!(!is_json_file("dir/.json"));
    assert!(!is_json_file("a.jso"));
    assert!(!is_json_file("a.JSON"));
    assert!(!is_json_file("json"));
    assert!(!is_json_file(""));
    assert!(!is_json_file("a.json.bak"));
}

#[test]
fn schema_clone_keeps_the_steps() {
    let schema = NyaSchema::new("test_cmd");
    let copy = schema.clone();
    assert_eq!(copy.steps, schema.steps);
    assert_eq!(copy.steps, vec!["test_event", "test_event2"]);
}
