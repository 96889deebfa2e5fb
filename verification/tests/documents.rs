use colossus_runtime::documents::{read_configuration, summarize};

fn refusal(yaml: &str) -> String {
    read_configuration(yaml).expect_err("a refusal is expected").shown()
}

#[test]
fn yaml_is_read_as_json() {
    let document = read_configuration("schemaVersion: 3\nstorage:\n  path: state.redb\n").expect("current schema");
    assert_eq!(String::from_utf8(document).expect("text"), "{\"schemaVersion\":3,\"storage\":{\"path\":\"state.redb\"}}");
}

#[test]
fn only_the_current_schema_is_read() {
    assert!(refusal("schemaVersion: 1\n").contains("schemaVersion 1 is no longer supported"));
    assert!(refusal("schemaVersion: 2\n").contains("schemaVersion 2 is no longer supported"));
    for yaml in ["schemaVersion: 4\n", "schemaVersion: -3\n", "schemaVersion: \"3\"\n", "storage: {}\n"] {
        assert_eq!(refusal(yaml), "configuration error: schemaVersion must be exactly 3");
    }
    assert_eq!(refusal("- 3\n"), "configuration error: configuration root must be a YAML mapping");
}

#[test]
fn blocks_of_older_schemas_are_refused() {
    let legacy = "agent.tools, policy.allow_actions, and policy.approval_actions are not supported";
    assert!(refusal("schemaVersion: 3\nagent:\n  tools: []\n").contains(legacy));
    assert!(refusal("schemaVersion: 3\npolicy:\n  kind: built_in\n  allow_actions: []\n").contains(legacy));
    assert!(refusal("schemaVersion: 3\npolicy:\n  approval_actions: []\n").contains(legacy));
    assert!(read_configuration("schemaVersion: 3\nagent:\n  maxTurns: 3\n").is_ok());
}

#[test]
fn text_that_is_no_yaml_is_refused() {
    assert!(refusal("schemaVersion: [3\n").starts_with("configuration error: "));
}

#[test]
fn summaries_hold_the_top_level() {
    let found = summarize(b"{\"schemaVersion\":3,\"agent\":{\"tools\":1}}");
    assert!(found.mapping && found.legacy_tools && !found.legacy_actions);
    assert_eq!(found.schema_version, Some(3));
    let list = summarize(b"[1]");
    assert!(!list.mapping);
    assert_eq!(list.schema_version, None);
}
