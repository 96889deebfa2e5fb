use colossus_runtime::config::Platform;
use colossus_runtime::effects::ExecutionError;
use colossus_runtime::entries::{contains_key, key_list, lookup, ordered_entries, put, same_entries, Entry};
use colossus_runtime::error::{
    AgentError, ContextError, GatewayError, ModelProviderError, ProviderResponseDiagnostic, RuntimeError, SearchError,
    StoreError,
};
use colossus_runtime::names::{
    normalized_oci_path, unique_names, valid_environment_name, valid_name, valid_oci_image_reference,
    valid_oci_runtime_name,
};
use colossus_runtime::ordered::{insert_ascending, placement, Placement};
use colossus_runtime::path_order::{insert_path, path_placement};
use colossus_runtime::paths::{
    component_list, confined_relative_storage_path, is_absolute, join_path, path_ancestors, path_file_name, path_file_stem, path_parent,
    starts_with_path, with_extension,
};
use colossus_runtime::redaction::{checked_redaction, redact_bytes, redact_process_credentials};
use colossus_runtime::text::{
    bounded, contains, decimal_text, join, lowercase, split, starts_with, strip_prefix, trim, words,
};
use colossus_runtime::urls::{is_loopback_host, is_loopback_url, UrlHost};

#[test]
fn texts_are_taken_apart_and_joined() {
    assert_eq!(split("a/b//c", '/'), ["a", "b", "", "c"]);
    assert_eq!(split("", '/'), [""]);
    assert_eq!(words("  two  words "), ["two", "words"]);
    assert_eq!(join(&vec!["a".into(), "b".into()], ", "), "a, b");
    assert_eq!(join(&Vec::new(), ", "), "");
    assert_eq!(trim(" \t both \n"), "both");
    assert_eq!(lowercase("MiXed 9"), "mixed 9");
    assert_eq!(decimal_text(0), "0");
    assert_eq!(decimal_text(u64::MAX), "18446744073709551615");
    assert_eq!(bounded("héllo", 2), "hé");
    assert_eq!(bounded("abc", 9), "abc");
    assert_eq!(strip_prefix("./run", "./").as_deref(), Some("run"));
    assert_eq!(strip_prefix("run", "./"), None);
    assert!(contains("haystack", "yst") && contains("haystack", "") && !contains("haystack", "xyz"));
    assert!(starts_with("plugin.mcp.x", "plugin.mcp.") && !starts_with("plugin", "plugin.mcp."));
}

#[test]
fn names_have_their_alphabets() {
    assert!(valid_name("dev.example-tools_1"));
    assert!(!valid_name("") && !valid_name("a b") && !valid_name("a/b"));
    assert!(unique_names(&vec!["a".into(), "b".into()]) && !unique_names(&vec!["a".into(), "a".into()]));
    assert!(valid_environment_name("_PATH2") && !valid_environment_name("2PATH") && !valid_environment_name(""));
    assert!(normalized_oci_path("/bin/sh"));
    assert!(!normalized_oci_path("bin/sh") && !normalized_oci_path("/bin/../sh"));
    let digest = "a".repeat(64);
    assert!(valid_oci_image_reference(&format!("registry.test/tools@sha256:{digest}")));
    assert!(!valid_oci_image_reference("registry.test/tools:latest"));
    assert!(valid_oci_runtime_name(
        Platform::Linux,
        "/usr/bin/podman",
    ) && valid_oci_runtime_name(Platform::Linux, "Docker.exe"));
    assert!(!valid_oci_runtime_name(Platform::Linux, "/usr/bin/runc") && !valid_oci_runtime_name(Platform::Linux, ""));
}

#[test]
fn paths_are_compared_by_component() {
    assert!(is_absolute(Platform::Linux, "/a") && !is_absolute(Platform::Linux, "a"));
    assert_eq!(component_list(Platform::Linux, "/a//b/./c"), component_list(Platform::Linux, "/a/b/c"));
    assert!(starts_with_path(
        Platform::Linux,
        "/work/src",
        "/work",
    ) && !starts_with_path(Platform::Linux, "/workshop", "/work"));
    assert_eq!(path_file_name(Platform::Linux, "/a/b.txt").as_deref(), Some("b.txt"));
    assert_eq!(path_file_name(Platform::Linux, "/a/.."), None);
    assert_eq!(path_file_stem(Platform::Linux, "/a/b.tar.gz").as_deref(), Some("b.tar"));
    assert_eq!(path_file_stem(Platform::Linux, "/a/.hidden").as_deref(), Some(".hidden"));
    assert_eq!(with_extension(Platform::Linux, "/a/state.redb", "lock"), "/a/state.lock");
    assert_eq!(join_path(Platform::Linux, "/work", "a/b"), "/work/a/b");
    assert_eq!(join_path(Platform::Linux, "/work", "/abs"), "/abs");
    assert!(confined_relative_storage_path(Platform::Linux, "state/colossus.redb"));
    for path in ["", "/abs", "../up", "a/../../b", "."] {
        assert!(!confined_relative_storage_path(Platform::Linux, path), "{path} is not confined");
    }
}

#[test]
fn paths_of_windows_have_prefixes() {
    let windows = Platform::Windows;
    for path in [r"C:\tools\git.exe", "c:/tools", r"\\server\share", r"\\?\C:\work", r"\\.\pipe", r"\\?\UNC\s\h\a"] {
        assert!(is_absolute(windows, path), "{path} is absolute");
    }
    for path in [r"\tools", "/tools", r"C:tools", "tools", "", r"\\server"] {
        assert!(!is_absolute(windows, path), "{path} is not absolute");
    }
    assert!(starts_with_path(windows, r"C:\work\bin", r"C:\work"));
    assert!(starts_with_path(windows, r"c:/work/bin", r"C:\work\"));
    assert!(starts_with_path(windows, r"\\?\C:\work\bin", r"\\?\c:\work"));
    assert!(!starts_with_path(windows, r"C:\workshop", r"C:\work"));
    assert!(!starts_with_path(windows, r"D:\work", r"C:\work"));
    assert!(!starts_with_path(windows, r"\\?\C:\work", r"C:\work"));
    assert!(!starts_with_path(Platform::Linux, r"C:\work\bin", r"C:\work"));
    assert_eq!(path_file_name(windows, r"C:\tools\git.exe").as_deref(), Some("git.exe"));
    assert_eq!(path_file_stem(windows, r"C:\tools\git.exe").as_deref(), Some("git"));
    assert_eq!(path_file_name(windows, r"C:git.exe").as_deref(), Some("git.exe"));
    assert_eq!(path_file_name(windows, r"C:\").as_deref(), None);
    assert_eq!(path_file_name(windows, r"\\server\share").as_deref(), None);
    assert_eq!(path_file_name(Platform::Linux, r"C:\tools\git.exe").as_deref(), Some(r"C:\tools\git.exe"));
    assert_eq!(with_extension(windows, r"C:\a.b\state.redb\", "lock"), r"C:\a.b\state.lock");
    assert_eq!(path_parent(windows, r"C:\a\b").as_deref(), Some(r"C:\a"));
    assert_eq!(path_parent(windows, r"C:\a").as_deref(), Some(r"C:\"));
    assert_eq!(path_parent(windows, r"C:\"), None);
    assert_eq!(path_parent(Platform::Linux, "/a/b/").as_deref(), Some("/a"));
    assert_eq!(path_parent(Platform::Linux, "a").as_deref(), Some(""));
    assert_eq!(path_parent(Platform::Linux, "/"), None);
    assert_eq!(path_ancestors(windows, r"C:\a\b"), [r"C:\a\b", r"C:\a", r"C:\"]);
    assert_eq!(path_ancestors(Platform::Linux, "a/./b"), ["a/./b", "a", ""]);
}

#[test]
fn paths_of_windows_are_joined() {
    let windows = Platform::Windows;
    assert_eq!(join_path(windows, r"C:\work", r"a\b"), r"C:\work\a\b");
    assert_eq!(join_path(windows, r"C:\work\", "a"), r"C:\work\a");
    assert_eq!(join_path(windows, "C:/work/", "a"), "C:/work/a");
    assert_eq!(join_path(windows, "C:", "a"), "C:a");
    assert_eq!(join_path(windows, r"C:\work", r"\top"), r"C:\top");
    assert_eq!(join_path(windows, r"C:\work", r"D:\other"), r"D:\other");
    assert_eq!(join_path(windows, r"C:\work", "D:other"), "D:other");
    assert_eq!(join_path(windows, r"\\?\C:\work", "a/./b/../c"), r"\\?\C:\work\a\c");
    assert_eq!(join_path(windows, r"\\?\C:\work", r"\top"), r"\\?\C:\top");
    assert_eq!(join_path(windows, r"\\?\C:", "a"), r"\\?\C:\a");
    assert!(confined_relative_storage_path(windows, r"state\colossus.redb"));
    for path in ["", r"\abs", r"C:\abs", "C:up", r"..\up", r"a\..\b", "."] {
        assert!(!confined_relative_storage_path(windows, path), "{path} is not confined");
    }
    let mut paths = Vec::new();
    for item in [r"b", r"..\a", r"C:\b", r"\a", r"c:\B"] {
        insert_path(windows, &mut paths, item.into());
    }
    assert_eq!(paths, [r"c:\B", r"C:\b", r"\a", r"..\a", "b"]);
}

#[test]
fn sets_of_texts_are_ascending() {
    let mut list = Vec::new();
    for item in ["b", "a", "c", "a"] {
        insert_ascending(&mut list, item.into());
    }
    assert_eq!(list, ["a", "b", "c"]);
    assert!(matches!(placement("a", "ab"), Placement::Before));
    assert!(matches!(placement("b", "ab"), Placement::After));
    assert!(matches!(placement("", ""), Placement::Same));
    let mut paths = Vec::new();
    for item in ["/a.b", "/a/b", "/a"] {
        insert_path(Platform::Linux, &mut paths, item.into());
    }
    assert_eq!(paths, ["/a", "/a/b", "/a.b"]);
    assert!(matches!(path_placement(Platform::Linux, "/a/b", "/a.b"), Placement::Before));
}

#[test]
fn entries_hold_one_value_for_a_key() {
    let mut list = Vec::new();
    put(&mut list, "b".into(), "1".to_owned());
    put(&mut list, "a".into(), "2".to_owned());
    put(&mut list, "b".into(), "3".to_owned());
    assert_eq!(lookup(&list, "b").map(String::as_str), Some("3"));
    assert_eq!(lookup(&list, "c"), None);
    assert!(contains_key(&list, "a") && !contains_key(&list, "c"));
    assert_eq!(key_list(&list), ["a", "b"]);
    let entry = |key: &str, value: &str| Entry { key: key.to_owned(), value: value.to_owned() };
    assert_eq!(key_list(&ordered_entries(&vec![entry("c", "1"), entry("a", "2"), entry("b", "3")])), ["a", "b", "c"]);
    assert!(!same_entries(&list, &vec![Entry { key: "b".into(), value: "3".into() }]));
}

#[test]
fn loopback_hosts_are_recognized() {
    assert!(is_loopback_host(&UrlHost::Ipv4(0x7f00_0001)));
    assert!(is_loopback_host(&UrlHost::Ipv4(0x7fff_fffe)));
    assert!(!is_loopback_host(&UrlHost::Ipv4(0x0a00_0001)));
    assert!(is_loopback_host(&UrlHost::Ipv6(1)) && !is_loopback_host(&UrlHost::Ipv6(2)));
    assert!(is_loopback_host(&UrlHost::Domain("LocalHost".into())));
    assert!(!is_loopback_host(&UrlHost::Domain("localhost.test".into())));
    assert!(is_loopback_url(&Some("http://127.3.2.1:9/x".into())));
    assert!(!is_loopback_url(&Some("mailto:a@localhost".into())));
    assert!(!is_loopback_url(&None));
}

#[test]
fn redaction_replaces_every_occurrence() {
    assert_eq!(redact_bytes(&b"a token b token".to_vec(), &b"token".to_vec()), b"a [REDACTED] b [REDACTED]");
    assert_eq!(redact_bytes(&b"aaa".to_vec(), &b"aa".to_vec()), b"[REDACTED]a");
}

#[test]
fn process_credentials_are_not_printed() {
    let document = b"{\"exit_code\":0,\"stdout_base64\":\"dG9rZW4gb2s=\",\"stderr_base64\":\"\"}".to_vec();
    let shown = redact_process_credentials(document.clone(), &vec![b"token".to_vec()]).ok().expect("redacted");
    let text = String::from_utf8(shown).expect("text");
    assert!(text.contains("\"stdout_base64\":\"W1JFREFDVEVEXSBvaw==\""));
    assert!(text.contains("\"exit_code\":0"));
    let same = redact_process_credentials(document.clone(), &Vec::new()).ok().expect("unchanged");
    assert_eq!(same, document);
    let broken = b"{\"stdout_base64\":\"*\"}".to_vec();
    assert!(matches!(
        redact_process_credentials(broken, &vec![b"token".to_vec()]),
        Err(ExecutionError::Failed(_))
    ));
    assert!(redact_process_credentials(b"nothing".to_vec(), &vec![b"token".to_vec()]).is_err());
    let checked = checked_redaction(document.clone(), &vec![b"token".to_vec()]).expect("it fits");
    assert!(String::from_utf8(checked.ok().expect("redacted")).expect("text").contains("W1JFREFDVEVEXSBvaw=="));
}

fn response() -> ProviderResponseDiagnostic {
    ProviderResponseDiagnostic {
        status: 429,
        content_type: None,
        body_encoding: "utf-8".into(),
        body: "slow down".into(),
        body_truncated: false,
        request_method: "POST".into(),
        request_url: "https://api.test/v1".into(),
        request_body: None,
    }
}

#[test]
fn errors_keep_their_response_and_certainty() {
    let provider = |unknown: bool| ModelProviderError {
        message: "refused".into(),
        outcome_unknown: unknown,
        response: Some(response()),
    };
    let agent = RuntimeError::Agent(AgentError::Provider { error: provider(true), outcome_unknown: true });
    assert_eq!(agent.provider_response_diagnostic().expect("kept").status, 429);
    assert!(agent.outcome_unknown());
    let context = RuntimeError::Context(ContextError::Provider(provider(false)));
    assert!(context.provider_response_diagnostic().is_none());
    assert!(!context.outcome_unknown());
    assert!(RuntimeError::Gateway(GatewayError::OutcomeUnknown("x".into())).outcome_unknown());
    assert!(RuntimeError::Gateway(GatewayError::Journal(StoreError::OutcomeUnknown("x".into()))).outcome_unknown());
    assert!(RuntimeError::Context(ContextError::Store(StoreError::OutcomeUnknown("x".into()))).outcome_unknown());
    assert!(!RuntimeError::SearchPort(SearchError::Other("x".into())).outcome_unknown());
    assert!(RuntimeError::Mcp("x".into()).provider_response_diagnostic().is_none());
}
