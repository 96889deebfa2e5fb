use colossus_runtime::adapters::{
    configured_search_profile_with_authority, provider_registry, search_registry, SearchKind,
};
use colossus_runtime::config::{
    AccessConfig, AgentConfig, McpConfig, McpOAuthCredentialStoreKind, Platform, PluginTrustProfile, ProviderKind,
    ProviderProfileConfig, ResourceAuthority, RuntimeConfig, SandboxConfig, SearchProfileConfig,
};
use colossus_runtime::direct_effects::{
    file_text, plan_echo, plan_http_get, plan_process, plan_read, plan_write_bytes, plan_write_text, workflow_source,
    DirectContent,
};
use colossus_runtime::effects::ActorType;
use colossus_runtime::entries::Entry;
use colossus_runtime::error::RuntimeError;
use colossus_runtime::storage::ExternalDefaults;

#[test]
fn users_read_and_write_files_of_the_workspace() {
    let read = plan_read(Platform::Linux, "/workspace", "notes.md", "filesystem.read");
    assert_eq!((read.actor, read.actor_id.as_str()), (ActorType::User, "terminal-user"));
    assert_eq!((read.action.as_str(), read.resource.as_str()), ("filesystem.read", "/workspace/notes.md"));
    assert_eq!(read.capabilities, ["filesystem.read"]);
    assert!(matches!(read.content, DirectContent::File(path) if path == "/workspace/notes.md"));
    let text = plan_write_text(Platform::Linux, "/workspace", "/tmp/out", "hello");
    assert_eq!((text.action.as_str(), text.resource.as_str()), ("filesystem.write", "/tmp/out"));
    assert!(matches!(text.content, DirectContent::Text(text) if text == "hello"));
    let bytes = plan_write_bytes(Platform::Linux, "/workspace", "out", b"hello");
    assert!(matches!(bytes.content, DirectContent::Encoded(text) if text == "aGVsbG8="));
    assert_eq!(workflow_source(Platform::Linux, "/workspace", "flow.yaml"), "repo:/workspace/flow.yaml");
}

#[test]
fn files_are_read_as_text_only_where_they_are_text() {
    assert_eq!(file_text("héllo".as_bytes()).expect("text"), "héllo");
    assert_eq!(
        file_text(&[0x61, 0xff]).expect_err("bytes").shown(),
        "configuration error: file is not valid UTF-8: invalid utf-8 sequence of 1 bytes from index 1"
    );
}

#[test]
fn pages_and_echoes_are_asked_for() {
    let page = plan_http_get("https://example.test/");
    assert_eq!((page.action.as_str(), page.resource.as_str()), ("network.http", "https://example.test/"));
    assert!(matches!(page.content, DirectContent::Page));
    let echo = plan_echo("hi");
    assert_eq!((echo.actor, echo.actor_id.as_str()), (ActorType::System, "offline-echo"));
    assert!(echo.capabilities.is_empty());
    assert!(matches!(echo.content, DirectContent::Message(text) if text == "hi"));
}

#[test]
fn processes_run_canonical_executables() {
    let missing = || Err(RuntimeError::Io("missing".into()));
    let native = SandboxConfig::platform_isolating(Platform::Linux);
    let run = plan_process(
        &native,
        "bin/tool",
        Ok("/workspace/bin/tool".into()),
        Ok("/workspace".into()),
        vec!["-v".into()],
        Vec::new(),
    )
    .expect("process");
    assert_eq!((run.action.as_str(), run.resource.as_str()), ("process.spawn", "/workspace/bin/tool"));
    assert!(matches!(run.content, DirectContent::Process(call) if call.cwd == "/workspace" && call.args == ["-v"]));
    assert!(matches!(
        plan_process(&native, "x", missing(), Ok("/workspace".into()), Vec::new(), Vec::new()),
        Err(RuntimeError::Io(_))
    ));
    assert!(plan_process(&native, "x", Ok("/x".into()), missing(), Vec::new(), Vec::new()).is_err());
    let mut image = SandboxConfig::platform_isolating(Platform::Linux);
    image.backend = "oci".into();
    let run = plan_process(&image, "/bin/sh", missing(), Ok("/workspace".into()), Vec::new(), Vec::new());
    assert_eq!(run.expect("image").resource, "/bin/sh");
    assert_eq!(
        plan_process(&image, "sh", missing(), Ok("/workspace".into()), Vec::new(), Vec::new())
            .expect_err("relative")
            .shown(),
        "configuration error: OCI executable must be an exact normalized absolute image path"
    );
}

fn serp() -> SearchProfileConfig {
    SearchProfileConfig::SerpApi {
        endpoint: "https://serp.test".into(),
        credential_reference: "env:SERP".into(),
        user_agent: "agent".into(),
        timeout_ms: 1_000,
    }
}

#[test]
fn search_profiles_are_handed_to_their_adapters() {
    let searxng = SearchProfileConfig::Searxng {
        endpoint: "https://searx.test".into(),
        credential_reference: None,
        auth_header: "x-key".into(),
        user_agent: "agent".into(),
        timeout_ms: 500,
    };
    let profile = configured_search_profile_with_authority("own", &searxng, ResourceAuthority::Declared);
    assert_eq!((profile.kind, profile.auth_header.as_deref()), (SearchKind::Searxng, Some("x-key")));
    assert_eq!(profile.credential_reference, None);
    let mut config = RuntimeConfig::offline_template(
        "state.redb".into(),
        Platform::Linux,
        ExternalDefaults {
            access: AccessConfig { profile: "balanced".into() },
            agent: AgentConfig { max_turns: 20 },
            trust: PluginTrustProfile::empty(),
            mcp: McpConfig { servers: Vec::new(), oauth_credential_store: McpOAuthCredentialStoreKind::Auto },
        },
    );
    config.search.profiles.push(Entry { key: "serp".into(), value: serp() });
    let list = search_registry(&config);
    assert_eq!((list.len(), list[0].name.as_str(), list[0].kind), (1, "serp", SearchKind::SerpApi));
    assert_eq!(list[0].credential_reference.as_deref(), Some("env:SERP"));
    assert_eq!(list[0].auth_header, None);
}

#[test]
fn provider_profiles_carry_the_timeout_in_force() {
    let profile = ProviderProfileConfig {
        kind: ProviderKind::Network("openai".into()),
        base_url: Some("https://api.test/v1".into()),
        credential_reference: Some("env:KEY".into()),
        timeout_ms: Some(7),
        generation_timeout_ms: None,
        chat_completions_output_token_parameter: None,
    };
    let list =
        provider_registry(&vec![Entry { key: "main".into(), value: profile }], ResourceAuthority::Declared);
    assert_eq!((list[0].name.as_str(), list[0].timeout_ms), ("main", 7));
    assert_eq!(list[0].network_kind.as_deref(), Some("openai"));
}
