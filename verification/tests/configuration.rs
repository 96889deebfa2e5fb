use colossus_runtime::access::{
    access_context, additional_actions, builtin_outcomes, git_named, prepare_access, AccessDecision, ActionNames,
    CapabilitySource, DecisionOutcome, HostAccess, ResolvedAction,
};
use colossus_runtime::builtin_policy::{compose_builtin_policy, PolicyBounds, PolicyFindings};
use colossus_runtime::composition::{
    active_tools, boundary_acknowledgement, configured_skill_roots, home_authority, oauth_store,
    require_projections_ready, require_reverified, require_workspace_directory, research_run_timeout_ms, runs_phase,
    startup_phase_labels, startup_status, startup_verification_label, storage_adapter_label, HomeAuthority, OAuthStore,
    PackEvidence, SandboxBoundaryMode, StartupPhase,
};
use colossus_runtime::config::{
    configured_resource_authority, default_isolating_sandbox_backend, globally_acknowledged_resource_authority,
    AccessConfig, AgentConfig, AuditExporterConfig,
    FilesystemGrant, KeyConfig, McpConfig, McpOAuthConfig, McpOAuthCredentialStoreKind, McpServerConfig,
    McpTransportKind, MemoryEmbeddingConfig, Platform, PluginRegistryProfile, PluginTrustProfile, PolicyConfig,
    ProviderKind, ProviderProfileConfig, RegistryAuthConfig, ResourceAuthority, RuntimeConfig, SandboxConfig,
    SemanticMemoryConfig, StartupVerificationMode, StorageAdapter, StorageLocation,
};
use colossus_runtime::development::{
    command_roots, derive_development_sandbox, development_choice, first_program, no_development_sandbox,
    platform_command_roots, platform_runtime_roots, platform_shells, program_candidates, searched_directories,
    DevelopmentChoice, FoundProgram, HostDevelopment,
};
use colossus_runtime::documents::read_configuration;
use colossus_runtime::entries::Entry;
use colossus_runtime::error::{ContextError, RuntimeError, SearchError, StoreError};
use colossus_runtime::memory_indexes::{compose_memory_indexes, unavailable_projection, LexicalIndex};
use colossus_runtime::origins::{sandbox_allows_network, DestinationMatch, OriginFinding};
use colossus_runtime::policy_plan::{
    action_timeouts, plugin_restrictions, raise_timeout, registry_bundle_files, registry_destinations,
    registry_restrictions, ActionRestriction, TimeoutBounds,
};
use colossus_runtime::storage::{path_requests, with_omitted_limits, ExternalDefaults, HomeCheck, PreparedPaths};
use colossus_runtime::validation::{
    validate_config, validate_document, validate_sandbox_grants, CompiledBounds, ConfigFindings, DocumentSummary,
    ProviderOrigins, SandboxFloors,
};

fn template() -> RuntimeConfig {
    RuntimeConfig::offline_template(
        "state.redb".into(),
        Platform::Linux,
        ExternalDefaults {
            access: AccessConfig { profile: "balanced".into() },
            agent: AgentConfig { max_turns: 20 },
            trust: PluginTrustProfile::empty(),
            mcp: McpConfig { servers: Vec::new(), oauth_credential_store: McpOAuthCredentialStoreKind::Auto },
        },
    )
}

fn findings() -> ConfigFindings {
    ConfigFindings {
        access: Ok(()),
        postgres: Ok(()),
        observability: Ok(()),
        context: Ok(()),
        chroma_origin: Ok("https://chroma.test".into()),
        local_embedding: Ok(()),
        embedding_origin: Ok("https://embed.test".into()),
        search_origins: Vec::new(),
        mcp: Ok(()),
        provider_registry: Ok(()),
        provider_origins: vec![Ok(ProviderOrigins { origin: None, authentication: Vec::new() })],
        origins: Vec::new(),
    }
}

fn bounds() -> CompiledBounds {
    CompiledBounds {
        platform: Platform::Linux,
        floors: SandboxFloors {
            oci_effect_timeout_ms: 10_000,
            oci_network_effect_timeout_ms: 20_000,
            windows_job_effect_timeout_ms: 5_000,
        },
        max_turns: 100,
    }
}

fn refusal(config: &RuntimeConfig) -> String {
    validate_config(config, &findings(), bounds()).expect_err("a refusal is expected").shown()
}

fn reachable(origin: &str) -> OriginFinding {
    OriginFinding {
        resource: origin.into(),
        canonical: Ok(origin.into()),
        destination: Ok(Some(DestinationMatch::Exact)),
    }
}

#[test]
fn the_offline_template_is_valid() {
    validate_config(&template(), &findings(), bounds()).expect("template");
    let config = template();
    assert_eq!(config.sandbox.backend, "native");
    assert_eq!(config.providers.profiles[0].key, "echo");
    assert!(matches!(config.storage.keys, KeyConfig::Plaintext));
    assert_eq!(default_isolating_sandbox_backend(Platform::Windows), "windows_job");
}

#[test]
fn every_section_has_its_refusal() {
    let mut config = template();
    config.storage.postgres = true;
    assert_eq!(
        refusal(&config),
        "configuration error: storage.postgres must be omitted when storage.adapter is redb"
    );
    let mut config = template();
    config.storage.location = StorageLocation::HomeWorkspace;
    config.storage.path = "../state.redb".into();
    assert!(refusal(&config).ends_with("when storage.location is home_workspace"));
    let mut config = template();
    config.network.ca_bundle_path = Some(String::new());
    assert_eq!(refusal(&config), "configuration error: network.caBundlePath must be a nonempty file path");
    let mut config = template();
    config.sandbox.backend = "jail".into();
    assert_eq!(refusal(&config), "configuration error: unknown sandbox backend jail");
    let mut config = template();
    config.sandbox.backend = "broker".into();
    assert!(refusal(&config).contains("allowBrokerFallback"));
    let mut config = template();
    config.sandbox.backend = "oci".into();
    config.sandbox.timeout_ms = 9_999;
    assert!(refusal(&config).contains("OCI sandbox timeoutMs must be at least 10000"));
    let mut config = template();
    config.sandbox.filesystem.push(FilesystemGrant { root: "relative".into(), mode: "read".into() });
    assert!(refusal(&config).contains("must be absolute"));
    let mut config = template();
    config.sandbox.environment.push("9BAD".into());
    assert!(refusal(&config).contains("POSIX-style variable names"));
    let mut config = template();
    config.agent.max_turns = 101;
    assert_eq!(refusal(&config), "configuration error: agent.maxTurns must be in 1..=100");
    let mut config = template();
    config.subagents.max_concurrent = 0;
    assert_eq!(refusal(&config), "configuration error: subagents.maxConcurrent must be at least 1");
    let mut config = template();
    config.memory.retrieval_limit = 101;
    assert_eq!(refusal(&config), "configuration error: memory.retrievalLimit must be in 1..=100");
    let mut config = template();
    config.research.max_workers = 17;
    assert!(refusal(&config).contains("research.maxWorkers in 1..=16"));
    let mut config = template();
    config.search.roles.push(Entry { key: "other".into(), value: "x".into() });
    assert_eq!(refusal(&config), "configuration error: search roles must be exactly agent or research");
    let mut config = template();
    config.models.roles.push(Entry { key: "other".into(), value: "echo".into() });
    assert_eq!(refusal(&config), "configuration error: model roles contain an unknown role name");
}

#[test]
fn findings_of_adapters_are_handed_on() {
    let mut found = findings();
    found.context = Err(ContextError::Other("bad ratio".into()));
    let error = validate_config(&template(), &found, bounds()).expect_err("context");
    assert!(matches!(error, RuntimeError::Context(ContextError::Other(text)) if text == "bad ratio"));
    let mut found = findings();
    found.mcp = Err("bad server".into());
    assert_eq!(
        validate_config(&template(), &found, bounds()).expect_err("mcp").shown(),
        "configuration error: bad server"
    );
}

#[test]
fn semantic_memory_needs_an_index_and_a_destination() {
    let chroma = || SemanticMemoryConfig::Chroma {
        base_url: "https://chroma.test".into(),
        tenant: "t".into(),
        database: "d".into(),
        collection: "c".into(),
        credential_reference: None,
        timeout_ms: 1_000,
        position_path: None,
        embedding: MemoryEmbeddingConfig::Local { dimensions: 64 },
    };
    let mut config = template();
    config.memory.semantic = chroma();
    config.memory.index_enabled = false;
    assert_eq!(refusal(&config), "configuration error: memory semantic Chroma requires indexEnabled: true");
    let mut config = template();
    config.memory.semantic = chroma();
    let mut found = findings();
    found.origins.push(OriginFinding {
        resource: "https://chroma.test".into(),
        canonical: Ok("https://chroma.test".into()),
        destination: Ok(None),
    });
    assert_eq!(
        validate_config(&config, &found, bounds()).expect_err("unreachable").shown(),
        "configuration error: Chroma origin https://chroma.test is absent from sandbox.networkDestinations"
    );
    let mut found = findings();
    found.origins.push(reachable("https://chroma.test"));
    assert!(validate_config(&config, &found, bounds()).is_ok());

    let plan = compose_memory_indexes(Platform::Linux, &config, &Ok(()), &Ok(()), &Ok(())).expect("indexes");
    assert_eq!(plan.name, "memory.tantivy-v1");
    assert!(matches!(plan.lexical, LexicalIndex::Directory(path) if path == "state.memory-index"));
    assert_eq!(plan.position_path.as_deref(), Some("state.chroma-position.json"));
    config.storage.resolved_home_workspace = Some("/home/w".into());
    assert!(compose_memory_indexes(Platform::Linux, &config, &Err("link".into()), &Ok(()), &Ok(())).is_err());
    assert!(compose_memory_indexes(Platform::Linux, &config, &Ok(()), &Ok(()), &Err("link".into())).is_err());
    let refused = Err(RuntimeError::Config("Chroma profile".into()));
    assert_eq!(
        compose_memory_indexes(Platform::Linux, &config, &Ok(()), &refused, &Err("link".into()))
            .expect_err("the profiles come before the file")
            .shown(),
        "configuration error: Chroma profile"
    );
    let mut off = template();
    off.memory.index_enabled = false;
    let plan = compose_memory_indexes(Platform::Linux, &off, &Ok(()), &Ok(()), &Ok(())).expect("off");
    assert_eq!(plan.name, "memory.disabled-v1");
    let mut ephemeral = template();
    ephemeral.storage.adapter = StorageAdapter::Ephemeral;
    assert!(matches!(
        compose_memory_indexes(Platform::Linux, &ephemeral, &Ok(()), &Ok(()), &Ok(())).expect("memory").lexical,
        LexicalIndex::InMemory
    ));
    assert_eq!(
        unavailable_projection("/p.json", "locked"),
        "Chroma projection metadata /p.json could not open: locked"
    );
}

#[test]
fn audit_exports_need_an_exact_destination() {
    let mut config = template();
    config.audit.exporter =
        AuditExporterConfig::WormHttp { endpoint: "https://worm.test/log/".into(), credential_reference: None };
    let mut found = findings();
    found.origins.push(reachable("https://worm.test"));
    config.sandbox.network_destinations.push("https://worm.test".into());
    assert!(validate_config(&config, &found, bounds()).is_ok());
    config.audit.exporter =
        AuditExporterConfig::WormHttp { endpoint: "http://worm.test/log/".into(), credential_reference: None };
    assert!(refusal(&config).contains("credential-free trailing-slash HTTPS URL"));
    config.audit.exporter = AuditExporterConfig::WormHttp { endpoint: "::".into(), credential_reference: None };
    assert_eq!(refusal(&config), "configuration error: WORM audit endpoint is invalid");
    let endpoint = format!("{}https://worm.test/log/", "blob:".repeat(20_000));
    config.audit.exporter = AuditExporterConfig::WormHttp { endpoint, credential_reference: None };
    assert_eq!(
        refusal(&config),
        "configuration error: WORM audit endpoint must be a credential-free trailing-slash HTTPS URL"
    );
}

#[test]
fn windows_sandboxes_take_paths_with_drives() {
    let mut sandbox = SandboxConfig::platform_isolating(Platform::Windows);
    sandbox.executables = vec![r"C:\tools\git.exe".into()];
    sandbox.filesystem = vec![FilesystemGrant { root: r"C:\work".into(), mode: "write".into() }];
    assert!(validate_sandbox_grants(Platform::Windows, &sandbox, &Vec::new()).is_ok());
    sandbox.executables = vec![r"tools\git.exe".into()];
    assert_eq!(
        validate_sandbox_grants(Platform::Windows, &sandbox, &Vec::new()).expect_err("relative").shown(),
        "configuration error: sandbox executables and filesystem roots must be absolute"
    );
    assert!(git_named(Platform::Windows, r"C:\tools\git.exe") && git_named(Platform::Windows, r"C:\tools\Git.EXE"));
    assert!(!git_named(Platform::Windows, r"C:\git\tools.exe"));
    let directories = vec![r"C:\work\bin".to_owned(), r"C:\Windows\System32".to_owned()];
    assert_eq!(command_roots(Platform::Windows, &directories, r"C:\work"), [r"C:\Windows\System32"]);
}

#[test]
fn resolved_documents_state_every_limit_once() {
    let mut config = template();
    let own = || Ok("schemaVersion: 3\n".to_owned());
    assert_eq!(
        config.to_resolved_yaml(own(), 20).expect("both are defaults"),
        "schemaVersion: 3\nagent:\n  maxTurns: 20\nsubagents:\n  maxConcurrent: 10\n"
    );
    let read = read_configuration(&config.to_resolved_yaml(own(), 20).expect("resolved")).expect("read back");
    assert_eq!(
        String::from_utf8(read).expect("text"),
        r#"{"agent":{"maxTurns":20},"schemaVersion":3,"subagents":{"maxConcurrent":10}}"#
    );
    assert_eq!(config.written_limits(20).agent, None);
    assert_eq!(config.omitted_limits(20).subagents.map(|limit| limit.max_concurrent), Some(10));
    config.agent.max_turns = 7;
    assert_eq!(
        config.to_resolved_yaml(Ok("a: 1".into()), 20).expect("one is a default"),
        "a: 1\nsubagents:\n  maxConcurrent: 10\n"
    );
    config.subagents.max_concurrent = 2;
    assert_eq!(config.to_resolved_yaml(own(), 20).expect("none is a default"), "schemaVersion: 3\n");
    assert_eq!(config.written_limits(20).agent.map(|limit| limit.max_turns), Some(7));
    assert!(config.to_resolved_yaml(Err(RuntimeError::Config("unreadable".into())), 20).is_err());
}

#[test]
fn documents_have_exactly_one_schema() {
    let document = |schema_version: Option<u64>, legacy: bool| DocumentSummary {
        mapping: true,
        schema_version,
        legacy_tools: legacy,
        legacy_actions: false,
    };
    assert!(validate_document(&document(Some(3), false)).is_ok());
    assert!(validate_document(&document(Some(1), false)).expect_err("1").shown().contains("schemaVersion 1"));
    assert!(validate_document(&document(Some(2), false)).expect_err("2").shown().contains("schemaVersion 2"));
    assert!(validate_document(&document(Some(4), false)).expect_err("4").shown().contains("exactly 3"));
    assert!(validate_document(&document(Some(3), true)).expect_err("legacy").shown().contains("agent.tools"));
    let list = DocumentSummary { mapping: false, schema_version: None, legacy_tools: false, legacy_actions: false };
    assert!(validate_document(&list).expect_err("list").shown().contains("YAML mapping"));
}

fn prepared() -> PreparedPaths {
    PreparedPaths {
        root: Ok("/home/u/.colossus/w".into()),
        state: Ok("/home/u/.colossus/w/state.redb".into()),
        anchor: Ok("/home/u/.colossus/w/anchor".into()),
        index: Ok("/home/u/.colossus/w/state.memory-index".into()),
        position: Ok("/home/u/.colossus/w/position.json".into()),
    }
}

#[test]
fn storage_paths_are_resolved_once() {
    let resolved = template()
        .resolve_storage_paths(Platform::Linux, "/workspace", "/home/u/.colossus/w", &prepared(), &Ok(()))
        .expect("workspace");
    assert_eq!(resolved.storage.path, "/workspace/state.redb");
    let again = resolved
        .resolve_storage_paths(Platform::Linux, "/workspace", "/home/u/.colossus/w", &prepared(), &Ok(()))
        .expect("again");
    assert_eq!(again.storage.path, "/workspace/state.redb");
    let mut home = template();
    home.storage.location = StorageLocation::HomeWorkspace;
    let resolved =
        home.resolve_storage_paths(
            Platform::Linux,
            "/workspace",
            "/home/u/.colossus/w",
            &prepared(),
            &Ok(()),
        ).expect("home");
    assert_eq!(resolved.storage.path, "/home/u/.colossus/w/state.redb");
    assert_eq!(resolved.memory.index_path.as_deref(), Some("/home/u/.colossus/w/state.memory-index"));
    assert!(resolved.has_resolved_home_workspace());
    let check = HomeCheck { identity: Ok(()), root: Ok(()), file: Ok(()) };
    assert_eq!(
        resolved.worker_ipc_auth_path_at(Platform::Linux, "/workspace", &check, &Ok(())).expect("auth"),
        "/home/u/.colossus/w/state.redb.worker-auth"
    );
    let moved = HomeCheck { identity: Ok(()), root: Ok(()), file: Err("moved".into()) };
    assert_eq!(
        resolved.resolved_storage_path_at(Platform::Linux, "/workspace", &moved).expect_err("moved").shown(),
        "configuration error: home-workspace state path is unsafe: moved"
    );
}

#[test]
fn storage_presets_replace_the_keys() {
    let mut config = template();
    config.use_platform_storage();
    assert!(matches!(config.storage.keys, KeyConfig::Platform { .. }));
    config.use_environment_storage("anchor".into());
    assert!(matches!(&config.storage.keys, KeyConfig::Environment { anchor_path, .. } if anchor_path == "anchor"));
    config.use_ephemeral_storage();
    assert_eq!(config.storage.adapter, StorageAdapter::Ephemeral);
    config.use_plaintext_storage();
    assert!(matches!(config.storage.keys, KeyConfig::Plaintext));
    let isolated = config.with_isolated_development_storage("dev.redb".into());
    assert_eq!(isolated.storage.path, "dev.redb");
    assert_eq!(isolated.storage.adapter, StorageAdapter::Redb);
    assert_eq!(with_omitted_limits("a: 1", &Some("b: 2\n".into())), "a: 1\nb: 2\n");
    assert_eq!(with_omitted_limits("a: 1\n", &Some("b: 2\n".into())), "a: 1\nb: 2\n");
    assert_eq!(with_omitted_limits("a: 1", &None), "a: 1");
}

#[test]
fn provider_timeouts_follow_the_endpoint() {
    let profile = |url: &str| ProviderProfileConfig {
        kind: ProviderKind::Network("openai".into()),
        base_url: Some(url.into()),
        credential_reference: None,
        timeout_ms: None,
        generation_timeout_ms: None,
        chat_completions_output_token_parameter: None,
    };
    assert!(profile("http://127.0.0.1:8080/v1").is_loopback());
    assert!(profile("http://localhost/v1").is_loopback());
    assert!(profile("http://[::1]/").is_loopback());
    assert!(!profile("https://api.example.test/v1").is_loopback());
    assert!(!profile("not a url").is_loopback());
    assert!(
        profile("http://localhost/v1").effective_generation_timeout_ms()
            > profile("https://api.example.test/v1").effective_generation_timeout_ms()
    );
}

#[test]
fn destinations_are_matched_by_their_findings() {
    let sandbox = SandboxConfig::platform_isolating(Platform::Linux);
    let list = vec![reachable("https://a.test")];
    assert!(sandbox_allows_network(&sandbox, "https://a.test", &list).expect("known"));
    assert_eq!(configured_resource_authority(&sandbox), ResourceAuthority::Declared);
    let danger = SandboxConfig::default();
    assert_eq!(configured_resource_authority(&danger), ResourceAuthority::Ambient);
    let unlisted = OriginFinding {
        resource: "https://unlisted.test".into(),
        canonical: Ok("https://unlisted.test".into()),
        destination: Ok(None),
    };
    assert!(sandbox_allows_network(&danger, "https://unlisted.test", &vec![unlisted]).expect("ambient"));
    assert_eq!(
        sandbox_allows_network(&danger, "https://unlisted.test", &Vec::new()).expect_err("unresolved").shown(),
        "configuration error: network origin is unresolved"
    );
}

#[test]
fn development_preset_derives_workspace_shell_and_control_state_protection() {
    let mut config = template();
    config.sandbox.profile = "workspace-development".into();
    config.sandbox.backend = "native".into();
    assert_eq!(development_choice(&config, Platform::Linux).expect("choice"), DevelopmentChoice::Derive);

    let host = HostDevelopment {
        shell: Some("/bin/bash".into()),
        command_roots: vec!["/usr/bin".into()],
        runtime_roots: vec!["/usr/lib".into()],
        git: None,
        control: "/workspace/.colossus".into(),
        path: Ok("/usr/bin".into()),
    };
    let derived = derive_development_sandbox(Platform::Linux, "/workspace", &host).expect("development sandbox");
    assert_eq!(derived.shell.as_deref(), Some("/bin/bash"));
    assert!(derived.filesystem.iter().any(|grant| grant.root == "/workspace" && grant.mode == "write"));
    assert_eq!(derived.protected_filesystem, vec!["/workspace/.colossus".to_owned()]);
    assert!(!derived.path.is_empty());
    assert_eq!(
        derived.filesystem.iter().filter(|grant| grant.mode == "write").count(),
        1,
        "only the workspace is writable"
    );
    assert!(no_development_sandbox().shell.is_none());
}

#[test]
fn programs_are_found_in_the_first_directory_that_has_them() {
    let entries = vec!["/usr/bin".to_owned(), "bin".to_owned(), "/opt/bin".to_owned()];
    assert_eq!(searched_directories(Platform::Linux, &entries), ["/usr/bin", "/opt/bin"]);
    assert_eq!(program_candidates(Platform::Linux, &entries, "git"), ["/usr/bin/git", "bin/git", "/opt/bin/git"]);
    assert_eq!(program_candidates(Platform::Windows, &vec![r"C:\bin".into()], "git"), [r"C:\bin\git"]);
    let found = |canonical: Option<&str>, is_file: bool| FoundProgram { canonical: canonical.map(Into::into), is_file };
    let list = vec![found(None, false), found(Some("/dir"), false), found(Some("/a"), true), found(Some("/b"), true)];
    assert_eq!(first_program(&list).as_deref(), Some("/a"));
    assert_eq!(first_program(&Vec::new()), None);
}

#[test]
fn opa_rejects_automatic_development_grants() {
    let mut config = template();
    config.sandbox.profile = "workspace-development".into();
    config.policy = PolicyConfig::Opa {
        base_url: "https://opa.example".into(),
        decision_path: "/v1/data/colossus/allow".into(),
        ca_pem_path: None,
        identity_pem_path: None,
        full_content_disclosure_acknowledged: true,
        decision_log_masking_verified: true,
        timeout_ms: 5_000,
    };
    let error = development_choice(&config, Platform::Linux).expect_err("OPA development grants");
    assert!(error.shown().contains("OPA must return explicit"));
}

#[test]
fn platforms_have_their_roots() {
    assert_eq!(platform_shells(Platform::Linux, &None).expect("linux"), vec!["/bin/bash", "/bin/sh"]);
    assert_eq!(platform_shells(Platform::Macos, &None).expect("macos"), vec!["/bin/zsh", "/bin/sh"]);
    let root = Some("C:\\Windows".to_owned());
    assert_eq!(
        platform_shells(Platform::Windows, &root).expect("windows"),
        vec![
            "C:\\Windows\\System32\\WindowsPowerShell\\v1.0\\powershell.exe",
            "C:\\Windows\\System32\\cmd.exe"
        ]
    );
    assert_eq!(
        platform_shells(Platform::Windows, &None).expect_err("no root").shown(),
        "configuration error: Windows system root is unavailable"
    );
    assert_eq!(
        platform_shells(Platform::Other, &None).expect_err("other").shown(),
        "configuration error: workspace-development has no supported platform shell"
    );
    assert_eq!(platform_command_roots(Platform::Windows, &root), vec!["C:\\Windows\\System32"]);
    assert_eq!(platform_command_roots(Platform::Linux, &None).len(), 4);
    assert_eq!(platform_runtime_roots(Platform::Macos).len(), 3);
    assert!(platform_runtime_roots(Platform::Windows).is_empty());
}

fn registry() -> PluginRegistryProfile {
    PluginRegistryProfile {
        origin: "https://registry.test".into(),
        trust_profile: "default".into(),
        token_origins: vec!["https://token.test".into()],
        blob_redirect_origins: vec!["https://blob.test".into()],
        ca_bundle_path: Some("/etc/ca.pem".into()),
        token_ca_bundle_paths: vec![Entry { key: "https://token.test".into(), value: "/etc/token.pem".into() }],
        blob_redirect_ca_bundle_paths: Vec::new(),
        auth: RegistryAuthConfig::Other,
    }
}

#[test]
fn registries_restrict_their_actions() {
    let list = vec![Entry { key: "main".to_owned(), value: registry() }];
    let mut origins = registry_destinations(&list);
    origins.sort();
    assert_eq!(origins, vec!["https://blob.test", "https://registry.test", "https://token.test"]);
    let files = registry_bundle_files(&list);
    assert!(files.contains(&"/etc/ca.pem".to_owned()) && files.contains(&"/etc/token.pem".to_owned()));
    let restrictions = registry_restrictions("/workspace", &list);
    assert!(!restrictions.is_empty());
    assert!(restrictions.iter().all(|item| item.network_destinations.iter().all(|name| origins.contains(name))));
}

#[test]
fn timeouts_are_only_raised() {
    let mut list = Vec::new();
    raise_timeout(&mut list, "provider.call", 5);
    raise_timeout(&mut list, "provider.call", 3);
    raise_timeout(&mut list, "provider.call", 9);
    assert_eq!((list.len(), list[0].value), (1, 9));
    let timeouts = action_timeouts(
        &template().providers.profiles,
        &vec!["provider.echo".into()],
        TimeoutBounds { cleanup_reserve_ms: 1_000, sandbox_timeout_ms: 30_000, max_sources: 20, max_workers: 4 },
    );
    assert!(timeouts.iter().all(|entry| entry.value > 0));
    let mut names: Vec<&str> = timeouts.iter().map(|entry| entry.key.as_str()).collect();
    names.sort();
    names.dedup();
    assert_eq!(names.len(), timeouts.len(), "no action stands in the list twice");
}

#[test]
fn run_inputs_are_restricted_like_files() {
    let restriction = ActionRestriction {
        action: "filesystem.read".into(),
        filesystem: vec![FilesystemGrant { root: "/plugin".into(), mode: "read".into() }],
        allowed_environment: Vec::new(),
        network_destinations: Vec::new(),
    };
    let list = plugin_restrictions(&vec![restriction], "filesystem.run_input.read");
    assert!(list.iter().any(|item| item.action == "filesystem.read"));
    assert!(list.iter().all(|item| item.filesystem[0].root == "/plugin"));
}

#[test]
fn access_is_prepared_from_the_sandbox() {
    let host = HostAccess {
        ambient_git: false,
        model_network_tools: true,
        agent_search_route: false,
        interactive: true,
        mcp_servers: false,
    };
    let mut config = template();
    config.sandbox.executables.push("/usr/bin/git".into());
    config.sandbox.filesystem.push(FilesystemGrant { root: "/workspace".into(), mode: "write".into() });
    let names = ActionNames {
        known: vec!["filesystem.read".into()],
        integration: vec!["crm.lookup".into(), "filesystem.read".into()],
        plugin: vec!["plugin.mcp.a".into()],
    };
    let prepared = prepare_access(Platform::Linux, &config, &no_development_sandbox(), &names, host);
    assert!(prepared.context.git_executable && prepared.context.any_executable);
    assert!(prepared.context.filesystem_read && prepared.context.filesystem_write);
    assert!(prepared.context.interactive);
    assert!(prepared.actions.iter().any(|action| action.name == "crm.lookup"));
    assert!(git_named(Platform::Linux, "/usr/bin/git"));
    assert!(!git_named(Platform::Linux, "/usr/bin/gitk"));
    let listed = additional_actions(&names.known, &names.integration, &names.plugin);
    assert!(listed.iter().all(|action| action.name != "filesystem.read"));
    assert!(listed.iter().any(|action| action.source == CapabilitySource::Integration));
    let bare = access_context(Platform::Linux, &config.sandbox, &config.plugins, &Vec::new(), &Vec::new(), host);
    assert!(!bare.git_executable);
}

#[test]
fn outcomes_follow_the_decisions() {
    let resolved = |decision: AccessDecision| vec![ResolvedAction { name: "shell.run".into(), decision }];
    let allowed = builtin_outcomes(&resolved(AccessDecision::Allow), "filesystem.run_input.read").expect("allowed");
    assert!(allowed.iter().any(|item| item.name == "shell.run" && item.outcome == DecisionOutcome::Allow));
    let denied = builtin_outcomes(&resolved(AccessDecision::Deny), "filesystem.run_input.read").expect("denied");
    assert!(denied.iter().any(|item| item.outcome == DecisionOutcome::Deny));
    assert!(builtin_outcomes(&resolved(AccessDecision::ExternalPolicy), "filesystem.run_input.read").is_err());
}

#[test]
fn research_deadlines_contain_their_effects() {
    assert_eq!(research_run_timeout_ms(1_000, 30_000, 20, 4), 1_000 * 22 + 30_000 * 4 + 30_000);
    assert_eq!(research_run_timeout_ms(u64::MAX, 1, 1, 1), u64::MAX);
}

#[test]
fn startup_is_reported_by_phase() {
    assert_eq!(startup_status(true), ("OK", None));
    assert_eq!(startup_status(false), ("ERROR", Some("_OTHER")));
    assert!(runs_phase(StartupPhase::StorageOpen, true));
    let labels = startup_phase_labels(StartupPhase::ProjectionCatchUp);
    assert!(!labels.0.is_empty() && !labels.1.is_empty());
    assert!(require_projections_ready(&vec![true, true]).is_ok());
    assert!(matches!(
        require_projections_ready(&vec![true, false]),
        Err(RuntimeError::Store(StoreError::Adapter(text)))
            if text == "startup projections did not catch up within the configured bound"
    ));
    assert!(require_workspace_directory("/w", true).is_ok());
    assert_eq!(
        require_workspace_directory("/w", false).expect_err("file").shown(),
        "configuration error: workspace is not a directory: /w"
    );
    assert!(matches!(home_authority(Platform::Linux, &None, &None), Ok(HomeAuthority::Absent)));
}

#[test]
fn a_home_and_its_bound_root_are_the_same_path() {
    let authority = |home: &str, root: Option<&str>| {
        home_authority(Platform::Linux, &Some(home.into()), &root.map(String::from))
    };
    assert!(matches!(authority("/h", Some("/h")), Ok(HomeAuthority::Revalidate)));
    assert!(matches!(authority("/h/", Some("/h")), Ok(HomeAuthority::Revalidate)));
    assert!(matches!(authority("/h/./x", Some("/h//x")), Ok(HomeAuthority::Revalidate)));
    for root in [Some("/g"), None] {
        assert_eq!(
            authority("/h", root).expect_err("inconsistent").shown(),
            "configuration error: the explicit Colossus home authority is inconsistent"
        );
    }
}

fn oauth_server() -> McpServerConfig {
    McpServerConfig {
        transport: McpTransportKind::StreamableHttp,
        command: String::new(),
        args: Vec::new(),
        working_directory: None,
        environment: Vec::new(),
        literal_environment: Vec::new(),
        url: Some("https://mcp.test".into()),
        headers: Vec::new(),
        credential_headers: Vec::new(),
        allow_stateless: false,
        oauth: Some(McpOAuthConfig { definition: "{}".into() }),
        allowed_tools: vec!["*".into()],
        research_tools: Vec::new(),
        timeout_ms: None,
        max_output_bytes: None,
        effect_action_prefix: None,
        provenance: None,
    }
}

#[test]
fn oauth_credentials_follow_the_state() {
    let servers = || vec![Entry { key: "m".to_owned(), value: oauth_server() }];
    let auto = McpConfig { servers: servers(), oauth_credential_store: McpOAuthCredentialStoreKind::Auto };
    assert!(matches!(
        oauth_store(Platform::Linux, &auto, StorageAdapter::Redb, &KeyConfig::Plaintext, "/s/state.redb"),
        Ok(OAuthStore::Plaintext { path }) if path == "/s/state.mcp-oauth.redb"
    ));
    assert!(matches!(
        oauth_store(Platform::Linux, &auto, StorageAdapter::Ephemeral, &KeyConfig::Plaintext, "/s/state.redb"),
        Ok(OAuthStore::Ephemeral)
    ));
    let encrypted =
        McpConfig { servers: servers(), oauth_credential_store: McpOAuthCredentialStoreKind::EncryptedState };
    assert!(oauth_store(
        Platform::Linux,
        &encrypted,
        StorageAdapter::Redb,
        &KeyConfig::Plaintext,
        "/s/state.redb",
    ).is_err());
    let unused =
        McpConfig { servers: Vec::new(), oauth_credential_store: McpOAuthCredentialStoreKind::EncryptedState };
    assert!(matches!(
        oauth_store(Platform::Linux, &unused, StorageAdapter::Redb, &KeyConfig::Plaintext, "/s/state.redb"),
        Ok(OAuthStore::Unused)
    ));
}

#[test]
fn boundaries_are_acknowledged() {
    let (mode, acknowledged) = boundary_acknowledgement(&SandboxConfig::default());
    assert_eq!((mode, acknowledged), (Some(SandboxBoundaryMode::DangerFullAccess), true));
    let (mode, _) = boundary_acknowledgement(&SandboxConfig::platform_isolating(Platform::Linux));
    assert_eq!(mode, None);
}

#[test]
fn packs_are_reverified_and_tools_filtered() {
    let evidence = |digest: &str| PackEvidence { manifest_sha256: digest.into(), trust_key_id: None };
    assert!(require_reverified("p", &evidence("a"), &evidence("a")).is_ok());
    assert_eq!(
        require_reverified("p", &evidence("a"), &evidence("b")).expect_err("changed").shown(),
        "configuration error: enabled pack p failed canonical re-verification"
    );
    assert_eq!(active_tools(&vec!["a".into(), "b".into()], &vec!["b".into(), "c".into()]), vec!["b".to_owned()]);
    let roots = configured_skill_roots(Platform::Linux, "/workspace", "/bundled", "skills", "/home/skills");
    assert!(roots.iter().any(|root| root.path == "/workspace/skills"));
}

#[test]
fn unconfirmed_outcomes_are_reported() {
    assert!(RuntimeError::Store(StoreError::OutcomeUnknown("x".into())).outcome_unknown());
    assert!(RuntimeError::SearchPort(SearchError::OutcomeUnknown("x".into())).outcome_unknown());
    assert!(!RuntimeError::Config("x".into()).outcome_unknown());
    assert!(RuntimeError::Config("x".into()).provider_response_diagnostic().is_none());
}

fn policy_findings(config: &RuntimeConfig) -> PolicyFindings {
    PolicyFindings {
        actions: vec![
            ResolvedAction { name: "filesystem.read".into(), decision: AccessDecision::RequireApproval },
            ResolvedAction { name: "shell.run".into(), decision: AccessDecision::Deny },
        ],
        workflow_roots: vec![None, Some("/home/u/workflows".into())],
        roots: config.sandbox.filesystem.iter().map(|grant| Ok(grant.root.clone())).collect(),
        executables: config.sandbox.executables.iter().map(|path| Ok(format!("/real{path}"))).collect(),
        restrictions: Vec::new(),
        provider_actions: vec!["provider.echo".into()],
    }
}

fn policy_bounds() -> PolicyBounds {
    PolicyBounds {
        run_input_action: "filesystem.run_input.read".into(),
        run_input_bytes: 16_777_216,
        cleanup_reserve_ms: 1_000,
    }
}

#[test]
fn built_in_policy_is_put_together() {
    let mut config = template();
    config.sandbox.filesystem.push(FilesystemGrant { root: "/data".into(), mode: "read".into() });
    config.sandbox.executables.push("/usr/bin/git".into());
    config.sandbox.environment.push("LANG".into());
    let policy = compose_builtin_policy(
        &config,
        true,
        "/workspace",
        &no_development_sandbox(),
        &policy_findings(&config),
        &policy_bounds(),
    )
    .expect("policy");
    assert!(policy.require_post_effect);
    assert_eq!(policy.authority, ResourceAuthority::Declared);
    let outcomes: Vec<(&str, DecisionOutcome)> =
        policy.outcomes.iter().map(|item| (item.name.as_str(), item.outcome)).collect();
    assert_eq!(
        outcomes,
        [
            ("filesystem.read", DecisionOutcome::RequireApproval),
            ("filesystem.run_input.read", DecisionOutcome::RequireApproval),
            ("shell.run", DecisionOutcome::Deny),
        ]
    );
    assert_eq!(policy.read_roots, ["/home/u/workflows"]);
    assert_eq!(policy.roots[0].root, "/data");
    assert_eq!((policy.roots[1].root.as_str(), policy.roots[1].mode.as_str()), ("/real/usr/bin/git", "execute"));
    let restricted: Vec<&str> = policy.restrictions.iter().map(|item| item.action.as_str()).collect();
    assert_eq!(restricted, ["plugin.pull", "plugin.push", "plugin.registry.credential_helper"]);
    assert!(policy.development.is_none());
    assert!(policy.timeouts.iter().any(|entry| entry.key == "research.run"));
}

#[test]
fn built_in_policy_needs_its_own_decisions_and_its_roots() {
    let mut config = template();
    config.sandbox.filesystem.push(FilesystemGrant { root: "/data".into(), mode: "read".into() });
    let compose = |found: &PolicyFindings| {
        compose_builtin_policy(&config, false, "/workspace", &no_development_sandbox(), found, &policy_bounds())
    };
    let mut found = policy_findings(&config);
    found.roots = vec![Err("gone".into())];
    assert!(matches!(compose(&found), Err(RuntimeError::Io(text)) if text == "gone"));
    found.actions[1].decision = AccessDecision::ExternalPolicy;
    assert_eq!(
        compose(&found).expect_err("external").shown(),
        "configuration error: built-in policy received an external access decision"
    );
}

#[test]
fn labels_are_stable() {
    assert_eq!(storage_adapter_label(StorageAdapter::Redb), "redb");
    assert_eq!(storage_adapter_label(StorageAdapter::Ephemeral), "ephemeral");
    assert_eq!(storage_adapter_label(StorageAdapter::Postgres), "postgresql");
    assert_eq!(startup_verification_label(StartupVerificationMode::Incremental), "incremental");
    assert_eq!(startup_verification_label(StartupVerificationMode::Full), "full");
    assert_eq!(KeyConfig::Plaintext.protection_label(), "plaintext");
    let mut config = template();
    config.use_platform_storage();
    assert_eq!(config.storage.keys.protection_label(), "encrypted");
}

#[test]
fn profiles_are_set_by_name() {
    let mut config = template();
    config.set_access_profile("strict".into());
    config.set_sandbox_profile("workspace-development".into());
    assert_eq!(config.access.profile, "strict");
    assert_eq!(config.sandbox.profile, "workspace-development");
    config.sandbox = SandboxConfig::default();
    assert_eq!(globally_acknowledged_resource_authority(&config.sandbox), ResourceAuthority::Ambient);
    config.sandbox.acknowledge_danger_full_access = false;
    assert_eq!(globally_acknowledged_resource_authority(&config.sandbox), ResourceAuthority::Declared);
    config.use_platform_isolating_sandbox("isolated".into(), Platform::Windows);
    assert_eq!((config.sandbox.backend.as_str(), config.sandbox.profile.as_str()), ("windows_job", "isolated"));
    assert!(!config.sandbox.acknowledge_danger_full_access);
}

#[test]
fn home_storage_asks_for_its_paths() {
    let mut config = template();
    config.storage.location = StorageLocation::HomeWorkspace;
    let requests = path_requests(Platform::Linux, &config);
    assert_eq!(requests.state.as_deref(), Some("state.redb"));
    assert!(requests.anchor.is_none());
}
