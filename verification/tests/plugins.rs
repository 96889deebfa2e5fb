use colossus_runtime::access::DecisionOutcome;
use colossus_runtime::config::{
    FilesystemGrant, McpConfig, McpOAuthCredentialStoreKind, McpProvenance, Platform, PluginMcpServerConfig,
    PluginRegistryProfile, PluginTrustProfile, PluginsConfig, RegistryAuthConfig, ResourceAuthority, SandboxConfig,
    TrustIdentity,
};
use colossus_runtime::effects::ExecutionError;
use colossus_runtime::entries::{is_same_map, Entry};
use colossus_runtime::error::RuntimeError;
use colossus_runtime::operations::PluginRegistryOperation;
use colossus_runtime::origins::{DestinationMatch, OriginFinding};
use colossus_runtime::plugin_catalog::{
    capture_source, digests, plugin_diagnostics, require_mcp_snapshot, restore_source, skill_roots,
    CatalogSource,
};
use colossus_runtime::plugin_extensions::{
    compile_active_plugin_extensions, validation_context, ActivePluginExtensions, CompiledPluginServer,
    PluginMcpTransport, PluginRecord, PluginServer,
};
use colossus_runtime::plugin_inventory::{
    accept_inventory_request, narrow_plugin_inventory, InventoryDiagnostic, InventoryServer, PluginInventoryEntry,
};
use colossus_runtime::plugin_management::{
    accept_management_request, enforce_management_path, manage_plugin, management_paths, plan_local, select_skill,
    Installation, InstalledTrust, LocalFindings, LocalWork, ManagementRoute, PathLookup, Permit, PluginInstallSource,
    PluginManagementRequest, SkillPart,
};
use colossus_runtime::plugin_policy::{
    decide, operator_request, Decision, OperatorRequest, PathFinding, SelectedPath,
};
use colossus_runtime::plugin_settings::{is_qualified_identity, validate_plugins_config};
use colossus_runtime::policy_plan::ActionRestriction;
use colossus_runtime::registry_effects::{
    accept_helper_result, accept_registry_request, enforce_bundle_files, enforce_docker_config,
    enforce_registry_filesystem, enforce_registry_network, transfer_places, CaFile, CredentialVault, ResolvedGrant,
};
use colossus_runtime::resolved::ResolvedPath;

fn trust() -> PluginTrustProfile {
    PluginTrustProfile {
        public_keys: vec!["/trust/key.pem".into()],
        trust_root_path: Some("/trust/trust-root.json".into()),
        identities: vec![TrustIdentity { issuer: "issuer".into(), subject: "subject".into() }],
    }
}

fn settings() -> PluginsConfig {
    PluginsConfig::with_default_trust(trust())
}

fn overlay(enabled: bool) -> PluginMcpServerConfig {
    PluginMcpServerConfig {
        enabled,
        environment: Vec::new(),
        credential_headers: Vec::new(),
        oauth: None,
        allowed_tools: vec!["inspect".into()],
        research_tools: Vec::new(),
        allow_stateless: false,
        timeout_ms: None,
        max_output_bytes: None,
    }
}

fn remote() -> PluginServer {
    PluginServer {
        id: "dev.example.tools/remote".into(),
        name: "remote".into(),
        transport: PluginMcpTransport::StreamableHttp,
        command: None,
        args: Vec::new(),
        environment: Vec::new(),
        working_directory: None,
        url: Some("https://mcp.example.test/v1".into()),
        headers: Vec::new(),
        action_prefix: "plugin.mcp.remote".into(),
        origin: Some("https://mcp.example.test".into()),
        paths: Vec::new(),
        validation: Ok(()),
    }
}

fn plugin(server: PluginServer) -> PluginRecord {
    PluginRecord {
        name: "dev.example.tools".into(),
        digest: "sha256:aa".into(),
        trust: "verified".into(),
        root: "/plugins/tools".into(),
        canonical_root: Ok("/plugins/tools".into()),
        data: Some(Ok("/plugins/data".into())),
        skills: vec!["dev.example.tools/use".into()],
        mcp_servers: vec![server],
    }
}

fn compile(server: PluginServer, config: &PluginsConfig, sandbox: &SandboxConfig) -> ActivePluginExtensions {
    let standalone = McpConfig { servers: Vec::new(), oauth_credential_store: McpOAuthCredentialStoreKind::Auto };
    let prefixes =
        vec![Entry { key: "dev.example.tools/remote".to_owned(), value: "plugin.mcp.remote".to_owned() }];
    compile_active_plugin_extensions(Platform::Linux, &vec![plugin(server)], config, standalone, sandbox, &prefixes)
}

fn enabled_settings() -> PluginsConfig {
    let mut config = settings();
    config.mcp_servers.push(Entry { key: "dev.example.tools/remote".into(), value: overlay(true) });
    config
}

#[test]
fn plugin_mcp_servers_require_an_explicit_enabled_overlay() {
    let sandbox = SandboxConfig::default();
    let disabled = compile(remote(), &settings(), &sandbox);
    assert!(!disabled.mcp.servers.iter().any(|entry| entry.key == "dev.example.tools/remote"));

    let enabled = compile(remote(), &enabled_settings(), &sandbox);
    let server = &enabled
        .mcp
        .servers
        .iter()
        .find(|entry| entry.key == "dev.example.tools/remote")
        .expect("explicitly enabled server")
        .value;
    assert_eq!(server.allowed_tools, ["inspect"]);
    assert!(server.literal_environment.is_empty(), "HTTP does not receive process environment variables");
    assert!(server.provenance.is_some());
    assert!(enabled.diagnostics.is_empty());
    assert!(matches!(&server.provenance, Some(McpProvenance::Plugin { plugin, .. }) if plugin == "dev.example.tools"));
    assert_eq!(enabled.actions, ["plugin.mcp.remote.tools", "plugin.mcp.remote.call"]);
    assert_eq!(enabled.restrictions[1].network_destinations, ["https://mcp.example.test"]);
    assert_eq!(enabled.skill_roots[0].value, "/plugins/tools");
}

#[test]
fn plugin_processes_stay_within_their_plugin() {
    let local = |command: &str, canonical: &str| {
        let mut server = remote();
        server.transport = PluginMcpTransport::Stdio;
        server.command = Some(command.into());
        server.args = vec!["--root=${PLUGIN_ROOT}".into()];
        server.environment = vec![Entry { key: "HOME".into(), value: "${PLUGIN_DATA}/home".into() }];
        server.paths = vec![
            ResolvedPath { path: "/plugins/tools/bin/run".into(), canonical: Ok(canonical.into()), regular: true },
            ResolvedPath { path: canonical.into(), canonical: Ok(canonical.into()), regular: true },
        ];
        server
    };
    let sandbox = SandboxConfig::platform_isolating(Platform::Linux);
    let inside = compile(local("./bin/run", "/plugins/tools/bin/run"), &enabled_settings(), &sandbox);
    assert!(inside.diagnostics.is_empty());
    let server = &inside.mcp.servers[0].value;
    assert_eq!(server.command, "/plugins/tools/bin/run");
    assert_eq!(server.args, ["--root=/plugins/tools"]);
    assert_eq!(server.working_directory.as_deref(), Some("/plugins/tools"));
    assert_eq!(server.literal_environment[0].value, "/plugins/data/home");
    assert_eq!(inside.executables, ["/plugins/tools/bin/run"]);
    let outside = compile(local("./bin/run", "/elsewhere/run"), &enabled_settings(), &sandbox);
    assert!(outside.mcp.servers.is_empty());
    assert_eq!(outside.diagnostics[0].code, "mcp_configuration_unavailable");
    assert!(outside.diagnostics[0].detail.contains("escapes its immutable root"));
    let unlisted = compile(local("node", "/usr/bin/node"), &enabled_settings(), &sandbox);
    assert!(unlisted.diagnostics[0].detail.contains("requires the exact sandbox executable node"));
    assert_eq!(plugin_diagnostics(&unlisted.diagnostics, "dev.example.tools").len(), 1);
    assert!(plugin_diagnostics(&unlisted.diagnostics, "other").is_empty());
}

#[test]
fn events_streams_are_never_servers() {
    let mut server = remote();
    server.transport = PluginMcpTransport::Sse;
    let compiled = compile(server, &enabled_settings(), &SandboxConfig::default());
    assert!(compiled.mcp.servers.is_empty() && compiled.diagnostics.is_empty());
}

fn inventory() -> Vec<PluginInventoryEntry> {
    vec![PluginInventoryEntry {
        name: "colossus".into(),
        digest: "sha256:aa".into(),
        globally_enabled: true,
        available: true,
        unavailable_reason: None,
        diagnostics: Vec::new(),
        mcp_servers: vec![InventoryServer {
            id: "colossus/remote".into(),
            name: "remote".into(),
            enabled: false,
            status: String::new(),
        }],
    }]
}

#[test]
fn workspace_exclusions_do_not_mutate_global_core_enablement() {
    let included = narrow_plugin_inventory(inventory(), &settings());
    assert_eq!(included.iter().filter(|entry| entry.available).count(), 1);
    let mut config = settings();
    config.exclude.push("colossus".into());
    let excluded = narrow_plugin_inventory(inventory(), &config);
    assert!(excluded.iter().all(|entry| !entry.available));
    assert!(excluded[0].globally_enabled);
    assert!(!excluded[0].available);
    assert!(excluded[0].unavailable_reason.is_some());
    assert_eq!(excluded[0].unavailable_reason.as_deref(), Some("Plugin is excluded by this workspace"));
}

#[test]
fn a_workspace_only_narrows_the_inventory() {
    let mut config = settings();
    config.include_names.push("other".into());
    let seen = narrow_plugin_inventory(inventory(), &config);
    assert_eq!(seen[0].unavailable_reason.as_deref(), Some("Plugin is not included by this workspace"));
    config.enabled = false;
    let seen = narrow_plugin_inventory(inventory(), &config);
    assert_eq!(seen[0].unavailable_reason.as_deref(), Some("All plugins are disabled for this workspace"));
    let mut gone = inventory();
    gone[0].available = false;
    gone[0].unavailable_reason = Some("content is missing".into());
    let seen = narrow_plugin_inventory(gone, &settings());
    assert!(!seen[0].available);
    assert_eq!(seen[0].unavailable_reason.as_deref(), Some("content is missing"));
}

#[test]
fn inventory_servers_state_what_they_need() {
    let status = |config: &PluginsConfig, list: Vec<PluginInventoryEntry>| {
        narrow_plugin_inventory(list, config)[0].mcp_servers[0].status.clone()
    };
    assert_eq!(status(&settings(), inventory()), "Requires explicit runtime enablement");
    let mut config = settings();
    config.mcp_servers.push(Entry { key: "colossus/remote".into(), value: overlay(true) });
    assert_eq!(status(&config, inventory()), "Configured");
    let mut failed = inventory();
    failed[0].diagnostics.push(InventoryDiagnostic { about_server: true, name: Some("remote".into()) });
    assert_eq!(status(&config, failed), "Invalid component configuration; see diagnostics");
    config.exclude.push("colossus".into());
    assert_eq!(status(&config, inventory()), "Plugin unavailable in this workspace");
    let accepted = |content: &str| accept_inventory_request("a", "r", "a", "r", content.as_bytes());
    assert!(accepted(r#"{"operation":"list","include_disabled":true}"#).is_ok());
    assert!(accepted(r#"{"include_disabled": true, "operation": "list"}"#).is_ok());
    for content in [
        r#"{"operation":"list","include_disabled":false}"#,
        r#"{"operation":"show","include_disabled":true}"#,
        r#"{"operation":"list","include_disabled":true,"more":1}"#,
        r#"{"operation":"list"}"#,
        r#"["operation","include_disabled"]"#,
        "{",
    ] {
        assert!(accepted(content).is_err());
    }
    let content = br#"{"operation":"list","include_disabled":true}"#;
    assert!(accept_inventory_request("b", "r", "a", "r", content).is_err());
    assert!(accept_inventory_request("a", "s", "a", "r", content).is_err());
}

fn canonical(origin: &str, allowed: bool) -> OriginFinding {
    OriginFinding {
        resource: origin.into(),
        canonical: Ok(origin.into()),
        destination: Ok(if allowed { Some(DestinationMatch::Exact) } else { None }),
    }
}

fn registry() -> PluginRegistryProfile {
    PluginRegistryProfile {
        origin: "https://registry.test".into(),
        trust_profile: "default".into(),
        token_origins: vec!["https://token.test".into()],
        blob_redirect_origins: Vec::new(),
        ca_bundle_path: Some("/etc/ca.pem".into()),
        token_ca_bundle_paths: Vec::new(),
        blob_redirect_ca_bundle_paths: Vec::new(),
        auth: RegistryAuthConfig::Docker {
            config_path: Some("/root/docker.json".into()),
            helper_executables: Vec::new(),
        },
    }
}

fn origins() -> Vec<OriginFinding> {
    vec![canonical("https://registry.test", true), canonical("https://token.test", true)]
}

#[test]
fn plugin_settings_are_validated_in_order() {
    let refusal = |config: &PluginsConfig| {
        validate_plugins_config(Platform::Linux, config, &origins()).expect_err("a refusal is expected").shown()
    };
    assert!(validate_plugins_config(Platform::Linux, &settings(), &Vec::new()).is_ok());
    let with = |registry: PluginRegistryProfile| {
        let mut config = settings();
        config.registries.push(Entry { key: "main".into(), value: registry });
        config
    };
    assert!(validate_plugins_config(Platform::Linux, &with(registry()), &origins()).is_ok());

    let mut config = settings();
    config.exclude = vec!["a".into(), "a".into()];
    assert!(refusal(&config).contains("unique valid plugin names"));
    let mut config = settings();
    config.exclude = vec!["a".into()];
    config.include_names = vec!["a".into()];
    assert!(refusal(&config).contains("both plugins.include and plugins.exclude"));
    let mut config = settings();
    config.trust_profiles.clear();
    assert!(refusal(&config).contains("at least one valid named profile"));
    let mut config = settings();
    config.trust_profiles[0].value.public_keys.push("key.pem".into());
    assert_eq!(
        refusal(&config),
        "configuration error: plugins.trustProfiles.default requires absolute trust-root paths and non-empty identities"
    );
    let mut wrong = registry();
    wrong.trust_profile = "missing".into();
    assert!(refusal(&with(wrong)).contains("requires a canonical exact origin and existing trust profile"));
    let mut wrong = registry();
    wrong.blob_redirect_origins.push("https://unknown.test".into());
    assert!(refusal(&with(wrong)).contains("contains a non-canonical permitted origin"));
    let mut wrong = registry();
    wrong.ca_bundle_path = Some("ca.pem".into());
    assert!(refusal(&with(wrong)).contains("CA paths must be absolute and keyed by permitted exact origins"));
    let mut wrong = registry();
    wrong.auth =
        RegistryAuthConfig::Docker { config_path: Some("docker.json".into()), helper_executables: Vec::new() };
    assert!(refusal(&with(wrong)).contains("Docker config and helper paths must be absolute"));
    let mut config = settings();
    config.mcp_servers.push(Entry { key: "unqualified".into(), value: overlay(true) });
    assert!(refusal(&config).contains("must be a qualified <plugin>/<server> identity"));
    let mut config = settings();
    config.mcp_servers.push(Entry { key: "a/b".into(), value: overlay(true) });
    config.mcp_servers[0].value.allowed_tools.clear();
    assert!(refusal(&config).contains("requires an explicit allowedTools list"));
    let mut config = settings();
    config.mcp_servers.push(Entry { key: "a/b".into(), value: overlay(true) });
    config.mcp_servers[0].value.environment.push(Entry { key: "PLUGIN_ROOT".into(), value: "env:X".into() });
    assert!(refusal(&config).contains("contains an invalid or reserved variable"));
    assert!(is_qualified_identity("a/b") && !is_qualified_identity("a/b/c") && !is_qualified_identity("a/"));
}

fn permit(grants: Vec<FilesystemGrant>) -> Permit {
    Permit { authority: ResourceAuthority::Declared, filesystem: grants, network_destinations: Vec::new() }
}

fn grant(root: &str, mode: &str) -> FilesystemGrant {
    FilesystemGrant { root: root.into(), mode: mode.into() }
}

fn found(path: &str) -> PathLookup {
    PathLookup { exists: true, canonical: Ok(path.into()) }
}

#[test]
fn plugin_trust_files_are_checked_for_install_verify_and_installed_verification() {
    let verify = PluginManagementRequest::Verify {
        path: "/layout".into(),
        digest: None,
        trust_profile: "default".into(),
    };
    let install = PluginManagementRequest::Install {
        source: PluginInstallSource::Directory { path: "/plugin".into() },
        trust_profile: "default".into(),
    };
    let installed = PluginManagementRequest::VerifyInstalled { name: "example".into(), digest: "sha256:aa".into() };
    let bound = Some(InstalledTrust { bundled: false, profile: None });
    for (operation, first) in [(&verify, Some("/layout")), (&install, Some("/plugin")), (&installed, None)] {
        let paths = management_paths(operation, &settings(), &bound);
        let names: Vec<&str> = paths.iter().map(|item| item.path.as_str()).collect();
        let mut expected: Vec<&str> = first.into_iter().collect();
        expected.extend(["/trust/key.pem", "/trust/trust-root.json"]);
        assert_eq!(names, expected);
        let only_artifact = permit(vec![grant("/layout", "read"), grant("/plugin", "read")]);
        let refused = paths
            .iter()
            .map(|item| enforce_management_path(
                Platform::Linux,
                &item.path,
                item.write,
                &found(&item.path),
                &only_artifact,
            ))
            .find(|result| result.is_err())
            .expect("all trust files need grants");
        assert!(matches!(
            refused,
            Err(ExecutionError::Failed(text)) if text == "plugin path is outside the permit's authorized filesystem roots"
        ));
        let all = permit(vec![grant("/layout", "read"), grant("/plugin", "read"), grant("/trust", "read")]);
        assert!(paths
            .iter()
            .all(|item| enforce_management_path(
                Platform::Linux,
                &item.path,
                item.write,
                &found(&item.path),
                &all,
            ).is_ok()));
    }
    let bundled = Some(InstalledTrust { bundled: true, profile: None });
    assert!(management_paths(&installed, &settings(), &bundled).is_empty());
}

#[test]
fn every_trust_file_needs_a_grant_of_its_own() {
    let verify = PluginManagementRequest::Verify {
        path: "/workspace/layout".into(),
        digest: Some("sha256:aa".into()),
        trust_profile: "default".into(),
    };
    let install = PluginManagementRequest::Install {
        source: PluginInstallSource::Layout { path: "/workspace/layout".into(), digest: Some("sha256:aa".into()) },
        trust_profile: "default".into(),
    };
    let installed = PluginManagementRequest::VerifyInstalled { name: "example".into(), digest: "sha256:aa".into() };
    let bound = Some(InstalledTrust { bundled: false, profile: None });
    let outcome = |operation: &PluginManagementRequest, files: &[&str]| {
        let mut grants = vec![grant("/workspace", "read")];
        grants.extend(files.iter().map(|file| grant(file, "read")));
        let permit = permit(grants);
        management_paths(operation, &settings(), &bound)
            .iter()
            .map(|item| enforce_management_path(Platform::Linux, &item.path, item.write, &found(&item.path), &permit))
            .find(|result| result.is_err())
    };
    let (key, trust_root) = ("/trust/key.pem", "/trust/trust-root.json");
    for operation in [&verify, &install, &installed] {
        for files in [&[][..], &[key][..], &[trust_root][..]] {
            assert!(
                matches!(
                    outcome(operation, files),
                    Some(Err(ExecutionError::Failed(text)))
                        if text.contains("outside the permit's authorized filesystem roots")
                ),
                "all trust files need grants"
            );
        }
        assert!(outcome(operation, &[key, trust_root]).is_none(), "authorized");
    }
}

#[test]
fn operator_requests_are_found_behind_their_effects() {
    let verify = Some(PluginManagementRequest::Verify {
        path: "/layout".into(),
        digest: None,
        trust_profile: "default".into(),
    });
    let seen = || {
        vec![
            PathFinding { exists: true, canonical: Some("/private/layout".into()) },
            PathFinding { exists: false, canonical: Some("/private/trust".into()) },
        ]
    };
    let ask = |operation: &Option<PluginManagementRequest>, action: &str, by_user: bool, before: bool| {
        operator_request(
            Platform::Linux,
            action,
            "/layout",
            by_user,
            before,
            operation,
            "plugin.verify",
            "/layout",
            &settings(),
            &None,
            &seen(),
        )
    };
    let request = ask(&verify, "plugin.verify", true, true).expect("the operator's request");
    assert!(!request.enables_untrusted);
    let paths: Vec<(Option<&str>, bool)> =
        request.paths.iter().map(|path| (path.canonical.as_deref(), path.write)).collect();
    assert_eq!(
        paths,
        [(Some("/private/layout"), false), (Some("/private/trust/key.pem"), false), (None, false)]
    );
    assert!(ask(&verify, "plugin.install", true, true).is_none());
    assert!(ask(&verify, "plugin.verify", false, true).is_none());
    assert!(ask(&verify, "plugin.verify", true, false).is_none());
    assert!(ask(&None, "plugin.verify", true, true).is_none());
    for allow_untrusted in [true, false] {
        let enable = Some(PluginManagementRequest::Enable {
            name: "example".into(),
            digest: "sha256:aa".into(),
            allow_untrusted,
        });
        let request = ask(&enable, "plugin.verify", true, true).expect("a matching effect");
        assert_eq!((request.enables_untrusted, request.paths.len()), (allow_untrusted, 0));
    }
}

#[test]
fn layouts_are_verified_before_their_trust() {
    let mut broken = local(false, false);
    broken.layout = Err("layout is broken".into());
    let verify = |profile: &str| PluginManagementRequest::Verify {
        path: "/p".into(),
        digest: None,
        trust_profile: profile.into(),
    };
    assert_eq!(failure(plan_local(verify("missing"), &settings(), &broken)), "layout is broken");
    assert_eq!(failure(plan_local(verify("default"), &settings(), &broken)), "layout is broken");
    broken.installations[0].trust_profile = Some("missing".into());
    let installed = PluginManagementRequest::VerifyInstalled { name: "example".into(), digest: "sha256:aa".into() };
    assert_eq!(failure(plan_local(installed, &settings(), &broken)), "layout is broken");
}

#[test]
fn servers_are_validated_against_the_sandbox_and_what_they_add() {
    let mut sandbox = SandboxConfig::default();
    sandbox.backend = "native".into();
    sandbox.executables = vec!["/bin/a".into()];
    sandbox.filesystem = vec![grant("/work", "read")];
    let candidate = CompiledPluginServer {
        server: None,
        executables: vec!["/bin/b".into()],
        filesystem: vec![grant("/plugin", "read")],
        restrictions: Vec::new(),
    };
    let context = validation_context(&sandbox, &candidate);
    assert_eq!(context.sandbox_executables, ["/bin/a", "/bin/b"]);
    let roots: Vec<&str> = context.sandbox_filesystem.iter().map(|item| item.root.as_str()).collect();
    assert_eq!(roots, ["/work", "/plugin"]);
    assert_eq!(context.sandbox_timeout_ms, sandbox.timeout_ms);
    assert_eq!(context.resource_authority, ResourceAuthority::Declared);
}

#[test]
fn management_paths_are_absolute_and_written_below_their_parent() {
    let inside = permit(vec![grant("/out", "write")]);
    let missing = PathLookup { exists: false, canonical: Ok("/out".into()) };
    assert!(enforce_management_path(Platform::Linux, "/out/new", true, &missing, &inside).is_ok());
    let elsewhere = PathLookup { exists: false, canonical: Ok("/private".into()) };
    assert!(enforce_management_path(Platform::Linux, "/out/new", true, &elsewhere, &inside).is_err());
    assert!(enforce_management_path(Platform::Linux, "out/new", true, &missing, &inside).is_err());
    assert!(enforce_management_path(Platform::Linux, "/out/../new", true, &missing, &inside).is_err());
    let mut ambient = permit(Vec::new());
    ambient.authority = ResourceAuthority::Ambient;
    assert!(enforce_management_path(Platform::Linux, "/out/new", true, &missing, &ambient).is_ok());
    let read_only = permit(vec![grant("/out", "read")]);
    assert!(enforce_management_path(Platform::Linux, "/out/new", true, &missing, &read_only).is_err());
}

fn decision(outcome: DecisionOutcome) -> Decision {
    Decision {
        outcome,
        reason: "policy".into(),
        authority: ResourceAuthority::Declared,
        filesystem: vec![grant("/artifact", "read")],
        allowed_environment: Vec::new(),
        network_destinations: Vec::new(),
    }
}

#[test]
fn plugin_builtin_policy_requires_approval_for_exact_outside_trust_paths() {
    let request = || {
        Some(OperatorRequest {
            enables_untrusted: false,
            paths: vec![
                SelectedPath { canonical: Some("/artifact".into()), write: false },
                SelectedPath { canonical: Some("/trust/key.pem".into()), write: false },
            ],
        })
    };
    let ask = |approved: bool| {
        decide(
            Platform::Linux,
            decision(DecisionOutcome::Allow),
            "plugin.verify",
            &request(),
            approved,
            &Vec::new(),
            &None,
            &Vec::new(),
            true,
        )
    };
    let pending = ask(false);
    assert_eq!(pending.outcome, DecisionOutcome::RequireApproval);
    assert_eq!(pending.reason, "Approve the exact operator-selected plugin transfer path");
    let approved = ask(true);
    assert_eq!(approved.outcome, DecisionOutcome::Allow);
    assert!(approved.filesystem.iter().any(|item| item.root == "/trust/key.pem" && item.mode == "read"));
}

#[test]
fn plugins_never_weaken_an_outcome() {
    let request = Some(OperatorRequest { enables_untrusted: true, paths: Vec::new() });
    let none = Vec::new();
    let denied =
        decide(
            Platform::Linux,
            decision(DecisionOutcome::Deny),
            "plugin.enable",
            &request,
            false,
            &none,
            &None,
            &Vec::new(),
            true,
        );
    assert_eq!(denied.outcome, DecisionOutcome::Deny);
    let asked =
        decide(
            Platform::Linux,
            decision(DecisionOutcome::Allow),
            "plugin.enable",
            &request,
            false,
            &none,
            &None,
            &Vec::new(),
            false,
        );
    assert_eq!(asked.reason, "Explicit approval is required to enable untrusted plugin content");
    let unlisted = decide(
        Platform::Linux,
        decision(DecisionOutcome::Allow),
        "plugin.mcp.x.call",
        &None,
        false,
        &none,
        &Some(Vec::new()),
        &Vec::new(),
        true,
    );
    assert_eq!(unlisted.outcome, DecisionOutcome::Deny);
    let restriction = ActionRestriction {
        action: "plugin.mcp.x.call".into(),
        filesystem: vec![grant("/plugins/x", "read")],
        allowed_environment: vec!["TOKEN".into()],
        network_destinations: vec!["https://x.test".into()],
    };
    let listed = decide(
        Platform::Linux,
        decision(DecisionOutcome::Allow),
        "plugin.mcp.x.call",
        &None,
        false,
        &none,
        &Some(vec![restriction]),
        &Vec::new(),
        true,
    );
    assert_eq!(listed.outcome, DecisionOutcome::Allow);
    assert_eq!((listed.filesystem.len(), listed.filesystem[0].root.as_str()), (1, "/plugins/x"));
    assert_eq!(listed.network_destinations, ["https://x.test"]);
    let roots = vec![Entry { key: "p/use".to_owned(), value: "/plugins/p".to_owned() }];
    let skilled = decide(
        Platform::Linux,
        decision(DecisionOutcome::Allow),
        "shell.run",
        &None,
        false,
        &vec!["p/use".into()],
        &None,
        &roots,
        true,
    );
    let modes: Vec<&str> =
        skilled.filesystem.iter().filter(|item| item.root == "/plugins/p").map(|item| item.mode.as_str()).collect();
    assert_eq!(modes, ["read", "execute"]);
}

fn local(approved: bool, trusted: bool) -> LocalFindings {
    LocalFindings {
        has_store: true,
        installations: vec![Installation {
            name: "example".into(),
            digest: "sha256:aa".into(),
            bundled: false,
            trusted,
            trust_profile: None,
        }],
        embedded_digest: Ok("sha256:bb".into()),
        layout: Ok(()),
        approved,
    }
}

fn failure(result: Result<LocalWork, ExecutionError>) -> String {
    match result {
        Err(ExecutionError::Failed(text)) => text,
        _ => panic!("a failure is expected"),
    }
}

#[test]
fn untrusted_content_is_enabled_only_by_approval() {
    let enable = |allow_untrusted: bool| PluginManagementRequest::Enable {
        name: "example".into(),
        digest: "sha256:aa".into(),
        allow_untrusted,
    };
    assert!(failure(plan_local(enable(true), &settings(), &local(false, false))).contains("request-bound approval"));
    assert!(plan_local(enable(false), &settings(), &local(true, false)).is_err());
    assert!(plan_local(enable(true), &settings(), &local(true, false)).is_ok());
    assert!(plan_local(enable(false), &settings(), &local(false, true)).is_ok());
    let absent =
        PluginManagementRequest::Enable { name: "other".into(), digest: "sha256:aa".into(), allow_untrusted: true };
    assert_eq!(
        failure(plan_local(absent, &settings(), &local(true, true))),
        "selected plugin digest is not installed"
    );
}

#[test]
fn local_plugin_work_is_planned() {
    let mut nowhere = local(false, false);
    nowhere.has_store = false;
    assert_eq!(
        failure(plan_local(PluginManagementRequest::Inventory, &settings(), &nowhere)),
        "plugin lifecycle requires an explicit Colossus home"
    );
    let installed = |digest: &str| PluginManagementRequest::VerifyInstalled {
        name: "example".into(),
        digest: digest.into(),
    };
    assert!(matches!(
        plan_local(installed("sha256:aa"), &settings(), &local(false, false)),
        Ok(LocalWork::VerifyLayout { layout, profile, .. }) if layout == "aa" && profile == "default"
    ));
    assert_eq!(
        failure(plan_local(installed("sha256:cc"), &settings(), &local(false, false))),
        "plugin is not installed"
    );
    let mut bundled = local(false, false);
    bundled.installations[0].bundled = true;
    assert!(failure(plan_local(installed("sha256:aa"), &settings(), &bundled)).contains("another Colossus version"));
    bundled.embedded_digest = Ok("sha256:aa".into());
    assert!(matches!(
        plan_local(installed("sha256:aa"), &settings(), &bundled),
        Ok(LocalWork::VerifiedBundle { .. })
    ));
    let read = |skill: &str| PluginManagementRequest::SkillRead { skill_id: skill.into(), digest: "d".into() };
    assert!(matches!(
        plan_local(read("example/use"), &settings(), &local(false, false)),
        Ok(LocalWork::ReadSkill { plugin, part: SkillPart::Instructions, .. }) if plugin == "example"
    ));
    assert_eq!(
        failure(plan_local(read("use"), &settings(), &local(false, false))),
        "select a qualified plugin/skill identifier"
    );
    let reference = PluginManagementRequest::Install {
        source: PluginInstallSource::Reference { registry: "r".into(), reference: "x".into() },
        trust_profile: "default".into(),
    };
    assert_eq!(
        failure(plan_local(reference, &settings(), &local(false, false))),
        "registry installation requires the registry effect boundary"
    );
    let verify = PluginManagementRequest::Verify {
        path: "/p".into(),
        digest: None,
        trust_profile: "missing".into(),
    };
    assert_eq!(
        failure(plan_local(verify, &settings(), &local(false, false))),
        "plugin trust profile not found: missing"
    );
    assert!(matches!(select_skill(&vec!["a/b".into(), "a/c".into()], "a/c"), Ok(1)));
    assert!(select_skill(&vec!["a/b".into()], "a/c").is_err());
}

#[test]
fn management_is_routed_to_its_boundary() {
    let enforced: Result<String, RuntimeError> = Ok("strict".into());
    let route = |operation: PluginManagementRequest| manage_plugin(Platform::Linux, operation, "/workspace", &enforced);
    assert!(matches!(
        route(PluginManagementRequest::Validate { path: "plugin".into() }),
        Ok(ManagementRoute::Local(PluginManagementRequest::Validate { path })) if path == "/workspace/plugin"
    ));
    let install = |profile: &str| PluginManagementRequest::Install {
        source: PluginInstallSource::Reference { registry: "main".into(), reference: "x".into() },
        trust_profile: profile.into(),
    };
    assert!(matches!(route(install("default")), Ok(ManagementRoute::InstallReference { name: None, .. })));
    assert!(route(install("weak")).expect_err("weak").shown().contains("enforces trust profile strict"));
    let update = |name: &str| PluginManagementRequest::Update {
        name: name.into(),
        registry: "main".into(),
        reference: "x".into(),
    };
    assert!(route(update("colossus")).expect_err("core").shown().contains("is bundled with Colossus"));
    assert!(matches!(
        route(update("example")),
        Ok(ManagementRoute::InstallReference { name: Some(name), .. }) if name == "example"
    ));
    assert!(accept_management_request("plugin.gc", "r", true, "plugin.gc", "r").is_ok());
    assert!(accept_management_request("plugin.gc", "r", false, "plugin.gc", "r").is_err());
}

#[test]
fn plugin_registry_docker_config_requires_a_filesystem_grant_before_parsing() {
    let inside = permit(vec![grant("/work", "write")]);
    assert!(matches!(
        enforce_docker_config(Platform::Linux, &registry(), &found("/root/docker.json"), &inside),
        Err(ExecutionError::Failed(text)) if text.contains("outside the permit's authorized filesystem roots")
    ));
    let named = permit(vec![grant("/root/docker.json", "read")]);
    assert!(enforce_docker_config(Platform::Linux, &registry(), &found("/root/docker.json"), &named).is_ok());
    let mut other = registry();
    other.auth = RegistryAuthConfig::Other;
    assert!(enforce_docker_config(Platform::Linux, &other, &found("/root/docker.json"), &inside).is_ok());
}

#[test]
fn certificate_bundles_are_granted_by_name() {
    let files = vec![CaFile { path: "/etc/ca.pem".into(), canonical: Ok("/etc/ca.pem".into()) }];
    let none = Vec::new();
    let refused = enforce_bundle_files(Platform::Linux, &registry(), ResourceAuthority::Declared, &none, &files);
    assert!(matches!(
        refused,
        Err(ExecutionError::Failed(text)) if text == "plugin registry CA file is outside authorized roots: /etc/ca.pem"
    ));
    let parent = vec![ResolvedGrant { mode: "read".into(), root: Some("/etc".into()) }];
    assert!(enforce_bundle_files(Platform::Linux, &registry(), ResourceAuthority::Declared, &parent, &files).is_err());
    let grants = vec![ResolvedGrant { mode: "read".into(), root: Some("/etc/ca.pem".into()) }];
    assert!(enforce_bundle_files(Platform::Linux, &registry(), ResourceAuthority::Declared, &grants, &files).is_ok());
    assert!(enforce_bundle_files(Platform::Linux, &registry(), ResourceAuthority::Ambient, &none, &files).is_ok());
}

#[test]
fn registry_transfers_keep_to_their_permit() {
    let pull = PluginRegistryOperation::Pull { reference: "registry.test/x".into(), output: "/out/x".into() };
    let push = PluginRegistryOperation::Push { layout: "/in/x".into(), reference: "registry.test/x".into() };
    assert!(accept_registry_request("plugin.pull", "/out/x", &pull).is_ok());
    assert!(accept_registry_request("plugin.push", "/out/x", &pull).is_err());
    assert!(accept_registry_request("plugin.push", "/in/x", &push).is_ok());
    assert!(enforce_registry_network(&registry(), ResourceAuthority::Declared, &origins()).is_ok());
    let partly = vec![canonical("https://registry.test", true), canonical("https://token.test", false)];
    assert!(enforce_registry_network(&registry(), ResourceAuthority::Declared, &partly).is_err());
    assert!(enforce_registry_network(&registry(), ResourceAuthority::Ambient, &Vec::new()).is_ok());
    let read = vec![ResolvedGrant { mode: "read".into(), root: Some("/in".into()) }];
    let write = vec![ResolvedGrant { mode: "write".into(), root: Some("/out".into()) }];
    let place = |path: &str| vec![found(path)];
    let enforce = |operation: &PluginRegistryOperation, grants: &Vec<ResolvedGrant>, places: Vec<PathLookup>| {
        enforce_registry_filesystem(Platform::Linux, operation, ResourceAuthority::Declared, grants, &places)
    };
    assert!(enforce(&push, &read, place("/in/x")).is_ok());
    assert!(enforce(&pull, &read, place("/in/x")).is_err());
    assert_eq!(transfer_places(Platform::Linux, &pull), ["/out/x", "/out", "/"]);
    let missing = || PathLookup { exists: false, canonical: Err("missing".into()) };
    assert!(enforce(&pull, &write, vec![missing(), found("/out"), found("/")]).is_ok());
    assert!(matches!(
        enforce(&pull, &write, vec![missing(), missing(), found("/")]),
        Err(ExecutionError::Failed(text)) if text == "plugin registry write path is outside authorized roots: /out/x"
    ));
    assert!(matches!(
        enforce(&pull, &write, vec![missing()]),
        Err(ExecutionError::Failed(text)) if text == "plugin registry output has no existing ancestor"
    ));
}

#[test]
fn credentials_are_handed_out_once() {
    let mut vault: CredentialVault<u32> = CredentialVault::new();
    vault.insert("h".into(), 7).expect("room");
    vault.insert("h".into(), 8).expect("replaced");
    assert_eq!(vault.take("h").expect("held"), 8);
    assert_eq!(
        vault.take("h").expect_err("taken").shown(),
        "configuration error: credential helper handle is invalid"
    );
    let mut full: CredentialVault<u32> = CredentialVault::new();
    let mut held = 0;
    while full.insert(format!("h{held}"), held).is_ok() {
        held += 1;
        assert!(held < 10_000, "the vault is bounded");
    }
    assert!(matches!(
        full.insert("more".into(), 1),
        Err(ExecutionError::Failed(text)) if text == "credential helper vault capacity is exhausted"
    ));
}

#[test]
fn helper_documents_are_decoded() {
    let document = |exit: i32, output: &str| {
        format!(
            "{{\"success\":true,\"exit_code\":{exit},\"output_truncated\":false,\"stdout_base64\":\"{output}\"}}"
        )
        .into_bytes()
    };
    assert!(matches!(accept_helper_result(&document(0, "aGVsbG8=")), Ok(bytes) if bytes == b"hello"));
    let message = |document: &Vec<u8>| match accept_helper_result(document) {
        Err(ExecutionError::Failed(text)) => text,
        _ => panic!("a failure is expected"),
    };
    assert_eq!(message(&document(1, "aGVsbG8=")), "Docker credential helper failed");
    assert_eq!(message(&document(0, "*")), "Docker credential helper output was not valid base64");
    let silent = b"{\"success\":true,\"exit_code\":0,\"output_truncated\":false}".to_vec();
    assert_eq!(message(&silent), "Docker credential helper returned no output");
    assert!(message(&b"{".to_vec()).contains("EOF"));
}

#[test]
fn catalogs_are_bound_to_their_digests() {
    let records = vec![plugin(remote())];
    let captured = digests(&records);
    assert_eq!((captured[0].key.as_str(), captured[0].value.as_str()), ("dev.example.tools", "sha256:aa"));
    assert!(is_same_map(&captured, &digests(&records)));
    assert!(!is_same_map(&captured, &Vec::new()));
    assert!(matches!(capture_source(true, true, true), CatalogSource::Active));
    assert!(matches!(capture_source(false, true, true), CatalogSource::Store));
    assert!(matches!(capture_source(false, false, true), CatalogSource::Empty));
    assert!(matches!(restore_source(&Some(digests(&records)), &captured, true), Ok(CatalogSource::Active)));
    assert!(restore_source(&None, &captured, false).is_err());
    assert!(matches!(restore_source(&None, &Vec::new(), false), Ok(CatalogSource::Empty)));
    assert_eq!(skill_roots(&records)[0].key, "dev.example.tools/use");
    assert!(require_mcp_snapshot(true).is_ok() && require_mcp_snapshot(false).is_err());
    let named = |name: &str, digest: &str, skill: &str| {
        let mut record = plugin(remote());
        record.name = name.into();
        record.digest = digest.into();
        record.skills = vec![skill.into()];
        record
    };
    let records = vec![named("b", "1", "b/y"), named("a", "2", "a/z"), named("b", "3", "b/x")];
    let list: Vec<(String, String)> = digests(&records).into_iter().map(|entry| (entry.key, entry.value)).collect();
    assert_eq!(list, [("a".to_owned(), "2".to_owned()), ("b".to_owned(), "3".to_owned())]);
    let skills: Vec<String> = skill_roots(&records).into_iter().map(|entry| entry.key).collect();
    assert_eq!(skills, ["a/z", "b/x", "b/y"]);
}
