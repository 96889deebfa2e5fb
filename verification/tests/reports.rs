use colossus_runtime::config::{FilesystemGrant, Platform, ProviderKind};
use colossus_runtime::development::DevelopmentSandbox;
use colossus_runtime::diagnostics::{ModelsProbe, ReadinessCheck};
use colossus_runtime::error::RuntimeError;
use colossus_runtime::instruction_snapshots::InstructionSnapshot;
use colossus_runtime::pack_extensions::ToolSpec;
use colossus_runtime::probes::{
    plan_generation_probe, plan_models_probe, provider_readiness, ModelsPlan, ProbeRoute, Readiness,
};
use colossus_runtime::reports::{
    access_report, catalog_report, model_report, plugin_report, sandbox_report, source_report, state_report,
    AccessSandbox, CatalogSettings, PluginOutcome, SandboxFindings, StateFindings, ToolAccess,
};
use serde_json::Value;

fn texts(list: &[&str]) -> Vec<String> {
    list.iter().map(|text| (*text).to_owned()).collect()
}

fn read(text: Option<String>) -> Value {
    serde_json::from_str(&text.expect("report")).expect("JSON")
}

fn state() -> StateFindings {
    StateFindings {
        recovery_mode: false,
        recovery_reason: None,
        journal_head: "7".into(),
        record_hash: "\"aa\"".into(),
        storage: r#"{"adapter":"redb","path":"/s"}"#.into(),
        writer_lease: Some("/s.lock".into()),
        positions: texts(&[r#"{"name":"work-v1","position":7}"#]),
    }
}

#[test]
fn the_state_is_reported_without_payloads() {
    let report = read(state_report(&state()));
    assert_eq!(report["recovery_mode"], false);
    assert_eq!(report["recovery_reason"], Value::Null);
    assert_eq!(report["journal_head"], 7);
    assert_eq!(report["record_hash"], "aa");
    assert_eq!(report["storage"]["path"], "/s");
    assert_eq!(report["writer_lease"].to_string(), r#"{"held":true,"path":"/s.lock"}"#);
    assert_eq!(report["projection_store"]["adapter"], "redb");
    assert_eq!(report["projection_store"]["positions"][0]["position"], 7);
    assert_eq!(report["repository_adapters"]["memory_index"], "tantivy-or-degraded");
    assert_eq!(report["repository_adapters"].as_object().map(|map| map.len()), Some(9));
    assert_eq!(report.as_object().map(|map| map.len()), Some(8));
    let bare = StateFindings {
        recovery_mode: true,
        recovery_reason: Some("corrupt".into()),
        storage: "{}".into(),
        writer_lease: None,
        positions: Vec::new(),
        ..state()
    };
    let report = read(state_report(&bare));
    assert_eq!(report["recovery_reason"], "corrupt");
    assert_eq!(report["writer_lease"].to_string(), r#"{"held":false,"reason":"database-coordinated"}"#);
    assert_eq!(report["projection_store"]["adapter"], "unknown");
    assert!(state_report(&StateFindings { journal_head: "{".into(), ..state() }).is_none());
}

fn sandbox(backend: &str, destinations: &[&str]) -> SandboxFindings {
    SandboxFindings {
        workspace: "/w".into(),
        profile: "workspace-development".into(),
        backend: backend.into(),
        native_exclusions: true,
        filesystem: vec![FilesystemGrant { root: "/w".into(), mode: "read".into() }],
        executables: texts(&["/bin/ls"]),
        network_destinations: texts(destinations),
        development: DevelopmentSandbox {
            filesystem: vec![FilesystemGrant { root: "/w".into(), mode: "write".into() }],
            executables: texts(&["/bin/sh"]),
            protected_filesystem: texts(&["/w/.git"]),
            shell: Some("/bin/sh".into()),
            path: "/bin:/usr/bin".into(),
        },
        command_roots: texts(&["/bin", "/usr/bin"]),
    }
}

#[test]
fn the_sandbox_is_reported_with_what_the_preset_adds() {
    let found = sandbox("native", &["https://a.test", "*"]);
    let report = sandbox_report(Platform::Linux, &found);
    assert_eq!((report.canonical_workspace, report.sandbox_profile), ("/w", "workspace-development"));
    assert!(report.protected_path_exclusions_supported);
    assert_eq!(report.derived_filesystem[0].mode, "write");
    assert_eq!(report.explicit_filesystem[0].mode, "read");
    assert_eq!(report.derived_executables, &texts(&["/bin/sh"]));
    assert_eq!(report.resolved_shell.as_deref(), Some("/bin/sh"));
    assert!(report.public_network_wildcard.expect("wildcard").starts_with("public HTTP(S) only"));
    assert!(report.development_actor_scope.starts_with("terminal users"));
    for (backend, supported) in [("oci", true), ("windows_job", false), ("none", false)] {
        let found = sandbox(backend, &["https://a.test"]);
        let report = sandbox_report(Platform::Linux, &found);
        assert_eq!(report.protected_path_exclusions_supported, supported);
        assert!(report.public_network_wildcard.is_none());
    }
}

fn tool(name: &str) -> ToolSpec {
    ToolSpec {
        name: name.into(),
        description: "d".into(),
        input_schema: r#"{"type":"object"}"#.into(),
        effect_action: Some("x.y".into()),
        capability: None,
        max_output_bytes: 9,
    }
}

fn access(name: &str, family: &str) -> ToolAccess {
    ToolAccess {
        name: name.into(),
        family: format!("\"{family}\""),
        source: "\"builtin\"".into(),
        action_class: "\"read\"".into(),
        decision: "\"allow\"".into(),
        reason: "null".into(),
    }
}

#[test]
fn active_tools_are_described_by_their_last_row() {
    let settings =
        CatalogSettings { profile: "\"standard\"".into(), workspace: "/w".into(), sandbox_profile: "none".into() };
    let rows = vec![access("a", "first"), access("b", "other"), access("a", "last")];
    let list = catalog_report(&vec![tool("b"), tool("a")], &rows, &settings).expect("catalogue");
    let shown: Vec<Value> = list.into_iter().map(|text| read(Some(text))).collect();
    assert_eq!((shown[0]["name"].as_str(), shown[0]["family"].as_str()), (Some("b"), Some("other")));
    assert_eq!((shown[1]["name"].as_str(), shown[1]["family"].as_str()), (Some("a"), Some("last")));
    assert_eq!(shown[0]["input_schema"]["type"], "object");
    assert_eq!(shown[0]["max_output_bytes"], 9);
    assert_eq!(shown[0]["capability"], Value::Null);
    assert_eq!(shown[0]["profile"], "standard");
    assert_eq!(shown[0]["canonical_workspace"], "/w");
    assert!(shown[0]["development_grant_scope"].as_str().expect("scope").starts_with("terminal users"));
    assert_eq!(shown[0].as_object().map(|map| map.len()), Some(15));
    assert!(catalog_report(&Vec::new(), &rows, &settings).expect("empty").is_empty());
    let broken = vec![ToolAccess { decision: "{".into(), ..access("a", "x") }];
    assert!(catalog_report(&vec![tool("a")], &broken, &settings).is_none());
}

#[test]
fn effective_access_shows_the_sandbox() {
    let shown = |destinations: &[&str]| AccessSandbox {
        profile: "none".into(),
        resolved_shell: None,
        protected_paths: Vec::new(),
        command_roots: texts(&["/bin"]),
        explicit_filesystem: texts(&[r#"{"root":"/w","mode":"read"}"#]),
        derived_filesystem: Vec::new(),
        explicit_executables: texts(&["/bin/ls"]),
        derived_executables: Vec::new(),
        network_destinations: texts(destinations),
    };
    let report = read(access_report(r#"{"profile":"standard","sandbox":1}"#, "/w", &shown(&["*"])));
    assert_eq!(report["profile"], "standard");
    assert_eq!(report["canonical_workspace"], "/w");
    assert_eq!(report["sandbox"]["filesystem"]["explicit"][0]["mode"], "read");
    assert_eq!(report["sandbox"]["executables"]["explicit"][0], "/bin/ls");
    assert_eq!(
        report["sandbox"]["public_wildcard"],
        "public HTTP(S) only; exact entries remain required for non-public origins"
    );
    let report = read(access_report("{}", "/w", &shown(&["https://a.test"])));
    assert_eq!(report["sandbox"]["public_wildcard"], Value::Null);
    assert_eq!(report["sandbox"].as_object().map(|map| map.len()), Some(9));
    assert!(access_report("[]", "/w", &shown(&[])).is_none());
}

#[test]
fn models_are_ready_where_they_generate() {
    let check = |passed: bool| ReadinessCheck {
        name: "generation".into(),
        passed,
        detail: "d".into(),
        provider_response: None,
    };
    let report = read(model_report(&check(true), r#"{"model":"m"}"#, r#"{"name":"generation","status":"pass"}"#));
    assert_eq!(report["ready"], true);
    assert_eq!(report["route"]["model"], "m");
    assert_eq!(report["checks"][0]["detail"], "Explicit limits and capabilities are valid.");
    assert_eq!(report["checks"][1]["name"], "generation");
    assert_eq!(read(model_report(&check(false), "{}", "{}"))["ready"], false);
    assert!(model_report(&check(true), "{", "{}").is_none());
}

#[test]
fn instructions_are_reported_by_their_digests() {
    let Ok(layers) = InstructionSnapshot::capture_layers(Some("home rules".into()), None, "invocation rules") else {
        panic!("layers are captured");
    };
    let text = source_report(&layers.into_snapshot("mode rules")).expect("report");
    assert!(!text.contains(" rules"));
    let report = read(Some(text));
    assert_eq!(report["load_order"][0], "home AGENTS.md");
    assert_eq!(report["load_order"].as_array().map(Vec::len), Some(4));
    assert_eq!(report["snapshot_refresh"], "top_level_run");
    assert_eq!(report["sources"].as_array().map(Vec::len), Some(1));
    assert_eq!(report["sources"][0]["source"], "home AGENTS.md");
    assert_eq!(report["sources"][0]["sha256"].as_str().map(str::len), Some(64));
}

#[test]
fn changes_of_plugins_are_reported() {
    let shown = |outcome: PluginOutcome| plugin_report(&outcome).expect("report");
    assert_eq!(
        shown(PluginOutcome::Installed { digest: "d".into(), trust: "{}".into(), origin: "\"bundled\"".into() }),
        r#"{"digest":"d","integrity":"verified","origin":"bundled","trust":{}}"#
    );
    assert_eq!(
        shown(PluginOutcome::Layout { digest: "d".into(), trust: "1".into(), manifest: "2".into() }),
        r#"{"digest":"d","manifest":2,"trust":1}"#
    );
    assert_eq!(shown(PluginOutcome::Disabled { name: "p".into() }), r#"{"active":false,"plugin":"p"}"#);
    assert_eq!(
        shown(PluginOutcome::Packaged { digest: "d".into(), output: "/o".into(), manifest: "{}".into() }),
        r#"{"digest":"d","manifest":{},"output":"/o"}"#
    );
    assert_eq!(
        shown(PluginOutcome::Exported { name: "p".into(), digest: "d".into(), output: "/o".into() }),
        r#"{"digest":"d","output":"/o","plugin":"p"}"#
    );
    let broken = PluginOutcome::Packaged { digest: "d".into(), output: "/o".into(), manifest: "".into() };
    assert!(plugin_report(&broken).is_none());
}

#[test]
fn providers_are_probed_at_their_catalog() {
    let models = texts(&["m1", "m2"]);
    let Ok(ModelsPlan::Known(list)) = plan_models_probe(ProviderKind::Echo, "p", &models, Ok(None), false) else {
        panic!("an echo provider is not asked");
    };
    assert_eq!((list.len(), list[1].id.as_str(), list[1].owned_by.as_deref()), (2, "m2", Some("colossus")));
    let network = || ProviderKind::Network("openai".into());
    let endpoint = Ok(Some("https://a.test/models".to_owned()));
    let Ok(ModelsPlan::Ask(request)) = plan_models_probe(network(), "p", &models, endpoint, true) else {
        panic!("a network provider is asked");
    };
    assert_eq!((request.action.as_str(), request.resource.as_str()), ("provider.models", "https://a.test/models"));
    assert_eq!((request.actor_id.as_str(), request.capabilities.len()), ("provider-diagnostics", 1));
    assert_eq!(request.capabilities[0], "provider.call");
    assert!(request.include_response_diagnostics && request.generation.is_none() && request.model.is_none());
    assert_eq!(
        plan_models_probe(network(), "p", &models, Ok(None), false).expect_err("no catalog").shown(),
        "configuration error: provider has no models endpoint"
    );
    assert!(plan_models_probe(network(), "p", &models, Err(RuntimeError::Config("bad".into())), false).is_err());
    let fixed = || Readiness { ready: true, checks: Vec::new() };
    assert!(provider_readiness(ProviderKind::Echo, fixed(), Err(RuntimeError::Config("x".into()))).ready);
    let failed = provider_readiness(network(), fixed(), Err(RuntimeError::Config("x".into())));
    assert_eq!((failed.ready, failed.checks[0].detail.as_str()), (false, "configuration error: x"));
    let passed = provider_readiness(network(), fixed(), Ok(ModelsProbe::Models(3)));
    assert!(passed.ready && passed.checks[0].detail.contains("normalized 3 model records"));
}

#[test]
fn models_are_probed_by_one_bounded_generation() {
    let route = |max_output_tokens: u32, tool_calls: bool| ProbeRoute {
        provider_profile: "p".into(),
        model_profile: "main".into(),
        model: "m".into(),
        max_output_tokens,
        tool_calls,
    };
    let request = plan_generation_probe(&route(100, true), "provider.generate", Ok("https://a.test".into()), false)
        .expect("planned");
    assert_eq!((request.actor_id.as_str(), request.action.as_str()), ("model-diagnostics", "provider.generate"));
    assert_eq!((request.model_profile.as_deref(), request.model.as_deref()), (Some("main"), Some("m")));
    let generation = request.generation.expect("generation");
    assert_eq!((generation.max_output_tokens, generation.message.as_str()), (32, "Reply with exactly: ok"));
    let tool = generation.tool.expect("tool");
    let schema = read(Some(tool.input_schema));
    assert_eq!(schema["properties"]["paths"]["items"]["maxLength"], 4096);
    assert_eq!(schema["required"][0], "paths");
    let request = plan_generation_probe(&route(7, false), "a", Ok("e".into()), true).expect("planned");
    let generation = request.generation.expect("generation");
    assert!(generation.tool.is_none() && generation.max_output_tokens == 7);
    assert!(plan_generation_probe(&route(7, false), "a", Err(RuntimeError::Config("bad".into())), true).is_err());
}
