use colossus_runtime::config::{McpConfig, McpOAuthCredentialStoreKind, Platform, SandboxConfig};
use colossus_runtime::effects::CredentialReference;
use colossus_runtime::entries::Entry;
use colossus_runtime::error::RuntimeError;
use colossus_runtime::pack_extensions::{
    compile_active_pack_extensions, ActivePackExtensions, PackBinary, PackInstallation, PackMcpServerDeclaration,
    PackToolDeclaration,
};
use colossus_runtime::pack_process::{accept_pack_request, invocation, pack_environment, plan_pack_process};
use colossus_runtime::process_tools::plan_pack_tool;
use colossus_runtime::tools::ToolError;

fn entry(key: &str, value: &str) -> Entry<String> {
    Entry { key: key.into(), value: value.into() }
}

fn pack_installation(include_tool: bool, include_mcp: bool) -> PackInstallation {
    let environment = || vec![entry("PACK_TOKEN", "env:HOST_PACK_TOKEN")];
    let permissions = || vec!["process".to_owned(), "credentials".to_owned()];
    let mut tools = Vec::new();
    if include_tool {
        tools.push(PackToolDeclaration {
            name: "pack.echo".into(),
            command: "pack-binary".into(),
            args: vec!["--tool".into()],
            env_refs: environment(),
            permissions: permissions(),
        });
    }
    let mut mcp_servers = Vec::new();
    if include_mcp {
        mcp_servers.push(PackMcpServerDeclaration {
            name: "pack-mcp".into(),
            command: "pack-binary".into(),
            args: vec!["--mcp".into()],
            env_refs: environment(),
            allowed_tools: vec!["lookup".into()],
            permissions: permissions(),
        });
    }
    PackInstallation {
        name: "test-pack".into(),
        version: "1.0.0".into(),
        manifest_sha256: "a".repeat(64),
        root: Ok("/packs/test-pack".into()),
        binaries: vec![PackBinary {
            name: "pack-binary".into(),
            path: Ok("/packs/test-pack/pack-binary".into()),
            regular: true,
        }],
        tools,
        mcp_servers,
    }
}

fn no_servers() -> McpConfig {
    McpConfig { servers: Vec::new(), oauth_credential_store: McpOAuthCredentialStoreKind::Auto }
}

fn compile(installation: PackInstallation, sandbox: &SandboxConfig) -> Result<ActivePackExtensions, RuntimeError> {
    compile_active_pack_extensions(Platform::Linux, &vec![installation], no_servers(), sandbox)
}

fn declared() -> ActivePackExtensions {
    let mut sandbox = SandboxConfig::platform_isolating(Platform::Linux);
    sandbox.environment.push("PACK_TOKEN".into());
    compile(pack_installation(true, true), &sandbox).expect("declared pack extensions")
}

#[test]
fn danger_full_access_rejects_executable_pack_permission_ceilings() {
    for (include_tool, include_mcp) in [(true, false), (false, true)] {
        let error = match compile(pack_installation(include_tool, include_mcp), &SandboxConfig::default()) {
            Ok(_) => panic!("danger full access must reject executable pack extensions"),
            Err(error) => error,
        };
        assert!(error.shown().contains("permission ceilings cannot be enforced by danger_full_access"));
    }
}

#[test]
fn danger_full_access_still_accepts_data_only_pack_content() {
    let extensions =
        compile(pack_installation(false, false), &SandboxConfig::default()).expect("data-only pack content");

    assert!(extensions.process_declarations.is_empty());
    assert!(extensions.tool_specs.is_empty());
    assert!(extensions.mcp.servers.is_empty());
    assert!(extensions.actions.is_empty());
    assert!(extensions.restrictions.is_empty());
}

#[test]
fn isolating_backend_accepts_declared_pack_environment_references() {
    let extensions = declared();

    assert_eq!(extensions.process_declarations.len(), 1);
    let declaration = &extensions.process_declarations[0];
    assert_eq!(declaration.key, "pack.echo");
    assert_eq!(declaration.value.environment.len(), 1);
    assert_eq!(declaration.value.environment[0].key, "PACK_TOKEN");
    assert_eq!(declaration.value.environment[0].value, "env:HOST_PACK_TOKEN");
    assert_eq!(extensions.mcp.servers.len(), 1);
    let server = &extensions.mcp.servers[0];
    assert_eq!(server.key, "pack-mcp");
    assert_eq!(server.value.environment.len(), 1);
    assert_eq!(server.value.environment[0].key, "PACK_TOKEN");
    assert_eq!(server.value.environment[0].value, "env:HOST_PACK_TOKEN");
}

#[test]
fn declared_authority_still_requires_pack_environment_grants() {
    let sandbox = SandboxConfig::platform_isolating(Platform::Linux);

    let tool_error = match compile(pack_installation(true, false), &sandbox) {
        Ok(_) => panic!("declared pack tool environment must fail"),
        Err(error) => error,
    };
    assert!(
        tool_error
            .shown()
            .contains("enabled pack tool pack.echo requires sandbox environment name PACK_TOKEN")
    );

    let mcp_error = match compile(pack_installation(false, true), &sandbox) {
        Ok(_) => panic!("declared pack MCP environment must fail"),
        Err(error) => error,
    };
    assert!(
        mcp_error
            .shown()
            .contains("enabled pack MCP server pack-mcp requires sandbox environment name PACK_TOKEN")
    );
}

#[test]
fn a_binary_has_to_be_a_regular_file() {
    let mut sandbox = SandboxConfig::platform_isolating(Platform::Linux);
    sandbox.environment.push("PACK_TOKEN".into());
    let mut installation = pack_installation(true, false);
    installation.binaries[0].regular = false;
    assert!(compile(installation, &sandbox).is_err());
    let mut unknown = pack_installation(true, false);
    unknown.binaries.clear();
    assert!(compile(unknown, &sandbox).is_err());
}

#[test]
fn planned_pack_calls_are_accepted_and_altered_ones_are_not() {
    let extensions = declared();
    let declarations = &extensions.process_declarations;
    let Ok(Some(call)) = plan_pack_tool(true, declarations, "pack.echo", true) else {
        panic!("a declared tool is planned");
    };
    assert_eq!(call.credentials.len(), 1);
    assert_eq!(call.credentials[0].reference, "env:HOST_PACK_TOKEN");
    let accepted = accept_pack_request(
        declarations,
        &call.plan.action,
        &call.plan.resource,
        &call.input,
        &call.credentials,
    )
    .expect("planned call");
    assert_eq!(accepted.tool, "pack.echo");

    let shown = |result: Result<_, colossus_runtime::effects::ExecutionError>| match result {
        Err(colossus_runtime::effects::ExecutionError::Failed(text)) => text,
        _ => panic!("a refusal is expected"),
    };
    assert_eq!(
        shown(accept_pack_request(declarations, "other", &call.plan.resource, &call.input, &call.credentials)),
        "pack tool request does not match its verified declaration"
    );
    let hashed = vec![CredentialReference { reference: "env:HOST_PACK_TOKEN".into(), hashed: true }];
    assert_eq!(
        shown(accept_pack_request(declarations, &call.plan.action, &call.plan.resource, &call.input, &hashed)),
        "pack tool credential references do not match its verified declaration"
    );
    assert_eq!(
        shown(accept_pack_request(&Vec::new(), &call.plan.action, &call.plan.resource, &call.input, &hashed)),
        "pack tool is no longer active"
    );
}

#[test]
fn servers_and_declarations_come_in_the_order_of_their_names() {
    let mut second = pack_installation(true, true);
    second.name = "another-pack".into();
    second.tools[0].name = "a.tool".into();
    second.mcp_servers[0].name = "a-mcp".into();
    let mut sandbox = SandboxConfig::platform_isolating(Platform::Linux);
    sandbox.environment = vec!["PACK_TOKEN".into()];
    let extensions = compile_active_pack_extensions(
        Platform::Linux,
        &vec![pack_installation(true, true), second],
        no_servers(),
        &sandbox,
    )
    .expect("compiled");
    let servers: Vec<&str> = extensions.mcp.servers.iter().map(|entry| entry.key.as_str()).collect();
    assert_eq!(servers, ["a-mcp", "pack-mcp"]);
    let declarations: Vec<&str> =
        extensions.process_declarations.iter().map(|entry| entry.key.as_str()).collect();
    assert_eq!(declarations, ["a.tool", "pack.echo"]);
    assert_eq!(extensions.tool_specs[0].name, "pack.echo");
}

#[test]
fn pack_requests_state_their_environment_in_any_order() {
    let mut extensions = declared();
    extensions.process_declarations[0].value.environment = vec![entry("A", "env:X"), entry("B", "env:Y")];
    let declarations = &extensions.process_declarations;
    let Ok(Some(call)) = plan_pack_tool(true, declarations, "pack.echo", true) else {
        panic!("a declared tool is planned");
    };
    let mut input = invocation(declarations, "pack.echo").expect("declared");
    let accepts = |input: &_| {
        accept_pack_request(declarations, &call.plan.action, &call.plan.resource, input, &call.credentials).is_ok()
    };
    assert!(accepts(&input));
    input.environment = vec![entry("B", "env:Y"), entry("A", "env:X")];
    assert!(accepts(&input));
    input.environment = vec![entry("B", "env:X"), entry("A", "env:Y")];
    assert!(!accepts(&input));
    input.environment = vec![entry("A", "env:X")];
    assert!(!accepts(&input));
}

#[test]
fn pack_tools_take_no_arguments_and_need_their_adapter() {
    let extensions = declared();
    let declarations = &extensions.process_declarations;
    assert!(matches!(plan_pack_tool(true, declarations, "other.tool", true), Ok(None)));
    assert!(matches!(
        plan_pack_tool(true, declarations, "pack.echo", false),
        Err(ToolError::InvalidArguments { message, .. }) if message == "verified pack tool accepts no dynamic arguments"
    ));
    assert!(matches!(
        plan_pack_tool(false, declarations, "pack.echo", true),
        Err(ToolError::Failed(message)) if message == "pack process adapter is unavailable"
    ));
    assert!(invocation(declarations, "other.tool").is_none());
}

#[test]
fn pack_environments_are_resolved_from_the_host() {
    let declared = vec![entry("PACK_TOKEN", "env:HOST_PACK_TOKEN")];
    let host = vec![entry("HOST_PACK_TOKEN", "value")];
    let resolved = pack_environment(&declared, &host).expect("resolved");
    assert_eq!(resolved[0].key, "PACK_TOKEN");
    assert_eq!(resolved[0].value, "value");
    assert!(matches!(
        pack_environment(&declared, &Vec::new()),
        Err(colossus_runtime::effects::ExecutionError::Failed(text))
            if text == "pack credential reference env:HOST_PACK_TOKEN is unresolved"
    ));
    assert!(matches!(
        pack_environment(&vec![entry("A", "literal")], &host),
        Err(colossus_runtime::effects::ExecutionError::Failed(text))
            if text == "pack credential reference must use env:VARIABLE"
    ));
}

#[test]
fn pack_processes_keep_what_their_references_resolve_to() {
    let extensions = declared();
    let declarations = &extensions.process_declarations;
    let Ok(Some(call)) = plan_pack_tool(true, declarations, "pack.echo", true) else {
        panic!("a declared tool is planned");
    };
    let planned = |host: &Vec<Entry<String>>| {
        plan_pack_process(
            declarations,
            &call.plan.action,
            &call.plan.resource,
            &call.input,
            &call.credentials,
            host,
        )
    };
    let process = planned(&vec![entry("HOST_PACK_TOKEN", "t0ken")]).expect("planned");
    assert_eq!((process.cwd.as_str(), process.args.as_slice()), (call.input.cwd.as_str(), call.input.args.as_slice()));
    assert_eq!((process.environment[0].key.as_str(), process.environment[0].value.as_str()), ("PACK_TOKEN", "t0ken"));
    assert_eq!(process.secrets, [b"t0ken".to_vec()]);
    assert!(matches!(
        planned(&Vec::new()),
        Err(colossus_runtime::effects::ExecutionError::Failed(text))
            if text == "pack credential reference env:HOST_PACK_TOKEN is unresolved"
    ));
}
