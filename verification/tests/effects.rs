use colossus_runtime::context_tools::{
    accept_context_request, context_output, context_plan, context_tool_session, plan_context,
};
use colossus_runtime::diagnostics::{
    check_status, format_provider_response_diagnostic, generation_check, has_public_wildcard, models_check,
    probe_output_tokens, protected_paths_supported, require_models, require_models_endpoint, settle_models_probe,
    GenerationAnswer, ModelsProbe,
};
use colossus_runtime::config::Platform;
use colossus_runtime::effects::{ActorType, ExecutionError};
use colossus_runtime::error::{GatewayError, ModelProviderError, ProviderResponseDiagnostic, RuntimeError, StoreError};
use colossus_runtime::extensions::{
    bundle_credentials, bundle_request, integration_credentials, require_integration_tool, BundleOperation,
    IntegrationRequest,
};
use colossus_runtime::generic_effects::{
    accept_image_executable, accept_workflow_control, echo_message, no_adapter, plan_workflow_effect, step_text,
    validate_decision_source, worker_audit, workflow_failure, WorkflowError, WorkflowExecutor,
};
use colossus_runtime::memory_access::{
    accept_memory_request, fetch_limit, operation_session, plan_retrieval, released_records, scope_allowed,
    settle_retrieval, validate_access, MemoryRecord,
};
use colossus_runtime::operations::{ContextOperation, DecisionSource, MemoryOperation, MemoryScope};
use colossus_runtime::scheduling::{forward, schedule, ForwardEvent, Forwarding, ScheduleEvent, Scheduling};
use colossus_runtime::secrets::{
    explicit_secret, oauth_vault_scope, platform_oauth_vault_binding, vault_check, VaultCheck, VaultFindings,
};
use colossus_runtime::tools::{ExecutionContext, TextArgument, ToolError};

fn failed<T>(result: Result<T, ExecutionError>) -> String {
    match result {
        Err(ExecutionError::Failed(text)) => text,
        _ => panic!("a failure is expected"),
    }
}

fn context(session: Option<&str>) -> ExecutionContext {
    ExecutionContext {
        correlation_id: "c".into(),
        session_id: session.map(str::to_owned),
        run_id: None,
        subagent_id: None,
        goal_id: None,
        draft_plan_id: None,
        draft_plan_revision: None,
        offered_tools: Vec::new(),
        skill_ids: Vec::new(),
    }
}

fn diagnostic(body: Option<&str>) -> ProviderResponseDiagnostic {
    ProviderResponseDiagnostic {
        status: 400,
        content_type: None,
        body_encoding: "utf-8".into(),
        body: "bad request".into(),
        body_truncated: true,
        request_method: "POST".into(),
        request_url: "https://model.test/v1".into(),
        request_body: body.map(str::to_owned),
    }
}

#[test]
fn context_operations_stay_in_their_session() {
    let absent = TextArgument::Absent(ToolError::Failed("snapshot_id is required".into()));
    let Ok(Some(operation)) = plan_context("context.show", &context(Some("s1")), &absent) else {
        panic!("a context tool is planned");
    };
    let plan = context_plan(&operation);
    assert_eq!((plan.action.as_str(), plan.resource.as_str()), ("context.show", "session:s1"));
    let own = Some("s1".to_owned());
    assert!(accept_context_request(&plan.action, &plan.resource, &own, &operation).is_ok());
    assert_eq!(
        failed(accept_context_request(&plan.action, &plan.resource, &Some("s2".into()), &operation)),
        "context request does not match its validated session operation"
    );
    assert!(accept_context_request("context.compact", &plan.resource, &own, &operation).is_err());
    assert!(matches!(plan_context("echo", &context(None), &absent), Ok(None)));
    assert!(matches!(
        plan_context("context.restore", &context(Some("s1")), &absent),
        Err(ToolError::Failed(text)) if text == "snapshot_id is required"
    ));
    let chosen = TextArgument::Present("snap".into());
    assert!(matches!(
        plan_context("context.restore", &context(Some("s1")), &chosen),
        Ok(Some(ContextOperation::Restore { snapshot_id, .. })) if snapshot_id == "snap"
    ));
    assert!(matches!(
        context_tool_session(&context(None)),
        Err(ToolError::Denied(text)) if text == "context tools require an active session"
    ));
    assert_eq!(context_output(b"{}").expect("text"), "{}");
    assert!(matches!(
        context_output(&[0xff]),
        Err(GatewayError::Execution(text)) if text == "context result returned non-UTF-8"
    ));
}

#[test]
fn diagnostics_show_the_response_first() {
    let body = r#"{"tools":[{"name":"read"},{"function":{"name":"write"}},{"other":1}],"model":"m"}"#;
    let text = format_provider_response_diagnostic(&diagnostic(Some(body)));
    assert!(text.starts_with(
        "Provider response diagnostics (explicit local opt-in; not written to durable run history)\n\
         Response: HTTP 400 (unknown, utf-8) (truncated at 16 KiB)\n\
         Response body:\nbad request\n\n\
         Offered tool names (2): read, write\n\n\
         Request: POST https://model.test/v1\n\
         Request body:\n{\n  "
    ));
    assert!(text.ends_with(
        "Warning: the request can contain user, session, and tool-result data. Review before sharing."
    ));
    let none = format_provider_response_diagnostic(&diagnostic(None));
    assert!(none.contains("Offered tool names (0): <none>\n\n"));
    assert!(none.contains("Request body:\n<none>\n\n"));
}

#[test]
fn large_requests_leave_the_evidence_whole() {
    let body = format!("{{\"tools\":[{{\"name\":\"read\"}}],\"text\":\"{}\"}}", "x".repeat(80_000));
    let text = format_provider_response_diagnostic(&diagnostic(Some(&body)));
    assert_eq!(text.chars().count(), 65_536 + "\n[diagnostic display truncated]".chars().count());
    assert!(text.contains("Offered tool names (1): read"));
    assert!(text.ends_with("\n[diagnostic display truncated]"));
}

#[test]
fn provider_checks_report_what_was_reached() {
    let passed = models_check(Ok(ModelsProbe::Models(3)));
    assert_eq!(check_status(&passed), "pass");
    assert_eq!(passed.detail, "Reached the configured models endpoint and normalized 3 model records.");
    let http = models_check(Ok(ModelsProbe::HttpError(diagnostic(None))));
    assert_eq!((check_status(&http), http.detail.as_str()), ("fail", "provider endpoint returned HTTP 400"));
    assert!(http.provider_response.is_some());
    let error = models_check(Err(RuntimeError::Config("offline".into())));
    assert_eq!(error.detail, "configuration error: offline");
    assert!(matches!(settle_models_probe(Some(2), None, false), Ok(ModelsProbe::Models(2))));
    assert!(matches!(settle_models_probe(None, Some(diagnostic(None)), true), Ok(ModelsProbe::HttpError(_))));
    let violated = settle_models_probe(None, Some(diagnostic(None)), false).expect_err("not asked for");
    assert_eq!(
        violated.shown(),
        "configuration error: released provider catalog output violated its normalized contract"
    );
    assert!(require_models(ModelsProbe::HttpError(diagnostic(None))).is_err());
    assert_eq!(require_models(ModelsProbe::Models(4)).expect("models"), 4);
    assert_eq!(
        require_models_endpoint(None).expect_err("none").shown(),
        "configuration error: provider has no models endpoint"
    );
}

#[test]
fn model_checks_hold_the_answer_to_its_route() {
    let answer = |turn: Option<(&str, &str)>, failure: bool| {
        Ok(GenerationAnswer {
            diagnostic: if failure { Some(diagnostic(None)) } else { None },
            turn: turn.map(|(model, provider)| (model.to_owned(), provider.to_owned())),
        })
    };
    let passed = generation_check(answer(Some(("m", "p")), false), false, "m", "p", true);
    assert!(passed.passed);
    assert!(passed.detail.contains("representative tool schema"));
    assert!(generation_check(answer(Some(("m", "p")), false), false, "m", "p", false).detail.contains("text-only"));
    let foreign = generation_check(answer(Some(("m", "other")), false), false, "m", "p", true);
    assert_eq!(foreign.detail, "Released generation metadata violated the selected model route.");
    assert!(!generation_check(answer(None, true), true, "m", "p", true).passed);
    assert!(generation_check(answer(None, true), true, "m", "p", true).provider_response.is_some());
    assert!(generation_check(answer(None, true), false, "m", "p", true).provider_response.is_none());
    let denied = generation_check(Err(GatewayError::Denied("no".into())), false, "m", "p", true);
    assert_eq!(denied.detail, "no");
    assert_eq!((probe_output_tokens(16), probe_output_tokens(4_096)), (16, 32));
}

#[test]
fn sandbox_reports_follow_the_backend() {
    assert!(protected_paths_supported("native", true, Platform::Linux));
    assert!(!protected_paths_supported("native", false, Platform::Linux));
    assert!(protected_paths_supported("windows_job", false, Platform::Windows));
    assert!(!protected_paths_supported("windows_job", true, Platform::Linux));
    assert!(protected_paths_supported("oci", false, Platform::Other));
    assert!(!protected_paths_supported("external", true, Platform::Linux));
    assert!(has_public_wildcard(&vec!["https://a".into(), "*".into()]));
    assert!(!has_public_wildcard(&vec!["https://*".into()]));
}

#[test]
fn credentials_of_extensions_are_the_declared_ones() {
    let request = IntegrationRequest::ImportOpenApi { name: "crm".into(), credential_reference: Some("env:CRM".into()) };
    let list = integration_credentials(&request);
    assert_eq!((list.len(), list[0].reference.as_str(), list[0].hashed), (1, "env:CRM", false));
    assert!(integration_credentials(&IntegrationRequest::Disconnect { name: "crm".into() }).is_empty());
    let build = BundleOperation::Build {
        source: "s".into(),
        destination: "/d".into(),
        name: "tools".into(),
        version: "1.0.0".into(),
        publisher: "me".into(),
        created_at: "2026-01-01".into(),
        source_revision: None,
        signing_key_reference: "env:KEY".into(),
    };
    assert_eq!(bundle_credentials(&build)[0].reference, "env:KEY");
    assert!(matches!(
        bundle_request(Platform::Linux, "/workspace", build),
        BundleOperation::Build { source, destination, name, .. }
            if source == "/workspace/s" && destination == "/d" && name == "tools"
    ));
    assert!(bundle_credentials(&BundleOperation::Verify { path: "/b".into() }).is_empty());
    assert!(require_integration_tool(true, "crm.lookup").is_ok());
    assert_eq!(
        require_integration_tool(false, "crm.lookup").expect_err("absent").shown(),
        "configuration error: integration tool not found: crm.lookup"
    );
}

#[test]
fn decisions_keep_their_provenance() {
    assert!(validate_decision_source(ActorType::User, DecisionSource::User).is_ok());
    assert!(validate_decision_source(ActorType::Model, DecisionSource::Agent).is_ok());
    assert_eq!(
        failed(validate_decision_source(ActorType::Model, DecisionSource::User)),
        "decision source does not match immutable actor provenance"
    );
    assert!(validate_decision_source(ActorType::User, DecisionSource::Agent).is_err());
}

#[test]
fn workflow_steps_are_routed() {
    assert_eq!(echo_message(br#"{"message":"hi"}"#).expect("message"), "hi");
    assert_eq!(failed(echo_message(br#"{"message":1}"#)), "echo message is missing");
    let echo = plan_workflow_effect("echo", "step-1", false);
    assert_eq!(
        (echo.plan.action.as_str(), echo.plan.resource.as_str(), echo.plan.capability.as_str()),
        ("provider.echo", "workflow-step:step-1", "workflow.execute")
    );
    assert_eq!(echo.executor, WorkflowExecutor::Echo);
    let undo = plan_workflow_effect("workflow.start", "step-2", true);
    assert_eq!(undo.plan.resource, "workflow-compensation-step:step-2");
    assert_eq!(undo.executor, WorkflowExecutor::Control);
    assert_eq!(plan_workflow_effect("network.http", "s", false).executor, WorkflowExecutor::Unavailable);
    assert!(accept_workflow_control("workflow.webhook.ingest").is_ok());
    assert_eq!(
        failed(accept_workflow_control("workflow.stop")),
        "workflow control executor received an unsupported action"
    );
    assert!(matches!(no_adapter("x"), ExecutionError::Failed(text) if text == "no adapter registered for x"));
    assert_eq!(step_text(&[b'a', 0xff]), "a\u{fffd}");
    assert!(matches!(
        workflow_failure(GatewayError::OutcomeUnknown("u".into())),
        WorkflowError::OutcomeUnknown(text) if text == "u"
    ));
    assert!(matches!(
        workflow_failure(GatewayError::Journal(StoreError::Other("j".into()))),
        WorkflowError::Store(StoreError::Other(text)) if text == "j"
    ));
    assert!(matches!(workflow_failure(GatewayError::Denied("d".into())), WorkflowError::Effect(text) if text == "d"));
}

#[test]
fn worker_audits_record_no_content() {
    let audit = worker_audit("a1", false, &None, &Some("run".into()), &Some("r".repeat(2_000)));
    assert_eq!(audit.stream_id, "worker-ipc:a1");
    assert_eq!(audit.event_type, "worker.ipc.rejected.v1");
    assert_eq!(audit.correlation_id, "a1");
    assert_eq!(audit.reason.map(|text| text.len()), Some(1_024));
    assert!(!audit.content_recorded);
    let accepted = worker_audit("a1", true, &Some("req".into()), &None, &None);
    assert_eq!((accepted.event_type.as_str(), accepted.correlation_id.as_str()), ("worker.ipc.accepted.v1", "req"));
}

#[test]
fn image_executables_are_exact_paths() {
    assert!(accept_image_executable("/usr/bin/env").is_ok());
    for path in ["usr/bin/env", "/", "/usr//bin", "/usr/../bin"] {
        assert_eq!(
            accept_image_executable(path).expect_err(path).shown(),
            "configuration error: OCI executable must be an exact normalized absolute image path"
        );
    }
}

fn read() -> MemoryOperation {
    MemoryOperation::Read { id: "m1".into() }
}

#[test]
fn models_reach_their_own_scopes() {
    let session = Some("s1".to_owned());
    assert!(scope_allowed(&MemoryScope::Global, "repo", &None));
    assert!(scope_allowed(&MemoryScope::Repository("repo".into()), "repo", &None));
    assert!(!scope_allowed(&MemoryScope::Repository("other".into()), "repo", &None));
    assert!(scope_allowed(&MemoryScope::Session("s1".into()), "repo", &session));
    assert!(!scope_allowed(&MemoryScope::Session("s1".into()), "repo", &None));
    let foreign = Ok(Some(MemoryScope::Session("s2".into())));
    let model = ActorType::Model;
    assert_eq!(
        failed(validate_access(model, &read(), "repo", &session, &foreign)),
        "memory tool cannot access another scope"
    );
    assert!(validate_access(ActorType::User, &read(), "repo", &session, &foreign).is_ok());
    assert_eq!(failed(validate_access(model, &read(), "repo", &session, &Ok(None))), "memory m1 was not found");
    assert_eq!(failed(validate_access(model, &read(), "repo", &session, &Err("offline".into()))), "offline");
    assert_eq!(
        failed(validate_access(ActorType::Subagent, &MemoryOperation::IndexSync, "repo", &session, &Ok(None))),
        "model-controlled actors cannot administer the memory index"
    );
    let list = MemoryOperation::List { status: None, limit: 5, session_id: None, repository_id: Some("repo".into()) };
    assert_eq!(
        failed(validate_access(ActorType::Workflow, &list, "repo", &session, &Ok(None))),
        "memory query scope does not match the current context"
    );
    let create = MemoryOperation::Create {
        scope: MemoryScope::Repository("other".into()),
        kind: "fact".into(),
        confidence: 1.0_f32.to_bits(),
        text: "t".into(),
        rationale: "r".into(),
        expires_at: None,
    };
    assert_eq!(
        failed(validate_access(model, &create, "repo", &session, &Ok(None))),
        "memory tool cannot create outside its current scope"
    );
    assert_eq!(
        failed(accept_memory_request(ActorType::User, "memory.list", &read(), "repo", &session, &Ok(None))),
        "memory operation action does not match its validated content"
    );
    assert!(accept_memory_request(ActorType::User, "memory.read", &read(), "repo", &session, &Ok(None)).is_ok());
}

#[test]
fn listings_are_narrowed_for_models() {
    let records = || {
        vec![
            MemoryRecord { scope: MemoryScope::Global, document: "a".into() },
            MemoryRecord { scope: MemoryScope::Session("s2".into()), document: "b".into() },
            MemoryRecord { scope: MemoryScope::Repository("repo".into()), document: "c".into() },
        ]
    };
    let session = Some("s1".to_owned());
    let shown = released_records(ActorType::Model, records(), "repo", &session, 10);
    let documents: Vec<String> = shown.into_iter().map(|record| record.document).collect();
    assert_eq!(documents, vec!["a", "c"]);
    assert_eq!(released_records(ActorType::Model, records(), "repo", &session, 1).len(), 1);
    assert_eq!(released_records(ActorType::User, records(), "repo", &session, 1).len(), 3);
    assert_eq!((fetch_limit(ActorType::Model, 5), fetch_limit(ActorType::User, 5)), (1_000, 5));
}

#[test]
fn retrievals_are_bounded_and_accepted() {
    let retrieval = plan_retrieval("query", "s1", "repo", 50, 8);
    assert_eq!(retrieval.plan.resource, "session:s1");
    assert!(matches!(retrieval.operation, MemoryOperation::Search { limit: 8, .. }));
    let session = Some("s1".to_owned());
    assert!(accept_memory_request(
        ActorType::Model,
        &retrieval.plan.action,
        &retrieval.operation,
        "repo",
        &session,
        &Ok(None)
    )
    .is_ok());
    assert!(settle_retrieval(&GatewayError::Denied("no".into())).is_ok());
    assert!(settle_retrieval(&GatewayError::Approval("no".into())).is_ok());
    assert!(matches!(
        settle_retrieval(&GatewayError::Execution("broken".into())),
        Err(StoreError::Adapter(text)) if text == "memory retrieval failed: broken"
    ));
    assert_eq!(operation_session(&retrieval.operation, &None), session);
    assert_eq!(operation_session(&read(), &Some(MemoryScope::Session("s2".into()))), Some("s2".to_owned()));
    assert_eq!(operation_session(&read(), &Some(MemoryScope::Global)), None);
}

#[test]
fn memory_resources_show_their_scope() {
    let create = MemoryOperation::Create {
        scope: MemoryScope::Session("a\"b".into()),
        kind: "fact".into(),
        confidence: 0,
        text: String::new(),
        rationale: String::new(),
        expires_at: None,
    };
    assert_eq!(create.resource(), "memory-scope:Session(\"a\\\"b\")");
    assert_eq!(create.action(), "memory.create");
}

#[test]
fn delegated_work_is_waited_for() {
    let state = schedule(Scheduling::Running, ScheduleEvent::<u8>::Notified);
    let state = schedule(state, ScheduleEvent::RunEnded(Ok(7)));
    assert!(matches!(state, Scheduling::Settling(_)));
    let state = schedule(state, ScheduleEvent::Drained(Ok(())));
    assert!(matches!(state, Scheduling::Done(Ok(7))));
    let broken = schedule(Scheduling::<u8>::Draining, ScheduleEvent::Drained(Err(RuntimeError::Config("d".into()))));
    assert!(matches!(broken, Scheduling::Done(Err(RuntimeError::Config(text))) if text == "d"));
    let lost = schedule(Scheduling::<u8>::Running, ScheduleEvent::Disconnected);
    assert!(matches!(
        lost,
        Scheduling::Done(Err(RuntimeError::Config(text)))
            if text == "subagent scheduling notification channel disconnected"
    ));
    assert!(matches!(schedule(Scheduling::<u8>::Draining, ScheduleEvent::Drained(Ok(()))), Scheduling::Running));
}

#[test]
fn observer_failure_waits_for_scheduled_work_to_settle() {
    let refused = ModelProviderError { message: "observer failure".into(), outcome_unknown: false, response: None };
    let mut state = forward(Forwarding::<()>::Forward, ForwardEvent::Refused(refused));
    for _ in 0..3 {
        state = forward(state, ForwardEvent::Observed);
        assert!(matches!(state, Forwarding::Discard(_)));
    }
    let state = forward(state, ForwardEvent::Ended(Err(RuntimeError::Config("scheduled failure".into()))));
    assert!(matches!(
        state,
        Forwarding::Done(Err(RuntimeError::Agent(colossus_runtime::error::AgentError::Provider { error, .. })))
            if error.message == "observer failure"
    ));
    let flushed = forward(forward(Forwarding::Forward, ForwardEvent::Ended(Ok(5_u8))), ForwardEvent::Emptied);
    assert!(matches!(flushed, Forwarding::Done(Ok(5))));
    let closed = forward(Forwarding::<u8>::Forward, ForwardEvent::Closed);
    assert!(matches!(closed, Forwarding::Discard(error) if error.message == "runtime event channel disconnected"));
}

#[test]
fn secrets_are_thirty_two_bytes() {
    let hex = Some("0aFF".repeat(16));
    assert_eq!(explicit_secret("KEY", &hex).expect("hex")[..2], [0x0a, 0xff]);
    let base64 = Some("AAECAwQFBgcICQoLDA0ODxAREhMUFRYXGBkaGxwdHh8=".to_owned());
    assert_eq!(explicit_secret("KEY", &base64).expect("base64"), (0..32).collect::<Vec<u8>>());
    assert_eq!(
        explicit_secret("KEY", &None).expect_err("unset").shown(),
        "configuration error: environment variable KEY is unset"
    );
    assert_eq!(
        explicit_secret("KEY", &Some("?".into())).expect_err("neither").shown(),
        "configuration error: environment variable KEY must be hex or base64"
    );
    assert_eq!(
        explicit_secret("KEY", &Some("00".into())).expect_err("short").shown(),
        "configuration error: environment variable KEY must decode to exactly 32 bytes"
    );
}

#[test]
fn vaults_belong_to_their_directory() {
    let one = oauth_vault_scope(true, &Some("/home/user/.colossus".into())).expect("scope");
    assert_eq!(one, oauth_vault_scope(true, &Some("/home/user/.colossus".into())).expect("same directory"));
    assert!(one.starts_with("runtime-oauth-"));
    assert_eq!(one.len(), "runtime-oauth-".len() + 64);
    assert_ne!(one, oauth_vault_scope(true, &Some("/home/other/.colossus".into())).expect("another directory"));
    assert_eq!(
        oauth_vault_scope(false, &Some("/home".into())).expect_err("unprepared").shown(),
        "configuration error: protected OAuth credential vault is unavailable"
    );
    assert!(oauth_vault_scope(true, &None).is_err());
    assert_eq!(vault_check(Platform::Linux, "/home/a/", &Some("/home/a".into())), VaultCheck::Home);
    assert_eq!(vault_check(Platform::Linux, "/home/a/b", &Some("/home/a".into())), VaultCheck::Directory);
    assert_eq!(vault_check(Platform::Linux, "/home/a", &None), VaultCheck::Unchecked);
}

#[test]
fn files_of_one_directory_reopen_one_vault() {
    let found = || VaultFindings {
        is_directory: true,
        home_valid: true,
        directory_valid: false,
        canonical: Some("/private/state".into()),
    };
    let home = Some("/state".to_owned());
    let one = platform_oauth_vault_binding(Platform::Linux, &home, "/state/a.redb", &found()).expect("one");
    let two = platform_oauth_vault_binding(Platform::Linux, &home, "/state/b.json", &found()).expect("two");
    let bare = platform_oauth_vault_binding(Platform::Linux, &None, "/state/c", &found()).expect("no home");
    assert_eq!(one, two);
    assert_eq!(one, bare);
    assert_eq!(one.0, "/state");
    let elsewhere = VaultFindings { canonical: Some("/private/other".into()), ..found() };
    assert_ne!(one.1, platform_oauth_vault_binding(Platform::Linux, &None, "/other/a", &elsewhere).expect("other").1);
    let missing = VaultFindings { is_directory: false, ..found() };
    for (home, path, found) in [(&home, "/state/a", &missing), (&home, "/other/a", &found()), (&None, "/", &found())] {
        assert_eq!(
            platform_oauth_vault_binding(Platform::Linux, home, path, found).expect_err("unavailable").shown(),
            "configuration error: protected OAuth credential vault is unavailable"
        );
    }
}
