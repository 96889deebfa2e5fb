use colossus_runtime::operations::{MemoryOperation, MemoryScope, PlanStep, TaskStatus, WorkOperation};
use colossus_runtime::tools::{ExecutionContext, TextArgument, ToolError};
use colossus_runtime::work_tools::{may_delegate, plan_work, WorkArguments, WorkEffect};

fn absent(name: &str) -> TextArgument {
    TextArgument::Absent(ToolError::InvalidArguments { tool: "tool".into(), message: format!("{name} is required") })
}

fn present(text: &str) -> TextArgument {
    TextArgument::Present(text.into())
}

fn arguments() -> WorkArguments {
    WorkArguments {
        id: absent("id"),
        title: absent("title"),
        description: absent("description"),
        decision: absent("decision"),
        intent: absent("intent"),
        applies_when: absent("applies_when"),
        rationale: absent("rationale"),
        source_excerpt: absent("source_excerpt"),
        task: absent("task"),
        summary: absent("summary"),
        blocked_reason: absent("blocked_reason"),
        prompt: absent("prompt"),
        content: absent("content"),
        scope: absent("scope"),
        kind: absent("kind"),
        text: absent("text"),
        expires_at: absent("expires_at"),
        query: absent("query"),
        task_status: Ok(None),
        decision_status: Ok(None),
        subagent_status: Ok(None),
        goal_status: Ok(None),
        memory_status: Ok(None),
        priority: Ok(None),
        confidence: Ok(None),
        list_limit: Ok(50),
        search_limit: Ok(10),
        steps: Ok(Vec::new()),
    }
}

fn context() -> ExecutionContext {
    ExecutionContext {
        correlation_id: "correlation".into(),
        session_id: Some("session".into()),
        run_id: Some("run".into()),
        subagent_id: None,
        goal_id: None,
        draft_plan_id: None,
        draft_plan_revision: None,
        offered_tools: vec!["task.create".into()],
        skill_ids: Vec::new(),
    }
}

fn plan(name: &str, context: &ExecutionContext, args: &WorkArguments) -> Result<WorkEffect, ToolError> {
    plan_work(name, &"call".to_owned(), context, args, &Ok(Some("snapshot".into())), &"repository".to_owned())
}

#[test]
fn tasks_are_created_in_their_session() {
    let mut args = arguments();
    args.title = present("write");
    assert!(matches!(
        plan("task.create", &context(), &args),
        Ok(WorkEffect::Work(WorkOperation::TaskCreate { session_id, title, description, status: TaskStatus::Pending }))
            if session_id == "session" && title == "write" && description.is_empty()
    ));
    assert!(matches!(
        plan("task.create", &context(), &arguments()),
        Err(ToolError::InvalidArguments { message, .. }) if message == "title is required"
    ));
    let mut nowhere = context();
    nowhere.session_id = None;
    assert!(matches!(plan("task.create", &nowhere, &args), Err(ToolError::Denied(_))));
    assert!(matches!(plan("task.unknown", &context(), &args), Err(ToolError::Unknown(name)) if name == "task.unknown"));
}

#[test]
fn plans_are_updated_only_at_their_bound_revision() {
    let mut args = arguments();
    args.content = present("# Plan");
    args.steps = Ok(vec![PlanStep { definition: "{}".into() }]);
    assert!(matches!(
        plan("plan.update", &context(), &args),
        Err(ToolError::Denied(text)) if text == "plan.update requires a runtime-bound Plan Mode draft target"
    ));
    let mut bound = context();
    bound.draft_plan_id = Some("plan-1".into());
    assert!(matches!(
        plan("plan.update", &bound, &args),
        Err(ToolError::Denied(text)) if text == "plan.update requires a runtime-bound draft revision"
    ));
    bound.draft_plan_revision = Some(4);
    assert!(matches!(
        plan("plan.update", &bound, &args),
        Ok(WorkEffect::Work(WorkOperation::PlanUpdate { id, expected_revision: 4, .. })) if id == "plan-1"
    ));
}

#[test]
fn goals_are_seen_only_while_they_run() {
    assert!(matches!(plan("goal.show", &context(), &arguments()), Err(ToolError::Denied(_))));
    let mut running = context();
    running.goal_id = Some("goal-1".into());
    assert!(plan("goal.show", &running, &arguments()).is_ok());
    assert!(matches!(
        plan("goal.update", &running, &arguments()),
        Err(ToolError::InvalidArguments { message, .. }) if message == "status is required"
    ));
}

#[test]
fn memories_name_a_known_scope() {
    let create = |scope: TextArgument| {
        let mut args = arguments();
        args.scope = scope;
        args.kind = present("fact");
        args.text = present("remember");
        plan("memory.create", &context(), &args)
    };
    assert!(matches!(
        create(present("repository")),
        Ok(WorkEffect::Memory(MemoryOperation::Create { scope: MemoryScope::Repository(id), .. })) if id == "repository"
    ));
    assert!(matches!(
        create(present("global")),
        Ok(WorkEffect::Memory(MemoryOperation::Create { scope: MemoryScope::Global, .. }))
    ));
    assert!(matches!(
        create(present("planet")),
        Err(ToolError::InvalidArguments { message, .. }) if message == "unknown memory scope planet"
    ));
    let mut args = arguments();
    args.query = present("words");
    assert!(matches!(
        plan("memory.search", &context(), &args),
        Ok(WorkEffect::Memory(MemoryOperation::Search { session_id: Some(session), limit: 10, .. }))
            if session == "session"
    ));
}

#[test]
fn only_top_level_runs_delegate() {
    assert!(matches!(may_delegate(&context()), Ok((session, run)) if session == "session" && run == "run"));
    let mut child = context();
    child.subagent_id = Some("agent".into());
    assert!(matches!(
        may_delegate(&child),
        Err(ToolError::Denied(text)) if text == "subagents cannot delegate recursively"
    ));
    let mut idle = context();
    idle.run_id = None;
    assert!(matches!(
        may_delegate(&idle),
        Err(ToolError::Denied(text)) if text == "agent.delegate requires a parent run"
    ));
    let mut args = arguments();
    args.task = present("inspect");
    assert!(plan("agent.delegate", &context(), &args).is_ok());
    assert!(plan("agent.delegate", &child, &args).is_err());
}
