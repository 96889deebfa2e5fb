//! The tools that keep durable work: tasks, decisions, child agents, goals, plans and memory.

use crate::operations::{
    memory_action, work_action, DecisionPriority, DecisionSource, GoalStatus, MemoryOperation, MemoryScope, PlanStep,
    SubagentStatus, TaskStatus, WorkOperation,
};
use crate::text::{clone_texts, concat2, same_text};
use crate::tools::{
    current_session, denied, first, forwarded, given, given_or_empty, invalid, optional_refusal, refuse_if, refuses,
    required_refusal, session_refusal, ExecutionContext, Refusal, TextArgument, ToolError,
};
use vstd::prelude::*;
use vstd::string::*;

verus! {

/// A tool that keeps durable work.
#[derive(Clone, Copy, Debug, PartialEq, Eq, Structural)]
pub enum WorkTool {
    TaskCreate,
    TaskUpdate,
    TaskList,
    DecisionCreate,
    DecisionUpdate,
    DecisionList,
    DecisionArchive,
    DecisionSupersede,
    AgentDelegate,
    AgentResult,
    AgentList,
    GoalShow,
    GoalUpdate,
    PlanCreate,
    PlanUpdate,
    PlanShow,
    PlanApproveRequest,
    MemoryCreate,
    MemoryUpdate,
    MemoryList,
    MemorySearch,
    MemoryArchive,
    MemorySupersede,
}

/// The tool of a name.
pub open spec fn work_tool(name: Seq<char>) -> Option<WorkTool> {
    if name == "task.create"@ {
        Some(WorkTool::TaskCreate)
    } else if name == "task.update"@ {
        Some(WorkTool::TaskUpdate)
    } else if name == "task.list"@ {
        Some(WorkTool::TaskList)
    } else if name == "decision.create"@ {
        Some(WorkTool::DecisionCreate)
    } else if name == "decision.update"@ {
        Some(WorkTool::DecisionUpdate)
    } else if name == "decision.list"@ {
        Some(WorkTool::DecisionList)
    } else if name == "decision.archive"@ {
        Some(WorkTool::DecisionArchive)
    } else if name == "decision.supersede"@ {
        Some(WorkTool::DecisionSupersede)
    } else if name == "agent.delegate"@ {
        Some(WorkTool::AgentDelegate)
    } else if name == "agent.result"@ {
        Some(WorkTool::AgentResult)
    } else if name == "agent.list"@ {
        Some(WorkTool::AgentList)
    } else if name == "goal.show"@ {
        Some(WorkTool::GoalShow)
    } else if name == "goal.update"@ {
        Some(WorkTool::GoalUpdate)
    } else if name == "plan.create"@ {
        Some(WorkTool::PlanCreate)
    } else if name == "plan.update"@ {
        Some(WorkTool::PlanUpdate)
    } else if name == "plan.show"@ {
        Some(WorkTool::PlanShow)
    } else if name == "plan.approve_request"@ {
        Some(WorkTool::PlanApproveRequest)
    } else if name == "memory.create"@ {
        Some(WorkTool::MemoryCreate)
    } else if name == "memory.update"@ {
        Some(WorkTool::MemoryUpdate)
    } else if name == "memory.list"@ {
        Some(WorkTool::MemoryList)
    } else if name == "memory.search"@ {
        Some(WorkTool::MemorySearch)
    } else if name == "memory.archive"@ {
        Some(WorkTool::MemoryArchive)
    } else if name == "memory.supersede"@ {
        Some(WorkTool::MemorySupersede)
    } else {
        None
    }
}

impl WorkTool {
    /// The tool of a name.
    pub fn from_name(name: &str) -> (tool: Option<WorkTool>)
        ensures
            tool == work_tool(name@),
    {
        if same_text(name, "task.create") {
            Some(WorkTool::TaskCreate)
        } else if same_text(name, "task.update") {
            Some(WorkTool::TaskUpdate)
        } else if same_text(name, "task.list") {
            Some(WorkTool::TaskList)
        } else if same_text(name, "decision.create") {
            Some(WorkTool::DecisionCreate)
        } else if same_text(name, "decision.update") {
            Some(WorkTool::DecisionUpdate)
        } else if same_text(name, "decision.list") {
            Some(WorkTool::DecisionList)
        } else if same_text(name, "decision.archive") {
            Some(WorkTool::DecisionArchive)
        } else if same_text(name, "decision.supersede") {
            Some(WorkTool::DecisionSupersede)
        } else if same_text(name, "agent.delegate") {
            Some(WorkTool::AgentDelegate)
        } else if same_text(name, "agent.result") {
            Some(WorkTool::AgentResult)
        } else if same_text(name, "agent.list") {
            Some(WorkTool::AgentList)
        } else if same_text(name, "goal.show") {
            Some(WorkTool::GoalShow)
        } else if same_text(name, "goal.update") {
            Some(WorkTool::GoalUpdate)
        } else if same_text(name, "plan.create") {
            Some(WorkTool::PlanCreate)
        } else if same_text(name, "plan.update") {
            Some(WorkTool::PlanUpdate)
        } else if same_text(name, "plan.show") {
            Some(WorkTool::PlanShow)
        } else if same_text(name, "plan.approve_request") {
            Some(WorkTool::PlanApproveRequest)
        } else if same_text(name, "memory.create") {
            Some(WorkTool::MemoryCreate)
        } else if same_text(name, "memory.update") {
            Some(WorkTool::MemoryUpdate)
        } else if same_text(name, "memory.list") {
            Some(WorkTool::MemoryList)
        } else if same_text(name, "memory.search") {
            Some(WorkTool::MemorySearch)
        } else if same_text(name, "memory.archive") {
            Some(WorkTool::MemoryArchive)
        } else if same_text(name, "memory.supersede") {
            Some(WorkTool::MemorySupersede)
        } else {
            None
        }
    }
}

/// The bit pattern of the single-precision number one: full confidence.
pub const FULL_CONFIDENCE: u32 = 0x3f80_0000;

/// The arguments of a call, as they were read: texts, and what the call's values were parsed to.
#[derive(Debug)]
pub struct WorkArguments {
    pub id: TextArgument,
    pub title: TextArgument,
    pub description: TextArgument,
    pub decision: TextArgument,
    pub intent: TextArgument,
    pub applies_when: TextArgument,
    pub rationale: TextArgument,
    pub source_excerpt: TextArgument,
    pub task: TextArgument,
    pub summary: TextArgument,
    pub blocked_reason: TextArgument,
    pub prompt: TextArgument,
    pub content: TextArgument,
    pub scope: TextArgument,
    pub kind: TextArgument,
    pub text: TextArgument,
    pub expires_at: TextArgument,
    pub query: TextArgument,
    /// `status` as a task status.
    pub task_status: Result<Option<TaskStatus>, ToolError>,
    /// `status` as a decision status, by its name.
    pub decision_status: Result<Option<String>, ToolError>,
    /// `status` as a child-agent status.
    pub subagent_status: Result<Option<SubagentStatus>, ToolError>,
    /// `status` as a goal status.
    pub goal_status: Result<Option<GoalStatus>, ToolError>,
    /// `status` as a memory status, by its name.
    pub memory_status: Result<Option<String>, ToolError>,
    /// `priority`.
    pub priority: Result<Option<DecisionPriority>, ToolError>,
    /// `confidence`, as the bit pattern of its single-precision number.
    pub confidence: Result<Option<u32>, ToolError>,
    /// `limit` of a listing: 100 where absent.
    pub list_limit: Result<usize, ToolError>,
    /// `limit` of a search: 20 where absent.
    pub search_limit: Result<usize, ToolError>,
    /// `steps`.
    pub steps: Result<Vec<PlanStep>, ToolError>,
}

/// What a call asks of the runtime.
#[derive(Debug)]
pub enum WorkEffect {
    Work(WorkOperation),
    Memory(MemoryOperation),
}

fn clone_reading<T: Copy>(reading: &Result<T, ToolError>) -> (copy: Result<T, ToolError>)
    ensures
        copy == *reading,
{
    match reading {
        Ok(value) => Ok(*value),
        Err(error) => Err(error.clone()),
    }
}

fn task_status(reading: &Result<Option<TaskStatus>, ToolError>) -> (copy: Result<Option<TaskStatus>, ToolError>)
    ensures
        copy == *reading,
{
    match reading {
        Ok(Some(status)) => Ok(Some(status.clone())),
        Ok(None) => Ok(None),
        Err(error) => Err(error.clone()),
    }
}

fn subagent_status(reading: &Result<Option<SubagentStatus>, ToolError>) -> (copy: Result<
    Option<SubagentStatus>,
    ToolError,
>)
    ensures
        copy == *reading,
{
    match reading {
        Ok(Some(status)) => Ok(Some(status.clone())),
        Ok(None) => Ok(None),
        Err(error) => Err(error.clone()),
    }
}

fn goal_status(reading: &Result<Option<GoalStatus>, ToolError>) -> (copy: Result<Option<GoalStatus>, ToolError>)
    ensures
        copy == *reading,
{
    match reading {
        Ok(Some(status)) => Ok(Some(status.clone())),
        Ok(None) => Ok(None),
        Err(error) => Err(error.clone()),
    }
}

fn status_name(reading: &Result<Option<String>, ToolError>) -> (copy: Result<Option<String>, ToolError>)
    ensures
        copy == *reading,
{
    match reading {
        Ok(Some(status)) => Ok(Some(status.clone())),
        Ok(None) => Ok(None),
        Err(error) => Err(error.clone()),
    }
}

fn priority(reading: &Result<Option<DecisionPriority>, ToolError>) -> (copy: Result<
    Option<DecisionPriority>,
    ToolError,
>)
    ensures
        copy == *reading,
{
    match reading {
        Ok(Some(priority)) => Ok(Some(priority.clone())),
        Ok(None) => Ok(None),
        Err(error) => Err(error.clone()),
    }
}

fn plan_steps(reading: &Result<Vec<PlanStep>, ToolError>) -> (copy: Result<Vec<PlanStep>, ToolError>)
    ensures
        match *reading {
            Ok(steps) => copy matches Ok(list) && list@ == steps@,
            Err(error) => copy == Err::<Vec<PlanStep>, ToolError>(error),
        },
{
    match reading {
        Ok(steps) => {
            let mut list: Vec<PlanStep> = Vec::new();
            let mut i: usize = 0;
            while i < steps.len()
                invariant
                    i <= steps@.len(),
                    list@ == steps@.take(i as int),
                decreases steps@.len() - i,
            {
                list.push(PlanStep { definition: steps[i].definition.clone() });
                proof {
                    assert(steps@.take(i + 1) =~= steps@.take(i as int).push(steps@[i as int]));
                }
                i = i + 1;
            }
            proof {
                assert(steps@.take(i as int) =~= steps@);
            }
            Ok(list)
        },
        Err(error) => Err(error.clone()),
    }
}

/// A scope that a memory can be created in.
pub open spec fn known_scope(scope: TextArgument) -> bool {
    scope matches TextArgument::Present(name) ==> name@ == "global"@ || name@ == "repository"@ || name@ == "session"@
}

/// The refusal of a call, in the order in which its context and arguments are looked at.
pub open spec fn work_refusal(
    tool: WorkTool,
    name: Seq<char>,
    context: ExecutionContext,
    args: WorkArguments,
    snapshot: Result<Option<String>, ToolError>,
) -> Option<Refusal> {
    match tool {
        WorkTool::TaskCreate => first(
            session_refusal(context),
            first(
                required_refusal(args.title),
                first(optional_refusal(args.description), forwarded(args.task_status)),
            ),
        ),
        WorkTool::TaskUpdate => first(
            required_refusal(args.id),
            first(
                optional_refusal(args.title),
                first(optional_refusal(args.description), forwarded(args.task_status)),
            ),
        ),
        WorkTool::TaskList => first(
            session_refusal(context),
            first(forwarded(args.task_status), forwarded(args.list_limit)),
        ),
        WorkTool::DecisionCreate => first(session_refusal(context), decision_refusal(args)),
        WorkTool::DecisionUpdate => first(
            required_refusal(args.id),
            first(
                optional_refusal(args.title),
                first(
                    optional_refusal(args.decision),
                    first(
                        forwarded(args.priority),
                        first(
                            optional_refusal(args.intent),
                            first(
                                optional_refusal(args.applies_when),
                                first(optional_refusal(args.rationale), optional_refusal(args.source_excerpt)),
                            ),
                        ),
                    ),
                ),
            ),
        ),
        WorkTool::DecisionList => first(
            session_refusal(context),
            first(forwarded(args.decision_status), forwarded(args.list_limit)),
        ),
        WorkTool::DecisionArchive => required_refusal(args.id),
        WorkTool::DecisionSupersede => first(required_refusal(args.id), decision_refusal(args)),
        WorkTool::AgentDelegate => first(
            delegation_refusal(context),
            first(forwarded(snapshot), required_refusal(args.task)),
        ),
        WorkTool::AgentResult => required_refusal(args.id),
        WorkTool::AgentList => first(
            session_refusal(context),
            first(forwarded(args.subagent_status), forwarded(args.list_limit)),
        ),
        WorkTool::GoalShow => refuse_if(
            context.goal_id is None,
            Refusal::Denied("goal.show is available only during an active goal run"@),
        ),
        WorkTool::GoalUpdate => first(
            refuse_if(
                context.goal_id is None,
                Refusal::Denied("goal.update is available only during an active goal run"@),
            ),
            first(
                forwarded(args.goal_status),
                first(
                    refuse_if(
                        args.goal_status->Ok_0 is None,
                        Refusal::Invalid(name, "status is required"@),
                    ),
                    first(optional_refusal(args.summary), optional_refusal(args.blocked_reason)),
                ),
            ),
        ),
        WorkTool::PlanCreate => first(
            session_refusal(context),
            first(
                required_refusal(args.prompt),
                first(optional_refusal(args.content), forwarded(args.steps)),
            ),
        ),
        WorkTool::PlanUpdate => first(
            refuse_if(
                context.draft_plan_id is None,
                Refusal::Denied("plan.update requires a runtime-bound Plan Mode draft target"@),
            ),
            first(
                refuse_if(
                    context.draft_plan_revision is None,
                    Refusal::Denied("plan.update requires a runtime-bound draft revision"@),
                ),
                first(required_refusal(args.content), forwarded(args.steps)),
            ),
        ),
        WorkTool::PlanShow => required_refusal(args.id),
        WorkTool::PlanApproveRequest => required_refusal(args.id),
        WorkTool::MemoryCreate => first(
            session_refusal(context),
            first(
                optional_refusal(args.scope),
                first(
                    refuse_if(
                        !known_scope(args.scope),
                        Refusal::Invalid(name, "unknown memory scope "@ + given_or_empty(args.scope)),
                    ),
                    first(
                        required_refusal(args.kind),
                        first(
                            forwarded(args.confidence),
                            first(
                                required_refusal(args.text),
                                first(optional_refusal(args.rationale), optional_refusal(args.expires_at)),
                            ),
                        ),
                    ),
                ),
            ),
        ),
        WorkTool::MemoryUpdate => first(
            required_refusal(args.id),
            first(
                optional_refusal(args.text),
                first(optional_refusal(args.rationale), forwarded(args.confidence)),
            ),
        ),
        WorkTool::MemoryList => first(
            session_refusal(context),
            first(forwarded(args.memory_status), forwarded(args.list_limit)),
        ),
        WorkTool::MemorySearch => first(
            session_refusal(context),
            first(required_refusal(args.query), forwarded(args.search_limit)),
        ),
        WorkTool::MemoryArchive => required_refusal(args.id),
        WorkTool::MemorySupersede => first(
            required_refusal(args.id),
            first(required_refusal(args.text), optional_refusal(args.rationale)),
        ),
    }
}

/// The refusal of the arguments of a decision.
pub open spec fn decision_refusal(args: WorkArguments) -> Option<Refusal> {
    first(
        required_refusal(args.title),
        first(
            required_refusal(args.decision),
            first(
                forwarded(args.priority),
                first(
                    optional_refusal(args.intent),
                    first(
                        optional_refusal(args.applies_when),
                        first(optional_refusal(args.rationale), optional_refusal(args.source_excerpt)),
                    ),
                ),
            ),
        ),
    )
}

/// The refusal of a delegation by its context: a child agent never delegates, and a parent run in a
/// session is needed.
pub open spec fn delegation_refusal(context: ExecutionContext) -> Option<Refusal> {
    first(
        refuse_if(context.subagent_id is Some, Refusal::Denied("subagents cannot delegate recursively"@)),
        first(
            session_refusal(context),
            refuse_if(context.run_id is None, Refusal::Denied("agent.delegate requires a parent run"@)),
        ),
    )
}

/// Whether a delegation may go on to keep the parent's instructions: its session and parent run.
pub fn may_delegate(context: &ExecutionContext) -> (result: Result<(String, String), ToolError>)
    ensures
        match delegation_refusal(*context) {
            Some(refusal) => refuses(result, refusal),
            None => result == Ok::<(String, String), ToolError>((context.session_id->0, context.run_id->0)),
        },
{
    if context.subagent_id.is_some() {
        return denied("subagents cannot delegate recursively");
    }
    let session = current_session(context)?;
    match &context.run_id {
        Some(run) => Ok((session, run.clone())),
        None => denied("agent.delegate requires a parent run"),
    }
}

/// The given value, else the other.
pub open spec fn value_or<T>(reading: Result<Option<T>, ToolError>, other: T) -> T {
    match reading {
        Ok(Some(value)) => value,
        _ => other,
    }
}

/// The scope that a memory is created in: the session unless another is named.
pub open spec fn created_scope(scope: TextArgument, session: String, repository: String) -> MemoryScope {
    match scope {
        TextArgument::Present(name) => if name@ == "global"@ {
            MemoryScope::Global
        } else if name@ == "repository"@ {
            MemoryScope::Repository(repository)
        } else {
            MemoryScope::Session(session)
        },
        _ => MemoryScope::Session(session),
    }
}

/// The operation is exactly what the tool, its context and its arguments ask for.
pub open spec fn asks_for(
    effect: WorkEffect,
    tool: WorkTool,
    call_id: String,
    context: ExecutionContext,
    args: WorkArguments,
    snapshot: Result<Option<String>, ToolError>,
    repository: String,
) -> bool {
    match tool {
        WorkTool::TaskCreate => effect matches WorkEffect::Work(
            WorkOperation::TaskCreate { session_id, title, description, status },
        ) && session_id == context.session_id->0 && title == given(args.title)->0 && description@ == given_or_empty(
            args.description,
        ) && status == value_or(args.task_status, TaskStatus::Pending),
        WorkTool::TaskUpdate => effect == WorkEffect::Work(
            WorkOperation::TaskUpdate {
                id: given(args.id)->0,
                title: given(args.title),
                description: given(args.description),
                status: args.task_status->Ok_0,
            },
        ),
        WorkTool::TaskList => effect == WorkEffect::Work(
            WorkOperation::TaskList {
                session_id: context.session_id->0,
                status: args.task_status->Ok_0,
                limit: args.list_limit->Ok_0,
            },
        ),
        WorkTool::DecisionCreate => effect matches WorkEffect::Work(
            WorkOperation::DecisionCreate {
                session_id,
                title,
                decision,
                source,
                priority,
                intent,
                applies_when,
                rationale,
                source_excerpt,
            },
        ) && session_id == context.session_id->0 && title == given(args.title)->0 && decision == given(
            args.decision,
        )->0 && source == DecisionSource::Agent && priority == value_or(args.priority, DecisionPriority::Normal)
            && intent@ == given_or_empty(args.intent) && applies_when@ == given_or_empty(args.applies_when)
            && rationale@ == given_or_empty(args.rationale) && source_excerpt@ == given_or_empty(args.source_excerpt),
        WorkTool::DecisionUpdate => effect == WorkEffect::Work(
            WorkOperation::DecisionUpdate {
                id: given(args.id)->0,
                title: given(args.title),
                decision: given(args.decision),
                priority: args.priority->Ok_0,
                intent: given(args.intent),
                applies_when: given(args.applies_when),
                rationale: given(args.rationale),
                source_excerpt: given(args.source_excerpt),
            },
        ),
        WorkTool::DecisionList => effect == WorkEffect::Work(
            WorkOperation::DecisionList {
                session_id: context.session_id->0,
                status: args.decision_status->Ok_0,
                limit: args.list_limit->Ok_0,
            },
        ),
        WorkTool::DecisionArchive => effect == WorkEffect::Work(
            WorkOperation::DecisionArchive { id: given(args.id)->0 },
        ),
        WorkTool::DecisionSupersede => effect matches WorkEffect::Work(
            WorkOperation::DecisionSupersede {
                id,
                title,
                decision,
                source,
                priority,
                intent,
                applies_when,
                rationale,
                source_excerpt,
            },
        ) && id == given(args.id)->0 && title == given(args.title)->0 && decision == given(args.decision)->0 && source
            == DecisionSource::Agent && priority == value_or(args.priority, DecisionPriority::Normal) && intent@
            == given_or_empty(args.intent) && applies_when@ == given_or_empty(args.applies_when) && rationale@
            == given_or_empty(args.rationale) && source_excerpt@ == given_or_empty(args.source_excerpt),
        WorkTool::AgentDelegate => effect matches WorkEffect::Work(
            WorkOperation::SubagentCreate {
                session_id,
                parent_run_id,
                parent_call_id,
                task,
                role,
                allowed_tools,
                instruction_snapshot_id,
            },
        ) && session_id == context.session_id->0 && parent_run_id == context.run_id->0 && parent_call_id == call_id
            && task == given(args.task)->0 && role@ == "subagent_default"@ && (allowed_tools matches Some(tools)
            && tools@ == context.offered_tools@) && instruction_snapshot_id == snapshot->Ok_0,
        WorkTool::AgentResult => effect == WorkEffect::Work(WorkOperation::SubagentRead { id: given(args.id)->0 }),
        WorkTool::AgentList => effect == WorkEffect::Work(
            WorkOperation::SubagentList {
                session_id: context.session_id->0,
                status: args.subagent_status->Ok_0,
                limit: args.list_limit->Ok_0,
            },
        ),
        WorkTool::GoalShow => effect == WorkEffect::Work(WorkOperation::GoalShow { id: context.goal_id->0 }),
        WorkTool::GoalUpdate => effect matches WorkEffect::Work(
            WorkOperation::GoalUpdate { id, status, summary, blocked_reason },
        ) && id == context.goal_id->0 && Some(status) == args.goal_status->Ok_0 && summary@ == given_or_empty(
            args.summary,
        ) && blocked_reason@ == given_or_empty(args.blocked_reason),
        WorkTool::PlanCreate => effect matches WorkEffect::Work(
            WorkOperation::PlanCreate { session_id, prompt, content, steps },
        ) && session_id == context.session_id->0 && prompt == given(args.prompt)->0 && content@ == given_or_empty(
            args.content,
        ) && steps@ == args.steps->Ok_0@,
        WorkTool::PlanUpdate => effect matches WorkEffect::Work(
            WorkOperation::PlanUpdate { id, expected_revision, content, steps },
        ) && id == context.draft_plan_id->0 && expected_revision == context.draft_plan_revision->0 && content == given(
            args.content,
        )->0 && steps@ == args.steps->Ok_0@,
        WorkTool::PlanShow => effect == WorkEffect::Work(WorkOperation::PlanShow { id: given(args.id)->0 }),
        WorkTool::PlanApproveRequest => effect == WorkEffect::Work(
            WorkOperation::PlanApprove { id: given(args.id)->0 },
        ),
        WorkTool::MemoryCreate => effect matches WorkEffect::Memory(
            MemoryOperation::Create { scope, kind, confidence, text, rationale, expires_at },
        ) && scope == created_scope(args.scope, context.session_id->0, repository) && kind == given(args.kind)->0
            && confidence == value_or(args.confidence, FULL_CONFIDENCE) && text == given(args.text)->0 && rationale@
            == given_or_empty(args.rationale) && expires_at == given(args.expires_at),
        WorkTool::MemoryUpdate => effect == WorkEffect::Memory(
            MemoryOperation::Update {
                id: given(args.id)->0,
                text: given(args.text),
                rationale: given(args.rationale),
                confidence: args.confidence->Ok_0,
            },
        ),
        WorkTool::MemoryList => effect == WorkEffect::Memory(
            MemoryOperation::List {
                status: args.memory_status->Ok_0,
                limit: args.list_limit->Ok_0,
                session_id: context.session_id,
                repository_id: Some(repository),
            },
        ),
        WorkTool::MemorySearch => effect == WorkEffect::Memory(
            MemoryOperation::Search {
                query: given(args.query)->0,
                session_id: context.session_id,
                repository_id: Some(repository),
                limit: args.search_limit->Ok_0,
            },
        ),
        WorkTool::MemoryArchive => effect == WorkEffect::Memory(MemoryOperation::Archive { id: given(args.id)->0 }),
        WorkTool::MemorySupersede => effect matches WorkEffect::Memory(
            MemoryOperation::Supersede { id, text, rationale },
        ) && id == given(args.id)->0 && text == given(args.text)->0 && rationale@ == given_or_empty(args.rationale),
    }
}

/// The parts of a decision as a tool states it.
struct DecisionParts {
    title: String,
    decision: String,
    priority: DecisionPriority,
    intent: String,
    applies_when: String,
    rationale: String,
    source_excerpt: String,
}

fn decision_parts(args: &WorkArguments) -> (result: Result<DecisionParts, ToolError>)
    ensures
        match decision_refusal(*args) {
            Some(refusal) => refuses(result, refusal),
            None => result matches Ok(parts) && parts.title == given(args.title)->0 && parts.decision == given(
                args.decision,
            )->0 && parts.priority == value_or(args.priority, DecisionPriority::Normal) && parts.intent@
                == given_or_empty(args.intent) && parts.applies_when@ == given_or_empty(args.applies_when)
                && parts.rationale@ == given_or_empty(args.rationale) && parts.source_excerpt@ == given_or_empty(
                args.source_excerpt,
            ),
        },
{
    let title = args.title.required()?;
    let decision = args.decision.required()?;
    let priority = match priority(&args.priority)? {
        Some(priority) => priority,
        None => DecisionPriority::Normal,
    };
    let intent = args.intent.or_empty()?;
    let applies_when = args.applies_when.or_empty()?;
    let rationale = args.rationale.or_empty()?;
    let source_excerpt = args.source_excerpt.or_empty()?;
    Ok(DecisionParts { title, decision, priority, intent, applies_when, rationale, source_excerpt })
}

fn memory_scope(name: &str, scope: &TextArgument, session: String, repository: &String) -> (result: Result<
    MemoryScope,
    ToolError,
>)
    ensures
        match first(
            optional_refusal(*scope),
            refuse_if(
                !known_scope(*scope),
                Refusal::Invalid(name@, "unknown memory scope "@ + given_or_empty(*scope)),
            ),
        ) {
            Some(refusal) => refuses(result, refusal),
            None => result == Ok::<MemoryScope, ToolError>(created_scope(*scope, session, *repository)),
        },
{
    match scope.optional()? {
        None => Ok(MemoryScope::Session(session)),
        Some(value) => if same_text(value.as_str(), "global") {
            Ok(MemoryScope::Global)
        } else if same_text(value.as_str(), "repository") {
            Ok(MemoryScope::Repository(repository.clone()))
        } else if same_text(value.as_str(), "session") {
            Ok(MemoryScope::Session(session))
        } else {
            let message = concat2("unknown memory scope ", value.as_str());
            invalid(name, message.as_str())
        },
    }
}

/// The operation of a task, decision, agent, goal or plan tool.
fn work_operation(
    tool: WorkTool,
    name: &str,
    call_id: &String,
    context: &ExecutionContext,
    args: &WorkArguments,
    snapshot: &Result<Option<String>, ToolError>,
    repository: &String,
) -> (result: Result<WorkEffect, ToolError>)
    requires
        !is_memory_tool(tool),
    ensures
        match work_refusal(tool, name@, *context, *args, *snapshot) {
            Some(refusal) => refuses(result, refusal),
            None => result matches Ok(effect) && asks_for(
                effect,
                tool,
                *call_id,
                *context,
                *args,
                *snapshot,
                *repository,
            ),
        },
{
    let operation = match tool {
        WorkTool::TaskCreate => {
            let session_id = current_session(context)?;
            let title = args.title.required()?;
            let description = args.description.or_empty()?;
            let status = match task_status(&args.task_status)? {
                Some(status) => status,
                None => TaskStatus::Pending,
            };
            WorkOperation::TaskCreate { session_id, title, description, status }
        },
        WorkTool::TaskUpdate => {
            let id = args.id.required()?;
            let title = args.title.optional()?;
            let description = args.description.optional()?;
            let status = task_status(&args.task_status)?;
            WorkOperation::TaskUpdate { id, title, description, status }
        },
        WorkTool::TaskList => {
            let session_id = current_session(context)?;
            let status = task_status(&args.task_status)?;
            let limit: usize = clone_reading(&args.list_limit)?;
            WorkOperation::TaskList { session_id, status, limit }
        },
        WorkTool::DecisionCreate => {
            let session_id = current_session(context)?;
            let parts = decision_parts(args)?;
            WorkOperation::DecisionCreate {
                session_id,
                title: parts.title,
                decision: parts.decision,
                source: DecisionSource::Agent,
                priority: parts.priority,
                intent: parts.intent,
                applies_when: parts.applies_when,
                rationale: parts.rationale,
                source_excerpt: parts.source_excerpt,
            }
        },
        WorkTool::DecisionUpdate => {
            let id = args.id.required()?;
            let title = args.title.optional()?;
            let decision = args.decision.optional()?;
            let priority = priority(&args.priority)?;
            let intent = args.intent.optional()?;
            let applies_when = args.applies_when.optional()?;
            let rationale = args.rationale.optional()?;
            let source_excerpt = args.source_excerpt.optional()?;
            WorkOperation::DecisionUpdate {
                id,
                title,
                decision,
                priority,
                intent,
                applies_when,
                rationale,
                source_excerpt,
            }
        },
        WorkTool::DecisionList => {
            let session_id = current_session(context)?;
            let status = status_name(&args.decision_status)?;
            let limit: usize = clone_reading(&args.list_limit)?;
            WorkOperation::DecisionList { session_id, status, limit }
        },
        WorkTool::DecisionArchive => {
            let id = args.id.required()?;
            WorkOperation::DecisionArchive { id }
        },
        WorkTool::DecisionSupersede => {
            let id = args.id.required()?;
            let parts = decision_parts(args)?;
            WorkOperation::DecisionSupersede {
                id,
                title: parts.title,
                decision: parts.decision,
                source: DecisionSource::Agent,
                priority: parts.priority,
                intent: parts.intent,
                applies_when: parts.applies_when,
                rationale: parts.rationale,
                source_excerpt: parts.source_excerpt,
            }
        },
        WorkTool::AgentDelegate => {
            let (session_id, parent_run_id) = may_delegate(context)?;
            let instruction_snapshot_id = status_name(snapshot)?;
            let task = args.task.required()?;
            WorkOperation::SubagentCreate {
                session_id,
                parent_run_id,
                parent_call_id: call_id.clone(),
                task,
                role: "subagent_default".to_owned(),
                allowed_tools: Some(clone_texts(&context.offered_tools)),
                instruction_snapshot_id,
            }
        },
        WorkTool::AgentResult => {
            let id = args.id.required()?;
            WorkOperation::SubagentRead { id }
        },
        WorkTool::AgentList => {
            let session_id = current_session(context)?;
            let status = subagent_status(&args.subagent_status)?;
            let limit: usize = clone_reading(&args.list_limit)?;
            WorkOperation::SubagentList { session_id, status, limit }
        },
        WorkTool::GoalShow => match &context.goal_id {
            Some(id) => WorkOperation::GoalShow { id: id.clone() },
            None => {
                return denied("goal.show is available only during an active goal run");
            },
        },
        WorkTool::GoalUpdate => match &context.goal_id {
            Some(id) => {
                let status = match goal_status(&args.goal_status)? {
                    Some(status) => status,
                    None => {
                        return invalid(name, "status is required");
                    },
                };
                let summary = args.summary.or_empty()?;
                let blocked_reason = args.blocked_reason.or_empty()?;
                WorkOperation::GoalUpdate { id: id.clone(), status, summary, blocked_reason }
            },
            None => {
                return denied("goal.update is available only during an active goal run");
            },
        },
        WorkTool::PlanCreate => {
            let session_id = current_session(context)?;
            let prompt = args.prompt.required()?;
            let content = args.content.or_empty()?;
            let steps = plan_steps(&args.steps)?;
            WorkOperation::PlanCreate { session_id, prompt, content, steps }
        },
        WorkTool::PlanUpdate => match &context.draft_plan_id {
            Some(id) => match context.draft_plan_revision {
                Some(expected_revision) => {
                    let content = args.content.required()?;
                    let steps = plan_steps(&args.steps)?;
                    WorkOperation::PlanUpdate { id: id.clone(), expected_revision, content, steps }
                },
                None => {
                    return denied("plan.update requires a runtime-bound draft revision");
                },
            },
            None => {
                return denied("plan.update requires a runtime-bound Plan Mode draft target");
            },
        },
        WorkTool::PlanShow => {
            let id = args.id.required()?;
            WorkOperation::PlanShow { id }
        },
        _ => {
            let id = args.id.required()?;
            WorkOperation::PlanApprove { id }
        },
    };
    Ok(WorkEffect::Work(operation))
}

/// The tool is about memory.
pub open spec fn is_memory_tool(tool: WorkTool) -> bool {
    tool is MemoryCreate || tool is MemoryUpdate || tool is MemoryList || tool is MemorySearch || tool
        is MemoryArchive || tool is MemorySupersede
}

/// The operation of a memory tool.
fn memory_operation(
    tool: WorkTool,
    name: &str,
    call_id: &String,
    context: &ExecutionContext,
    args: &WorkArguments,
    snapshot: &Result<Option<String>, ToolError>,
    repository: &String,
) -> (result: Result<WorkEffect, ToolError>)
    requires
        is_memory_tool(tool),
    ensures
        match work_refusal(tool, name@, *context, *args, *snapshot) {
            Some(refusal) => refuses(result, refusal),
            None => result matches Ok(effect) && asks_for(
                effect,
                tool,
                *call_id,
                *context,
                *args,
                *snapshot,
                *repository,
            ),
        },
{
    let operation = match tool {
        WorkTool::MemoryCreate => {
            let session = current_session(context)?;
            let scope = memory_scope(name, &args.scope, session, repository)?;
            let kind = args.kind.required()?;
            let confidence: u32 = match clone_reading(&args.confidence)? {
                Some(confidence) => confidence,
                None => FULL_CONFIDENCE,
            };
            let text = args.text.required()?;
            let rationale = args.rationale.or_empty()?;
            let expires_at = args.expires_at.optional()?;
            MemoryOperation::Create { scope, kind, confidence, text, rationale, expires_at }
        },
        WorkTool::MemoryUpdate => {
            let id = args.id.required()?;
            let text = args.text.optional()?;
            let rationale = args.rationale.optional()?;
            let confidence: Option<u32> = clone_reading(&args.confidence)?;
            MemoryOperation::Update { id, text, rationale, confidence }
        },
        WorkTool::MemoryList => {
            let session = current_session(context)?;
            let status = status_name(&args.memory_status)?;
            let limit: usize = clone_reading(&args.list_limit)?;
            MemoryOperation::List {
                status,
                limit,
                session_id: Some(session),
                repository_id: Some(repository.clone()),
            }
        },
        WorkTool::MemorySearch => {
            let session = current_session(context)?;
            let query = args.query.required()?;
            let limit: usize = clone_reading(&args.search_limit)?;
            MemoryOperation::Search {
                query,
                session_id: Some(session),
                repository_id: Some(repository.clone()),
                limit,
            }
        },
        WorkTool::MemoryArchive => {
            let id = args.id.required()?;
            MemoryOperation::Archive { id }
        },
        _ => {
            let id = args.id.required()?;
            let text = args.text.required()?;
            let rationale = args.rationale.or_empty()?;
            MemoryOperation::Supersede { id, text, rationale }
        },
    };
    Ok(WorkEffect::Memory(operation))
}

/// What a call of a work tool asks of the runtime. `snapshot` is the kept instruction snapshot of a
/// delegation, and `repository` the identity of the workspace.
pub fn plan_work(
    name: &str,
    call_id: &String,
    context: &ExecutionContext,
    args: &WorkArguments,
    snapshot: &Result<Option<String>, ToolError>,
    repository: &String,
) -> (result: Result<WorkEffect, ToolError>)
    ensures
        match work_tool(name@) {
            None => refuses(result, Refusal::Unknown(name@)),
            Some(tool) => match work_refusal(tool, name@, *context, *args, *snapshot) {
                Some(refusal) => refuses(result, refusal),
                None => result matches Ok(effect) && asks_for(
                    effect,
                    tool,
                    *call_id,
                    *context,
                    *args,
                    *snapshot,
                    *repository,
                ),
            },
        },
{
    match WorkTool::from_name(name) {
        None => Err(ToolError::Unknown(name.to_owned())),
        Some(tool) => match tool {
            WorkTool::MemoryCreate | WorkTool::MemoryUpdate | WorkTool::MemoryList | WorkTool::MemorySearch
            | WorkTool::MemoryArchive | WorkTool::MemorySupersede => memory_operation(
                tool,
                name,
                call_id,
                context,
                args,
                snapshot,
                repository,
            ),
            _ => work_operation(tool, name, call_id, context, args, snapshot, repository),
        },
    }
}

/// A model never writes a decision in the name of the user, never reads memories of another session,
/// and a child agent never creates another.
pub proof fn tools_keep_their_scope(
    effect: WorkEffect,
    tool: WorkTool,
    name: Seq<char>,
    call_id: String,
    context: ExecutionContext,
    args: WorkArguments,
    snapshot: Result<Option<String>, ToolError>,
    repository: String,
)
    requires
        work_refusal(tool, name, context, args, snapshot) is None,
        asks_for(effect, tool, call_id, context, args, snapshot, repository),
    ensures
        effect matches WorkEffect::Work(WorkOperation::DecisionCreate { source, .. }) ==> source
            == DecisionSource::Agent,
        effect matches WorkEffect::Work(WorkOperation::DecisionSupersede { source, .. }) ==> source
            == DecisionSource::Agent,
        effect matches WorkEffect::Memory(MemoryOperation::List { session_id, repository_id, .. }) ==> session_id
            == context.session_id && repository_id == Some(repository),
        effect matches WorkEffect::Memory(MemoryOperation::Search { session_id, repository_id, .. }) ==> session_id
            == context.session_id && repository_id == Some(repository),
        effect matches WorkEffect::Work(WorkOperation::SubagentCreate { session_id, .. }) ==> context.subagent_id
            is None && Some(session_id) == context.session_id,
        effect matches WorkEffect::Work(WorkOperation::PlanUpdate { id, expected_revision, .. }) ==> Some(id)
            == context.draft_plan_id && Some(expected_revision) == context.draft_plan_revision,
        effect matches WorkEffect::Work(WorkOperation::GoalUpdate { id, .. }) ==> Some(id) == context.goal_id,
{
}

/// The names of the tools on durable work and memory.
pub open spec fn work_tool_names() -> Seq<Seq<char>> {
    seq![
        "task.create"@,
        "task.update"@,
        "task.list"@,
        "decision.create"@,
        "decision.update"@,
        "decision.list"@,
        "decision.archive"@,
        "decision.supersede"@,
        "agent.delegate"@,
        "agent.result"@,
        "agent.list"@,
        "goal.show"@,
        "goal.update"@,
        "plan.create"@,
        "plan.update"@,
        "plan.show"@,
        "plan.approve_request"@,
        "memory.create"@,
        "memory.update"@,
        "memory.list"@,
        "memory.search"@,
        "memory.archive"@,
        "memory.supersede"@,
    ]
}

/// Each of the names is a tool's, and no other is.
pub proof fn every_name_is_a_tool(name: Seq<char>)
    ensures
        work_tool(name) is Some <==> work_tool_names().contains(name),
{
    let names = work_tool_names();
    assert(names[0] == "task.create"@ && names[1] == "task.update"@ && names[2] == "task.list"@);
    assert(names[3] == "decision.create"@ && names[4] == "decision.update"@ && names[5] == "decision.list"@);
    assert(names[6] == "decision.archive"@ && names[7] == "decision.supersede"@ && names[8] == "agent.delegate"@);
    assert(names[9] == "agent.result"@ && names[10] == "agent.list"@ && names[11] == "goal.show"@);
    assert(names[12] == "goal.update"@ && names[13] == "plan.create"@ && names[14] == "plan.update"@);
    assert(names[15] == "plan.show"@ && names[16] == "plan.approve_request"@ && names[17] == "memory.create"@);
    assert(names[18] == "memory.update"@ && names[19] == "memory.list"@ && names[20] == "memory.search"@);
    assert(names[21] == "memory.archive"@ && names[22] == "memory.supersede"@);
}

/// A tool asks for the action of its own name; the tools on agents ask for the actions on subagents.
pub proof fn tools_ask_for_the_action_of_their_name(
    name: Seq<char>,
    effect: WorkEffect,
    call_id: String,
    context: ExecutionContext,
    args: WorkArguments,
    snapshot: Result<Option<String>, ToolError>,
    repository: String,
)
    requires
        work_tool(name) is Some,
        asks_for(effect, work_tool(name)->0, call_id, context, args, snapshot, repository),
    ensures
        ({
            let action = match effect {
                WorkEffect::Work(operation) => work_action(operation),
                WorkEffect::Memory(operation) => memory_action(operation),
            };
            &&& name != "agent.delegate"@ && name != "agent.result"@ && name != "agent.list"@ ==> action == name
            &&& name == "agent.delegate"@ ==> action == "subagent.create"@
            &&& name == "agent.result"@ ==> action == "subagent.read"@
            &&& name == "agent.list"@ ==> action == "subagent.list"@
        }),
{
    reveal_strlit("task.create");
    reveal_strlit("task.update");
    reveal_strlit("task.list");
    reveal_strlit("decision.create");
    reveal_strlit("decision.update");
    reveal_strlit("decision.list");
    reveal_strlit("decision.archive");
    reveal_strlit("decision.supersede");
    reveal_strlit("agent.delegate");
    reveal_strlit("agent.result");
    reveal_strlit("agent.list");
    assert("task.create"@[0] == 't' && "task.update"@[0] == 't' && "task.list"@[0] == 't');
    assert("decision.create"@[0] == 'd' && "decision.update"@[0] == 'd' && "decision.list"@[0] == 'd');
    assert("decision.archive"@[0] == 'd' && "decision.supersede"@[0] == 'd');
    assert("agent.delegate"@[0] == 'a' && "agent.result"@[0] == 'a' && "agent.list"@[0] == 'a');
    assert("agent.delegate"@.len() == 14 && "agent.result"@.len() == 12 && "agent.list"@.len() == 10);
}

/// A call whose arguments were read and whose run has what the tool needs is not refused: a session, a
/// parent run that is no subagent's, a goal, and a bound draft. What a tool does not require may be
/// absent.
pub proof fn complete_work_calls_are_planned(
    tool: WorkTool,
    name: Seq<char>,
    context: ExecutionContext,
    args: WorkArguments,
    snapshot: Result<Option<String>, ToolError>,
)
    requires
        context.session_id is Some && context.run_id is Some && context.subagent_id is None && context.goal_id is Some
            && context.draft_plan_id is Some && context.draft_plan_revision is Some,
        snapshot is Ok,
        args.id is Present && args.title is Present && args.decision is Present && args.task is Present
            && args.prompt is Present && args.content is Present && args.kind is Present && args.text is Present
            && args.query is Present,
        !(args.description is Invalid) && !(args.intent is Invalid) && !(args.applies_when is Invalid) && !(
        args.rationale is Invalid) && !(args.source_excerpt is Invalid) && !(args.summary is Invalid) && !(
        args.blocked_reason is Invalid) && !(args.scope is Invalid) && !(args.expires_at is Invalid),
        args.scope matches TextArgument::Present(scope) ==> scope@ == "global"@ || scope@ == "repository"@ || scope@
            == "session"@,
        args.task_status is Ok && args.decision_status is Ok && args.subagent_status is Ok && args.memory_status is Ok
            && args.priority is Ok && args.confidence is Ok && args.list_limit is Ok && args.search_limit is Ok
            && args.steps is Ok,
        args.goal_status is Ok && args.goal_status->Ok_0 is Some,
    ensures
        work_refusal(tool, name, context, args, snapshot) is None,
{
}

/// What a tool needs it is refused without: a session for what belongs to one, an active goal for a
/// goal's tools, a bound draft to update a plan, a parent run for a delegation, which no subagent
/// makes, and the texts that it requires.
pub proof fn tools_are_refused_without_what_they_need(
    tool: WorkTool,
    name: Seq<char>,
    context: ExecutionContext,
    args: WorkArguments,
    snapshot: Result<Option<String>, ToolError>,
)
    requires
        work_refusal(tool, name, context, args, snapshot) is None,
    ensures
        tool is TaskCreate || tool is TaskList || tool is DecisionCreate || tool is DecisionList || tool is AgentDelegate
            || tool is AgentList || tool is PlanCreate || tool is MemoryCreate || tool is MemoryList
            || tool is MemorySearch ==> context.session_id is Some,
        tool is GoalShow || tool is GoalUpdate ==> context.goal_id is Some,
        tool is GoalUpdate ==> args.goal_status is Ok && args.goal_status->Ok_0 is Some,
        tool is PlanUpdate ==> context.draft_plan_id is Some && context.draft_plan_revision is Some
            && args.content is Present,
        tool is AgentDelegate ==> context.subagent_id is None && context.run_id is Some && args.task is Present,
        tool is TaskUpdate || tool is DecisionUpdate || tool is DecisionArchive || tool is DecisionSupersede
            || tool is AgentResult || tool is PlanShow || tool is PlanApproveRequest || tool is MemoryUpdate
            || tool is MemoryArchive || tool is MemorySupersede ==> args.id is Present,
        tool is TaskCreate ==> args.title is Present,
        tool is DecisionCreate || tool is DecisionSupersede ==> args.title is Present && args.decision is Present,
        tool is PlanCreate ==> args.prompt is Present,
        tool is MemoryCreate ==> args.kind is Present && args.text is Present,
        tool is MemorySupersede ==> args.text is Present,
        tool is MemorySearch ==> args.query is Present,
{
}

/// What is created holds the texts that were given, in the session of the call; a decision is the
/// agent's, a task is pending and a memory is certain unless something else was said.
pub proof fn created_work_holds_the_given_texts(
    name: Seq<char>,
    effect: WorkEffect,
    tool: WorkTool,
    call_id: String,
    context: ExecutionContext,
    args: WorkArguments,
    snapshot: Result<Option<String>, ToolError>,
    repository: String,
)
    requires
        asks_for(effect, tool, call_id, context, args, snapshot, repository),
        work_refusal(tool, name, context, args, snapshot) is None,
    ensures
        effect matches WorkEffect::Work(WorkOperation::TaskCreate { session_id, title, description, status }) ==> {
            &&& Some(session_id) == context.session_id
            &&& args.title == TextArgument::Present(title)
            &&& args.description matches TextArgument::Present(text) ==> description@ == text@
            &&& args.description is Absent ==> description@.len() == 0
            &&& args.task_status matches Ok(Some(stated)) ==> status == stated
            &&& args.task_status matches Ok(None) ==> status is Pending
        },
        effect matches WorkEffect::Work(
            WorkOperation::DecisionCreate { session_id, title, decision, source, priority, rationale, .. },
        ) ==> {
            &&& Some(session_id) == context.session_id
            &&& args.title == TextArgument::Present(title)
            &&& args.decision == TextArgument::Present(decision)
            &&& source is Agent
            &&& args.priority matches Ok(Some(stated)) ==> priority == stated
            &&& args.priority matches Ok(None) ==> priority is Normal
            &&& args.rationale matches TextArgument::Present(text) ==> rationale@ == text@
        },
        effect matches WorkEffect::Work(WorkOperation::PlanCreate { session_id, prompt, content, steps }) ==> {
            &&& Some(session_id) == context.session_id
            &&& args.prompt == TextArgument::Present(prompt)
            &&& args.content matches TextArgument::Present(text) ==> content@ == text@
            &&& steps@ == args.steps->Ok_0@
        },
        effect matches WorkEffect::Work(WorkOperation::PlanUpdate { id, expected_revision, content, steps }) ==> {
            &&& Some(id) == context.draft_plan_id
            &&& Some(expected_revision) == context.draft_plan_revision
            &&& args.content == TextArgument::Present(content)
            &&& steps@ == args.steps->Ok_0@
        },
        effect matches WorkEffect::Work(
            WorkOperation::SubagentCreate {
                session_id,
                parent_run_id,
                parent_call_id,
                task,
                role,
                allowed_tools,
                instruction_snapshot_id,
            },
        ) ==> {
            &&& Some(session_id) == context.session_id
            &&& Some(parent_run_id) == context.run_id
            &&& parent_call_id == call_id
            &&& args.task == TextArgument::Present(task)
            &&& role@ == "subagent_default"@
            &&& allowed_tools is Some && allowed_tools->0@ == context.offered_tools@
            &&& Ok::<Option<String>, ToolError>(instruction_snapshot_id) == snapshot
        },
        effect matches WorkEffect::Work(WorkOperation::GoalUpdate { id, status, summary, blocked_reason }) ==> {
            &&& Some(id) == context.goal_id
            &&& Ok::<Option<GoalStatus>, ToolError>(Some(status)) == args.goal_status
            &&& args.summary matches TextArgument::Present(text) ==> summary@ == text@
            &&& args.blocked_reason matches TextArgument::Present(text) ==> blocked_reason@ == text@
        },
        effect matches WorkEffect::Work(WorkOperation::GoalShow { id }) ==> Some(id) == context.goal_id,
        effect matches WorkEffect::Memory(
            MemoryOperation::Create { scope, kind, confidence, text, rationale, expires_at },
        ) ==> {
            &&& args.kind == TextArgument::Present(kind)
            &&& args.text == TextArgument::Present(text)
            &&& args.scope is Absent ==> scope == MemoryScope::Session(context.session_id->0)
            &&& args.scope matches TextArgument::Present(asked) ==> {
                &&& asked@ == "global"@ ==> scope is Global
                &&& asked@ == "repository"@ ==> scope == MemoryScope::Repository(repository)
                &&& asked@ == "session"@ ==> scope == MemoryScope::Session(context.session_id->0)
            }
            &&& args.confidence matches Ok(Some(stated)) ==> confidence == stated
            &&& args.confidence matches Ok(None) ==> confidence == 0x3f80_0000
            &&& args.rationale matches TextArgument::Present(given) ==> rationale@ == given@
            &&& args.expires_at matches TextArgument::Present(given) ==> expires_at == Some(given)
        },
        effect matches WorkEffect::Memory(MemoryOperation::Search { query, session_id, repository_id, limit }) ==> {
            &&& args.query == TextArgument::Present(query)
            &&& session_id == context.session_id
            &&& repository_id == Some(repository)
            &&& Ok::<usize, ToolError>(limit) == args.search_limit
        },
{
    reveal_strlit("global");
    reveal_strlit("repository");
    reveal_strlit("session");
    assert("global"@.len() == 6 && "repository"@.len() == 10 && "session"@.len() == 7);
}

/// What is changed is the record that was named, by the texts that were given and no others: a text that
/// was not given is left as it is.
pub proof fn changes_hold_the_given_texts(
    name: Seq<char>,
    effect: WorkEffect,
    tool: WorkTool,
    call_id: String,
    context: ExecutionContext,
    args: WorkArguments,
    snapshot: Result<Option<String>, ToolError>,
    repository: String,
)
    requires
        asks_for(effect, tool, call_id, context, args, snapshot, repository),
        work_refusal(tool, name, context, args, snapshot) is None,
    ensures
        effect matches WorkEffect::Work(WorkOperation::TaskUpdate { id, title, description, status }) ==> {
            &&& args.id == TextArgument::Present(id)
            &&& title is Some <==> args.title is Present
            &&& args.title matches TextArgument::Present(text) ==> title == Some(text)
            &&& description is Some <==> args.description is Present
            &&& args.description matches TextArgument::Present(text) ==> description == Some(text)
            &&& Ok::<Option<TaskStatus>, ToolError>(status) == args.task_status
        },
        effect matches WorkEffect::Work(
            WorkOperation::DecisionUpdate { id, title, decision, priority, intent, applies_when, rationale, source_excerpt },
        ) ==> {
            &&& args.id == TextArgument::Present(id)
            &&& args.title matches TextArgument::Present(text) ==> title == Some(text)
            &&& args.title is Absent ==> title is None
            &&& args.decision matches TextArgument::Present(text) ==> decision == Some(text)
            &&& args.decision is Absent ==> decision is None
            &&& args.intent matches TextArgument::Present(text) ==> intent == Some(text)
            &&& args.applies_when matches TextArgument::Present(text) ==> applies_when == Some(text)
            &&& args.rationale matches TextArgument::Present(text) ==> rationale == Some(text)
            &&& args.source_excerpt matches TextArgument::Present(text) ==> source_excerpt == Some(text)
            &&& Ok::<Option<DecisionPriority>, ToolError>(priority) == args.priority
        },
        effect matches WorkEffect::Work(
            WorkOperation::DecisionSupersede { id, title, decision, source, rationale, .. },
        ) ==> {
            &&& args.id == TextArgument::Present(id)
            &&& args.title == TextArgument::Present(title)
            &&& args.decision == TextArgument::Present(decision)
            &&& source is Agent
            &&& args.rationale matches TextArgument::Present(text) ==> rationale@ == text@
        },
        effect matches WorkEffect::Work(WorkOperation::DecisionArchive { id }) ==> args.id == TextArgument::Present(id),
        effect matches WorkEffect::Work(WorkOperation::PlanShow { id }) ==> args.id == TextArgument::Present(id),
        effect matches WorkEffect::Work(WorkOperation::PlanApprove { id }) ==> args.id == TextArgument::Present(id),
        effect matches WorkEffect::Work(WorkOperation::SubagentRead { id }) ==> args.id == TextArgument::Present(id),
        effect matches WorkEffect::Work(WorkOperation::TaskList { session_id, status, limit }) ==> Some(session_id)
            == context.session_id && Ok::<Option<TaskStatus>, ToolError>(status) == args.task_status && Ok::<
            usize,
            ToolError,
        >(limit) == args.list_limit,
        effect matches WorkEffect::Work(WorkOperation::DecisionList { session_id, status, limit }) ==> Some(session_id)
            == context.session_id && Ok::<Option<String>, ToolError>(status) == args.decision_status && Ok::<
            usize,
            ToolError,
        >(limit) == args.list_limit,
        effect matches WorkEffect::Work(WorkOperation::SubagentList { session_id, status, limit }) ==> Some(session_id)
            == context.session_id && Ok::<Option<SubagentStatus>, ToolError>(status) == args.subagent_status && Ok::<
            usize,
            ToolError,
        >(limit) == args.list_limit,
        effect matches WorkEffect::Memory(MemoryOperation::Update { id, text, rationale, confidence }) ==> {
            &&& args.id == TextArgument::Present(id)
            &&& args.text matches TextArgument::Present(given) ==> text == Some(given)
            &&& args.text is Absent ==> text is None
            &&& args.rationale matches TextArgument::Present(given) ==> rationale == Some(given)
            &&& Ok::<Option<u32>, ToolError>(confidence) == args.confidence
        },
        effect matches WorkEffect::Memory(MemoryOperation::Archive { id }) ==> args.id == TextArgument::Present(id),
        effect matches WorkEffect::Memory(MemoryOperation::Supersede { id, text, rationale }) ==> {
            &&& args.id == TextArgument::Present(id)
            &&& args.text == TextArgument::Present(text)
            &&& args.rationale matches TextArgument::Present(given) ==> rationale@ == given@
        },
        effect matches WorkEffect::Memory(MemoryOperation::List { status, limit, session_id, repository_id }) ==> {
            &&& Ok::<Option<String>, ToolError>(status) == args.memory_status
            &&& Ok::<usize, ToolError>(limit) == args.list_limit
            &&& session_id == context.session_id
            &&& repository_id == Some(repository)
        },
{
}

/// The tools of memory ask for memory and the others for work; what a decision is made with is what was
/// given, and what was not given is left empty.
pub proof fn tools_ask_for_their_own_kind(
    effect: WorkEffect,
    tool: WorkTool,
    name: Seq<char>,
    call_id: String,
    context: ExecutionContext,
    args: WorkArguments,
    snapshot: Result<Option<String>, ToolError>,
    repository: String,
)
    requires
        work_refusal(tool, name, context, args, snapshot) is None,
        asks_for(effect, tool, call_id, context, args, snapshot, repository),
    ensures
        is_memory_tool(tool) <==> effect is Memory,
        effect matches WorkEffect::Work(
            WorkOperation::DecisionCreate { intent, applies_when, rationale, source_excerpt, .. },
        ) ==> {
            &&& args.intent matches TextArgument::Present(text) ==> intent@ == text@
            &&& args.intent is Absent ==> intent@.len() == 0
            &&& args.applies_when matches TextArgument::Present(text) ==> applies_when@ == text@
            &&& args.applies_when is Absent ==> applies_when@.len() == 0
            &&& args.rationale is Absent ==> rationale@.len() == 0
            &&& args.source_excerpt matches TextArgument::Present(text) ==> source_excerpt@ == text@
            &&& args.source_excerpt is Absent ==> source_excerpt@.len() == 0
        },
        effect matches WorkEffect::Work(
            WorkOperation::DecisionSupersede { priority, intent, applies_when, source_excerpt, .. },
        ) ==> {
            &&& args.priority matches Ok(Some(stated)) ==> priority == stated
            &&& args.priority matches Ok(None) ==> priority is Normal
            &&& args.intent matches TextArgument::Present(text) ==> intent@ == text@
            &&& args.applies_when matches TextArgument::Present(text) ==> applies_when@ == text@
            &&& args.source_excerpt matches TextArgument::Present(text) ==> source_excerpt@ == text@
        },
{
}

} // verus!
