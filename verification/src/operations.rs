//! The operations behind effects: the action that policy sees and the resource it is about.

use crate::text::{concat2, contains_text, parts_are_contained};
use vstd::prelude::*;
use vstd::string::*;

verus! {

/// What the `Debug` form of std shows of a text.
pub uninterp spec fn debug_text(text: Seq<char>) -> Seq<char>;

/// The `{:?}` form of std on `str`: named.
#[verifier::external_body]
pub(crate) fn debug_quoted(text: &str) -> (shown: String)
    ensures
        shown@ == debug_text(text@),
{
    format!("{text:?}")
}

/// Status of a task.
#[derive(Debug)]
pub enum TaskStatus {
    Pending,
    /// Any other status, by its name.
    Named(String),
}

impl Clone for TaskStatus {
    fn clone(&self) -> (copy: Self)
        ensures
            copy == *self,
    {
        match self {
            TaskStatus::Pending => TaskStatus::Pending,
            TaskStatus::Named(name) => TaskStatus::Named(name.clone()),
        }
    }
}

/// Who made a decision.
#[derive(Clone, Copy, Debug, PartialEq, Eq, Structural)]
pub enum DecisionSource {
    User,
    Agent,
}

/// Priority of a decision.
#[derive(Debug)]
pub enum DecisionPriority {
    Normal,
    /// Any other priority, by its name.
    Named(String),
}

impl Clone for DecisionPriority {
    fn clone(&self) -> (copy: Self)
        ensures
            copy == *self,
    {
        match self {
            DecisionPriority::Normal => DecisionPriority::Normal,
            DecisionPriority::Named(name) => DecisionPriority::Named(name.clone()),
        }
    }
}

/// Status of a goal.
#[derive(Debug)]
pub enum GoalStatus {
    Active,
    Complete,
    Blocked,
    /// Any other status, by its name.
    Named(String),
}

impl Clone for GoalStatus {
    fn clone(&self) -> (copy: Self)
        ensures
            copy == *self,
    {
        match self {
            GoalStatus::Active => GoalStatus::Active,
            GoalStatus::Complete => GoalStatus::Complete,
            GoalStatus::Blocked => GoalStatus::Blocked,
            GoalStatus::Named(name) => GoalStatus::Named(name.clone()),
        }
    }
}

/// Status of a child agent.
#[derive(Debug)]
pub enum SubagentStatus {
    Cancelled,
    Interrupted,
    /// Any other status, by its name.
    Named(String),
}

impl Clone for SubagentStatus {
    fn clone(&self) -> (copy: Self)
        ensures
            copy == *self,
    {
        match self {
            SubagentStatus::Cancelled => SubagentStatus::Cancelled,
            SubagentStatus::Interrupted => SubagentStatus::Interrupted,
            SubagentStatus::Named(name) => SubagentStatus::Named(name.clone()),
        }
    }
}

/// One step of a plan, as its document.
#[derive(Debug)]
pub struct PlanStep {
    /// The document.
    pub definition: String,
}

/// What a memory belongs to.
#[derive(Debug)]
pub enum MemoryScope {
    Global,
    Repository(String),
    Session(String),
}

impl Clone for MemoryScope {
    fn clone(&self) -> (copy: Self)
        ensures
            copy == *self,
    {
        match self {
            MemoryScope::Global => MemoryScope::Global,
            MemoryScope::Repository(id) => MemoryScope::Repository(id.clone()),
            MemoryScope::Session(id) => MemoryScope::Session(id.clone()),
        }
    }
}

/// An operation on terminal preferences and history.
#[derive(Debug)]
pub enum PresentationOperation {
    /// Save preferences, as their document.
    Save {
        /// The document.
        preferences: String,
    },
    /// Append to the history.
    AppendHistory {
        /// The entry.
        entry: String,
    },
}

impl PresentationOperation {
    /// The action that policy decides about.
    pub fn action(&self) -> (action: &'static str)
        ensures
            action@ == match *self {
                PresentationOperation::Save { .. } => "presentation.preferences.update"@,
                PresentationOperation::AppendHistory { .. } => "presentation.history.append"@,
            },
    {
        match self {
            PresentationOperation::Save { .. } => "presentation.preferences.update",
            PresentationOperation::AppendHistory { .. } => "presentation.history.append",
        }
    }

    /// The resource that the action is about.
    pub fn resource(&self) -> (resource: &'static str)
        ensures
            resource@ == match *self {
                PresentationOperation::Save { .. } => "presentation:repl"@,
                PresentationOperation::AppendHistory { .. } => "presentation:history"@,
            },
    {
        match self {
            PresentationOperation::Save { .. } => "presentation:repl",
            PresentationOperation::AppendHistory { .. } => "presentation:history",
        }
    }
}

/// An operation on durable work: tasks, decisions, plans, goals and child agents.
#[derive(Debug)]
pub enum WorkOperation {
    TaskCreate { session_id: String, title: String, description: String, status: TaskStatus },
    TaskUpdate { id: String, title: Option<String>, description: Option<String>, status: Option<TaskStatus> },
    TaskList { session_id: String, status: Option<TaskStatus>, limit: usize },
    DecisionCreate {
        session_id: String,
        title: String,
        decision: String,
        source: DecisionSource,
        priority: DecisionPriority,
        intent: String,
        applies_when: String,
        rationale: String,
        source_excerpt: String,
    },
    DecisionUpdate {
        id: String,
        title: Option<String>,
        decision: Option<String>,
        priority: Option<DecisionPriority>,
        intent: Option<String>,
        applies_when: Option<String>,
        rationale: Option<String>,
        source_excerpt: Option<String>,
    },
    DecisionArchive { id: String },
    DecisionSupersede {
        id: String,
        title: String,
        decision: String,
        source: DecisionSource,
        priority: DecisionPriority,
        intent: String,
        applies_when: String,
        rationale: String,
        source_excerpt: String,
    },
    DecisionList { session_id: String, status: Option<String>, limit: usize },
    PlanCreate { session_id: String, prompt: String, content: String, steps: Vec<PlanStep> },
    PlanUpdate { id: String, expected_revision: u64, content: String, steps: Vec<PlanStep> },
    PlanShow { id: String },
    PlanApprove { id: String },
    PlanExecute { id: String, run_id: String },
    PlanExecuteAtRevision { id: String, expected_revision: u64, run_id: String },
    GoalCreate {
        session_id: String,
        objective: String,
        iteration_budget: u16,
        source_plan_id: Option<String>,
        source_plan_revision: Option<u64>,
    },
    GoalShow { id: String },
    GoalUpdate { id: String, status: GoalStatus, summary: String, blocked_reason: String },
    GoalIteration { id: String },
    SubagentCreate {
        session_id: String,
        parent_run_id: String,
        parent_call_id: String,
        task: String,
        role: String,
        allowed_tools: Option<Vec<String>>,
        instruction_snapshot_id: Option<String>,
    },
    SubagentRead { id: String },
    SubagentList { session_id: String, status: Option<SubagentStatus>, limit: usize },
    SubagentStart { id: String },
    SubagentComplete { id: String, child_run_id: String, output: String },
    SubagentStop { id: String, status: SubagentStatus, error: String },
    SubagentRequeue { id: String },
}

/// The action of a work operation.
pub open spec fn work_action(operation: WorkOperation) -> Seq<char> {
    match operation {
        WorkOperation::TaskCreate { .. } => "task.create"@,
        WorkOperation::TaskUpdate { .. } => "task.update"@,
        WorkOperation::TaskList { .. } => "task.list"@,
        WorkOperation::DecisionCreate { .. } => "decision.create"@,
        WorkOperation::DecisionUpdate { .. } => "decision.update"@,
        WorkOperation::DecisionArchive { .. } => "decision.archive"@,
        WorkOperation::DecisionSupersede { .. } => "decision.supersede"@,
        WorkOperation::DecisionList { .. } => "decision.list"@,
        WorkOperation::PlanCreate { .. } => "plan.create"@,
        WorkOperation::PlanUpdate { .. } => "plan.update"@,
        WorkOperation::PlanShow { .. } => "plan.show"@,
        WorkOperation::PlanApprove { .. } => "plan.approve_request"@,
        WorkOperation::PlanExecute { .. } => "plan.execute"@,
        WorkOperation::PlanExecuteAtRevision { .. } => "plan.execute"@,
        WorkOperation::GoalCreate { .. } => "goal.create"@,
        WorkOperation::GoalShow { .. } => "goal.show"@,
        WorkOperation::GoalUpdate { .. } => "goal.update"@,
        WorkOperation::GoalIteration { .. } => "goal.iteration.record"@,
        WorkOperation::SubagentCreate { .. } => "subagent.create"@,
        WorkOperation::SubagentRead { .. } => "subagent.read"@,
        WorkOperation::SubagentList { .. } => "subagent.list"@,
        WorkOperation::SubagentStart { .. } => "subagent.start"@,
        WorkOperation::SubagentComplete { .. } => "subagent.complete"@,
        WorkOperation::SubagentStop { status, .. } => match status {
            SubagentStatus::Cancelled => "subagent.cancel"@,
            SubagentStatus::Interrupted => "subagent.interrupt"@,
            SubagentStatus::Named(_) => "subagent.fail"@,
        },
        WorkOperation::SubagentRequeue { .. } => "subagent.requeue"@,
    }
}

/// The session or record that a work operation is about.
pub open spec fn work_resource(operation: WorkOperation) -> String {
    match operation {
        WorkOperation::TaskCreate { session_id, .. } => session_id,
        WorkOperation::TaskUpdate { id, .. } => id,
        WorkOperation::TaskList { session_id, .. } => session_id,
        WorkOperation::DecisionCreate { session_id, .. } => session_id,
        WorkOperation::DecisionUpdate { id, .. } => id,
        WorkOperation::DecisionArchive { id } => id,
        WorkOperation::DecisionSupersede { id, .. } => id,
        WorkOperation::DecisionList { session_id, .. } => session_id,
        WorkOperation::PlanCreate { session_id, .. } => session_id,
        WorkOperation::PlanUpdate { id, .. } => id,
        WorkOperation::PlanShow { id } => id,
        WorkOperation::PlanApprove { id } => id,
        WorkOperation::PlanExecute { id, .. } => id,
        WorkOperation::PlanExecuteAtRevision { id, .. } => id,
        WorkOperation::GoalCreate { session_id, .. } => session_id,
        WorkOperation::GoalShow { id } => id,
        WorkOperation::GoalUpdate { id, .. } => id,
        WorkOperation::GoalIteration { id } => id,
        WorkOperation::SubagentCreate { session_id, .. } => session_id,
        WorkOperation::SubagentRead { id } => id,
        WorkOperation::SubagentList { session_id, .. } => session_id,
        WorkOperation::SubagentStart { id } => id,
        WorkOperation::SubagentComplete { id, .. } => id,
        WorkOperation::SubagentStop { id, .. } => id,
        WorkOperation::SubagentRequeue { id } => id,
    }
}

impl WorkOperation {
    /// The action that policy decides about.
    pub fn action(&self) -> (action: &'static str)
        ensures
            action@ == work_action(*self),
    {
        match self {
            WorkOperation::TaskCreate { .. } => "task.create",
            WorkOperation::TaskUpdate { .. } => "task.update",
            WorkOperation::TaskList { .. } => "task.list",
            WorkOperation::DecisionCreate { .. } => "decision.create",
            WorkOperation::DecisionUpdate { .. } => "decision.update",
            WorkOperation::DecisionArchive { .. } => "decision.archive",
            WorkOperation::DecisionSupersede { .. } => "decision.supersede",
            WorkOperation::DecisionList { .. } => "decision.list",
            WorkOperation::PlanCreate { .. } => "plan.create",
            WorkOperation::PlanUpdate { .. } => "plan.update",
            WorkOperation::PlanShow { .. } => "plan.show",
            WorkOperation::PlanApprove { .. } => "plan.approve_request",
            WorkOperation::PlanExecute { .. } => "plan.execute",
            WorkOperation::PlanExecuteAtRevision { .. } => "plan.execute",
            WorkOperation::GoalCreate { .. } => "goal.create",
            WorkOperation::GoalShow { .. } => "goal.show",
            WorkOperation::GoalUpdate { .. } => "goal.update",
            WorkOperation::GoalIteration { .. } => "goal.iteration.record",
            WorkOperation::SubagentCreate { .. } => "subagent.create",
            WorkOperation::SubagentRead { .. } => "subagent.read",
            WorkOperation::SubagentList { .. } => "subagent.list",
            WorkOperation::SubagentStart { .. } => "subagent.start",
            WorkOperation::SubagentComplete { .. } => "subagent.complete",
            WorkOperation::SubagentStop { status, .. } => match status {
                SubagentStatus::Cancelled => "subagent.cancel",
                SubagentStatus::Interrupted => "subagent.interrupt",
                SubagentStatus::Named(_) => "subagent.fail",
            },
            WorkOperation::SubagentRequeue { .. } => "subagent.requeue",
        }
    }

    /// The session or record that the action is about.
    pub fn resource(&self) -> (resource: &String)
        ensures
            *resource == work_resource(*self),
    {
        match self {
            WorkOperation::TaskCreate { session_id, .. } => session_id,
            WorkOperation::TaskUpdate { id, .. } => id,
            WorkOperation::TaskList { session_id, .. } => session_id,
            WorkOperation::DecisionCreate { session_id, .. } => session_id,
            WorkOperation::DecisionUpdate { id, .. } => id,
            WorkOperation::DecisionArchive { id } => id,
            WorkOperation::DecisionSupersede { id, .. } => id,
            WorkOperation::DecisionList { session_id, .. } => session_id,
            WorkOperation::PlanCreate { session_id, .. } => session_id,
            WorkOperation::PlanUpdate { id, .. } => id,
            WorkOperation::PlanShow { id } => id,
            WorkOperation::PlanApprove { id } => id,
            WorkOperation::PlanExecute { id, .. } => id,
            WorkOperation::PlanExecuteAtRevision { id, .. } => id,
            WorkOperation::GoalCreate { session_id, .. } => session_id,
            WorkOperation::GoalShow { id } => id,
            WorkOperation::GoalUpdate { id, .. } => id,
            WorkOperation::GoalIteration { id } => id,
            WorkOperation::SubagentCreate { session_id, .. } => session_id,
            WorkOperation::SubagentRead { id } => id,
            WorkOperation::SubagentList { session_id, .. } => session_id,
            WorkOperation::SubagentStart { id } => id,
            WorkOperation::SubagentComplete { id, .. } => id,
            WorkOperation::SubagentStop { id, .. } => id,
            WorkOperation::SubagentRequeue { id } => id,
        }
    }
}

/// An operation on memory. A confidence is the bit pattern of its single-precision number.
#[derive(Debug)]
pub enum MemoryOperation {
    Create {
        scope: MemoryScope,
        kind: String,
        confidence: u32,
        text: String,
        rationale: String,
        expires_at: Option<String>,
    },
    Update { id: String, text: Option<String>, rationale: Option<String>, confidence: Option<u32> },
    Archive { id: String },
    Supersede { id: String, text: String, rationale: String },
    Read { id: String },
    List { status: Option<String>, limit: usize, session_id: Option<String>, repository_id: Option<String> },
    Search { query: String, session_id: Option<String>, repository_id: Option<String>, limit: usize },
    IndexStatus,
    IndexSync,
    IndexRebuild,
}

/// The action of a memory operation.
pub open spec fn memory_action(operation: MemoryOperation) -> Seq<char> {
    match operation {
        MemoryOperation::Create { .. } => "memory.create"@,
        MemoryOperation::Update { .. } => "memory.update"@,
        MemoryOperation::Archive { .. } => "memory.archive"@,
        MemoryOperation::Supersede { .. } => "memory.supersede"@,
        MemoryOperation::Read { .. } => "memory.read"@,
        MemoryOperation::List { .. } => "memory.list"@,
        MemoryOperation::Search { .. } => "memory.search"@,
        MemoryOperation::IndexStatus => "memory.index.status"@,
        MemoryOperation::IndexSync => "memory.index.sync"@,
        MemoryOperation::IndexRebuild => "memory.index.rebuild"@,
    }
}

/// What is shown of a scope.
pub open spec fn scope_text(scope: MemoryScope) -> Seq<char> {
    match scope {
        MemoryScope::Global => "Global"@,
        MemoryScope::Repository(id) => "Repository("@ + debug_text(id@) + ")"@,
        MemoryScope::Session(id) => "Session("@ + debug_text(id@) + ")"@,
    }
}

/// The resource of a memory operation.
pub open spec fn memory_resource(operation: MemoryOperation) -> Seq<char> {
    match operation {
        MemoryOperation::Create { scope, .. } => "memory-scope:"@ + scope_text(scope),
        MemoryOperation::Update { id, .. } => id@,
        MemoryOperation::Archive { id } => id@,
        MemoryOperation::Supersede { id, .. } => id@,
        MemoryOperation::Read { id } => id@,
        MemoryOperation::List { .. } => "memory:*"@,
        MemoryOperation::Search { session_id, .. } => match session_id {
            Some(id) => "session:"@ + id@,
            None => "memory:search"@,
        },
        MemoryOperation::IndexStatus => "memory-index"@,
        MemoryOperation::IndexSync => "memory-index"@,
        MemoryOperation::IndexRebuild => "memory-index"@,
    }
}

fn shown_scope(scope: &MemoryScope) -> (text: String)
    ensures
        text@ == scope_text(*scope),
{
    match scope {
        MemoryScope::Global => "Global".to_owned(),
        MemoryScope::Repository(id) => {
            let quoted = debug_quoted(id.as_str());
            crate::text::concat3("Repository(", quoted.as_str(), ")")
        },
        MemoryScope::Session(id) => {
            let quoted = debug_quoted(id.as_str());
            crate::text::concat3("Session(", quoted.as_str(), ")")
        },
    }
}

impl MemoryOperation {
    /// The action that policy decides about.
    pub fn action(&self) -> (action: &'static str)
        ensures
            action@ == memory_action(*self),
    {
        match self {
            MemoryOperation::Create { .. } => "memory.create",
            MemoryOperation::Update { .. } => "memory.update",
            MemoryOperation::Archive { .. } => "memory.archive",
            MemoryOperation::Supersede { .. } => "memory.supersede",
            MemoryOperation::Read { .. } => "memory.read",
            MemoryOperation::List { .. } => "memory.list",
            MemoryOperation::Search { .. } => "memory.search",
            MemoryOperation::IndexStatus => "memory.index.status",
            MemoryOperation::IndexSync => "memory.index.sync",
            MemoryOperation::IndexRebuild => "memory.index.rebuild",
        }
    }

    /// The resource that the action is about.
    pub fn resource(&self) -> (resource: String)
        ensures
            resource@ == memory_resource(*self),
    {
        match self {
            MemoryOperation::Create { scope, .. } => {
                let shown = shown_scope(scope);
                concat2("memory-scope:", shown.as_str())
            },
            MemoryOperation::Update { id, .. } => id.clone(),
            MemoryOperation::Archive { id } => id.clone(),
            MemoryOperation::Supersede { id, .. } => id.clone(),
            MemoryOperation::Read { id } => id.clone(),
            MemoryOperation::List { .. } => "memory:*".to_owned(),
            MemoryOperation::Search { session_id, .. } => match session_id {
                Some(id) => concat2("session:", id.as_str()),
                None => "memory:search".to_owned(),
            },
            MemoryOperation::IndexStatus => "memory-index".to_owned(),
            MemoryOperation::IndexSync => "memory-index".to_owned(),
            MemoryOperation::IndexRebuild => "memory-index".to_owned(),
        }
    }
}

/// A research run; depth and source kinds are kept as their documents.
#[derive(Debug)]
pub struct ResearchOperation {
    /// Session of the run.
    pub session_id: String,
    /// Question.
    pub question: String,
    /// Depth.
    pub depth: String,
    /// Source kinds.
    pub source_kinds: Vec<String>,
}

impl ResearchOperation {
    /// The action that policy decides about.
    pub fn action(&self) -> (action: &'static str)
        ensures
            action@ == "research.run"@,
    {
        "research.run"
    }

    /// The session that the run belongs to.
    pub fn session_id(&self) -> (session: &String)
        ensures
            *session == self.session_id,
    {
        &self.session_id
    }
}

/// An operation on skills.
#[derive(Debug)]
pub enum SkillOperation {
    Scaffold { name: String, description: String, instructions: String, resource_dirs: Vec<String> },
    Inspect { name: String },
    ReadFile { name: String, path: String },
    WriteFile { name: String, path: String, content: String, expected_sha256: Option<String> },
    ValidateInstalled { name: String },
    ValidateLocal { path: String },
    InstallLocal { path: String },
    ListResources { skill_name: String, active_skills: Vec<String> },
    ReadResource { skill_name: String, path: String, active_skills: Vec<String> },
}

/// The action of a skill operation.
pub open spec fn skill_action(operation: SkillOperation) -> Seq<char> {
    match operation {
        SkillOperation::Scaffold { .. } => "skill.scaffold"@,
        SkillOperation::Inspect { .. } => "skill.inspect"@,
        SkillOperation::ReadFile { .. } => "skill.read"@,
        SkillOperation::WriteFile { .. } => "skill.write"@,
        SkillOperation::ValidateInstalled { .. } => "skill.validate"@,
        SkillOperation::ValidateLocal { .. } => "skill.validate"@,
        SkillOperation::InstallLocal { .. } => "skill.install"@,
        SkillOperation::ListResources { .. } => "skill.resource.list"@,
        SkillOperation::ReadResource { .. } => "skill.resource.read"@,
    }
}

/// The resource of a skill operation.
pub open spec fn skill_resource(operation: SkillOperation) -> Seq<char> {
    match operation {
        SkillOperation::Scaffold { name, .. } => "skill:"@ + name@,
        SkillOperation::Inspect { name } => "skill:"@ + name@,
        SkillOperation::ReadFile { name, .. } => "skill:"@ + name@,
        SkillOperation::WriteFile { name, .. } => "skill:"@ + name@,
        SkillOperation::ValidateInstalled { name } => "skill:"@ + name@,
        SkillOperation::ValidateLocal { path } => "workspace-skill:"@ + path@,
        SkillOperation::InstallLocal { path } => "workspace-skill:"@ + path@,
        SkillOperation::ListResources { skill_name, .. } => "skill:"@ + skill_name@,
        SkillOperation::ReadResource { skill_name, .. } => "skill:"@ + skill_name@,
    }
}

impl SkillOperation {
    /// The action that policy decides about.
    pub fn action(&self) -> (action: &'static str)
        ensures
            action@ == skill_action(*self),
    {
        match self {
            SkillOperation::Scaffold { .. } => "skill.scaffold",
            SkillOperation::Inspect { .. } => "skill.inspect",
            SkillOperation::ReadFile { .. } => "skill.read",
            SkillOperation::WriteFile { .. } => "skill.write",
            SkillOperation::ValidateInstalled { .. } => "skill.validate",
            SkillOperation::ValidateLocal { .. } => "skill.validate",
            SkillOperation::InstallLocal { .. } => "skill.install",
            SkillOperation::ListResources { .. } => "skill.resource.list",
            SkillOperation::ReadResource { .. } => "skill.resource.read",
        }
    }

    /// The resource that the action is about.
    pub fn resource(&self) -> (resource: String)
        ensures
            resource@ == skill_resource(*self),
    {
        match self {
            SkillOperation::Scaffold { name, .. } => concat2("skill:", name.as_str()),
            SkillOperation::Inspect { name } => concat2("skill:", name.as_str()),
            SkillOperation::ReadFile { name, .. } => concat2("skill:", name.as_str()),
            SkillOperation::WriteFile { name, .. } => concat2("skill:", name.as_str()),
            SkillOperation::ValidateInstalled { name } => concat2("skill:", name.as_str()),
            SkillOperation::ValidateLocal { path } => concat2("workspace-skill:", path.as_str()),
            SkillOperation::InstallLocal { path } => concat2("workspace-skill:", path.as_str()),
            SkillOperation::ListResources { skill_name, .. } => concat2("skill:", skill_name.as_str()),
            SkillOperation::ReadResource { skill_name, .. } => concat2("skill:", skill_name.as_str()),
        }
    }
}

/// An operation on the context of a session.
#[derive(Debug)]
pub enum ContextOperation {
    Show { session_id: String, role: String },
    Compact { session_id: String, role: String },
    Snapshots { session_id: String },
    Restore { session_id: String, snapshot_id: String },
}

/// The action of a context operation.
pub open spec fn context_action(operation: ContextOperation) -> Seq<char> {
    match operation {
        ContextOperation::Show { .. } => "context.show"@,
        ContextOperation::Compact { .. } => "context.compact"@,
        ContextOperation::Snapshots { .. } => "context.snapshots"@,
        ContextOperation::Restore { .. } => "context.restore"@,
    }
}

/// The session of a context operation.
pub open spec fn context_session(operation: ContextOperation) -> String {
    match operation {
        ContextOperation::Show { session_id, .. } => session_id,
        ContextOperation::Compact { session_id, .. } => session_id,
        ContextOperation::Snapshots { session_id } => session_id,
        ContextOperation::Restore { session_id, .. } => session_id,
    }
}

impl ContextOperation {
    /// The action that policy decides about.
    pub fn action(&self) -> (action: &'static str)
        ensures
            action@ == context_action(*self),
    {
        match self {
            ContextOperation::Show { .. } => "context.show",
            ContextOperation::Compact { .. } => "context.compact",
            ContextOperation::Snapshots { .. } => "context.snapshots",
            ContextOperation::Restore { .. } => "context.restore",
        }
    }

    /// The session that the action is about.
    pub fn session_id(&self) -> (session: &String)
        ensures
            *session == context_session(*self),
    {
        match self {
            ContextOperation::Show { session_id, .. } => session_id,
            ContextOperation::Compact { session_id, .. } => session_id,
            ContextOperation::Snapshots { session_id } => session_id,
            ContextOperation::Restore { session_id, .. } => session_id,
        }
    }

    /// The resource that the action is about.
    pub fn resource(&self) -> (resource: String)
        ensures
            resource@ == "session:"@ + context_session(*self)@,
    {
        concat2("session:", self.session_id().as_str())
    }
}

/// A transfer of a plugin from or to a registry.
#[derive(Debug)]
pub enum PluginRegistryOperation {
    Pull { reference: String, output: String },
    Push { layout: String, reference: String },
}

impl PluginRegistryOperation {
    /// The action that policy decides about.
    pub fn action(&self) -> (action: &'static str)
        ensures
            action@ == match *self {
                PluginRegistryOperation::Pull { .. } => "plugin.pull"@,
                PluginRegistryOperation::Push { .. } => "plugin.push"@,
            },
    {
        match self {
            PluginRegistryOperation::Pull { .. } => "plugin.pull",
            PluginRegistryOperation::Push { .. } => "plugin.push",
        }
    }

    /// The local path that the action is about.
    pub fn resource(&self) -> (resource: &String)
        ensures
            *resource == match *self {
                PluginRegistryOperation::Pull { output, .. } => output,
                PluginRegistryOperation::Push { layout, .. } => layout,
            },
    {
        match self {
            PluginRegistryOperation::Pull { output, .. } => output,
            PluginRegistryOperation::Push { layout, .. } => layout,
        }
    }
}

/// Whether an operation only reads what is kept.
pub open spec fn reads_work(operation: WorkOperation) -> bool {
    match operation {
        WorkOperation::TaskList { .. } => true,
        WorkOperation::DecisionList { .. } => true,
        WorkOperation::PlanShow { .. } => true,
        WorkOperation::GoalShow { .. } => true,
        WorkOperation::SubagentRead { .. } => true,
        WorkOperation::SubagentList { .. } => true,
        _ => false,
    }
}

/// No operation that changes anything is decided under the action of one that only reads.
pub proof fn changes_are_no_readings(change: WorkOperation, reading: WorkOperation)
    requires
        !reads_work(change),
        reads_work(reading),
    ensures
        work_action(change) != work_action(reading),
{
    reveal_work_actions();
}

/// Two operations are decided under one action only where they are operations of one kind, or both
/// execute a plan; a subagent that fails is told from one that is cancelled or interrupted.
pub proof fn work_actions_tell_operations_apart(first: WorkOperation, second: WorkOperation)
    requires
        work_action(first) == work_action(second),
    ensures
        first is TaskCreate <==> second is TaskCreate,
        first is TaskUpdate <==> second is TaskUpdate,
        first is TaskList <==> second is TaskList,
        first is DecisionCreate <==> second is DecisionCreate,
        first is DecisionUpdate <==> second is DecisionUpdate,
        first is DecisionArchive <==> second is DecisionArchive,
        first is DecisionSupersede <==> second is DecisionSupersede,
        first is DecisionList <==> second is DecisionList,
        first is PlanCreate <==> second is PlanCreate,
        first is PlanUpdate <==> second is PlanUpdate,
        first is PlanShow <==> second is PlanShow,
        first is PlanApprove <==> second is PlanApprove,
        first is PlanExecute || first is PlanExecuteAtRevision <==> second is PlanExecute
            || second is PlanExecuteAtRevision,
        first is GoalCreate <==> second is GoalCreate,
        first is GoalShow <==> second is GoalShow,
        first is GoalUpdate <==> second is GoalUpdate,
        first is GoalIteration <==> second is GoalIteration,
        first is SubagentCreate <==> second is SubagentCreate,
        first is SubagentRead <==> second is SubagentRead,
        first is SubagentList <==> second is SubagentList,
        first is SubagentStart <==> second is SubagentStart,
        first is SubagentComplete <==> second is SubagentComplete,
        first is SubagentStop <==> second is SubagentStop,
        first is SubagentRequeue <==> second is SubagentRequeue,
        first is SubagentStop ==> (first->SubagentStop_status is Cancelled
            <==> second->SubagentStop_status is Cancelled) && (first->SubagentStop_status is Interrupted
            <==> second->SubagentStop_status is Interrupted),
{
    reveal_work_actions();
}

proof fn reveal_work_actions()
    ensures
        "task.create"@.len() == 11 && "task.create"@[0] == 't' && "task.create"@[5] == 'c',
        "task.update"@.len() == 11 && "task.update"@[0] == 't' && "task.update"@[5] == 'u',
        "task.list"@.len() == 9 && "task.list"@[0] == 't',
        "decision.create"@.len() == 15 && "decision.create"@[0] == 'd' && "decision.create"@[9] == 'c',
        "decision.update"@.len() == 15 && "decision.update"@[0] == 'd' && "decision.update"@[9] == 'u',
        "decision.archive"@.len() == 16 && "decision.archive"@[0] == 'd',
        "decision.supersede"@.len() == 18 && "decision.supersede"@[0] == 'd',
        "decision.list"@.len() == 13 && "decision.list"@[0] == 'd',
        "plan.create"@.len() == 11 && "plan.create"@[0] == 'p' && "plan.create"@[5] == 'c',
        "plan.update"@.len() == 11 && "plan.update"@[0] == 'p' && "plan.update"@[5] == 'u',
        "plan.show"@.len() == 9 && "plan.show"@[0] == 'p',
        "plan.approve_request"@.len() == 20 && "plan.approve_request"@[0] == 'p',
        "plan.execute"@.len() == 12 && "plan.execute"@[0] == 'p',
        "goal.create"@.len() == 11 && "goal.create"@[0] == 'g' && "goal.create"@[5] == 'c',
        "goal.show"@.len() == 9 && "goal.show"@[0] == 'g',
        "goal.update"@.len() == 11 && "goal.update"@[0] == 'g' && "goal.update"@[5] == 'u',
        "goal.iteration.record"@.len() == 21 && "goal.iteration.record"@[0] == 'g',
        "subagent.create"@.len() == 15 && "subagent.create"@[0] == 's' && "subagent.create"@[10] == 'r',
        "subagent.read"@.len() == 13 && "subagent.read"@[0] == 's' && "subagent.read"@[9] == 'r',
        "subagent.list"@.len() == 13 && "subagent.list"@[0] == 's' && "subagent.list"@[9] == 'l',
        "subagent.start"@.len() == 14 && "subagent.start"@[0] == 's',
        "subagent.complete"@.len() == 17 && "subagent.complete"@[0] == 's',
        "subagent.cancel"@.len() == 15 && "subagent.cancel"@[0] == 's' && "subagent.cancel"@[10] == 'a',
        "subagent.interrupt"@.len() == 18 && "subagent.interrupt"@[0] == 's',
        "subagent.fail"@.len() == 13 && "subagent.fail"@[0] == 's' && "subagent.fail"@[9] == 'f',
        "subagent.requeue"@.len() == 16 && "subagent.requeue"@[0] == 's',
{
    reveal_strlit("task.create");
    reveal_strlit("task.update");
    reveal_strlit("task.list");
    reveal_strlit("decision.create");
    reveal_strlit("decision.update");
    reveal_strlit("decision.archive");
    reveal_strlit("decision.supersede");
    reveal_strlit("decision.list");
    reveal_strlit("plan.create");
    reveal_strlit("plan.update");
    reveal_strlit("plan.show");
    reveal_strlit("plan.approve_request");
    reveal_strlit("plan.execute");
    reveal_strlit("goal.create");
    reveal_strlit("goal.show");
    reveal_strlit("goal.update");
    reveal_strlit("goal.iteration.record");
    reveal_strlit("subagent.create");
    reveal_strlit("subagent.read");
    reveal_strlit("subagent.list");
    reveal_strlit("subagent.start");
    reveal_strlit("subagent.complete");
    reveal_strlit("subagent.cancel");
    reveal_strlit("subagent.interrupt");
    reveal_strlit("subagent.fail");
    reveal_strlit("subagent.requeue");
}

/// What is created or listed is decided upon the session it belongs to, and every other operation upon
/// the record it is about.
pub proof fn work_is_decided_upon_its_record(operation: WorkOperation)
    ensures
        work_resource(operation) == match operation {
            WorkOperation::TaskCreate { session_id, .. } => session_id,
            WorkOperation::TaskList { session_id, .. } => session_id,
            WorkOperation::DecisionCreate { session_id, .. } => session_id,
            WorkOperation::DecisionList { session_id, .. } => session_id,
            WorkOperation::PlanCreate { session_id, .. } => session_id,
            WorkOperation::GoalCreate { session_id, .. } => session_id,
            WorkOperation::SubagentCreate { session_id, .. } => session_id,
            WorkOperation::SubagentList { session_id, .. } => session_id,
            WorkOperation::TaskUpdate { id, .. } => id,
            WorkOperation::DecisionUpdate { id, .. } => id,
            WorkOperation::DecisionArchive { id } => id,
            WorkOperation::DecisionSupersede { id, .. } => id,
            WorkOperation::PlanUpdate { id, .. } => id,
            WorkOperation::PlanShow { id } => id,
            WorkOperation::PlanApprove { id } => id,
            WorkOperation::PlanExecute { id, .. } => id,
            WorkOperation::PlanExecuteAtRevision { id, .. } => id,
            WorkOperation::GoalShow { id } => id,
            WorkOperation::GoalUpdate { id, .. } => id,
            WorkOperation::GoalIteration { id } => id,
            WorkOperation::SubagentRead { id } => id,
            WorkOperation::SubagentStart { id } => id,
            WorkOperation::SubagentComplete { id, .. } => id,
            WorkOperation::SubagentStop { id, .. } => id,
            WorkOperation::SubagentRequeue { id } => id,
        },
{
}

/// Memory operations of different kinds are decided under different actions, and an operation on one
/// memory upon that memory.
pub proof fn memory_actions_tell_operations_apart(first: MemoryOperation, second: MemoryOperation)
    ensures
        memory_action(first) == memory_action(second) ==> {
            &&& first is Create <==> second is Create
            &&& first is Update <==> second is Update
            &&& first is Archive <==> second is Archive
            &&& first is Supersede <==> second is Supersede
            &&& first is Read <==> second is Read
            &&& first is List <==> second is List
            &&& first is Search <==> second is Search
            &&& first is IndexStatus <==> second is IndexStatus
            &&& first is IndexSync <==> second is IndexSync
            &&& first is IndexRebuild <==> second is IndexRebuild
        },
        first matches MemoryOperation::Update { id, .. } ==> memory_resource(first) == id@,
        first matches MemoryOperation::Archive { id } ==> memory_resource(first) == id@,
        first matches MemoryOperation::Supersede { id, .. } ==> memory_resource(first) == id@,
        first matches MemoryOperation::Read { id } ==> memory_resource(first) == id@,
        first matches MemoryOperation::Search { session_id: Some(id), .. } ==> id@.is_suffix_of(memory_resource(first)),
{
    reveal_strlit("memory.create");
    reveal_strlit("memory.update");
    reveal_strlit("memory.archive");
    reveal_strlit("memory.supersede");
    reveal_strlit("memory.read");
    reveal_strlit("memory.list");
    reveal_strlit("memory.search");
    reveal_strlit("memory.index.status");
    reveal_strlit("memory.index.sync");
    reveal_strlit("memory.index.rebuild");
    assert("memory.create"@.len() == 13 && "memory.create"@[7] == 'c');
    assert("memory.update"@.len() == 13 && "memory.update"@[7] == 'u');
    assert("memory.search"@.len() == 13 && "memory.search"@[7] == 's');
    assert("memory.archive"@.len() == 14);
    assert("memory.supersede"@.len() == 16);
    assert("memory.read"@.len() == 11 && "memory.read"@[7] == 'r');
    assert("memory.list"@.len() == 11 && "memory.list"@[7] == 'l');
    assert("memory.index.status"@.len() == 19);
    assert("memory.index.sync"@.len() == 17);
    assert("memory.index.rebuild"@.len() == 20);
}

/// A memory is created under a resource that tells a global memory, a repository's and a session's
/// apart.
pub proof fn memory_scopes_differ(repository: String, session: String)
    ensures
        scope_text(MemoryScope::Global) != scope_text(MemoryScope::Repository(repository)),
        scope_text(MemoryScope::Global) != scope_text(MemoryScope::Session(session)),
        scope_text(MemoryScope::Repository(repository)) != scope_text(MemoryScope::Session(session)),
        forall|operation: MemoryOperation|
            operation is Create ==> scope_text(operation->Create_scope).is_suffix_of(
                #[trigger] memory_resource(operation),
            ),
{
    reveal_strlit("Global");
    reveal_strlit("Repository(");
    reveal_strlit("Session(");
    assert(scope_text(MemoryScope::Global)[0] == 'G');
    assert(scope_text(MemoryScope::Repository(repository))[0] == 'R');
    assert(scope_text(MemoryScope::Session(session))[0] == 'S');
}

/// A skill operation is decided upon the skill or the path that it names, and writing a skill is not
/// decided as reading one.
pub proof fn skills_are_decided_by_name(operation: SkillOperation, change: SkillOperation)
    ensures
        operation matches SkillOperation::Scaffold { name, .. } ==> skill_resource(operation) == "skill:"@ + name@,
        operation matches SkillOperation::Inspect { name } ==> skill_resource(operation) == "skill:"@ + name@,
        operation matches SkillOperation::ReadFile { name, .. } ==> skill_resource(operation) == "skill:"@ + name@,
        operation matches SkillOperation::WriteFile { name, .. } ==> skill_resource(operation) == "skill:"@ + name@,
        operation matches SkillOperation::ValidateInstalled { name } ==> skill_resource(operation) == "skill:"@ + name@,
        operation matches SkillOperation::ValidateLocal { path } ==> path@.is_suffix_of(skill_resource(operation)),
        operation matches SkillOperation::InstallLocal { path } ==> path@.is_suffix_of(skill_resource(operation)),
        operation matches SkillOperation::ListResources { skill_name, .. } ==> skill_name@.is_suffix_of(
            skill_resource(operation),
        ),
        operation matches SkillOperation::ReadResource { skill_name, .. } ==> skill_name@.is_suffix_of(
            skill_resource(operation),
        ),
        (operation is Inspect || operation is ReadFile || operation is ValidateInstalled || operation is ValidateLocal
            || operation is ListResources || operation is ReadResource) && (change is Scaffold || change is WriteFile
            || change is InstallLocal) ==> skill_action(operation) != skill_action(change),
{
    reveal_strlit("skill.scaffold");
    reveal_strlit("skill.inspect");
    reveal_strlit("skill.read");
    reveal_strlit("skill.write");
    reveal_strlit("skill.validate");
    reveal_strlit("skill.install");
    reveal_strlit("skill.resource.list");
    reveal_strlit("skill.resource.read");
    assert("skill.scaffold"@.len() == 14 && "skill.scaffold"@[6] == 's');
    assert("skill.inspect"@.len() == 13 && "skill.inspect"@[8] == 's' && "skill.inspect"@[9] == 'p');
    assert("skill.install"@.len() == 13 && "skill.install"@[8] == 's' && "skill.install"@[9] == 't');
    assert("skill.read"@.len() == 10);
    assert("skill.write"@.len() == 11);
    assert("skill.validate"@.len() == 14 && "skill.validate"@[6] == 'v');
    assert("skill.resource.list"@.len() == 19);
    assert("skill.resource.read"@.len() == 19);
}

/// Context operations are decided upon their session, and one that changes the context under another
/// action than one that shows it.
pub proof fn contexts_are_decided_by_session(first: ContextOperation, second: ContextOperation)
    ensures
        first matches ContextOperation::Show { session_id, .. } ==> context_session(first) == session_id,
        first matches ContextOperation::Compact { session_id, .. } ==> context_session(first) == session_id,
        first matches ContextOperation::Snapshots { session_id } ==> context_session(first) == session_id,
        first matches ContextOperation::Restore { session_id, .. } ==> context_session(first) == session_id,
        context_action(first) == context_action(second) ==> {
            &&& first is Show <==> second is Show
            &&& first is Compact <==> second is Compact
            &&& first is Snapshots <==> second is Snapshots
            &&& first is Restore <==> second is Restore
        },
{
    reveal_strlit("context.show");
    reveal_strlit("context.compact");
    reveal_strlit("context.snapshots");
    reveal_strlit("context.restore");
    assert("context.show"@.len() == 12);
    assert("context.compact"@.len() == 15 && "context.compact"@[8] == 'c');
    assert("context.snapshots"@.len() == 17);
    assert("context.restore"@.len() == 15 && "context.restore"@[8] == 'r');
}

/// A scope of memory is shown by its kind and, in brackets, by what it belongs to.
pub proof fn scopes_are_shown_by_kind(id: String)
    ensures
        scope_text(MemoryScope::Global) == "Global"@,
        scope_text(MemoryScope::Repository(id)) == "Repository("@ + debug_text(id@) + ")"@,
        scope_text(MemoryScope::Session(id)) == "Session("@ + debug_text(id@) + ")"@,
        contains_text(scope_text(MemoryScope::Repository(id)), debug_text(id@)),
        contains_text(scope_text(MemoryScope::Session(id)), debug_text(id@)),
{
    parts_are_contained("Repository("@, debug_text(id@), ")"@);
    parts_are_contained("Session("@, debug_text(id@), ")"@);
}

} // verus!
