//! Tool calls: who makes them, what they are given and how they fail.

use crate::text::same_text;
use vstd::prelude::*;
use vstd::string::*;

verus! {

/// Failure of a tool call.
#[derive(Debug)]
pub enum ToolError {
    /// The call is not allowed here.
    Denied(String),
    /// The arguments do not fit the tool.
    InvalidArguments {
        /// The tool.
        tool: String,
        /// What does not fit.
        message: String,
    },
    /// The tool failed.
    Failed(String),
    /// There is no such tool.
    Unknown(String),
}

impl Clone for ToolError {
    fn clone(&self) -> (copy: Self)
        ensures
            copy == *self,
    {
        match self {
            ToolError::Denied(text) => ToolError::Denied(text.clone()),
            ToolError::InvalidArguments { tool, message } => ToolError::InvalidArguments {
                tool: tool.clone(),
                message: message.clone(),
            },
            ToolError::Failed(text) => ToolError::Failed(text.clone()),
            ToolError::Unknown(text) => ToolError::Unknown(text.clone()),
        }
    }
}

/// How a call is refused: with a text of the runtime, or with a failure that was handed in.
pub ghost enum Refusal {
    Denied(Seq<char>),
    Invalid(Seq<char>, Seq<char>),
    Failed(Seq<char>),
    Unknown(Seq<char>),
    Forward(ToolError),
}

/// `result` refuses in exactly this way.
pub open spec fn refuses<T>(result: Result<T, ToolError>, refusal: Refusal) -> bool {
    match refusal {
        Refusal::Denied(text) => result matches Err(ToolError::Denied(message)) && message@ == text,
        Refusal::Invalid(name, text) => result matches Err(ToolError::InvalidArguments { tool, message }) && tool@
            == name && message@ == text,
        Refusal::Failed(text) => result matches Err(ToolError::Failed(message)) && message@ == text,
        Refusal::Unknown(name) => result matches Err(ToolError::Unknown(message)) && message@ == name,
        Refusal::Forward(error) => result == Err::<T, ToolError>(error),
    }
}

/// The first refusal, else the second.
pub open spec fn first(a: Option<Refusal>, b: Option<Refusal>) -> Option<Refusal> {
    match a {
        Some(refusal) => Some(refusal),
        None => b,
    }
}

/// A refusal where the condition holds.
pub open spec fn refuse_if(condition: bool, refusal: Refusal) -> Option<Refusal> {
    if condition {
        Some(refusal)
    } else {
        None
    }
}

/// A failure that was handed in.
pub open spec fn forwarded<T>(reading: Result<T, ToolError>) -> Option<Refusal> {
    match reading {
        Ok(_) => None,
        Err(error) => Some(Refusal::Forward(error)),
    }
}

/// A denial with the given text.
pub fn denied<T>(text: &str) -> (result: Result<T, ToolError>)
    ensures
        refuses(result, Refusal::Denied(text@)),
{
    Err(ToolError::Denied(text.to_owned()))
}

/// A failure with the given text.
pub fn failed<T>(text: &str) -> (result: Result<T, ToolError>)
    ensures
        refuses(result, Refusal::Failed(text@)),
{
    Err(ToolError::Failed(text.to_owned()))
}

/// A refusal of the arguments of a tool.
pub fn invalid<T>(tool: &str, message: &str) -> (result: Result<T, ToolError>)
    ensures
        refuses(result, Refusal::Invalid(tool@, message@)),
{
    Err(ToolError::InvalidArguments { tool: tool.to_owned(), message: message.to_owned() })
}

/// A text argument as it was read from a call.
#[derive(Debug)]
pub enum TextArgument {
    /// It is a text.
    Present(String),
    /// It is not there; the failure is that of a tool that requires it.
    Absent(ToolError),
    /// It is there and no text.
    Invalid(ToolError),
}

/// The text, where it is there.
pub open spec fn given(argument: TextArgument) -> Option<String> {
    match argument {
        TextArgument::Present(text) => Some(text),
        _ => None,
    }
}

/// The text, or the empty text where it is not there.
pub open spec fn given_or_empty(argument: TextArgument) -> Seq<char> {
    match argument {
        TextArgument::Present(text) => text@,
        _ => Seq::empty(),
    }
}

/// The failure of a required text.
pub open spec fn required_refusal(argument: TextArgument) -> Option<Refusal> {
    match argument {
        TextArgument::Present(_) => None,
        TextArgument::Absent(error) => Some(Refusal::Forward(error)),
        TextArgument::Invalid(error) => Some(Refusal::Forward(error)),
    }
}

/// The failure of an optional text.
pub open spec fn optional_refusal(argument: TextArgument) -> Option<Refusal> {
    match argument {
        TextArgument::Invalid(error) => Some(Refusal::Forward(error)),
        _ => None,
    }
}

impl TextArgument {
    /// The text of an argument that must be there.
    pub fn required(&self) -> (text: Result<String, ToolError>)
        ensures
            match *self {
                TextArgument::Present(value) => text == Ok::<String, ToolError>(value),
                TextArgument::Absent(error) => text == Err::<String, ToolError>(error),
                TextArgument::Invalid(error) => text == Err::<String, ToolError>(error),
            },
    {
        match self {
            TextArgument::Present(value) => Ok(value.clone()),
            TextArgument::Absent(error) => Err(error.clone()),
            TextArgument::Invalid(error) => Err(error.clone()),
        }
    }

    /// The text of an argument that may be absent.
    pub fn optional(&self) -> (text: Result<Option<String>, ToolError>)
        ensures
            match *self {
                TextArgument::Present(value) => text == Ok::<Option<String>, ToolError>(Some(value)),
                TextArgument::Absent(_) => text == Ok::<Option<String>, ToolError>(None),
                TextArgument::Invalid(error) => text == Err::<Option<String>, ToolError>(error),
            },
    {
        match self {
            TextArgument::Present(value) => Ok(Some(value.clone())),
            TextArgument::Absent(_) => Ok(None),
            TextArgument::Invalid(error) => Err(error.clone()),
        }
    }

    /// The text of an argument that is empty where absent.
    pub fn or_empty(&self) -> (text: Result<String, ToolError>)
        ensures
            match *self {
                TextArgument::Invalid(error) => text == Err::<String, ToolError>(error),
                _ => text matches Ok(value) && value@ == given_or_empty(*self),
            },
    {
        match self {
            TextArgument::Present(value) => Ok(value.clone()),
            TextArgument::Absent(_) => Ok(String::new()),
            TextArgument::Invalid(error) => Err(error.clone()),
        }
    }
}

/// Where a tool call happens.
#[derive(Debug)]
pub struct ExecutionContext {
    /// Correlation identifier.
    pub correlation_id: String,
    /// Session.
    pub session_id: Option<String>,
    /// Run.
    pub run_id: Option<String>,
    /// Child agent.
    pub subagent_id: Option<String>,
    /// Active goal.
    pub goal_id: Option<String>,
    /// Draft plan of Plan Mode.
    pub draft_plan_id: Option<String>,
    /// Revision of the draft plan.
    pub draft_plan_revision: Option<u64>,
    /// Tools that the model was offered.
    pub offered_tools: Vec<String>,
    /// Selected skills.
    pub skill_ids: Vec<String>,
}

/// The family that a tool belongs to.
#[derive(Clone, Copy, Debug, PartialEq, Eq, Structural)]
pub enum ToolFamily {
    Filesystem,
    Repository,
    Process,
    Work,
    Extensions,
    Network,
    /// Any other name: a tool of a connected integration, or none.
    Integration,
}

/// A tool of the filesystem family.
pub open spec fn filesystem_tool(name: Seq<char>) -> bool {
    name == "echo"@ || name == "filesystem.list"@ || name == "filesystem.read"@ || name == "filesystem.search"@
        || name == "filesystem.write"@ || name == "filesystem.replace"@
}

/// A tool of the repository family.
pub open spec fn repository_tool(name: Seq<char>) -> bool {
    name == "git.status"@ || name == "git.diff"@ || name == "git.show"@ || name == "repo.map"@ || name
        == "repo.symbol_search"@ || name == "repo.references"@ || name == "repo.file_summary"@ || name
        == "patch.preview"@ || name == "patch.apply"@ || name == "patch.reverse"@
}

/// A tool of the work family.
pub open spec fn work_family_tool(name: Seq<char>) -> bool {
    name == "task.create"@ || name == "task.update"@ || name == "task.list"@ || name == "decision.create"@ || name
        == "decision.update"@ || name == "decision.list"@ || name == "decision.archive"@ || name
        == "decision.supersede"@ || name == "agent.delegate"@ || name == "agent.result"@ || name == "agent.list"@
        || name == "goal.show"@ || name == "goal.update"@ || name == "plan.create"@ || name == "plan.update"@ || name
        == "plan.show"@ || name == "plan.approve_request"@ || name == "memory.create"@ || name == "memory.update"@
        || name == "memory.list"@ || name == "memory.search"@ || name == "memory.archive"@ || name
        == "memory.supersede"@
}

/// A tool of the extensions family.
pub open spec fn extensions_tool(name: Seq<char>) -> bool {
    name == "plugin.list"@ || name == "plugin.inspect"@ || name == "plugin.skill.read"@ || name
        == "plugin.resource.list"@ || name == "plugin.resource.read"@ || name == "mcp.servers"@ || name
        == "mcp.tools"@ || name == "mcp.call"@
}

/// A tool of the network family.
pub open spec fn network_tool(name: Seq<char>) -> bool {
    name == "web.search"@ || name == "network.http"@ || name == "web.fetch"@ || name == "docs.fetch"@
}

/// The family of a tool name.
pub open spec fn family(name: Seq<char>) -> ToolFamily {
    if filesystem_tool(name) {
        ToolFamily::Filesystem
    } else if repository_tool(name) {
        ToolFamily::Repository
    } else if name == "shell.run"@ {
        ToolFamily::Process
    } else if work_family_tool(name) {
        ToolFamily::Work
    } else if extensions_tool(name) {
        ToolFamily::Extensions
    } else if network_tool(name) {
        ToolFamily::Network
    } else {
        ToolFamily::Integration
    }
}

fn is_filesystem_tool(name: &str) -> (yes: bool)
    ensures
        yes == filesystem_tool(name@),
{
    same_text(name, "echo") || same_text(name, "filesystem.list") || same_text(name, "filesystem.read")
        || same_text(name, "filesystem.search") || same_text(name, "filesystem.write") || same_text(
        name,
        "filesystem.replace",
    )
}

fn is_repository_tool(name: &str) -> (yes: bool)
    ensures
        yes == repository_tool(name@),
{
    same_text(name, "git.status") || same_text(name, "git.diff") || same_text(name, "git.show") || same_text(
        name,
        "repo.map",
    ) || same_text(name, "repo.symbol_search") || same_text(name, "repo.references") || same_text(
        name,
        "repo.file_summary",
    ) || same_text(name, "patch.preview") || same_text(name, "patch.apply") || same_text(name, "patch.reverse")
}

fn is_work_tool(name: &str) -> (yes: bool)
    ensures
        yes == work_family_tool(name@),
{
    same_text(name, "task.create") || same_text(name, "task.update") || same_text(name, "task.list") || same_text(
        name,
        "decision.create",
    ) || same_text(name, "decision.update") || same_text(name, "decision.list") || same_text(
        name,
        "decision.archive",
    ) || same_text(name, "decision.supersede") || same_text(name, "agent.delegate") || same_text(
        name,
        "agent.result",
    ) || same_text(name, "agent.list") || same_text(name, "goal.show") || same_text(name, "goal.update") || same_text(
        name,
        "plan.create",
    ) || same_text(name, "plan.update") || same_text(name, "plan.show") || same_text(name, "plan.approve_request")
        || same_text(name, "memory.create") || same_text(name, "memory.update") || same_text(name, "memory.list")
        || same_text(name, "memory.search") || same_text(name, "memory.archive") || same_text(
        name,
        "memory.supersede",
    )
}

fn is_extensions_tool(name: &str) -> (yes: bool)
    ensures
        yes == extensions_tool(name@),
{
    same_text(name, "plugin.list") || same_text(name, "plugin.inspect") || same_text(name, "plugin.skill.read")
        || same_text(name, "plugin.resource.list") || same_text(name, "plugin.resource.read") || same_text(
        name,
        "mcp.servers",
    ) || same_text(name, "mcp.tools") || same_text(name, "mcp.call")
}

fn is_network_tool(name: &str) -> (yes: bool)
    ensures
        yes == network_tool(name@),
{
    same_text(name, "web.search") || same_text(name, "network.http") || same_text(name, "web.fetch") || same_text(
        name,
        "docs.fetch",
    )
}

/// The family that a tool belongs to.
pub fn tool_family(name: &str) -> (result: ToolFamily)
    ensures
        result == family(name@),
{
    if is_filesystem_tool(name) {
        ToolFamily::Filesystem
    } else if is_repository_tool(name) {
        ToolFamily::Repository
    } else if same_text(name, "shell.run") {
        ToolFamily::Process
    } else if is_work_tool(name) {
        ToolFamily::Work
    } else if is_extensions_tool(name) {
        ToolFamily::Extensions
    } else if is_network_tool(name) {
        ToolFamily::Network
    } else {
        ToolFamily::Integration
    }
}

/// The failure of a tool that keeps durable state outside any session.
pub open spec fn session_refusal(context: ExecutionContext) -> Option<Refusal> {
    refuse_if(context.session_id is None, Refusal::Denied("durable state tools require a session"@))
}

/// The session of a call that keeps durable state.
pub fn current_session(context: &ExecutionContext) -> (session: Result<String, ToolError>)
    ensures
        match context.session_id {
            Some(id) => session == Ok::<String, ToolError>(id),
            None => refuses(session, Refusal::Denied("durable state tools require a session"@)),
        },
{
    match &context.session_id {
        Some(id) => Ok(id.clone()),
        None => denied("durable state tools require a session"),
    }
}

/// A text that is present is given as it is, one that is absent is refused only where it is required,
/// and one that could not be read is refused in any case, with the reason it came with.
pub proof fn texts_are_given_as_they_are(argument: TextArgument)
    ensures
        argument matches TextArgument::Present(text) ==> given(argument) == Some(text) && given_or_empty(argument)
            == text@ && required_refusal(argument) is None && optional_refusal(argument) is None,
        argument matches TextArgument::Absent(error) ==> given(argument) is None && given_or_empty(argument).len() == 0
            && required_refusal(argument) == Some(Refusal::Forward(error)) && optional_refusal(argument) is None,
        argument matches TextArgument::Invalid(error) ==> required_refusal(argument) == Some(Refusal::Forward(error))
            && optional_refusal(argument) == Some(Refusal::Forward(error)),
{
}

/// The first refusal counts, and there is none only where neither rule refuses.
pub proof fn the_first_refusal_counts(first_rule: Option<Refusal>, second: Option<Refusal>, condition: bool, refusal: Refusal)
    ensures
        first(first_rule, second) is None <==> first_rule is None && second is None,
        first_rule is Some ==> first(first_rule, second) == first_rule,
        first_rule is None ==> first(first_rule, second) == second,
        refuse_if(condition, refusal) is Some <==> condition,
        condition ==> refuse_if(condition, refusal) == Some(refusal),
{
}

/// What is refused fails, and in one way: two results that meet one refusal show the same failure.
pub proof fn refusals_are_told_in_one_way<T>(
    result: Result<T, ToolError>,
    refusal: Refusal,
    reading: Result<T, ToolError>,
)
    requires
        refuses(result, refusal),
    ensures
        result is Err,
        refusal matches Refusal::Denied(text) ==> (result matches Err(ToolError::Denied(message)) && message@ == text),
        refusal matches Refusal::Failed(text) ==> (result matches Err(ToolError::Failed(message)) && message@ == text),
        refusal matches Refusal::Unknown(name) ==> (result matches Err(ToolError::Unknown(message)) && message@
            == name),
        refusal matches Refusal::Invalid(name, text) ==> (result matches Err(
            ToolError::InvalidArguments { tool, message },
        ) && tool@ == name && message@ == text),
        refusal matches Refusal::Forward(error) ==> result == Err::<T, ToolError>(error),
        forwarded(reading) is Some <==> reading is Err,
        reading matches Err(error) ==> forwarded(reading) == Some(Refusal::Forward(error)),
{
}

/// Every built-in tool has its family, and every other name is left to an integration.
pub proof fn every_tool_has_its_family(name: Seq<char>)
    ensures
        family(name) is Filesystem <==> seq![
            "echo"@,
            "filesystem.list"@,
            "filesystem.read"@,
            "filesystem.search"@,
            "filesystem.write"@,
            "filesystem.replace"@,
        ].contains(name),
        family(name) is Repository <==> seq![
            "git.status"@,
            "git.diff"@,
            "git.show"@,
            "repo.map"@,
            "repo.symbol_search"@,
            "repo.references"@,
            "repo.file_summary"@,
            "patch.preview"@,
            "patch.apply"@,
            "patch.reverse"@,
        ].contains(name),
        name == "shell.run"@ ==> family(name) is Process,
        family(name) is Process ==> name == "shell.run"@,
        seq!["web.search"@, "network.http"@, "web.fetch"@, "docs.fetch"@].contains(name) ==> family(name) is Network,
        family(name) is Network ==> seq!["web.search"@, "network.http"@, "web.fetch"@, "docs.fetch"@].contains(name),
        seq![
            "plugin.list"@,
            "plugin.inspect"@,
            "plugin.skill.read"@,
            "plugin.resource.list"@,
            "plugin.resource.read"@,
            "mcp.servers"@,
            "mcp.tools"@,
            "mcp.call"@,
        ].contains(name) ==> family(name) is Extensions,
        seq![
            "task.create"@,
            "task.update"@,
            "task.list"@,
            "decision.create"@,
            "decision.update"@,
            "decision.list"@,
            "decision.archive"@,
            "decision.supersede"@,
            "agent.delegate"@,
            "agent.result"@,
            "agent.list"@,
            "goal.show"@,
            "goal.update"@,
            "plan.create"@,
            "plan.update"@,
            "plan.show"@,
            "plan.approve_request"@,
            "memory.create"@,
            "memory.update"@,
            "memory.list"@,
            "memory.search"@,
            "memory.archive"@,
            "memory.supersede"@,
        ].contains(name) ==> family(name) is Work,
{
    reveal_first_letters();
    let files = seq![
        "echo"@,
        "filesystem.list"@,
        "filesystem.read"@,
        "filesystem.search"@,
        "filesystem.write"@,
        "filesystem.replace"@,
    ];
    assert(files[0] == "echo"@ && files[1] == "filesystem.list"@ && files[2] == "filesystem.read"@);
    assert(files[3] == "filesystem.search"@ && files[4] == "filesystem.write"@ && files[5] == "filesystem.replace"@);
    let repository = seq![
        "git.status"@,
        "git.diff"@,
        "git.show"@,
        "repo.map"@,
        "repo.symbol_search"@,
        "repo.references"@,
        "repo.file_summary"@,
        "patch.preview"@,
        "patch.apply"@,
        "patch.reverse"@,
    ];
    assert(repository[0] == "git.status"@ && repository[1] == "git.diff"@ && repository[2] == "git.show"@);
    assert(repository[3] == "repo.map"@ && repository[4] == "repo.symbol_search"@);
    assert(repository[5] == "repo.references"@ && repository[6] == "repo.file_summary"@);
    assert(repository[7] == "patch.preview"@ && repository[8] == "patch.apply"@ && repository[9] == "patch.reverse"@);
    let network = seq!["web.search"@, "network.http"@, "web.fetch"@, "docs.fetch"@];
    assert(network[0] == "web.search"@ && network[1] == "network.http"@ && network[2] == "web.fetch"@ && network[3]
        == "docs.fetch"@);
}

proof fn reveal_first_letters()
    ensures
        "echo"@.len() == 4 && "shell.run"@.len() == 9 && "shell.run"@[0] == 's',
        "filesystem.list"@.len() == 15 && "filesystem.list"@[0] == 'f',
        "filesystem.read"@.len() == 15 && "filesystem.read"@[0] == 'f',
        "filesystem.search"@.len() == 17 && "filesystem.search"@[0] == 'f',
        "filesystem.write"@.len() == 16 && "filesystem.write"@[0] == 'f',
        "filesystem.replace"@.len() == 18 && "filesystem.replace"@[0] == 'f',
        "git.status"@[2] == 't' && "git.diff"@[2] == 't' && "git.show"@[2] == 't',
        "git.status"@[0] == 'g' && "git.diff"@[0] == 'g' && "git.show"@[0] == 'g',
        "goal.show"@[0] == 'g' && "goal.show"@[2] == 'a' && "goal.update"@[0] == 'g' && "goal.update"@[2] == 'a',
        "git.status"@.len() == 10 && "git.diff"@.len() == 8 && "git.show"@.len() == 8,
        "goal.show"@.len() == 9 && "goal.update"@.len() == 11,
        "repo.map"@[0] == 'r' && "repo.symbol_search"@[0] == 'r' && "repo.references"@[0] == 'r',
        "repo.file_summary"@[0] == 'r',
        "patch.preview"@[0] == 'p' && "patch.apply"@[0] == 'p' && "patch.reverse"@[0] == 'p',
        "patch.preview"@[1] == 'a' && "patch.apply"@[1] == 'a' && "patch.reverse"@[1] == 'a',
        "plan.create"@[1] == 'l' && "plan.update"@[1] == 'l' && "plan.show"@[1] == 'l',
        "plan.approve_request"@[1] == 'l' && "plan.approve_request"@[0] == 'p' && "plan.approve_request"@[2] == 'a',
        "plan.create"@[0] == 'p' && "plan.update"@[0] == 'p' && "plan.show"@[0] == 'p',
        "plan.create"@[2] == 'a' && "plan.update"@[2] == 'a' && "plan.show"@[2] == 'a',
        "plugin.list"@[2] == 'u' && "plugin.inspect"@[2] == 'u' && "plugin.skill.read"@[2] == 'u',
        "plugin.resource.list"@[2] == 'u' && "plugin.resource.read"@[2] == 'u',
        "plugin.list"@[1] == 'l' && "plugin.inspect"@[1] == 'l' && "plugin.skill.read"@[1] == 'l',
        "plugin.resource.list"@[1] == 'l' && "plugin.resource.read"@[1] == 'l',
        "plugin.list"@[0] == 'p' && "plugin.inspect"@[0] == 'p' && "plugin.skill.read"@[0] == 'p',
        "plugin.resource.list"@[0] == 'p' && "plugin.resource.read"@[0] == 'p',
        "mcp.servers"@[0] == 'm' && "mcp.tools"@[0] == 'm' && "mcp.call"@[0] == 'm',
        "mcp.servers"@[1] == 'c' && "mcp.tools"@[1] == 'c' && "mcp.call"@[1] == 'c',
        "memory.create"@[0] == 'm' && "memory.update"@[0] == 'm' && "memory.list"@[0] == 'm',
        "memory.search"@[0] == 'm' && "memory.archive"@[0] == 'm' && "memory.supersede"@[0] == 'm',
        "memory.create"@[1] == 'e' && "memory.update"@[1] == 'e' && "memory.list"@[1] == 'e',
        "memory.search"@[1] == 'e' && "memory.archive"@[1] == 'e' && "memory.supersede"@[1] == 'e',
        "task.create"@[0] == 't' && "task.update"@[0] == 't' && "task.list"@[0] == 't',
        "decision.create"@[0] == 'd' && "decision.update"@[0] == 'd' && "decision.list"@[0] == 'd',
        "decision.archive"@[0] == 'd' && "decision.supersede"@[0] == 'd',
        "decision.create"@[1] == 'e' && "decision.update"@[1] == 'e' && "decision.list"@[1] == 'e',
        "decision.archive"@[1] == 'e' && "decision.supersede"@[1] == 'e',
        "docs.fetch"@[0] == 'd' && "docs.fetch"@[1] == 'o',
        "agent.delegate"@[0] == 'a' && "agent.result"@[0] == 'a' && "agent.list"@[0] == 'a',
        "web.search"@[0] == 'w' && "web.fetch"@[0] == 'w' && "network.http"@[0] == 'n' && "echo"@[0] == 'e',
{
    reveal_strlit("echo");
    reveal_strlit("shell.run");
    reveal_strlit("filesystem.list");
    reveal_strlit("filesystem.read");
    reveal_strlit("filesystem.search");
    reveal_strlit("filesystem.write");
    reveal_strlit("filesystem.replace");
    reveal_strlit("git.status");
    reveal_strlit("git.diff");
    reveal_strlit("git.show");
    reveal_strlit("goal.show");
    reveal_strlit("goal.update");
    reveal_strlit("repo.map");
    reveal_strlit("repo.symbol_search");
    reveal_strlit("repo.references");
    reveal_strlit("repo.file_summary");
    reveal_strlit("patch.preview");
    reveal_strlit("patch.apply");
    reveal_strlit("patch.reverse");
    reveal_strlit("plan.create");
    reveal_strlit("plan.update");
    reveal_strlit("plan.show");
    reveal_strlit("plan.approve_request");
    reveal_strlit("plugin.list");
    reveal_strlit("plugin.inspect");
    reveal_strlit("plugin.skill.read");
    reveal_strlit("plugin.resource.list");
    reveal_strlit("plugin.resource.read");
    reveal_strlit("mcp.servers");
    reveal_strlit("mcp.tools");
    reveal_strlit("mcp.call");
    reveal_strlit("memory.create");
    reveal_strlit("memory.update");
    reveal_strlit("memory.list");
    reveal_strlit("memory.search");
    reveal_strlit("memory.archive");
    reveal_strlit("memory.supersede");
    reveal_strlit("task.create");
    reveal_strlit("task.update");
    reveal_strlit("task.list");
    reveal_strlit("decision.create");
    reveal_strlit("decision.update");
    reveal_strlit("decision.list");
    reveal_strlit("decision.archive");
    reveal_strlit("decision.supersede");
    reveal_strlit("docs.fetch");
    reveal_strlit("agent.delegate");
    reveal_strlit("agent.result");
    reveal_strlit("agent.list");
    reveal_strlit("web.search");
    reveal_strlit("web.fetch");
    reveal_strlit("network.http");
}

/// Durable state is reached from a session alone.
pub proof fn durable_state_needs_a_session(context: ExecutionContext)
    ensures
        session_refusal(context) is None <==> context.session_id is Some,
        session_refusal(context) is Some ==> session_refusal(context)->0 is Denied,
{
}

} // verus!
