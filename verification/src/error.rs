//! Failures of the runtime and of the adapters it composes.
//!
//! Adapter failures are kept as far as the runtime decides by them: whether the outcome of an
//! effect is unconfirmed, and which released provider response came with a failure.

use crate::text::{clone_optional, concat2, contains_text, parts_are_contained};
use vstd::prelude::*;
use vstd::string::*;

verus! {

/// Failure of the journal, key or repository adapter.
#[derive(Debug)]
pub enum StoreError {
    /// The write may or may not have been applied.
    OutcomeUnknown(String),
    /// The named record does not exist.
    NotFound(String),
    /// The adapter failed.
    Adapter(String),
    /// Stored or released data violated its contract.
    Verification(String),
    /// Any other adapter failure.
    Other(String),
}

/// Failure of effect authorization or execution.
#[derive(Debug)]
pub enum GatewayError {
    /// The effect may or may not have happened.
    OutcomeUnknown(String),
    /// Journaling the effect failed.
    Journal(StoreError),
    /// Policy denied the effect.
    Denied(String),
    /// Approval was refused or unavailable.
    Approval(String),
    /// The request violated the gateway contract.
    Contract(String),
    /// The adapter failed.
    Execution(String),
    /// Any other gateway failure.
    Other(String),
}

/// Failure of the provider-neutral search port.
#[derive(Debug)]
pub enum SearchError {
    /// The search may or may not have happened.
    OutcomeUnknown(String),
    /// Any other search failure.
    Other(String),
}

/// What was exchanged with a provider when a request failed.
#[derive(Debug)]
pub struct ProviderResponseDiagnostic {
    /// HTTP status of the response.
    pub status: u64,
    /// Declared content type of the response.
    pub content_type: Option<String>,
    /// Encoding of `body`.
    pub body_encoding: String,
    /// Response body.
    pub body: String,
    /// Whether the response body was cut at its bound.
    pub body_truncated: bool,
    /// HTTP method of the request.
    pub request_method: String,
    /// URL of the request.
    pub request_url: String,
    /// JSON document sent as the request body.
    pub request_body: Option<String>,
}

/// Failure of a model provider.
#[derive(Debug)]
pub struct ModelProviderError {
    /// What failed.
    pub message: String,
    /// Whether the outcome of the provider call is unconfirmed.
    pub outcome_unknown: bool,
    /// Response evidence released with the failure.
    pub response: Option<ProviderResponseDiagnostic>,
}

/// Failure of the agent loop.
#[derive(Debug)]
pub enum AgentError {
    /// The model provider failed.
    Provider {
        /// The provider failure.
        error: ModelProviderError,
        /// Whether the run may have left an unconfirmed effect.
        outcome_unknown: bool,
    },
    /// Any other failure of the loop.
    Other {
        /// What failed.
        message: String,
        /// Whether the run may have left an unconfirmed effect.
        outcome_unknown: bool,
    },
}

/// Failure of context preparation.
#[derive(Debug)]
pub enum ContextError {
    /// The context store failed.
    Store(StoreError),
    /// The summarizing provider failed.
    Provider(ModelProviderError),
    /// Any other context failure.
    Other(String),
}

/// Runtime construction or application failure.
#[derive(Debug)]
pub enum RuntimeError {
    /// Strict configuration failed.
    Config(String),
    /// Filesystem read or write failed before runtime composition.
    Io(String),
    /// Journal or key adapter failed.
    Store(StoreError),
    /// Effect authorization or execution failed.
    Gateway(GatewayError),
    /// Provider configuration or normalized output failed.
    Provider(String),
    /// Search profile, route, transport or normalization failed.
    Search(String),
    /// Provider-neutral search port failed after runtime composition.
    SearchPort(SearchError),
    /// Agent application loop failed.
    Agent(AgentError),
    /// Context preparation or snapshot lifecycle failed.
    Context(ContextError),
    /// Active tool catalog is invalid.
    ToolCatalog(String),
    /// Configured MCP adapter or protocol contract failed.
    Mcp(String),
    /// Offline release-bundle contract failed.
    Bundle(String),
    /// Workflow validation or execution failed.
    Workflow(String),
}

impl Clone for StoreError {
    fn clone(&self) -> (copy: Self)
        ensures
            copy == *self,
    {
        match self {
            StoreError::OutcomeUnknown(text) => StoreError::OutcomeUnknown(text.clone()),
            StoreError::NotFound(text) => StoreError::NotFound(text.clone()),
            StoreError::Adapter(text) => StoreError::Adapter(text.clone()),
            StoreError::Verification(text) => StoreError::Verification(text.clone()),
            StoreError::Other(text) => StoreError::Other(text.clone()),
        }
    }
}

impl Clone for GatewayError {
    fn clone(&self) -> (copy: Self)
        ensures
            copy == *self,
    {
        match self {
            GatewayError::OutcomeUnknown(text) => GatewayError::OutcomeUnknown(text.clone()),
            GatewayError::Journal(error) => GatewayError::Journal(error.clone()),
            GatewayError::Denied(text) => GatewayError::Denied(text.clone()),
            GatewayError::Approval(text) => GatewayError::Approval(text.clone()),
            GatewayError::Contract(text) => GatewayError::Contract(text.clone()),
            GatewayError::Execution(text) => GatewayError::Execution(text.clone()),
            GatewayError::Other(text) => GatewayError::Other(text.clone()),
        }
    }
}

impl Clone for SearchError {
    fn clone(&self) -> (copy: Self)
        ensures
            copy == *self,
    {
        match self {
            SearchError::OutcomeUnknown(text) => SearchError::OutcomeUnknown(text.clone()),
            SearchError::Other(text) => SearchError::Other(text.clone()),
        }
    }
}

impl Clone for ProviderResponseDiagnostic {
    fn clone(&self) -> (copy: Self)
        ensures
            copy == *self,
    {
        ProviderResponseDiagnostic {
            status: self.status,
            content_type: clone_optional(&self.content_type),
            body_encoding: self.body_encoding.clone(),
            body: self.body.clone(),
            body_truncated: self.body_truncated,
            request_method: self.request_method.clone(),
            request_url: self.request_url.clone(),
            request_body: clone_optional(&self.request_body),
        }
    }
}

impl Clone for ModelProviderError {
    fn clone(&self) -> (copy: Self)
        ensures
            copy == *self,
    {
        ModelProviderError {
            message: self.message.clone(),
            outcome_unknown: self.outcome_unknown,
            response: match &self.response {
                Some(response) => Some(response.clone()),
                None => None,
            },
        }
    }
}

impl Clone for AgentError {
    fn clone(&self) -> (copy: Self)
        ensures
            copy == *self,
    {
        match self {
            AgentError::Provider { error, outcome_unknown } => AgentError::Provider {
                error: error.clone(),
                outcome_unknown: *outcome_unknown,
            },
            AgentError::Other { message, outcome_unknown } => AgentError::Other {
                message: message.clone(),
                outcome_unknown: *outcome_unknown,
            },
        }
    }
}

impl Clone for ContextError {
    fn clone(&self) -> (copy: Self)
        ensures
            copy == *self,
    {
        match self {
            ContextError::Store(error) => ContextError::Store(error.clone()),
            ContextError::Provider(error) => ContextError::Provider(error.clone()),
            ContextError::Other(text) => ContextError::Other(text.clone()),
        }
    }
}

impl Clone for RuntimeError {
    fn clone(&self) -> (copy: Self)
        ensures
            copy == *self,
    {
        match self {
            RuntimeError::Config(text) => RuntimeError::Config(text.clone()),
            RuntimeError::Io(text) => RuntimeError::Io(text.clone()),
            RuntimeError::Store(error) => RuntimeError::Store(error.clone()),
            RuntimeError::Gateway(error) => RuntimeError::Gateway(error.clone()),
            RuntimeError::Provider(text) => RuntimeError::Provider(text.clone()),
            RuntimeError::Search(text) => RuntimeError::Search(text.clone()),
            RuntimeError::SearchPort(error) => RuntimeError::SearchPort(error.clone()),
            RuntimeError::Agent(error) => RuntimeError::Agent(error.clone()),
            RuntimeError::Context(error) => RuntimeError::Context(error.clone()),
            RuntimeError::ToolCatalog(text) => RuntimeError::ToolCatalog(text.clone()),
            RuntimeError::Mcp(text) => RuntimeError::Mcp(text.clone()),
            RuntimeError::Bundle(text) => RuntimeError::Bundle(text.clone()),
            RuntimeError::Workflow(text) => RuntimeError::Workflow(text.clone()),
        }
    }
}

/// The failure may follow an effect whose outcome is unconfirmed.
pub open spec fn unconfirmed(error: RuntimeError) -> bool {
    match error {
        RuntimeError::Store(StoreError::OutcomeUnknown(_)) => true,
        RuntimeError::SearchPort(SearchError::OutcomeUnknown(_)) => true,
        RuntimeError::Gateway(GatewayError::OutcomeUnknown(_)) => true,
        RuntimeError::Gateway(GatewayError::Journal(StoreError::OutcomeUnknown(_))) => true,
        RuntimeError::Agent(AgentError::Provider { error: _, outcome_unknown }) => outcome_unknown,
        RuntimeError::Agent(AgentError::Other { message: _, outcome_unknown }) => outcome_unknown,
        RuntimeError::Context(ContextError::Store(StoreError::OutcomeUnknown(_))) => true,
        RuntimeError::Context(ContextError::Provider(failure)) => failure.outcome_unknown,
        _ => false,
    }
}

impl RuntimeError {
    /// The released provider response of a failed local run.
    pub fn provider_response_diagnostic(&self) -> (response: Option<&ProviderResponseDiagnostic>)
        ensures
            match *self {
                RuntimeError::Agent(AgentError::Provider { error, .. }) => match error.response {
                    Some(released) => response == Some(&released),
                    None => response is None,
                },
                _ => response is None,
            },
    {
        match self {
            RuntimeError::Agent(AgentError::Provider { error, .. }) => match &error.response {
                Some(response) => Some(response),
                None => None,
            },
            _ => None,
        }
    }

    /// Whether this failure may follow an effect whose outcome is unconfirmed.
    pub fn outcome_unknown(&self) -> (unknown: bool)
        ensures
            unknown == unconfirmed(*self),
    {
        match self {
            RuntimeError::Store(StoreError::OutcomeUnknown(_)) => true,
            RuntimeError::SearchPort(SearchError::OutcomeUnknown(_)) => true,
            RuntimeError::Gateway(GatewayError::OutcomeUnknown(_)) => true,
            RuntimeError::Gateway(GatewayError::Journal(StoreError::OutcomeUnknown(_))) => true,
            RuntimeError::Agent(AgentError::Provider { error: _, outcome_unknown }) => *outcome_unknown,
            RuntimeError::Agent(AgentError::Other { message: _, outcome_unknown }) => *outcome_unknown,
            RuntimeError::Context(ContextError::Store(StoreError::OutcomeUnknown(_))) => true,
            RuntimeError::Context(ContextError::Provider(failure)) => failure.outcome_unknown,
            _ => false,
        }
    }
}

/// The text that a failure is displayed as. The text of an adapter's failure is the one that the
/// adapter displays.
pub open spec fn displayed(error: RuntimeError) -> Seq<char> {
    match error {
        RuntimeError::Config(text) => "configuration error: "@ + text@,
        RuntimeError::Io(text) => text@,
        RuntimeError::Store(failure) => store_text(failure),
        RuntimeError::Gateway(failure) => gateway_text(failure),
        RuntimeError::Provider(text) => text@,
        RuntimeError::Search(text) => text@,
        RuntimeError::SearchPort(SearchError::OutcomeUnknown(text)) => text@,
        RuntimeError::SearchPort(SearchError::Other(text)) => text@,
        RuntimeError::Agent(AgentError::Provider { error: failure, .. }) => failure.message@,
        RuntimeError::Agent(AgentError::Other { message, .. }) => message@,
        RuntimeError::Context(ContextError::Store(failure)) => store_text(failure),
        RuntimeError::Context(ContextError::Provider(failure)) => failure.message@,
        RuntimeError::Context(ContextError::Other(text)) => text@,
        RuntimeError::ToolCatalog(text) => text@,
        RuntimeError::Mcp(text) => text@,
        RuntimeError::Bundle(text) => text@,
        RuntimeError::Workflow(text) => text@,
    }
}

/// The text of a store's failure.
pub open spec fn store_text(error: StoreError) -> Seq<char> {
    match error {
        StoreError::OutcomeUnknown(text) => text@,
        StoreError::NotFound(text) => text@,
        StoreError::Adapter(text) => text@,
        StoreError::Verification(text) => text@,
        StoreError::Other(text) => text@,
    }
}

/// The text of a gateway's failure.
pub open spec fn gateway_text(error: GatewayError) -> Seq<char> {
    match error {
        GatewayError::OutcomeUnknown(text) => text@,
        GatewayError::Journal(failure) => store_text(failure),
        GatewayError::Denied(text) => text@,
        GatewayError::Approval(text) => text@,
        GatewayError::Contract(text) => text@,
        GatewayError::Execution(text) => text@,
        GatewayError::Other(text) => text@,
    }
}

fn store_message(error: &StoreError) -> (text: String)
    ensures
        text@ == store_text(*error),
{
    match error {
        StoreError::OutcomeUnknown(text) => text.clone(),
        StoreError::NotFound(text) => text.clone(),
        StoreError::Adapter(text) => text.clone(),
        StoreError::Verification(text) => text.clone(),
        StoreError::Other(text) => text.clone(),
    }
}

/// The text of a gateway's failure.
pub fn gateway_message(error: &GatewayError) -> (text: String)
    ensures
        text@ == gateway_text(*error),
{
    match error {
        GatewayError::OutcomeUnknown(text) => text.clone(),
        GatewayError::Journal(store) => store_message(store),
        GatewayError::Denied(text) => text.clone(),
        GatewayError::Approval(text) => text.clone(),
        GatewayError::Contract(text) => text.clone(),
        GatewayError::Execution(text) => text.clone(),
        GatewayError::Other(text) => text.clone(),
    }
}

impl RuntimeError {
    /// The text that the failure is displayed as.
    pub fn shown(&self) -> (text: String)
        ensures
            text@ == displayed(*self),
    {
        match self {
            RuntimeError::Config(text) => concat2("configuration error: ", text.as_str()),
            RuntimeError::Io(text) => text.clone(),
            RuntimeError::Store(failure) => store_message(failure),
            RuntimeError::Gateway(failure) => gateway_message(failure),
            RuntimeError::Provider(text) => text.clone(),
            RuntimeError::Search(text) => text.clone(),
            RuntimeError::SearchPort(failure) => match failure {
                SearchError::OutcomeUnknown(text) => text.clone(),
                SearchError::Other(text) => text.clone(),
            },
            RuntimeError::Agent(failure) => match failure {
                AgentError::Provider { error, .. } => error.message.clone(),
                AgentError::Other { message, .. } => message.clone(),
            },
            RuntimeError::Context(failure) => match failure {
                ContextError::Store(store) => store_message(store),
                ContextError::Provider(provider) => provider.message.clone(),
                ContextError::Other(text) => text.clone(),
            },
            RuntimeError::ToolCatalog(text) => text.clone(),
            RuntimeError::Mcp(text) => text.clone(),
            RuntimeError::Bundle(text) => text.clone(),
            RuntimeError::Workflow(text) => text.clone(),
        }
    }
}

/// What a decision comes to: acceptance, a configuration failure with its text, or a failure of an
/// adapter handed on as it came.
pub ghost enum Verdict {
    Accept,
    Reject(Seq<char>),
    Forward(RuntimeError),
}

/// `result` is a configuration failure with exactly this text.
pub open spec fn is_config_error<T>(result: Result<T, RuntimeError>, text: Seq<char>) -> bool {
    result matches Err(RuntimeError::Config(message)) && message@ == text
}

/// `result` answers with exactly `verdict`.
pub open spec fn answers(result: Result<(), RuntimeError>, verdict: Verdict) -> bool {
    match verdict {
        Verdict::Accept => result is Ok,
        Verdict::Reject(text) => is_config_error(result, text),
        Verdict::Forward(error) => result == Err::<(), RuntimeError>(error),
    }
}

/// A configuration failure with the given text.
pub fn config_error<T>(text: &str) -> (result: Result<T, RuntimeError>)
    ensures
        is_config_error(result, text@),
{
    Err(RuntimeError::Config(text.to_owned()))
}

/// A configuration failure made of three texts.
pub fn config_error3<T>(first: &str, second: &str, third: &str) -> (result: Result<T, RuntimeError>)
    ensures
        is_config_error(result, first@ + second@ + third@),
{
    let mut text = first.to_owned();
    text.append(second);
    text.append(third);
    Err(RuntimeError::Config(text))
}

/// A verdict is answered in one way alone: what is accepted succeeds, and what is refused fails with its
/// reason.
pub proof fn verdicts_are_answered_in_one_way(
    first: Result<(), RuntimeError>,
    second: Result<(), RuntimeError>,
    verdict: Verdict,
)
    requires
        answers(first, verdict),
        answers(second, verdict),
    ensures
        first is Ok <==> verdict is Accept,
        first is Ok <==> second is Ok,
        verdict matches Verdict::Reject(text) ==> (first matches Err(RuntimeError::Config(message)) && message@
            == text),
        verdict matches Verdict::Forward(error) ==> first == Err::<(), RuntimeError>(error),
{
}

/// A failure shows the text that it carries.
pub proof fn failures_show_their_text(error: RuntimeError, text: String)
    ensures
        error == RuntimeError::Config(text) ==> contains_text(displayed(error), text@),
        error == RuntimeError::Io(text) || error == RuntimeError::Provider(text) || error == RuntimeError::Search(text)
            || error == RuntimeError::ToolCatalog(text) || error == RuntimeError::Mcp(text) || error
            == RuntimeError::Bundle(text) || error == RuntimeError::Workflow(text) ==> displayed(error) == text@,
        error == RuntimeError::Store(StoreError::OutcomeUnknown(text)) || error == RuntimeError::Store(
            StoreError::NotFound(text),
        ) || error == RuntimeError::Store(StoreError::Adapter(text)) || error == RuntimeError::Store(
            StoreError::Verification(text),
        ) || error == RuntimeError::Store(StoreError::Other(text)) ==> displayed(error) == text@,
        error == RuntimeError::Gateway(GatewayError::Denied(text)) || error == RuntimeError::Gateway(
            GatewayError::Approval(text),
        ) || error == RuntimeError::Gateway(GatewayError::Contract(text)) || error == RuntimeError::Gateway(
            GatewayError::Execution(text),
        ) || error == RuntimeError::Gateway(GatewayError::OutcomeUnknown(text)) || error == RuntimeError::Gateway(
            GatewayError::Other(text),
        ) ==> displayed(error) == text@,
        error == RuntimeError::SearchPort(SearchError::OutcomeUnknown(text)) || error == RuntimeError::SearchPort(
            SearchError::Other(text),
        ) || error == RuntimeError::Context(ContextError::Other(text)) ==> displayed(error) == text@,
{
    if error == RuntimeError::Config(text) {
        let empty = Seq::<char>::empty();
        parts_are_contained("configuration error: "@, text@, empty);
        assert("configuration error: "@ + text@ + empty == displayed(error));
    }
}

/// An outcome that nobody could confirm stays unconfirmed however the failure is passed on, and one that
/// was confirmed is never reported as unconfirmed.
pub proof fn unconfirmed_outcomes_are_told(failure: StoreError, search: SearchError, provider: ModelProviderError)
    ensures
        unconfirmed(RuntimeError::Store(failure)) == failure is OutcomeUnknown,
        unconfirmed(RuntimeError::Gateway(GatewayError::Journal(failure))) == failure is OutcomeUnknown,
        unconfirmed(RuntimeError::Context(ContextError::Store(failure))) == failure is OutcomeUnknown,
        unconfirmed(RuntimeError::SearchPort(search)) == search is OutcomeUnknown,
        unconfirmed(RuntimeError::Context(ContextError::Provider(provider))) == provider.outcome_unknown,
        forall|flag: bool| #[trigger]
            unconfirmed(RuntimeError::Agent(AgentError::Provider { error: provider, outcome_unknown: flag })) == flag,
        forall|text: String, flag: bool| #[trigger]
            unconfirmed(RuntimeError::Agent(AgentError::Other { message: text, outcome_unknown: flag })) == flag,
        forall|text: String| #[trigger]
            unconfirmed(RuntimeError::Gateway(GatewayError::OutcomeUnknown(text))),
        forall|text: String| !#[trigger] unconfirmed(RuntimeError::Gateway(GatewayError::Denied(text))),
        forall|text: String| !#[trigger] unconfirmed(RuntimeError::Gateway(GatewayError::Approval(text))),
        forall|text: String| !#[trigger] unconfirmed(RuntimeError::Gateway(GatewayError::Contract(text))),
        forall|text: String| !#[trigger] unconfirmed(RuntimeError::Gateway(GatewayError::Execution(text))),
        forall|text: String| !#[trigger] unconfirmed(RuntimeError::Config(text)),
        forall|text: String| !#[trigger] unconfirmed(RuntimeError::Io(text)),
        forall|text: String| !#[trigger] unconfirmed(RuntimeError::Provider(text)),
        forall|text: String| !#[trigger] unconfirmed(RuntimeError::Mcp(text)),
        forall|text: String| !#[trigger] unconfirmed(RuntimeError::Workflow(text)),
{
}

} // verus!
