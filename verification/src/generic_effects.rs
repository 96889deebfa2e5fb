//! Small effects that the runtime carries out itself, and the effects of workflows.

use crate::effects::{execution_failure, fails, ActorType, EffectPlan, ExecutionError};
use crate::encoding::{lossy_text, lossy_utf8};
use crate::error::{
    config_error, gateway_message, gateway_text, is_config_error, GatewayError, RuntimeError, StoreError,
};
use crate::json::{field_text, json_field_text};
use crate::names::{is_oci_path, normalized_oci_path};
use crate::operations::DecisionSource;
use crate::text::{bounded, clone_optional, concat2, first_chars, optional_view, same_text};
use vstd::prelude::*;
use vstd::string::*;

verus! {

/// Requires the source of a decision to be its actor: a user's decisions are the user's, all others
/// an agent's.
pub fn validate_decision_source(actor: ActorType, source: DecisionSource) -> (result: Result<(), ExecutionError>)
    ensures
        if (source is User) == (actor is User) {
            result is Ok
        } else {
            fails(result, "decision source does not match immutable actor provenance"@)
        },
{
    let expected = match actor {
        ActorType::User => DecisionSource::User,
        _ => DecisionSource::Agent,
    };
    if source != expected {
        return execution_failure("decision source does not match immutable actor provenance");
    }
    Ok(())
}

/// The message that an echo hands back. The content is a JSON document.
pub fn echo_message(content: &[u8]) -> (result: Result<String, ExecutionError>)
    ensures
        match json_field_text(content@, "message"@) {
            Some(message) => result matches Ok(text) && text@ == message,
            None => fails(result, "echo message is missing"@),
        },
{
    match field_text(content, "message") {
        Some(message) => Ok(message),
        None => execution_failure("echo message is missing"),
    }
}

/// An action that starts or feeds a workflow.
pub open spec fn workflow_control(action: Seq<char>) -> bool {
    action == "workflow.start"@ || action == "workflow.webhook.ingest"@ || action == "workflow.subscription.dispatch"@
}

fn is_workflow_control(action: &str) -> (yes: bool)
    ensures
        yes == workflow_control(action@),
{
    same_text(action, "workflow.start") || same_text(action, "workflow.webhook.ingest") || same_text(
        action,
        "workflow.subscription.dispatch",
    )
}

/// Accepts a request to start or feed a workflow.
pub fn accept_workflow_control(action: &str) -> (result: Result<(), ExecutionError>)
    ensures
        if workflow_control(action@) {
            result is Ok
        } else {
            fails(result, "workflow control executor received an unsupported action"@)
        },
{
    if !is_workflow_control(action) {
        return execution_failure("workflow control executor received an unsupported action");
    }
    Ok(())
}

/// The failure of an effect that no adapter carries out.
pub fn no_adapter(action: &str) -> (error: ExecutionError)
    ensures
        error matches ExecutionError::Failed(message) && message@ == "no adapter registered for "@ + action@,
{
    ExecutionError::Failed(concat2("no adapter registered for ", action))
}

/// What carries an effect of a workflow out.
#[derive(Clone, Copy, Debug, PartialEq, Eq, Structural)]
pub enum WorkflowExecutor {
    Echo,
    Control,
    Unavailable,
}

/// The request of one step of a workflow.
#[derive(Debug)]
pub struct WorkflowRequest {
    pub plan: EffectPlan,
    pub executor: WorkflowExecutor,
}

/// The action of a step: an echo is one of the provider.
pub open spec fn step_action(action: Seq<char>) -> Seq<char> {
    if action == "echo"@ {
        "provider.echo"@
    } else {
        action
    }
}

/// The resource of a step.
pub open spec fn step_resource(step: Seq<char>, compensation: bool) -> Seq<char> {
    if compensation {
        "workflow-compensation-step:"@ + step
    } else {
        "workflow-step:"@ + step
    }
}

/// What carries an action of a workflow out.
pub open spec fn step_executor(action: Seq<char>) -> WorkflowExecutor {
    if action == "provider.echo"@ {
        WorkflowExecutor::Echo
    } else if workflow_control(action) {
        WorkflowExecutor::Control
    } else {
        WorkflowExecutor::Unavailable
    }
}

/// The request of one step of a workflow. Every step claims the capability to run workflows alone.
pub fn plan_workflow_effect(action: &str, step: &str, compensation: bool) -> (request: WorkflowRequest)
    ensures
        request.plan.action@ == step_action(action@),
        request.plan.resource@ == step_resource(step@, compensation),
        request.plan.capability@ == "workflow.execute"@,
        request.executor == step_executor(step_action(action@)),
{
    let asked = if same_text(action, "echo") {
        "provider.echo".to_owned()
    } else {
        action.to_owned()
    };
    let resource = if compensation {
        concat2("workflow-compensation-step:", step)
    } else {
        concat2("workflow-step:", step)
    };
    let executor = if same_text(asked.as_str(), "provider.echo") {
        WorkflowExecutor::Echo
    } else if is_workflow_control(asked.as_str()) {
        WorkflowExecutor::Control
    } else {
        WorkflowExecutor::Unavailable
    };
    WorkflowRequest {
        plan: EffectPlan { action: asked, resource, capability: "workflow.execute".to_owned() },
        executor,
    }
}

/// The text of what a step handed back; bytes that are no UTF-8 are replaced.
pub fn step_text(bytes: &[u8]) -> (text: String)
    ensures
        text@ == lossy_utf8(bytes@),
{
    lossy_text(bytes)
}

/// Failure of a step of a workflow.
#[derive(Debug)]
pub enum WorkflowError {
    /// The effect may or may not have happened.
    OutcomeUnknown(String),
    /// The journal failed.
    Store(StoreError),
    /// The effect failed.
    Effect(String),
}

/// What a failure of the gateway is for a workflow.
pub open spec fn becomes(error: GatewayError, failure: WorkflowError) -> bool {
    match error {
        GatewayError::OutcomeUnknown(text) => failure == WorkflowError::OutcomeUnknown(text),
        GatewayError::Journal(store) => failure == WorkflowError::Store(store),
        _ => failure matches WorkflowError::Effect(text) && text@ == gateway_text(error),
    }
}

/// What a failure of the gateway is for a workflow: an unconfirmed outcome stays unconfirmed, and a
/// failure of the journal stays one of the store.
pub fn workflow_failure(error: GatewayError) -> (failure: WorkflowError)
    ensures
        becomes(error, failure),
{
    match error {
        GatewayError::OutcomeUnknown(text) => WorkflowError::OutcomeUnknown(text),
        GatewayError::Journal(store) => WorkflowError::Store(store),
        other => WorkflowError::Effect(gateway_message(&other)),
    }
}

/// What is recorded of a request to the local worker: who asked for what, never the content.
#[derive(Debug)]
pub struct WorkerAudit {
    pub stream_id: String,
    pub event_type: String,
    pub correlation_id: String,
    pub request_id: Option<String>,
    pub operation: Option<String>,
    pub reason: Option<String>,
    pub content_recorded: bool,
}

/// The record of a request to the local worker: a reason is kept to its first 1024 characters.
pub fn worker_audit(
    audit_id: &str,
    accepted: bool,
    request_id: &Option<String>,
    operation: &Option<String>,
    reason: &Option<String>,
) -> (audit: WorkerAudit)
    ensures
        audit.stream_id@ == "worker-ipc:"@ + audit_id@,
        audit.event_type@ == if accepted {
            "worker.ipc.accepted.v1"@
        } else {
            "worker.ipc.rejected.v1"@
        },
        audit.correlation_id@ == match *request_id {
            Some(id) => id@,
            None => audit_id@,
        },
        audit.request_id == *request_id,
        audit.operation == *operation,
        optional_view(audit.reason) == match *reason {
            Some(text) => Some(first_chars(text@, 1024)),
            None => None,
        },
        !audit.content_recorded,
{
    WorkerAudit {
        stream_id: concat2("worker-ipc:", audit_id),
        event_type: if accepted {
            "worker.ipc.accepted.v1".to_owned()
        } else {
            "worker.ipc.rejected.v1".to_owned()
        },
        correlation_id: match request_id {
            Some(id) => id.clone(),
            None => audit_id.to_owned(),
        },
        request_id: clone_optional(request_id),
        operation: clone_optional(operation),
        reason: match reason {
            Some(text) => Some(bounded(text.as_str(), 1024)),
            None => None,
        },
        content_recorded: false,
    }
}

/// Accepts the executable of a process inside an image: its exact normalized path there.
pub fn accept_image_executable(executable: &str) -> (result: Result<(), RuntimeError>)
    ensures
        if is_oci_path(executable@) {
            result is Ok
        } else {
            is_config_error(result, "OCI executable must be an exact normalized absolute image path"@)
        },
{
    if !normalized_oci_path(executable) {
        return config_error("OCI executable must be an exact normalized absolute image path");
    }
    Ok(())
}

/// A step that fails without a confirmed outcome is never reported as a plain failure.
pub proof fn unconfirmed_outcomes_stay_unconfirmed(error: GatewayError, failure: WorkflowError)
    requires
        becomes(error, failure),
    ensures
        failure is OutcomeUnknown <==> error is OutcomeUnknown,
        failure is Store <==> error is Journal,
{
}

/// A workflow may control workflows by the three documented actions and no other.
pub proof fn workflows_have_three_controls(action: Seq<char>)
    ensures
        workflow_control(action) <==> seq![
            "workflow.start"@,
            "workflow.webhook.ingest"@,
            "workflow.subscription.dispatch"@,
        ].contains(action),
{
    let names = seq!["workflow.start"@, "workflow.webhook.ingest"@, "workflow.subscription.dispatch"@];
    assert(names[0] == "workflow.start"@ && names[1] == "workflow.webhook.ingest"@ && names[2]
        == "workflow.subscription.dispatch"@);
}

/// A step acts as it is written, the echo through its provider; it is decided upon its own name, and a
/// compensation is told from the step it undoes.
pub proof fn steps_are_decided_by_name(action: Seq<char>, step: Seq<char>, other: Seq<char>)
    ensures
        action != "echo"@ ==> step_action(action) == action,
        step_action("echo"@) == "provider.echo"@,
        step.is_suffix_of(step_resource(step, true)),
        step.is_suffix_of(step_resource(step, false)),
        step != other ==> step_resource(step, false) != step_resource(other, false),
        step != other ==> step_resource(step, true) != step_resource(other, true),
        step_resource(step, true) != step_resource(step, false),
        step_executor("provider.echo"@) is Echo,
        action != "provider.echo"@ && workflow_control(action) ==> step_executor(action) is Control,
        action != "provider.echo"@ && !workflow_control(action) ==> step_executor(action) is Unavailable,
{
    reveal_strlit("workflow-step:");
    reveal_strlit("workflow-compensation-step:");
    let plain = "workflow-step:"@;
    let undo = "workflow-compensation-step:"@;
    if step != other {
        if step_resource(step, false) == step_resource(other, false) {
            assert(step_resource(step, false).skip(plain.len() as int) == step);
            assert(step_resource(other, false).skip(plain.len() as int) == other);
        }
        if step_resource(step, true) == step_resource(other, true) {
            assert(step_resource(step, true).skip(undo.len() as int) == step);
            assert(step_resource(other, true).skip(undo.len() as int) == other);
        }
    }
    assert(step_resource(step, true)[9] == 'c' && step_resource(step, false)[9] == 's');
}

/// A failure of the gateway stays what it is: an unknown outcome, a failure of the journal, or a failed
/// effect with the gateway's own words.
pub proof fn workflow_failures_keep_their_reason(error: GatewayError, failure: WorkflowError)
    requires
        becomes(error, failure),
    ensures
        failure is OutcomeUnknown <==> error is OutcomeUnknown,
        failure is Store <==> error is Journal,
        error matches GatewayError::OutcomeUnknown(text) ==> failure == WorkflowError::OutcomeUnknown(text),
        error matches GatewayError::Journal(store) ==> failure == WorkflowError::Store(store),
        failure matches WorkflowError::Effect(text) ==> text@ == gateway_text(error),
{
}

} // verus!
