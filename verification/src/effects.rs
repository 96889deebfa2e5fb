//! Requests for effects and how their execution fails.

use vstd::prelude::*;
use vstd::string::*;

verus! {

/// Failure of the executor of an effect.
#[derive(Debug)]
pub enum ExecutionError {
    /// The effect did not happen, or failed.
    Failed(String),
    /// The effect may or may not have happened.
    OutcomeUnknown(String),
}

/// `result` is a failure with exactly this text.
pub open spec fn fails<T>(result: Result<T, ExecutionError>, text: Seq<char>) -> bool {
    result matches Err(ExecutionError::Failed(message)) && message@ == text
}

/// A failure with the given text.
pub fn execution_failure<T>(text: &str) -> (result: Result<T, ExecutionError>)
    ensures
        fails(result, text@),
{
    Err(ExecutionError::Failed(text.to_owned()))
}

/// Who asks for an effect.
#[derive(Clone, Copy, Debug, PartialEq, Eq, Structural)]
pub enum ActorType {
    User,
    System,
    Model,
    Workflow,
    Subagent,
}

/// What a request for an effect asks for.
#[derive(Debug)]
pub struct EffectPlan {
    pub action: String,
    pub resource: String,
    /// The only capability that the request claims.
    pub capability: String,
}

/// A plan asks for this action on this resource, and claims no more than the action.
pub open spec fn asks_for(plan: EffectPlan, action: Seq<char>, resource: Seq<char>) -> bool {
    plan.action@ == action && plan.resource@ == resource && plan.capability@ == action
}

/// The plan of an action on a resource.
pub fn effect_plan(action: &str, resource: &str) -> (plan: EffectPlan)
    ensures
        asks_for(plan, action@, resource@),
{
    EffectPlan { action: action.to_owned(), resource: resource.to_owned(), capability: action.to_owned() }
}

/// A credential that a request refers to.
#[derive(Debug)]
pub struct CredentialReference {
    pub reference: String,
    /// Whether a hash of its value came with it.
    pub hashed: bool,
}

/// A plan asks for one action upon one resource, under the capability of that action.
pub proof fn plans_ask_for_one_action(plan: EffectPlan, action: Seq<char>, resource: Seq<char>)
    ensures
        asks_for(plan, action, resource) <==> plan.action@ == action && plan.resource@ == resource
            && plan.capability@ == action,
{
}

/// What fails is no success, and its message is the reason.
pub proof fn failures_give_their_reason<T>(result: Result<T, ExecutionError>, text: Seq<char>)
    requires
        fails(result, text),
    ensures
        result matches Err(ExecutionError::Failed(message)) && message@ == text,
{
}

} // verus!
