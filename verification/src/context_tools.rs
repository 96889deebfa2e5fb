//! Tools that show, compact and restore the context of a session.

use crate::effects::{asks_for, effect_plan, execution_failure, fails, EffectPlan, ExecutionError};
use crate::encoding::utf8_text;
use crate::error::GatewayError;
use crate::operations::{context_action, context_session, ContextOperation};
use crate::text::{optional_is, optional_view, same_text};
use crate::tools::{
    denied, first, given, refuse_if, refuses, required_refusal, ExecutionContext, Refusal, TextArgument, ToolError,
};
use vstd::prelude::*;
use vstd::string::*;
use vstd::utf8::*;

verus! {

/// A tool for the context of a session.
pub open spec fn context_tool(name: Seq<char>) -> bool {
    name == "context.show"@ || name == "context.compact"@ || name == "context.snapshots"@ || name
        == "context.restore"@
}

/// Why a call is refused, if so.
pub open spec fn context_refusal(name: Seq<char>, context: ExecutionContext, snapshot_id: TextArgument) -> Option<
    Refusal,
> {
    first(
        refuse_if(context.session_id is None, Refusal::Denied("context tools require an active session"@)),
        if name == "context.restore"@ {
            required_refusal(snapshot_id)
        } else {
            None
        },
    )
}

/// The session of a call that works on a context.
pub fn context_tool_session(context: &ExecutionContext) -> (session: Result<String, ToolError>)
    ensures
        match context.session_id {
            Some(id) => session == Ok::<String, ToolError>(id),
            None => refuses(session, Refusal::Denied("context tools require an active session"@)),
        },
{
    match &context.session_id {
        Some(id) => Ok(id.clone()),
        None => denied("context tools require an active session"),
    }
}

/// The operation of a tool for the context of its session; none for any other tool. It works on the
/// primary role.
pub fn plan_context(name: &str, context: &ExecutionContext, snapshot_id: &TextArgument) -> (result: Result<
    Option<ContextOperation>,
    ToolError,
>)
    ensures
        if !context_tool(name@) {
            result == Ok::<Option<ContextOperation>, ToolError>(None)
        } else {
            match context_refusal(name@, *context, *snapshot_id) {
                Some(refusal) => refuses(result, refusal),
                None => result matches Ok(Some(operation)) && {
                    &&& context_action(operation) == name@
                    &&& Some(context_session(operation)) == context.session_id
                    &&& match operation {
                        ContextOperation::Show { role, .. } => role@ == "primary"@,
                        ContextOperation::Compact { role, .. } => role@ == "primary"@,
                        ContextOperation::Snapshots { .. } => true,
                        ContextOperation::Restore { snapshot_id: id, .. } => given(*snapshot_id) == Some(id),
                    }
                },
            }
        },
{
    if same_text(name, "context.show") {
        proof {
            restoring_differs();
        }
        let session_id = context_tool_session(context)?;
        Ok(Some(ContextOperation::Show { session_id, role: "primary".to_owned() }))
    } else if same_text(name, "context.compact") {
        proof {
            restoring_differs();
        }
        let session_id = context_tool_session(context)?;
        Ok(Some(ContextOperation::Compact { session_id, role: "primary".to_owned() }))
    } else if same_text(name, "context.snapshots") {
        proof {
            restoring_differs();
        }
        let session_id = context_tool_session(context)?;
        Ok(Some(ContextOperation::Snapshots { session_id }))
    } else if same_text(name, "context.restore") {
        let session_id = context_tool_session(context)?;
        let snapshot_id = snapshot_id.required()?;
        Ok(Some(ContextOperation::Restore { session_id, snapshot_id }))
    } else {
        Ok(None)
    }
}

proof fn restoring_differs()
    ensures
        "context.show"@ != "context.restore"@,
        "context.compact"@ != "context.restore"@,
        "context.snapshots"@ != "context.restore"@,
{
    reveal_strlit("context.show");
    reveal_strlit("context.compact");
    reveal_strlit("context.snapshots");
    reveal_strlit("context.restore");
    assert("context.show"@.len() == 12);
    assert("context.compact"@[8] == 'c');
    assert("context.restore"@[8] == 'r');
    assert("context.restore"@.len() == 15);
    assert("context.snapshots"@.len() == 17);
}

/// The request of an operation on a context.
pub fn context_plan(operation: &ContextOperation) -> (plan: EffectPlan)
    ensures
        asks_for(plan, context_action(*operation), "session:"@ + context_session(*operation)@),
{
    let resource = operation.resource();
    effect_plan(operation.action(), resource.as_str())
}

/// A request states the session of its operation, and acts within that session.
pub open spec fn context_request_matches(
    action: Seq<char>,
    resource: Seq<char>,
    session: Option<Seq<char>>,
    operation: ContextOperation,
) -> bool {
    &&& action == context_action(operation)
    &&& resource == "session:"@ + context_session(operation)@
    &&& session == Some(context_session(operation)@)
}

/// Accepts a request for an operation on a context.
pub fn accept_context_request(
    action: &str,
    resource: &str,
    session: &Option<String>,
    operation: &ContextOperation,
) -> (result: Result<
    (),
    ExecutionError,
>)
    ensures
        if context_request_matches(action@, resource@, optional_view(*session), *operation) {
            result is Ok
        } else {
            fails(result, "context request does not match its validated session operation"@)
        },
{
    let expected = operation.resource();
    if !same_text(action, operation.action()) || !same_text(resource, expected.as_str()) || !optional_is(
        session,
        operation.session_id().as_str(),
    ) {
        return execution_failure("context request does not match its validated session operation");
    }
    Ok(())
}

/// The text of what an operation on a context handed back.
pub fn context_output(bytes: &[u8]) -> (result: Result<String, GatewayError>)
    ensures
        if valid_utf8(bytes@) {
            result matches Ok(text) && encode_utf8(text@) == bytes@
        } else {
            result matches Err(GatewayError::Execution(message)) && message@ == "context result returned non-UTF-8"@
        },
{
    match utf8_text(bytes) {
        Ok(text) => Ok(text),
        Err(_) => Err(GatewayError::Execution("context result returned non-UTF-8".to_owned())),
    }
}

/// The request that is planned for a tool is accepted by the executor, within the session of the call
/// and in no other.
pub proof fn planned_operations_stay_in_their_session(
    operation: ContextOperation,
    plan: EffectPlan,
    session: Option<Seq<char>>,
)
    requires
        asks_for(plan, context_action(operation), "session:"@ + context_session(operation)@),
    ensures
        context_request_matches(plan.action@, plan.resource@, session, operation) == (session == Some(
            context_session(operation)@,
        )),
{
}

/// The four context tools are planned from a session alone; restoring needs to be told what to restore.
pub proof fn contexts_are_reached_from_a_session(name: Seq<char>, context: ExecutionContext, snapshot_id: TextArgument)
    ensures
        context_tool(name) <==> seq!["context.show"@, "context.compact"@, "context.snapshots"@, "context.restore"@]
            .contains(name),
        context_refusal(name, context, snapshot_id) is None <==> context.session_id is Some && (name
            == "context.restore"@ ==> snapshot_id is Present),
{
    let names = seq!["context.show"@, "context.compact"@, "context.snapshots"@, "context.restore"@];
    assert(names[0] == "context.show"@ && names[1] == "context.compact"@ && names[2] == "context.snapshots"@
        && names[3] == "context.restore"@);
}

/// A request is accepted only for the session it was made in: the same operation of another session is
/// not.
pub proof fn requests_stay_in_their_session(
    action: Seq<char>,
    resource: Seq<char>,
    session: Option<Seq<char>>,
    operation: ContextOperation,
)
    ensures
        context_request_matches(action, resource, session, operation) <==> action == context_action(operation)
            && resource == "session:"@ + context_session(operation)@ && session == Some(context_session(operation)@),
{
}

} // verus!
