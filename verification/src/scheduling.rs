//! Running child agents beside the run that delegates to them, and forwarding the events of both.

use crate::error::{AgentError, ModelProviderError, RuntimeError};
use vstd::prelude::*;
use vstd::string::*;

verus! {

/// What a run with child agents waits for.
pub enum Scheduling<T> {
    /// The run, or word of delegated work.
    Running,
    /// The run, or the child agents that were started.
    Draining,
    /// The child agents alone: the run has ended.
    Settling(Result<T, RuntimeError>),
    /// Nothing any more.
    Done(Result<T, RuntimeError>),
}

/// What happened to a run with child agents.
pub enum ScheduleEvent<T> {
    /// Work was delegated.
    Notified,
    /// No more word of delegated work can come.
    Disconnected,
    /// The run ended.
    RunEnded(Result<T, RuntimeError>),
    /// The child agents that were started ended.
    Drained(Result<(), RuntimeError>),
}

/// The failure of a run that can no longer hear of delegated work.
pub open spec fn disconnected<T>(result: Result<T, RuntimeError>) -> bool {
    result matches Err(RuntimeError::Config(text)) && text@ == "subagent scheduling notification channel disconnected"@
}

/// What a run with child agents waits for after an event. An event that is not waited for changes
/// nothing.
pub open spec fn follows<T>(state: Scheduling<T>, event: ScheduleEvent<T>, next: Scheduling<T>) -> bool {
    match (state, event) {
        (Scheduling::Running, ScheduleEvent::Notified) => next is Draining,
        (Scheduling::Running, ScheduleEvent::Disconnected) => next matches Scheduling::Done(result) && disconnected(
            result,
        ),
        (Scheduling::Running, ScheduleEvent::RunEnded(result)) => next == Scheduling::Done(result),
        (Scheduling::Draining, ScheduleEvent::RunEnded(result)) => next == Scheduling::Settling(result),
        (Scheduling::Draining, ScheduleEvent::Drained(Ok(_))) => next is Running,
        (Scheduling::Draining, ScheduleEvent::Drained(Err(error))) => next == Scheduling::<T>::Done(Err(error)),
        (Scheduling::Settling(result), ScheduleEvent::Drained(Ok(_))) => next == Scheduling::Done(result),
        (Scheduling::Settling(_), ScheduleEvent::Drained(Err(error))) => next == Scheduling::<T>::Done(Err(error)),
        _ => next == state,
    }
}

/// One step of a run with child agents. Child agents are started when the step goes to draining.
pub fn schedule<T>(state: Scheduling<T>, event: ScheduleEvent<T>) -> (next: Scheduling<T>)
    ensures
        follows(state, event, next),
{
    match (state, event) {
        (Scheduling::Running, ScheduleEvent::Notified) => Scheduling::Draining,
        (Scheduling::Running, ScheduleEvent::Disconnected) => Scheduling::Done(
            Err(RuntimeError::Config("subagent scheduling notification channel disconnected".to_owned())),
        ),
        (Scheduling::Running, ScheduleEvent::RunEnded(result)) => Scheduling::Done(result),
        (Scheduling::Draining, ScheduleEvent::RunEnded(result)) => Scheduling::Settling(result),
        (Scheduling::Draining, ScheduleEvent::Drained(Ok(_))) => Scheduling::Running,
        (Scheduling::Draining, ScheduleEvent::Drained(Err(error))) => Scheduling::Done(Err(error)),
        (Scheduling::Settling(result), ScheduleEvent::Drained(Ok(_))) => Scheduling::Done(result),
        (Scheduling::Settling(_), ScheduleEvent::Drained(Err(error))) => Scheduling::Done(Err(error)),
        (other, _) => other,
    }
}

/// Child agents are waited for by this state.
pub open spec fn has_children<T>(state: Scheduling<T>) -> bool {
    state is Draining || state is Settling
}

/// Child agents that were started are waited for: a run whose children still work ends only by their
/// end, whatever became of the run itself.
pub proof fn started_children_are_waited_for<T>(
    state: Scheduling<T>,
    event: ScheduleEvent<T>,
    next: Scheduling<T>,
)
    requires
        has_children(state),
        follows(state, event, next),
    ensures
        event !is Drained ==> has_children(next),
        next is Done ==> event is Drained,
{
}

/// What a run is doing whose events are forwarded to an observer.
pub enum Forwarding<T> {
    /// It runs, and its events are forwarded.
    Forward,
    /// It has ended, and the events that are left are forwarded.
    Flush(Result<T, RuntimeError>),
    /// The observer failed: the run goes on to its end, and its events are dropped.
    Discard(ModelProviderError),
    /// It is over.
    Done(Result<T, RuntimeError>),
}

/// What happened to a run whose events are forwarded.
pub enum ForwardEvent<T> {
    /// The observer took an event.
    Observed,
    /// The observer refused an event.
    Refused(ModelProviderError),
    /// No more events can come.
    Closed,
    /// The run, with its child agents, ended.
    Ended(Result<T, RuntimeError>),
    /// No event is left of a run that ended.
    Emptied,
}

/// The failure of the observer is that of the run.
pub open spec fn observer_failure<T>(result: Result<T, RuntimeError>, error: ModelProviderError) -> bool {
    result == Err::<T, RuntimeError>(
        RuntimeError::Agent(AgentError::Provider { error, outcome_unknown: error.outcome_unknown }),
    )
}

/// What a run whose events are forwarded does after an event. An event that is not waited for changes
/// nothing.
pub open spec fn forwards<T>(state: Forwarding<T>, event: ForwardEvent<T>, next: Forwarding<T>) -> bool {
    match (state, event) {
        (Forwarding::Forward, ForwardEvent::Refused(error)) => next == Forwarding::<T>::Discard(error),
        (Forwarding::Forward, ForwardEvent::Closed) => next matches Forwarding::Discard(error) && error.message@
            == "runtime event channel disconnected"@ && !error.outcome_unknown && error.response is None,
        (Forwarding::Forward, ForwardEvent::Ended(result)) => next == Forwarding::Flush(result),
        (Forwarding::Flush(_), ForwardEvent::Refused(error)) => next matches Forwarding::Done(result)
            && observer_failure(result, error),
        (Forwarding::Flush(result), ForwardEvent::Emptied) => next == Forwarding::Done(result),
        (Forwarding::Discard(error), ForwardEvent::Ended(_)) => next matches Forwarding::Done(result)
            && observer_failure(result, error),
        _ => next == state,
    }
}

fn failed_observer<T>(error: ModelProviderError) -> (result: Result<T, RuntimeError>)
    ensures
        observer_failure(result, error),
{
    let outcome_unknown = error.outcome_unknown;
    Err(RuntimeError::Agent(AgentError::Provider { error, outcome_unknown }))
}

/// One step of a run whose events are forwarded.
pub fn forward<T>(state: Forwarding<T>, event: ForwardEvent<T>) -> (next: Forwarding<T>)
    ensures
        forwards(state, event, next),
{
    match (state, event) {
        (Forwarding::Forward, ForwardEvent::Refused(error)) => Forwarding::Discard(error),
        (Forwarding::Forward, ForwardEvent::Closed) => Forwarding::Discard(
            ModelProviderError {
                message: "runtime event channel disconnected".to_owned(),
                outcome_unknown: false,
                response: None,
            },
        ),
        (Forwarding::Forward, ForwardEvent::Ended(result)) => Forwarding::Flush(result),
        (Forwarding::Flush(_), ForwardEvent::Refused(error)) => Forwarding::Done(failed_observer(error)),
        (Forwarding::Flush(result), ForwardEvent::Emptied) => Forwarding::Done(result),
        (Forwarding::Discard(error), ForwardEvent::Ended(_)) => Forwarding::Done(failed_observer(error)),
        (other, _) => other,
    }
}

/// A failed observer abandons no run: its failure is reported once the run has ended, and is then the
/// failure of the run whatever the run itself came to.
pub proof fn a_failed_observer_waits_for_the_run<T>(
    error: ModelProviderError,
    event: ForwardEvent<T>,
    next: Forwarding<T>,
)
    requires
        forwards(Forwarding::<T>::Discard(error), event, next),
    ensures
        event !is Ended ==> next == Forwarding::<T>::Discard(error),
        event is Ended ==> (next matches Forwarding::Done(result) && observer_failure(result, error)),
{
}

/// What the run ended with is what the schedule ends with, unless a child failed to be drained.
pub proof fn schedules_end_with_the_run<T>(
    state: Scheduling<T>,
    result: Result<T, RuntimeError>,
    next: Scheduling<T>,
    error: RuntimeError,
)
    ensures
        follows(Scheduling::Running, ScheduleEvent::RunEnded(result), next) ==> next == Scheduling::Done(result),
        follows(Scheduling::Draining, ScheduleEvent::RunEnded(result), next) ==> next == Scheduling::Settling(result),
        follows(Scheduling::Settling(result), ScheduleEvent::Drained(Ok(())), next) ==> next == Scheduling::Done(
            result,
        ),
        follows(Scheduling::Settling(result), ScheduleEvent::Drained(Err(error)), next) ==> next
            == Scheduling::<T>::Done(Err(error)),
        follows(Scheduling::<T>::Draining, ScheduleEvent::Drained(Err(error)), next) ==> next
            == Scheduling::<T>::Done(Err(error)),
        follows(Scheduling::<T>::Draining, ScheduleEvent::Drained(Ok(())), next) ==> next is Running,
        follows(Scheduling::<T>::Running, ScheduleEvent::Notified, next) ==> next is Draining,
        follows(Scheduling::<T>::Running, ScheduleEvent::Disconnected, next) ==> next is Done && next->Done_0 is Err,
{
}

/// A schedule that is done stays done with what it ended with.
pub proof fn done_schedules_stay_done<T>(result: Result<T, RuntimeError>, event: ScheduleEvent<T>, next: Scheduling<T>)
    requires
        follows(Scheduling::Done(result), event, next),
    ensures
        next == Scheduling::Done(result),
{
}

/// Events are forwarded to the end, and the run's result comes out once they are; an observer that
/// refuses one turns the result into its failure, after the run has ended.
pub proof fn forwarding_ends_with_the_run<T>(
    result: Result<T, RuntimeError>,
    error: ModelProviderError,
    next: Forwarding<T>,
)
    ensures
        forwards(Forwarding::Forward, ForwardEvent::Ended(result), next) ==> next == Forwarding::Flush(result),
        forwards(Forwarding::Flush(result), ForwardEvent::Emptied, next) ==> next == Forwarding::Done(result),
        forwards(Forwarding::<T>::Forward, ForwardEvent::Observed, next) ==> next is Forward,
        forwards(Forwarding::<T>::Forward, ForwardEvent::Refused(error), next) ==> next == Forwarding::<T>::Discard(
            error,
        ),
        forwards(Forwarding::Flush(result), ForwardEvent::Refused(error), next) ==> next is Done
            && next->Done_0 == Err::<T, RuntimeError>(
            RuntimeError::Agent(AgentError::Provider { error, outcome_unknown: error.outcome_unknown }),
        ),
        forwards(Forwarding::<T>::Discard(error), ForwardEvent::Ended(result), next) ==> next is Done
            && next->Done_0 == Err::<T, RuntimeError>(
            RuntimeError::Agent(AgentError::Provider { error, outcome_unknown: error.outcome_unknown }),
        ),
{
}

} // verus!
