//! Execution of an approved plan: consuming it, evidence of its consumption, and how it ends.
//!
//! The host reads records, carries the operations out and hands back what came of them.

use crate::error::{config_error, is_config_error, RuntimeError, StoreError};
use crate::identifiers::fresh_identifier;
use crate::operations::{GoalStatus, PlanStep, WorkOperation};
use crate::runs::{
    bounded_execution_error, failed_goal, failed_goal_outcome, require_plan, selected, validate_goal_budget,
    validate_plan_execution_selection, validate_public_plan_execution_selection, AgentRunCancellation, AgentRunResult,
    GoalRecord, GoalRunOutcome, PlanRecord, PlanStatus,
};
use crate::text::{clone_optional, concat2, first_chars, optional_is, same_text};
use vstd::prelude::*;
use vstd::string::*;

verus! {

/// How a plan is executed.
#[derive(Clone, Copy, Debug, PartialEq, Eq, Structural)]
pub enum PlanExecutionStrategy {
    Direct,
    Goal { max_iterations: u16 },
}

/// How a controlled run ended.
#[derive(Debug)]
pub enum ControlledAgentTerminal {
    Completed { result: AgentRunResult },
    Cancelled { result: AgentRunCancellation },
    Failed { run_id: String, message: String, outcome_unknown: bool },
}

/// How the execution of a plan ended.
#[derive(Debug)]
pub enum PlanExecutionOutcome {
    CancelledBeforeStart { plan: PlanRecord },
    Direct { plan: PlanRecord, terminal: ControlledAgentTerminal },
    Goal { plan: PlanRecord, terminal: GoalRunOutcome },
}

/// The plan and revision that a caller selected.
#[derive(Debug)]
pub struct PlanSelection {
    pub session_id: String,
    pub plan_id: String,
    pub revision: u64,
}

/// What the execution of a plan does next.
#[derive(Debug)]
pub enum PlanStart {
    /// The execution is over.
    Finish(PlanExecutionOutcome),
    /// Consume the plan for one run.
    ConsumeForRun { plan: PlanRecord, run_id: String, operation: WorkOperation },
    /// Consume the plan for a new goal.
    ConsumeForGoal { plan: PlanRecord, max_iterations: u16, operation: WorkOperation },
}

/// A failure with the text that it is shown as.
#[derive(Debug)]
pub struct ShownFailure {
    pub error: RuntimeError,
    pub shown: String,
    pub outcome_unknown: bool,
}

/// What could be read of the document of a committed operation.
#[derive(Debug)]
pub struct CommittedPayload {
    /// `consumed_plan`, or the document itself, where it is a plan.
    pub plan: Option<PlanRecord>,
    /// `goal`, where it is one.
    pub goal: Option<GoalRecord>,
    /// `/goal/id`, where it is a text.
    pub goal_id: Option<String>,
    /// `executed_run_id` of the plan, where it is a text.
    pub executed_run_id: Option<String>,
    /// `updated_at` of the plan, where it is a text.
    pub updated_at: Option<String>,
}

/// What came of consuming a plan for one run.
#[derive(Debug)]
pub enum PlanCommit {
    Consumed(PlanRecord),
    /// The committed document is no plan.
    Invalid(String),
    Failed(ShownFailure),
}

/// What came of consuming a plan for a new goal.
#[derive(Debug)]
pub enum GoalCommit {
    Created { goal: GoalRecord, consumed: Option<PlanRecord> },
    /// The committed document is no goal.
    Invalid(String),
    Failed(ShownFailure),
}

/// What follows the consumption of a plan for one run.
#[derive(Debug)]
pub enum DirectNext {
    Run { consumed: PlanRecord, run_id: String },
    Finish(PlanExecutionOutcome),
}

/// What follows the consumption of a plan for a goal.
#[derive(Debug)]
pub enum GoalNext {
    Run { consumed: PlanRecord, goal: GoalRecord },
    Finish(PlanExecutionOutcome),
}

/// How the run of a consumed plan ended.
#[derive(Debug)]
pub enum RunEnd {
    Completed(AgentRunResult),
    Cancelled(AgentRunCancellation),
    Failed { shown: String, outcome_unknown: bool },
}

fn clone_steps(steps: &Vec<PlanStep>) -> (copy: Vec<PlanStep>)
    ensures
        copy@ == steps@,
{
    let mut copy: Vec<PlanStep> = Vec::new();
    let mut i: usize = 0;
    while i < steps.len()
        invariant
            i <= steps@.len(),
            copy@ == steps@.take(i as int),
        decreases steps@.len() - i,
    {
        copy.push(PlanStep { definition: steps[i].definition.clone() });
        proof {
            assert(steps@.take(i + 1) =~= steps@.take(i as int).push(steps@[i as int]));
        }
        i = i + 1;
    }
    proof {
        assert(steps@.take(i as int) =~= steps@);
    }
    copy
}

/// Whether a public run goes on to approve its draft: not where it was cancelled, which leaves the
/// draft as it is.
pub fn begin_public_plan(
    found: Result<Option<PlanRecord>, StoreError>,
    selection: &PlanSelection,
    cancelled: bool,
) -> (result: Result<Option<PlanExecutionOutcome>, RuntimeError>)
    ensures
        match found {
            Err(error) => result == Err::<Option<PlanExecutionOutcome>, RuntimeError>(RuntimeError::Store(error)),
            Ok(None) => result matches Err(RuntimeError::Store(StoreError::NotFound(text))) && text@ == "plan "@
                + selection.plan_id@,
            Ok(Some(plan)) => if !selected(plan, PlanStatus::Draft, selection.session_id@, selection.revision) {
                is_config_error(
                    result,
                    "public Plan execution requires the selected same-session draft revision"@,
                )
            } else if cancelled {
                result == Ok::<Option<PlanExecutionOutcome>, RuntimeError>(
                    Some(PlanExecutionOutcome::CancelledBeforeStart { plan }),
                )
            } else {
                result == Ok::<Option<PlanExecutionOutcome>, RuntimeError>(None)
            },
        },
{
    let plan = require_plan(found, selection.plan_id.as_str())?;
    match validate_public_plan_execution_selection(&plan, selection.session_id.as_str(), selection.revision) {
        Ok(()) => {},
        Err(error) => {
            return Err(error);
        },
    }
    if cancelled {
        return Ok(Some(PlanExecutionOutcome::CancelledBeforeStart { plan }));
    }
    Ok(None)
}

/// Why a plan is not executed, if so.
pub open spec fn start_refusal(
    plan: PlanRecord,
    selection: PlanSelection,
    stop: bool,
    strategy: PlanExecutionStrategy,
) -> Option<
    Seq<char>,
> {
    if !selected(plan, PlanStatus::Approved, selection.session_id@, selection.revision) {
        Some("plan execution requires the selected same-session approved Plan revision"@)
    } else if stop {
        None
    } else {
        match strategy {
            PlanExecutionStrategy::Direct => None,
            PlanExecutionStrategy::Goal { max_iterations } => if 1 <= max_iterations <= 50 {
                None
            } else {
                Some("goal iterations must be in 1..=50"@)
            },
        }
    }
}

/// The start is exactly what the selected plan and strategy ask for.
pub open spec fn starts(
    start: PlanStart,
    plan: PlanRecord,
    selection: PlanSelection,
    stop: bool,
    strategy: PlanExecutionStrategy,
    public_run_id: Option<String>,
    objective: Seq<char>,
) -> bool {
    if stop {
        start == PlanStart::Finish(PlanExecutionOutcome::CancelledBeforeStart { plan })
    } else {
        match strategy {
            PlanExecutionStrategy::Direct => start matches PlanStart::ConsumeForRun { plan: kept, run_id, operation }
                && kept == plan && (match public_run_id {
                Some(id) => run_id == id,
                None => run_id@.len() == 36,
            }) && operation == (WorkOperation::PlanExecuteAtRevision {
                id: plan.id,
                expected_revision: selection.revision,
                run_id,
            }),
            PlanExecutionStrategy::Goal { max_iterations } => start matches PlanStart::ConsumeForGoal {
                plan: kept,
                max_iterations: budget,
                operation,
            } && kept == plan && budget == max_iterations && (operation matches WorkOperation::GoalCreate {
                session_id,
                objective: goal_objective,
                iteration_budget,
                source_plan_id,
                source_plan_revision,
            } && session_id == plan.session_id && goal_objective@ == objective && iteration_budget == max_iterations
                && source_plan_id == Some(plan.id) && source_plan_revision == Some(selection.revision)),
        }
    }
}

/// How the execution of an approved plan starts. A run that was cancelled stops before consumption
/// only where `cancel_before_consumption` allows it; a public run that already approved its plan goes
/// on to consume it. `objective` is the objective that the plan states.
pub fn begin_plan_execution(
    found: Result<Option<PlanRecord>, StoreError>,
    selection: &PlanSelection,
    strategy: PlanExecutionStrategy,
    public_run_id: &Option<String>,
    cancel_before_consumption: bool,
    cancelled: bool,
    objective: &str,
) -> (result: Result<PlanStart, RuntimeError>)
    ensures
        match found {
            Err(error) => result == Err::<PlanStart, RuntimeError>(RuntimeError::Store(error)),
            Ok(None) => result matches Err(RuntimeError::Store(StoreError::NotFound(text))) && text@ == "plan "@
                + selection.plan_id@,
            Ok(Some(plan)) => match start_refusal(
                plan,
                *selection,
                cancel_before_consumption && cancelled,
                strategy,
            ) {
                Some(text) => is_config_error(result, text),
                None => result matches Ok(start) && starts(
                    start,
                    plan,
                    *selection,
                    cancel_before_consumption && cancelled,
                    strategy,
                    *public_run_id,
                    objective@,
                ),
            },
        },
{
    let plan = require_plan(found, selection.plan_id.as_str())?;
    match validate_plan_execution_selection(&plan, selection.session_id.as_str(), selection.revision) {
        Ok(()) => {},
        Err(error) => {
            return Err(error);
        },
    }
    if cancel_before_consumption && cancelled {
        return Ok(PlanStart::Finish(PlanExecutionOutcome::CancelledBeforeStart { plan }));
    }
    match strategy {
        PlanExecutionStrategy::Direct => {
            let run_id = match public_run_id {
                Some(id) => id.clone(),
                None => fresh_identifier(),
            };
            let operation = WorkOperation::PlanExecuteAtRevision {
                id: plan.id.clone(),
                expected_revision: selection.revision,
                run_id: run_id.clone(),
            };
            Ok(PlanStart::ConsumeForRun { plan, run_id, operation })
        },
        PlanExecutionStrategy::Goal { max_iterations } => {
            match validate_goal_budget(max_iterations) {
                Ok(()) => {},
                Err(error) => {
                    return Err(error);
                },
            }
            let operation = WorkOperation::GoalCreate {
                session_id: plan.session_id.clone(),
                objective: objective.to_owned(),
                iteration_budget: max_iterations,
                source_plan_id: Some(plan.id.clone()),
                source_plan_revision: Some(selection.revision),
            };
            Ok(PlanStart::ConsumeForGoal { plan, max_iterations, operation })
        },
    }
}

/// How a plan that is approved by itself is consumed, without a selected revision.
pub fn begin_approved_plan(found: Result<Option<PlanRecord>, StoreError>, plan_id: &str) -> (result: Result<
    (PlanRecord, String, WorkOperation),
    RuntimeError,
>)
    ensures
        match found {
            Err(error) => result == Err::<(PlanRecord, String, WorkOperation), RuntimeError>(
                RuntimeError::Store(error),
            ),
            Ok(None) => result matches Err(RuntimeError::Store(StoreError::NotFound(text))) && text@ == "plan "@
                + plan_id@,
            Ok(Some(plan)) => if plan.status != PlanStatus::Approved {
                is_config_error(result, "plan execution requires one approved plan"@)
            } else {
                result matches Ok((kept, run_id, operation)) && kept == plan && run_id@.len() == 36 && operation == (
                WorkOperation::PlanExecute { id: plan.id, run_id })
            },
        },
{
    let plan = require_plan(found, plan_id)?;
    if plan.status != PlanStatus::Approved {
        return config_error("plan execution requires one approved plan");
    }
    let run_id = fresh_identifier();
    let operation = WorkOperation::PlanExecute { id: plan.id.clone(), run_id: run_id.clone() };
    Ok((plan, run_id, operation))
}

/// The revision of a plan once it was consumed.
pub open spec fn consumed_revision(approved: PlanRecord) -> u64 {
    if approved.revision == u64::MAX {
        u64::MAX
    } else {
        (approved.revision + 1) as u64
    }
}

/// A plan is the approved one, consumed, and for this run where one is expected.
pub open spec fn consumption(candidate: PlanRecord, approved: PlanRecord, expected_run_id: Option<String>) -> bool {
    &&& candidate.id@ == approved.id@
    &&& candidate.session_id@ == approved.session_id@
    &&& candidate.status == PlanStatus::Executed
    &&& candidate.revision == consumed_revision(approved)
    &&& expected_run_id matches Some(run_id) ==> (candidate.executed_run_id matches Some(id) && id@ == run_id@)
}

fn next_revision(approved: &PlanRecord) -> (revision: u64)
    ensures
        revision == consumed_revision(*approved),
{
    match approved.revision.checked_add(1) {
        Some(revision) => revision,
        None => u64::MAX,
    }
}

fn is_consumption(candidate: &PlanRecord, approved: &PlanRecord, expected_run_id: &Option<String>) -> (yes: bool)
    ensures
        yes == consumption(*candidate, *approved, *expected_run_id),
{
    let run_matches = match expected_run_id {
        Some(run_id) => optional_is(&candidate.executed_run_id, run_id.as_str()),
        None => true,
    };
    same_text(candidate.id.as_str(), approved.id.as_str()) && same_text(
        candidate.session_id.as_str(),
        approved.session_id.as_str(),
    ) && candidate.status == PlanStatus::Executed && candidate.revision == next_revision(approved) && run_matches
}

/// The stored plan, where it shows that the approved one was consumed.
pub open spec fn persisted(stored: Option<PlanRecord>, approved: PlanRecord, expected_run_id: Option<String>) -> Option<
    PlanRecord,
> {
    match stored {
        Some(candidate) if consumption(candidate, approved, expected_run_id) => Some(candidate),
        _ => None,
    }
}

/// The stored plan, where it shows that the approved one was consumed.
pub fn persisted_consumed_plan(
    stored: Option<PlanRecord>,
    approved: &PlanRecord,
    expected_run_id: &Option<String>,
) -> (found: Option<PlanRecord>)
    ensures
        found == persisted(stored, *approved, *expected_run_id),
{
    match stored {
        Some(candidate) => if is_consumption(&candidate, approved, expected_run_id) {
            Some(candidate)
        } else {
            None
        },
        None => None,
    }
}

/// The first of the texts that is there.
pub open spec fn first_text(a: Option<String>, b: Option<String>, c: Option<String>) -> Option<String> {
    match a {
        Some(_) => a,
        None => match b {
            Some(_) => b,
            None => c,
        },
    }
}

/// The plan is the evidence of a consumption: what was committed, else what is stored, else the
/// approved plan marked as executed at its next revision.
pub open spec fn evidences(
    evidence: PlanRecord,
    approved: PlanRecord,
    expected_run_id: Option<String>,
    payload: CommittedPayload,
    stored: Option<PlanRecord>,
) -> bool {
    match persisted(payload.plan, approved, expected_run_id) {
        Some(candidate) => evidence == candidate,
        None => match persisted(stored, approved, expected_run_id) {
            Some(candidate) => evidence == candidate,
            None => {
                &&& evidence.id == approved.id
                &&& evidence.session_id == approved.session_id
                &&& evidence.prompt == approved.prompt
                &&& evidence.status == PlanStatus::Executed
                &&& evidence.revision == consumed_revision(approved)
                &&& evidence.content == approved.content
                &&& evidence.steps@ == approved.steps@
                &&& evidence.created_at == approved.created_at
                &&& evidence.updated_at == match payload.updated_at {
                    Some(updated_at) => updated_at,
                    None => approved.updated_at,
                }
                &&& evidence.approved_at == approved.approved_at
                &&& evidence.executed_run_id == first_text(expected_run_id, payload.goal_id, payload.executed_run_id)
            },
        },
    }
}

/// Evidence of the consumption of a plan.
pub fn consumed_plan_evidence(
    approved: &PlanRecord,
    expected_run_id: &Option<String>,
    payload: CommittedPayload,
    stored: Option<PlanRecord>,
) -> (evidence: PlanRecord)
    ensures
        evidences(evidence, *approved, *expected_run_id, payload, stored),
{
    if let Some(candidate) = persisted_consumed_plan(payload.plan, approved, expected_run_id) {
        return candidate;
    }
    if let Some(candidate) = persisted_consumed_plan(stored, approved, expected_run_id) {
        return candidate;
    }
    let executed_run_id = match expected_run_id {
        Some(run_id) => Some(run_id.clone()),
        None => match payload.goal_id {
            Some(id) => Some(id),
            None => payload.executed_run_id,
        },
    };
    let updated_at = match payload.updated_at {
        Some(updated_at) => updated_at,
        None => approved.updated_at.clone(),
    };
    PlanRecord {
        id: approved.id.clone(),
        session_id: approved.session_id.clone(),
        prompt: approved.prompt.clone(),
        status: PlanStatus::Executed,
        revision: next_revision(approved),
        content: approved.content.clone(),
        steps: clone_steps(&approved.steps),
        created_at: approved.created_at.clone(),
        updated_at,
        approved_at: clone_optional(&approved.approved_at),
        executed_run_id,
    }
}

/// The terminal of a failed run.
pub open spec fn failed_terminal(
    terminal: ControlledAgentTerminal,
    run: Seq<char>,
    message: Seq<char>,
    unknown: bool,
) -> bool {
    terminal matches ControlledAgentTerminal::Failed { run_id, message: text, outcome_unknown } && run_id@ == run
        && text@ == first_chars(message, 4096) && outcome_unknown == unknown
}

/// What follows the consumption of a plan for one run: the run, or its end where the consumption
/// failed after all or its document is no plan. A failure that left the plan unconsumed is handed on.
pub fn settle_plan_commit(
    approved: &PlanRecord,
    run_id: String,
    commit: PlanCommit,
    payload: CommittedPayload,
    stored: Option<PlanRecord>,
) -> (result: Result<DirectNext, RuntimeError>)
    ensures
        match commit {
            PlanCommit::Consumed(consumed) => result == Ok::<DirectNext, RuntimeError>(
                DirectNext::Run { consumed, run_id },
            ),
            PlanCommit::Invalid(shown) => result matches Ok(
                DirectNext::Finish(PlanExecutionOutcome::Direct { plan, terminal }),
            ) && evidences(plan, *approved, Some(run_id), payload, stored) && failed_terminal(
                terminal,
                run_id@,
                "consumed Plan result was invalid: "@ + shown@,
                false,
            ),
            PlanCommit::Failed(failure) => match persisted(stored, *approved, Some(run_id)) {
                None => result == Err::<DirectNext, RuntimeError>(failure.error),
                Some(consumed) => result matches Ok(
                    DirectNext::Finish(PlanExecutionOutcome::Direct { plan, terminal }),
                ) && plan == consumed && failed_terminal(terminal, run_id@, failure.shown@, failure.outcome_unknown),
            },
        },
{
    match commit {
        PlanCommit::Consumed(consumed) => Ok(DirectNext::Run { consumed, run_id }),
        PlanCommit::Invalid(shown) => {
            let expected = Some(run_id.clone());
            let plan = consumed_plan_evidence(approved, &expected, payload, stored);
            let text = concat2("consumed Plan result was invalid: ", shown.as_str());
            let message = bounded_execution_error(text.as_str());
            let terminal = ControlledAgentTerminal::Failed { run_id, message, outcome_unknown: false };
            Ok(DirectNext::Finish(PlanExecutionOutcome::Direct { plan, terminal }))
        },
        PlanCommit::Failed(failure) => {
            let expected = Some(run_id.clone());
            match persisted_consumed_plan(stored, approved, &expected) {
                None => Err(failure.error),
                Some(plan) => {
                    let message = bounded_execution_error(failure.shown.as_str());
                    let terminal = ControlledAgentTerminal::Failed {
                        run_id,
                        message,
                        outcome_unknown: failure.outcome_unknown,
                    };
                    Ok(DirectNext::Finish(PlanExecutionOutcome::Direct { plan, terminal }))
                },
            }
        },
    }
}

/// How the execution of a consumed plan by one run ended.
pub fn finish_direct(consumed: PlanRecord, run_id: String, end: RunEnd) -> (outcome: PlanExecutionOutcome)
    ensures
        outcome matches PlanExecutionOutcome::Direct { plan, terminal } && plan == consumed && (match end {
            RunEnd::Completed(result) => terminal == (ControlledAgentTerminal::Completed { result }),
            RunEnd::Cancelled(result) => terminal == (ControlledAgentTerminal::Cancelled { result }),
            RunEnd::Failed { shown, outcome_unknown } => failed_terminal(terminal, run_id@, shown@, outcome_unknown),
        }),
{
    let terminal = match end {
        RunEnd::Completed(result) => ControlledAgentTerminal::Completed { result },
        RunEnd::Cancelled(result) => ControlledAgentTerminal::Cancelled { result },
        RunEnd::Failed { shown, outcome_unknown } => {
            let message = bounded_execution_error(shown.as_str());
            ControlledAgentTerminal::Failed { run_id, message, outcome_unknown }
        },
    };
    PlanExecutionOutcome::Direct { plan: consumed, terminal }
}

/// The consumed plan of a goal, as far as it is known. A failure that left the plan unconsumed is
/// handed on.
pub fn consumed_for_goal(
    approved: &PlanRecord,
    commit: &GoalCommit,
    payload: CommittedPayload,
    stored: Option<PlanRecord>,
) -> (result: Result<PlanRecord, RuntimeError>)
    ensures
        match *commit {
            GoalCommit::Created { goal, consumed } => match consumed {
                Some(plan) => result matches Ok(kept) && same_plan(kept, plan),
                None => result matches Ok(evidence) && evidences(evidence, *approved, Some(goal.id), payload, stored),
            },
            GoalCommit::Invalid(_) => result matches Ok(evidence) && evidences(
                evidence,
                *approved,
                payload.goal_id,
                payload,
                stored,
            ),
            GoalCommit::Failed(failure) => match persisted(stored, *approved, None) {
                Some(consumed) => result == Ok::<PlanRecord, RuntimeError>(consumed),
                None => result == Err::<PlanRecord, RuntimeError>(failure.error),
            },
        },
{
    match commit {
        GoalCommit::Created { goal, consumed } => match consumed {
            Some(plan) => Ok(clone_plan(plan)),
            None => {
                let expected = Some(goal.id.clone());
                Ok(consumed_plan_evidence(approved, &expected, payload, stored))
            },
        },
        GoalCommit::Invalid(_) => {
            let expected = clone_optional(&payload.goal_id);
            Ok(consumed_plan_evidence(approved, &expected, payload, stored))
        },
        GoalCommit::Failed(failure) => match persisted_consumed_plan(stored, approved, &None) {
            Some(plan) => Ok(plan),
            None => Err(failure.error.clone()),
        },
    }
}

/// Two plans agree in every field.
pub open spec fn same_plan(a: PlanRecord, b: PlanRecord) -> bool {
    &&& a.id == b.id
    &&& a.session_id == b.session_id
    &&& a.prompt == b.prompt
    &&& a.status == b.status
    &&& a.revision == b.revision
    &&& a.content == b.content
    &&& a.steps@ == b.steps@
    &&& a.created_at == b.created_at
    &&& a.updated_at == b.updated_at
    &&& a.approved_at == b.approved_at
    &&& a.executed_run_id == b.executed_run_id
}

fn clone_plan(plan: &PlanRecord) -> (copy: PlanRecord)
    ensures
        same_plan(copy, *plan),
{
    PlanRecord {
        id: plan.id.clone(),
        session_id: plan.session_id.clone(),
        prompt: plan.prompt.clone(),
        status: plan.status,
        revision: plan.revision,
        content: plan.content.clone(),
        steps: clone_steps(&plan.steps),
        created_at: plan.created_at.clone(),
        updated_at: plan.updated_at.clone(),
        approved_at: clone_optional(&plan.approved_at),
        executed_run_id: clone_optional(&plan.executed_run_id),
    }
}

/// The goal is the evidence of a consumption: what was committed, else what is stored under the
/// consumed plan's run, else a fresh active goal of the approved plan.
pub open spec fn goal_evidences(
    evidence: GoalRecord,
    approved: PlanRecord,
    consumed: PlanRecord,
    objective: Seq<char>,
    iteration_budget: u16,
    committed: Option<GoalRecord>,
    stored: Option<GoalRecord>,
) -> bool {
    match committed {
        Some(goal) => evidence == goal,
        None => match (consumed.executed_run_id, stored) {
            (Some(_), Some(goal)) => evidence == goal,
            _ => {
                &&& match consumed.executed_run_id {
                    Some(id) => evidence.id == id,
                    None => evidence.id@.len() == "goal-outcome-unknown-"@.len() + 36 && evidence.id@.take(
                        "goal-outcome-unknown-"@.len() as int,
                    ) == "goal-outcome-unknown-"@,
                }
                &&& evidence.session_id == approved.session_id
                &&& evidence.objective@ == objective
                &&& evidence.source_plan_id == Some(approved.id)
                &&& evidence.status is Active
                &&& evidence.summary@.len() == 0
                &&& evidence.blocked_reason@.len() == 0
                &&& evidence.iteration_budget == iteration_budget
                &&& evidence.iterations_completed == 0
                &&& evidence.created_at == consumed.updated_at
                &&& evidence.updated_at == consumed.updated_at
            },
        },
    }
}

/// Evidence of the goal that a consumed plan created; `stored` is the goal kept under the consumed
/// plan's run.
pub fn goal_evidence(
    approved: &PlanRecord,
    consumed: &PlanRecord,
    objective: &str,
    iteration_budget: u16,
    committed: Option<GoalRecord>,
    stored: Option<GoalRecord>,
) -> (evidence: GoalRecord)
    ensures
        goal_evidences(evidence, *approved, *consumed, objective@, iteration_budget, committed, stored),
{
    if let Some(goal) = committed {
        return goal;
    }
    let id = match &consumed.executed_run_id {
        Some(id) => {
            if let Some(goal) = stored {
                return goal;
            }
            id.clone()
        },
        None => {
            let fresh = fresh_identifier();
            let text = concat2("goal-outcome-unknown-", fresh.as_str());
            proof {
                assert(text@.take("goal-outcome-unknown-"@.len() as int) =~= "goal-outcome-unknown-"@);
            }
            text
        },
    };
    GoalRecord {
        id,
        session_id: approved.session_id.clone(),
        objective: objective.to_owned(),
        source_plan_id: Some(approved.id.clone()),
        status: GoalStatus::Active,
        summary: String::new(),
        blocked_reason: String::new(),
        iteration_budget,
        iterations_completed: 0,
        created_at: consumed.updated_at.clone(),
        updated_at: consumed.updated_at.clone(),
    }
}

/// The goal of a plan ended before its first iteration.
pub open spec fn ended_at_once(
    next: GoalNext,
    consumed: PlanRecord,
    goal: GoalRecord,
    message: Seq<char>,
    outcome_unknown: bool,
) -> bool {
    next matches GoalNext::Finish(PlanExecutionOutcome::Goal { plan, terminal }) && plan == consumed && exists|
        none: Vec<crate::runs::GoalIterationResult>,
    |
        none@.len() == 0 && #[trigger] failed_goal(terminal, goal, none, None, message, outcome_unknown, 0)
}

fn end_at_once(consumed: PlanRecord, goal: GoalRecord, message: String, outcome_unknown: bool) -> (next: GoalNext)
    ensures
        ended_at_once(next, consumed, goal, message@, outcome_unknown),
{
    let none: Vec<crate::runs::GoalIterationResult> = Vec::new();
    let ghost kept = none;
    let terminal = failed_goal_outcome(goal, none, None, message, outcome_unknown, 0);
    proof {
        assert(kept@.len() == 0);
        assert(failed_goal(terminal, goal, kept, None, message@, outcome_unknown, 0));
    }
    GoalNext::Finish(PlanExecutionOutcome::Goal { plan: consumed, terminal })
}

/// What follows the consumption of a plan for a goal: its iterations, or its end where the
/// consumption failed after all or its document is incomplete.
pub fn settle_goal_commit(
    approved: &PlanRecord,
    consumed: PlanRecord,
    objective: &str,
    max_iterations: u16,
    commit: GoalCommit,
    committed_goal: Option<GoalRecord>,
    stored_goal: Option<GoalRecord>,
) -> (next: GoalNext)
    ensures
        match commit {
            GoalCommit::Created { goal, consumed: handed } => match handed {
                Some(_) => next == (GoalNext::Run { consumed, goal }),
                None => ended_at_once(
                    next,
                    consumed,
                    goal,
                    "approved Plan Goal handoff omitted its consumed Plan"@,
                    false,
                ),
            },
            GoalCommit::Invalid(shown) => exists|goal: GoalRecord| #[trigger]
                goal_evidences(
                    goal,
                    *approved,
                    consumed,
                    objective@,
                    max_iterations,
                    committed_goal,
                    stored_goal,
                ) && ended_at_once(
                    next,
                    consumed,
                    goal,
                    first_chars("consumed Goal result was invalid: "@ + shown@, 4096),
                    false,
                ),
            GoalCommit::Failed(failure) => exists|goal: GoalRecord| #[trigger]
                goal_evidences(goal, *approved, consumed, objective@, max_iterations, None, stored_goal)
                    && ended_at_once(
                    next,
                    consumed,
                    goal,
                    first_chars(failure.shown@, 4096),
                    failure.outcome_unknown,
                ),
        },
{
    match commit {
        GoalCommit::Created { goal, consumed: handed } => match handed {
            Some(_) => GoalNext::Run { consumed, goal },
            None => end_at_once(
                consumed,
                goal,
                "approved Plan Goal handoff omitted its consumed Plan".to_owned(),
                false,
            ),
        },
        GoalCommit::Invalid(shown) => {
            let goal = goal_evidence(approved, &consumed, objective, max_iterations, committed_goal, stored_goal);
            let text = concat2("consumed Goal result was invalid: ", shown.as_str());
            let message = bounded_execution_error(text.as_str());
            end_at_once(consumed, goal, message, false)
        },
        GoalCommit::Failed(failure) => {
            let goal = goal_evidence(approved, &consumed, objective, max_iterations, None, stored_goal);
            let message = bounded_execution_error(failure.shown.as_str());
            end_at_once(consumed, goal, message, failure.outcome_unknown)
        },
    }
}

/// Cancellation never strands an approved plan: an execution that may not stop before consumption,
/// as one that has just approved its plan, consumes that very plan whether it was cancelled or not.
pub proof fn cancellation_strands_no_approved_plan(
    approved: PlanRecord,
    selection: PlanSelection,
    strategy: PlanExecutionStrategy,
    public_run_id: Option<String>,
    objective: Seq<char>,
    start: PlanStart,
)
    requires
        start_refusal(approved, selection, false, strategy) is None,
        starts(start, approved, selection, false, strategy, public_run_id, objective),
    ensures
        match start {
            PlanStart::Finish(_) => false,
            PlanStart::ConsumeForRun { operation, .. } => operation matches WorkOperation::PlanExecuteAtRevision {
                id,
                expected_revision,
                ..
            } && id == approved.id && expected_revision == approved.revision,
            PlanStart::ConsumeForGoal { operation, .. } => operation matches WorkOperation::GoalCreate {
                source_plan_id,
                source_plan_revision,
                ..
            } && source_plan_id == Some(approved.id) && source_plan_revision == Some(approved.revision),
        },
{
}

/// Evidence of a consumption always is the approved plan, executed at its next revision, and for the
/// expected run where there is one.
pub proof fn evidence_is_a_consumption(
    evidence: PlanRecord,
    approved: PlanRecord,
    expected_run_id: Option<String>,
    payload: CommittedPayload,
    stored: Option<PlanRecord>,
)
    requires
        evidences(evidence, approved, expected_run_id, payload, stored),
    ensures
        consumption(evidence, approved, expected_run_id),
{
}

/// A plan starts exactly where it is the approved one of its session in the revision asked for, and a
/// goal over it has between one and fifty iterations; one that is to stop needs no iterations.
pub proof fn approved_plans_start(
    plan: PlanRecord,
    selection: PlanSelection,
    stop: bool,
    strategy: PlanExecutionStrategy,
)
    ensures
        start_refusal(plan, selection, stop, strategy) is None <==> {
            &&& plan.session_id@ == selection.session_id@
            &&& plan.status is Approved
            &&& plan.revision == selection.revision
            &&& stop || strategy is Direct || 1 <= strategy->Goal_max_iterations <= 50
        },
{
}

/// What starts is the plan that was found: nothing is consumed where the start is cancelled; a direct
/// start consumes exactly the revision that was selected, under the run asked for; a goal over the
/// plan takes the plan's session, its identity and its revision, the budget and the objective given.
pub proof fn starts_consume_the_selected_plan(
    start: PlanStart,
    plan: PlanRecord,
    selection: PlanSelection,
    stop: bool,
    strategy: PlanExecutionStrategy,
    public_run_id: Option<String>,
    objective: Seq<char>,
)
    requires
        starts(start, plan, selection, stop, strategy, public_run_id, objective),
    ensures
        stop <==> start is Finish,
        stop ==> start->Finish_0 == (PlanExecutionOutcome::CancelledBeforeStart { plan }),
        !stop && strategy is Direct ==> {
            &&& start is ConsumeForRun
            &&& start->ConsumeForRun_plan == plan
            &&& public_run_id matches Some(id) ==> start->ConsumeForRun_run_id == id
            &&& start->ConsumeForRun_operation == (WorkOperation::PlanExecuteAtRevision {
                id: plan.id,
                expected_revision: selection.revision,
                run_id: start->ConsumeForRun_run_id,
            })
        },
        !stop && strategy is Goal ==> {
            &&& start is ConsumeForGoal
            &&& start->ConsumeForGoal_plan == plan
            &&& start->ConsumeForGoal_max_iterations == strategy->Goal_max_iterations
            &&& start->ConsumeForGoal_operation is GoalCreate
            &&& start->ConsumeForGoal_operation->GoalCreate_session_id == plan.session_id
            &&& start->ConsumeForGoal_operation->GoalCreate_objective@ == objective
            &&& start->ConsumeForGoal_operation->GoalCreate_iteration_budget == strategy->Goal_max_iterations
            &&& start->ConsumeForGoal_operation->GoalCreate_source_plan_id == Some(plan.id)
            &&& start->ConsumeForGoal_operation->GoalCreate_source_plan_revision == Some(selection.revision)
        },
{
}

/// A consumed plan is the approved one a revision on, in its session, executed, and by the run expected
/// where one is; no other record passes for it.
pub proof fn consumed_plans_are_the_approved_ones(
    stored: Option<PlanRecord>,
    approved: PlanRecord,
    expected_run_id: Option<String>,
)
    requires
        approved.revision < u64::MAX,
    ensures
        persisted(stored, approved, expected_run_id) is Some <==> {
            &&& stored is Some
            &&& stored->0.id@ == approved.id@
            &&& stored->0.session_id@ == approved.session_id@
            &&& stored->0.status is Executed
            &&& stored->0.revision == approved.revision + 1
            &&& expected_run_id matches Some(run_id) ==> (stored->0.executed_run_id matches Some(id) && id@ == run_id@)
        },
        persisted(stored, approved, expected_run_id) is Some ==> persisted(stored, approved, expected_run_id)
            == stored,
{
}

/// Evidence of a consumed plan is about the approved plan: its identity, its session, executed, one
/// revision on, and what is shown of it where nothing was stored is what was approved.
pub proof fn evidence_is_of_the_approved_plan(
    evidence: PlanRecord,
    approved: PlanRecord,
    expected_run_id: Option<String>,
    payload: CommittedPayload,
)
    requires
        approved.revision < u64::MAX,
        payload.plan is None,
        evidences(evidence, approved, expected_run_id, payload, None),
    ensures
        evidence.id == approved.id && evidence.session_id == approved.session_id,
        evidence.prompt == approved.prompt && evidence.content == approved.content,
        evidence.steps@ == approved.steps@,
        evidence.status is Executed && evidence.revision == approved.revision + 1,
        evidence.created_at == approved.created_at && evidence.approved_at == approved.approved_at,
        expected_run_id is Some ==> evidence.executed_run_id == expected_run_id,
        expected_run_id is None && payload.goal_id is Some ==> evidence.executed_run_id == payload.goal_id,
        expected_run_id is None && payload.goal_id is None ==> evidence.executed_run_id == payload.executed_run_id,
        payload.updated_at matches Some(updated_at) ==> evidence.updated_at == updated_at,
        payload.updated_at is None ==> evidence.updated_at == approved.updated_at,
{
}

/// A plan that was committed or stored is the evidence as it stands, the committed one first.
pub proof fn stored_plans_are_evidence(
    evidence: PlanRecord,
    approved: PlanRecord,
    expected_run_id: Option<String>,
    payload: CommittedPayload,
    stored: Option<PlanRecord>,
)
    requires
        evidences(evidence, approved, expected_run_id, payload, stored),
    ensures
        payload.plan is Some && consumption(payload.plan->0, approved, expected_run_id) ==> evidence == payload.plan->0,
        payload.plan is None && stored is Some && consumption(stored->0, approved, expected_run_id) ==> evidence
            == stored->0,
{
}

/// A failed run is told by its identity, the beginning of its message and whether its outcome is known.
pub proof fn failed_runs_are_told(
    terminal: ControlledAgentTerminal,
    run: Seq<char>,
    message: Seq<char>,
    unknown: bool,
)
    requires
        failed_terminal(terminal, run, message, unknown),
    ensures
        terminal is Failed,
        terminal->Failed_run_id@ == run,
        terminal->Failed_message@.is_prefix_of(message),
        message.len() <= 4096 ==> terminal->Failed_message@ == message,
        terminal->Failed_message@.len() <= 4096,
        terminal->Failed_outcome_unknown == unknown,
{
}

/// A goal over a plan is shown as it was committed or stored; where neither is known, as the one that
/// was asked for: active, with the whole budget left, from the approved plan, with its objective.
pub proof fn goals_are_shown_as_asked(
    evidence: GoalRecord,
    approved: PlanRecord,
    consumed: PlanRecord,
    objective: Seq<char>,
    iteration_budget: u16,
    committed: Option<GoalRecord>,
    stored: Option<GoalRecord>,
)
    requires
        goal_evidences(evidence, approved, consumed, objective, iteration_budget, committed, stored),
    ensures
        committed matches Some(goal) ==> evidence == goal,
        committed is None && consumed.executed_run_id is Some && stored is Some ==> evidence == stored->0,
        committed is None && stored is None ==> {
            &&& evidence.objective@ == objective
            &&& evidence.session_id == approved.session_id
            &&& evidence.source_plan_id == Some(approved.id)
            &&& evidence.status is Active
            &&& evidence.iteration_budget == iteration_budget
            &&& evidence.iterations_completed == 0
            &&& consumed.executed_run_id matches Some(id) ==> evidence.id == id
            &&& evidence.created_at == consumed.updated_at
        },
{
}

/// Two records that show the same plan agree in all that a plan holds.
pub proof fn same_plans_agree(a: PlanRecord, b: PlanRecord)
    requires
        same_plan(a, b),
    ensures
        a.id == b.id && a.session_id == b.session_id && a.prompt == b.prompt && a.content == b.content,
        a.status == b.status && a.revision == b.revision && a.steps@ == b.steps@,
        a.created_at == b.created_at && a.updated_at == b.updated_at && a.approved_at == b.approved_at,
        a.executed_run_id == b.executed_run_id,
{
}

/// A goal that ends at once tells the consumed plan, the goal and the message, and no iteration.
pub proof fn goals_that_end_at_once_tell_why(
    next: GoalNext,
    consumed: PlanRecord,
    goal: GoalRecord,
    message: Seq<char>,
    outcome_unknown: bool,
)
    requires
        ended_at_once(next, consumed, goal, message, outcome_unknown),
        goal.status is Active,
    ensures
        next is Finish,
        next->Finish_0 is Goal,
        next->Finish_0->Goal_plan == consumed,
        next->Finish_0->Goal_terminal matches GoalRunOutcome::Failed { result, run_id, message: text, outcome_unknown: unknown }
            && result.goal == goal && result.iterations@.len() == 0 && run_id is None && text@ == message && unknown
            == outcome_unknown,
{
}

} // verus!
