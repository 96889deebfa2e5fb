//! The bounded iterations of a goal.
//!
//! The host reads the goal before each iteration, reserves the iteration, runs it, and hands back
//! what came of it.

use crate::error::{config_error, is_config_error, RuntimeError, StoreError};
use crate::identifiers::fresh_identifier;
use crate::operations::{GoalStatus, WorkOperation};
use crate::plan_execution::{RunEnd, ShownFailure};
use crate::runs::{
    bounded_execution_error, cancelled_goal, cancelled_goal_outcome, failed_goal, failed_goal_outcome, goal_result,
    goal_run_result, require_goal, require_plan, resumable, AgentRunResult, GoalIterationResult, GoalRecord,
    GoalRunOutcome, PlanRecord, PlanStatus,
};
use crate::text::{concat3, contains_text, first_chars, parts_are_contained, same_text};
use vstd::prelude::*;
use vstd::string::*;

verus! {

/// The progress of a goal run: the goal it began with, what its iterations gave, and the number of
/// the next iteration where one is left.
#[derive(Debug)]
pub struct GoalProgress {
    pub goal: GoalRecord,
    pub iterations: Vec<GoalIterationResult>,
    pub next: Option<u16>,
}

/// The iterations that are left.
pub open spec fn remaining(progress: GoalProgress) -> int {
    match progress.next {
        Some(iteration) => progress.goal.iteration_budget - iteration + 1,
        None => 0,
    }
}

/// The number of the next iteration lies within the budget.
pub open spec fn in_budget(progress: GoalProgress) -> bool {
    progress.next matches Some(iteration) ==> iteration <= progress.goal.iteration_budget
}

/// The iteration after a number of completed ones, where the budget has it.
pub open spec fn first_iteration(goal: GoalRecord) -> Option<u16> {
    let first: u16 = if goal.iterations_completed == u16::MAX {
        u16::MAX
    } else {
        (goal.iterations_completed + 1) as u16
    };
    if first <= goal.iteration_budget {
        Some(first)
    } else {
        None
    }
}

/// The next iteration after this one, where the budget has it.
pub open spec fn following_iteration(iteration: u16, budget: u16) -> Option<u16> {
    if iteration < budget {
        Some((iteration + 1) as u16)
    } else {
        None
    }
}

/// What a goal run does next.
#[derive(Debug)]
pub enum GoalStep {
    /// The run is over.
    Finish(GoalRunOutcome),
    /// Reserve an iteration and run it.
    Iterate { progress: GoalProgress, turn: GoalTurn },
    /// No iteration is left: read the goal a last time.
    Exhausted(GoalProgress),
}

/// One iteration that is to be reserved and run.
#[derive(Debug)]
pub struct GoalTurn {
    pub iteration: u16,
    /// The goal as it was found before the iteration.
    pub current: GoalRecord,
    pub prompt: String,
    pub run_id: String,
    pub operation: WorkOperation,
}

/// What follows the run of an iteration.
#[derive(Debug)]
pub enum GoalAdvance {
    Continue(GoalProgress),
    Finish(GoalRunOutcome),
}

/// The prompt of an iteration.
pub open spec fn iteration_prompt(iteration: u16, goal: GoalRecord) -> Seq<char> {
    if iteration == 1 {
        "Start Goal Mode for "@ + goal.id@ + ": "@ + goal.objective@
    } else {
        "Continue Goal Mode for "@ + goal.id@ + ". Objective: "@ + goal.objective@
            + ". Use session history and update the goal only when complete or blocked."@
    }
}

/// The prompt of an iteration.
pub fn goal_prompt(iteration: u16, goal: &GoalRecord) -> (prompt: String)
    ensures
        prompt@ == iteration_prompt(iteration, *goal),
{
    if iteration == 1 {
        let mut prompt = concat3("Start Goal Mode for ", goal.id.as_str(), ": ");
        prompt.append(goal.objective.as_str());
        prompt
    } else {
        let mut prompt = concat3("Continue Goal Mode for ", goal.id.as_str(), ". Objective: ");
        prompt.append(goal.objective.as_str());
        prompt.append(". Use session history and update the goal only when complete or blocked.");
        prompt
    }
}

/// The progress of a goal run that begins.
pub fn begin_goal(goal: GoalRecord) -> (progress: GoalProgress)
    ensures
        progress.goal == goal,
        progress.iterations@.len() == 0,
        progress.next == first_iteration(goal),
        in_budget(progress),
{
    let first: u16 = match goal.iterations_completed.checked_add(1) {
        Some(first) => first,
        None => u16::MAX,
    };
    let next = if first <= goal.iteration_budget {
        Some(first)
    } else {
        None
    };
    GoalProgress { goal, iterations: Vec::new(), next }
}

/// A turn is exactly that of an iteration of the goal as it was found.
pub open spec fn turns(turn: GoalTurn, iteration: u16, current: GoalRecord) -> bool {
    &&& turn.iteration == iteration
    &&& turn.current == current
    &&& turn.prompt@ == iteration_prompt(iteration, current)
    &&& turn.run_id@.len() == 36
    &&& turn.operation == (WorkOperation::GoalIteration { id: current.id })
}

/// What a goal run does next, by the goal as it was found and whether the run was cancelled. A
/// failure to read the goal comes with the text it is shown as.
pub fn goal_step(
    progress: GoalProgress,
    found: Result<Option<GoalRecord>, StoreError>,
    shown: &str,
    cancelled: bool,
    elapsed_seconds: u64,
) -> (step: GoalStep)
    requires
        in_budget(progress),
    ensures
        match progress.next {
            None => step == GoalStep::Exhausted(progress),
            Some(iteration) => match found {
                Ok(None) => step matches GoalStep::Finish(outcome) && failed_goal(
                    outcome,
                    progress.goal,
                    progress.iterations,
                    None,
                    "the active goal disappeared"@,
                    false,
                    elapsed_seconds,
                ),
                Err(error) => step matches GoalStep::Finish(outcome) && failed_goal(
                    outcome,
                    progress.goal,
                    progress.iterations,
                    None,
                    first_chars(shown@, 4096),
                    error is OutcomeUnknown,
                    elapsed_seconds,
                ),
                Ok(Some(current)) => if !(current.status is Active) {
                    step == GoalStep::Finish(
                        GoalRunOutcome::Completed {
                            result: goal_result(current, progress.iterations, elapsed_seconds),
                        },
                    )
                } else if cancelled {
                    step == GoalStep::Finish(cancelled_goal(current, progress.iterations, None, elapsed_seconds))
                } else {
                    step matches GoalStep::Iterate { progress: kept, turn } && kept == progress && turns(
                        turn,
                        iteration,
                        current,
                    )
                },
            },
        },
{
    match progress.next {
        None => GoalStep::Exhausted(progress),
        Some(iteration) => match found {
            Ok(None) => GoalStep::Finish(
                failed_goal_outcome(
                    progress.goal,
                    progress.iterations,
                    None,
                    "the active goal disappeared".to_owned(),
                    false,
                    elapsed_seconds,
                ),
            ),
            Err(error) => {
                let message = bounded_execution_error(shown);
                let unknown = matches!(error, StoreError::OutcomeUnknown(_));
                GoalStep::Finish(
                    failed_goal_outcome(progress.goal, progress.iterations, None, message, unknown, elapsed_seconds),
                )
            },
            Ok(Some(current)) => {
                if !matches!(current.status, GoalStatus::Active) {
                    return GoalStep::Finish(
                        GoalRunOutcome::Completed {
                            result: goal_run_result(current, progress.iterations, elapsed_seconds),
                        },
                    );
                }
                if cancelled {
                    return GoalStep::Finish(
                        cancelled_goal_outcome(current, progress.iterations, None, elapsed_seconds),
                    );
                }
                let prompt = goal_prompt(iteration, &current);
                let run_id = fresh_identifier();
                let operation = WorkOperation::GoalIteration { id: current.id.clone() };
                GoalStep::Iterate { progress, turn: GoalTurn { iteration, current, prompt, run_id, operation } }
            },
        },
    }
}

/// The goal as it was read last, else as it was before.
pub open spec fn latest_or(latest: Option<GoalRecord>, current: GoalRecord) -> GoalRecord {
    match latest {
        Some(goal) => goal,
        None => current,
    }
}

/// How a goal run ends where its iteration could not be reserved; `latest` is the goal read again.
pub fn reservation_failed(
    progress: GoalProgress,
    turn: GoalTurn,
    latest: Option<GoalRecord>,
    failure: ShownFailure,
    elapsed_seconds: u64,
) -> (outcome: GoalRunOutcome)
    ensures
        failed_goal(
            outcome,
            latest_or(latest, turn.current),
            progress.iterations,
            Some(turn.run_id),
            first_chars(failure.shown@, 4096),
            failure.outcome_unknown,
            elapsed_seconds,
        ),
{
    let goal = match latest {
        Some(goal) => goal,
        None => turn.current,
    };
    let message = bounded_execution_error(failure.shown.as_str());
    failed_goal_outcome(
        goal,
        progress.iterations,
        Some(turn.run_id),
        message,
        failure.outcome_unknown,
        elapsed_seconds,
    )
}

/// The result of an iteration.
pub open spec fn iteration_result(iteration: u16, result: AgentRunResult) -> GoalIterationResult {
    GoalIterationResult {
        iteration,
        run_id: result.run_id,
        output: result.output,
        event_count: result.event_count,
        elapsed_seconds: result.elapsed_seconds,
    }
}

/// What follows the run of an iteration: the next one where it completed, else the end of the goal
/// run; `latest` is the goal read again.
pub fn iteration_ended(
    progress: GoalProgress,
    turn: GoalTurn,
    end: RunEnd,
    latest: Option<GoalRecord>,
    elapsed_seconds: u64,
) -> (advance: GoalAdvance)
    ensures
        match end {
            RunEnd::Completed(result) => advance matches GoalAdvance::Continue(after) && after.goal == progress.goal
                && after.iterations@ == progress.iterations@.push(iteration_result(turn.iteration, result))
                && after.next == following_iteration(turn.iteration, progress.goal.iteration_budget) && in_budget(
                after,
            ),
            RunEnd::Cancelled(result) => advance == GoalAdvance::Finish(
                cancelled_goal(
                    latest_or(latest, turn.current),
                    progress.iterations,
                    Some(result),
                    elapsed_seconds,
                ),
            ),
            RunEnd::Failed { shown, outcome_unknown } => advance matches GoalAdvance::Finish(outcome) && failed_goal(
                outcome,
                latest_or(latest, turn.current),
                progress.iterations,
                Some(turn.run_id),
                first_chars(shown@, 4096),
                outcome_unknown,
                elapsed_seconds,
            ),
        },
{
    match end {
        RunEnd::Completed(result) => {
            let mut iterations = progress.iterations;
            iterations.push(
                GoalIterationResult {
                    iteration: turn.iteration,
                    run_id: result.run_id,
                    output: result.output,
                    event_count: result.event_count,
                    elapsed_seconds: result.elapsed_seconds,
                },
            );
            let next = if turn.iteration < progress.goal.iteration_budget {
                Some(turn.iteration + 1)
            } else {
                None
            };
            GoalAdvance::Continue(GoalProgress { goal: progress.goal, iterations, next })
        },
        RunEnd::Cancelled(result) => {
            let goal = match latest {
                Some(goal) => goal,
                None => turn.current,
            };
            GoalAdvance::Finish(cancelled_goal_outcome(goal, progress.iterations, Some(result), elapsed_seconds))
        },
        RunEnd::Failed { shown, outcome_unknown } => {
            let goal = match latest {
                Some(goal) => goal,
                None => turn.current,
            };
            let message = bounded_execution_error(shown.as_str());
            GoalAdvance::Finish(
                failed_goal_outcome(
                    goal,
                    progress.iterations,
                    Some(turn.run_id),
                    message,
                    outcome_unknown,
                    elapsed_seconds,
                ),
            )
        },
    }
}

/// How a goal run ends whose iterations are used up; `latest` is the goal read a last time.
pub fn finish_goal(
    progress: GoalProgress,
    latest: Option<GoalRecord>,
    elapsed_seconds: u64,
) -> (outcome: GoalRunOutcome)
    ensures
        outcome == (GoalRunOutcome::Completed {
            result: goal_result(latest_or(latest, progress.goal), progress.iterations, elapsed_seconds),
        }),
{
    let goal = match latest {
        Some(goal) => goal,
        None => progress.goal,
    };
    GoalRunOutcome::Completed { result: goal_run_result(goal, progress.iterations, elapsed_seconds) }
}

/// The operation that creates a goal, from a stated objective or from an approved plan of the same
/// session with the objective that it states.
pub fn plan_goal_creation(
    objective: &str,
    session_id: &str,
    max_iterations: u16,
    source_plan_id: &Option<String>,
    found: Result<Option<PlanRecord>, StoreError>,
    plan_objective: &str,
) -> (result: Result<WorkOperation, RuntimeError>)
    ensures
        match *source_plan_id {
            None => result matches Ok(operation) && creates_goal(
                operation,
                session_id@,
                objective@,
                max_iterations,
                None,
                None,
            ),
            Some(plan_id) => match found {
                Err(error) => result == Err::<WorkOperation, RuntimeError>(RuntimeError::Store(error)),
                Ok(None) => result matches Err(RuntimeError::Store(StoreError::NotFound(text))) && text@ == "plan "@
                    + plan_id@,
                Ok(Some(plan)) => if plan.session_id@ != session_id@ || plan.status != PlanStatus::Approved {
                    is_config_error(result, "goal handoff requires an approved same-session plan"@)
                } else {
                    result matches Ok(operation) && creates_goal(
                        operation,
                        session_id@,
                        plan_objective@,
                        max_iterations,
                        Some(plan_id),
                        Some(plan.revision),
                    )
                },
            },
        },
{
    match source_plan_id {
        None => Ok(
            WorkOperation::GoalCreate {
                session_id: session_id.to_owned(),
                objective: objective.to_owned(),
                iteration_budget: max_iterations,
                source_plan_id: None,
                source_plan_revision: None,
            },
        ),
        Some(plan_id) => {
            let plan = require_plan(found, plan_id.as_str())?;
            if !same_text(plan.session_id.as_str(), session_id) || plan.status != PlanStatus::Approved {
                return config_error("goal handoff requires an approved same-session plan");
            }
            Ok(
                WorkOperation::GoalCreate {
                    session_id: session_id.to_owned(),
                    objective: plan_objective.to_owned(),
                    iteration_budget: max_iterations,
                    source_plan_id: Some(plan_id.clone()),
                    source_plan_revision: Some(plan.revision),
                },
            )
        },
    }
}

/// An operation creates this goal.
pub open spec fn creates_goal(
    operation: WorkOperation,
    session: Seq<char>,
    objective: Seq<char>,
    budget: u16,
    plan_id: Option<String>,
    revision: Option<u64>,
) -> bool {
    operation matches WorkOperation::GoalCreate {
        session_id,
        objective: stated,
        iteration_budget,
        source_plan_id,
        source_plan_revision,
    } && session_id@ == session && stated@ == objective && iteration_budget == budget && source_plan_id == plan_id
        && source_plan_revision == revision
}

/// The next iteration of a goal run that fails on the first failure: the goal and its prompt, or
/// nothing where the goal is no longer active.
pub fn plain_goal_turn(iteration: u16, goal_id: &str, found: Result<Option<GoalRecord>, StoreError>) -> (result: Result<
    Option<(GoalRecord, String)>,
    RuntimeError,
>)
    ensures
        match found {
            Err(error) => result == Err::<Option<(GoalRecord, String)>, RuntimeError>(RuntimeError::Store(error)),
            Ok(None) => result matches Err(RuntimeError::Store(StoreError::NotFound(text))) && text@ == "goal "@
                + goal_id@,
            Ok(Some(goal)) => if goal.status is Active {
                result matches Ok(Some((current, prompt))) && current == goal && prompt@ == iteration_prompt(
                    iteration,
                    goal,
                )
            } else {
                result == Ok::<Option<(GoalRecord, String)>, RuntimeError>(None)
            },
        },
{
    let goal = require_goal(found, goal_id)?;
    match goal.status {
        GoalStatus::Active => {
            let prompt = goal_prompt(iteration, &goal);
            Ok(Some((goal, prompt)))
        },
        _ => Ok(None),
    }
}

/// A goal run is bounded: each completed iteration leaves one less, what was done and what is left
/// always add up to the same number, and a goal that begins has at most its budget left.
pub proof fn iterations_keep_the_budget(
    before: GoalProgress,
    turn: GoalTurn,
    result: AgentRunResult,
    after: GoalProgress,
)
    requires
        in_budget(before),
        before.next == Some(turn.iteration),
        after.goal == before.goal,
        after.iterations@ == before.iterations@.push(iteration_result(turn.iteration, result)),
        after.next == following_iteration(turn.iteration, before.goal.iteration_budget),
    ensures
        in_budget(after),
        remaining(after) == remaining(before) - 1,
        remaining(after) + after.iterations@.len() == remaining(before) + before.iterations@.len(),
        before.goal.iteration_budget > 0 ==> 0 <= remaining(after),
{
}

/// A goal that begins has exactly the iterations left that it has not completed, but for one that
/// completed as many as can be counted.
pub proof fn a_goal_begins_with_what_is_left(progress: GoalProgress)
    requires
        progress.next == first_iteration(progress.goal),
        progress.goal.iterations_completed < u16::MAX,
    ensures
        remaining(progress) == if progress.goal.iterations_completed < progress.goal.iteration_budget {
            progress.goal.iteration_budget - progress.goal.iterations_completed
        } else {
            0
        },
{
}

/// An iteration that was reserved is used up, however it ended: where the goal read again counts it,
/// a resume goes on with the iteration after it; and where it was the last one, the goal is exhausted
/// and cannot be resumed.
pub proof fn reserved_iterations_are_used_up(
    iteration: u16,
    latest: GoalRecord,
    session: Seq<char>,
    iterations: Vec<GoalIterationResult>,
    elapsed_seconds: u64,
)
    requires
        latest.iterations_completed == iteration,
        iteration <= latest.iteration_budget,
    ensures
        resumable(latest, session) ==> first_iteration(latest) == Some((iteration + 1) as u16),
        iteration == latest.iteration_budget ==> !resumable(latest, session),
        iteration == latest.iteration_budget && iteration < u16::MAX ==> first_iteration(latest) is None,
        iteration == latest.iteration_budget && latest.status is Active ==> goal_result(
            latest,
            iterations,
            elapsed_seconds,
        ).iteration_budget_exhausted,
{
}

/// A run of a goal: the goal that it began with, and how many iterations it reserved.
pub ghost struct GoalAttempt {
    pub goal: GoalRecord,
    pub reserved: nat,
}

/// A run reserves no more iterations than it begins with.
pub open spec fn within_its_progress(attempt: GoalAttempt) -> bool {
    exists|progress: GoalProgress|
        #![trigger remaining(progress)]
        progress.goal == attempt.goal && progress.next == first_iteration(attempt.goal) && attempt.reserved
            <= remaining(progress)
}

/// Runs of one goal: each after the first is a resume, of the goal with the iterations counted that
/// were reserved before.
pub open spec fn successive(attempts: Seq<GoalAttempt>, session: Seq<char>) -> bool {
    &&& forall|i: int| 0 <= i < attempts.len() ==> within_its_progress(#[trigger] attempts[i])
    &&& forall|i: int|
        0 < i < attempts.len() ==> {
            let before = attempts[i - 1];
            let after = #[trigger] attempts[i];
            &&& resumable(after.goal, session)
            &&& after.goal.iteration_budget == before.goal.iteration_budget
            &&& after.goal.iterations_completed == before.goal.iterations_completed + before.reserved
        }
}

/// The iterations that runs reserved, together.
pub open spec fn reserved_in_all(attempts: Seq<GoalAttempt>) -> nat
    decreases attempts.len(),
{
    if attempts.len() == 0 {
        0
    } else {
        reserved_in_all(attempts.drop_last()) + attempts.last().reserved
    }
}

/// A goal has one budget for its first run and all later resumes, failed iterations among them:
/// together with what it had completed before, they never reserve more than the budget.
pub proof fn runs_share_one_budget(attempts: Seq<GoalAttempt>, session: Seq<char>)
    requires
        attempts.len() > 0,
        successive(attempts, session),
        attempts[0].goal.iterations_completed <= attempts[0].goal.iteration_budget,
        attempts[0].goal.iterations_completed < u16::MAX,
    ensures
        attempts[0].goal.iterations_completed + reserved_in_all(attempts) <= attempts[0].goal.iteration_budget,
{
    counted(attempts, session);
    let last = attempts.last();
    assert(within_its_progress(attempts[attempts.len() - 1]));
    let progress = choose|progress: GoalProgress|
        #![trigger remaining(progress)]
        progress.goal == last.goal && progress.next == first_iteration(last.goal) && last.reserved <= remaining(progress);
    a_goal_begins_with_what_is_left(progress);
}

proof fn counted(attempts: Seq<GoalAttempt>, session: Seq<char>)
    requires
        attempts.len() > 0,
        successive(attempts, session),
        attempts[0].goal.iterations_completed <= attempts[0].goal.iteration_budget,
        attempts[0].goal.iterations_completed < u16::MAX,
    ensures
        attempts.last().goal.iterations_completed == attempts[0].goal.iterations_completed + reserved_in_all(
            attempts.drop_last(),
        ),
        attempts.last().goal.iteration_budget == attempts[0].goal.iteration_budget,
        attempts.last().goal.iterations_completed <= attempts.last().goal.iteration_budget,
        attempts.last().goal.iterations_completed < u16::MAX,
    decreases attempts.len(),
{
    if attempts.len() > 1 {
        let shorter = attempts.drop_last();
        assert forall|i: int| 0 <= i < shorter.len() implies within_its_progress(#[trigger] shorter[i]) by {
            assert(attempts[i] == shorter[i]);
        }
        assert forall|i: int| 0 < i < shorter.len() implies {
            let before = shorter[i - 1];
            let after = #[trigger] shorter[i];
            &&& resumable(after.goal, session)
            &&& after.goal.iteration_budget == before.goal.iteration_budget
            &&& after.goal.iterations_completed == before.goal.iterations_completed + before.reserved
        } by {
            assert(attempts[i] == shorter[i]);
            assert(attempts[i - 1] == shorter[i - 1]);
        }
        counted(shorter, session);
        let last = attempts[attempts.len() - 1];
        assert(resumable(last.goal, session));
        assert(attempts[attempts.len() - 2] == shorter.last());
    }
}

/// Every prompt states the objective of the goal as it was found, and its identity; the first one ends
/// with the objective.
pub proof fn prompts_state_the_objective(iteration: u16, goal: GoalRecord)
    ensures
        contains_text(iteration_prompt(iteration, goal), goal.objective@),
        contains_text(iteration_prompt(iteration, goal), goal.id@),
        iteration == 1 ==> goal.objective@.is_suffix_of(iteration_prompt(iteration, goal)),
{
    let empty = Seq::<char>::empty();
    if iteration == 1 {
        let before = "Start Goal Mode for "@ + goal.id@ + ": "@;
        parts_are_contained(before, goal.objective@, empty);
        parts_are_contained("Start Goal Mode for "@, goal.id@, ": "@ + goal.objective@);
        assert(before + goal.objective@ + empty == iteration_prompt(iteration, goal));
        assert("Start Goal Mode for "@ + goal.id@ + (": "@ + goal.objective@) == iteration_prompt(iteration, goal));
    } else {
        let end = ". Use session history and update the goal only when complete or blocked."@;
        let before = "Continue Goal Mode for "@ + goal.id@ + ". Objective: "@;
        parts_are_contained(before, goal.objective@, end);
        parts_are_contained("Continue Goal Mode for "@, goal.id@, ". Objective: "@ + goal.objective@ + end);
        assert("Continue Goal Mode for "@ + goal.id@ + (". Objective: "@ + goal.objective@ + end) == iteration_prompt(
            iteration,
            goal,
        ));
    }
}

/// Two goals that differ in nothing but their objective get different prompts in every iteration, and
/// a first iteration is prompted otherwise than a later one.
pub proof fn objectives_tell_prompts_apart(iteration: u16, later: u16, first: GoalRecord, second: GoalRecord)
    requires
        first.id@ == second.id@,
    ensures
        first.objective@ != second.objective@ ==> iteration_prompt(iteration, first) != iteration_prompt(
            iteration,
            second,
        ),
        later != 1 ==> iteration_prompt(1, first) != iteration_prompt(later, second),
{
    reveal_strlit("Start Goal Mode for ");
    reveal_strlit("Continue Goal Mode for ");
    let start = iteration_prompt(1, first);
    assert(start[0] == 'S');
    if later != 1 {
        assert(iteration_prompt(later, second)[0] == 'C');
    }
    let end = ". Use session history and update the goal only when complete or blocked."@;
    let before = if iteration == 1 {
        "Start Goal Mode for "@ + first.id@ + ": "@
    } else {
        "Continue Goal Mode for "@ + first.id@ + ". Objective: "@
    };
    let left = iteration_prompt(iteration, first);
    let right = iteration_prompt(iteration, second);
    if left == right {
        let after: nat = if iteration == 1 {
            0
        } else {
            end.len()
        };
        assert(left.subrange(before.len() as int, left.len() - after) == first.objective@);
        assert(right.subrange(before.len() as int, right.len() - after) == second.objective@);
    }
}

/// A turn prompts the agent with the goal that was found, under a run of its own, and counts the
/// iteration it stands for against that goal.
pub proof fn turns_prompt_the_goal_that_was_found(turn: GoalTurn, iteration: u16, current: GoalRecord)
    requires
        turns(turn, iteration, current),
    ensures
        turn.iteration == iteration,
        turn.current == current,
        contains_text(turn.prompt@, current.objective@),
        turn.operation matches WorkOperation::GoalIteration { id } && id == current.id,
{
    prompts_state_the_objective(iteration, current);
}

/// A run of a goal begins one past what the goal has completed and goes on one by one, no iteration
/// being passed over, until the budget is used up.
pub proof fn iterations_follow_one_another(goal: GoalRecord, iteration: u16)
    ensures
        goal.iterations_completed < goal.iteration_budget ==> (first_iteration(goal) matches Some(first) && first
            == goal.iterations_completed + 1),
        goal.iterations_completed >= goal.iteration_budget && goal.iterations_completed < u16::MAX ==> first_iteration(
            goal,
        ) is None,
        iteration < goal.iteration_budget ==> (following_iteration(iteration, goal.iteration_budget) matches Some(
            next,
        ) && next == iteration + 1),
        iteration >= goal.iteration_budget ==> following_iteration(iteration, goal.iteration_budget) is None,
{
}

/// What an iteration reports is what its run returned.
pub proof fn iterations_report_their_run(iteration: u16, result: AgentRunResult)
    ensures
        iteration_result(iteration, result).iteration == iteration,
        iteration_result(iteration, result).run_id == result.run_id,
        iteration_result(iteration, result).output == result.output,
        iteration_result(iteration, result).event_count == result.event_count,
        iteration_result(iteration, result).elapsed_seconds == result.elapsed_seconds,
{
}

/// The latest reading of a goal is used wherever there is one.
pub proof fn the_latest_goal_counts(latest: GoalRecord, current: GoalRecord)
    ensures
        latest_or(Some(latest), current) == latest,
        latest_or(None, current) == current,
{
}

/// An operation creates a goal in one way: the session, the objective, the budget and the plan are the
/// ones asked for.
pub proof fn goals_are_created_as_asked(
    operation: WorkOperation,
    session: Seq<char>,
    objective: Seq<char>,
    budget: u16,
    plan_id: Option<String>,
    revision: Option<u64>,
)
    requires
        creates_goal(operation, session, objective, budget, plan_id, revision),
    ensures
        operation is GoalCreate,
        operation->GoalCreate_session_id@ == session,
        operation->GoalCreate_objective@ == objective,
        operation->GoalCreate_iteration_budget == budget,
        operation->GoalCreate_source_plan_id == plan_id,
        operation->GoalCreate_source_plan_revision == revision,
{
}

/// Every turn has a run of its own, named by an identifier of thirty-six characters.
pub proof fn turns_name_their_run(turn: GoalTurn, iteration: u16, current: GoalRecord)
    requires
        turns(turn, iteration, current),
    ensures
        turn.run_id@.len() == 36,
{
}

} // verus!
