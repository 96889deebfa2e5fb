//! Who may reach which memory.

use crate::effects::{asks_for, effect_plan, execution_failure, fails, ActorType, EffectPlan, ExecutionError};
use crate::error::{gateway_message, gateway_text, GatewayError, StoreError};
use crate::operations::{memory_action, MemoryOperation, MemoryScope};
use crate::text::{concat2, concat3, optional_is, optional_view, same_optional, same_text};
use vstd::prelude::*;
use vstd::string::*;

verus! {

/// What an actor does is decided by a model.
pub open spec fn model_led(actor: ActorType) -> bool {
    actor is Model || actor is Workflow || actor is Subagent
}

/// Whether a model decides what an actor does.
pub fn model_controlled(actor: ActorType) -> (yes: bool)
    ensures
        yes == model_led(actor),
{
    match actor {
        ActorType::Model => true,
        ActorType::Workflow => true,
        ActorType::Subagent => true,
        ActorType::User => false,
        ActorType::System => false,
    }
}

/// A scope is within reach: it is global, or the current repository, or the current session.
pub open spec fn reachable(scope: MemoryScope, repository: Seq<char>, session: Option<Seq<char>>) -> bool {
    match scope {
        MemoryScope::Global => true,
        MemoryScope::Repository(id) => id@ == repository,
        MemoryScope::Session(id) => session == Some(id@),
    }
}

/// Whether a scope is within reach.
pub fn scope_allowed(scope: &MemoryScope, repository: &str, session: &Option<String>) -> (yes: bool)
    ensures
        yes == reachable(*scope, repository@, optional_view(*session)),
{
    match scope {
        MemoryScope::Global => true,
        MemoryScope::Repository(id) => same_text(id.as_str(), repository),
        MemoryScope::Session(id) => optional_is(session, id.as_str()),
    }
}

/// The record that an operation is about, by its identifier.
pub open spec fn addressed(operation: MemoryOperation) -> Option<Seq<char>> {
    match operation {
        MemoryOperation::Update { id, .. } => Some(id@),
        MemoryOperation::Archive { id } => Some(id@),
        MemoryOperation::Supersede { id, .. } => Some(id@),
        MemoryOperation::Read { id } => Some(id@),
        _ => None,
    }
}

/// Why the access of an actor that a model leads is refused, if so. `found` is the scope of the
/// record that the operation is about.
pub open spec fn access_failure(
    operation: MemoryOperation,
    repository: Seq<char>,
    session: Option<Seq<char>>,
    found: Result<Option<MemoryScope>, String>,
) -> Option<Seq<char>> {
    match operation {
        MemoryOperation::Create { scope, .. } => if reachable(scope, repository, session) {
            None
        } else {
            Some("memory tool cannot create outside its current scope"@)
        },
        MemoryOperation::List { session_id, repository_id, .. } => query_failure(
            session_id,
            repository_id,
            repository,
            session,
        ),
        MemoryOperation::Search { session_id, repository_id, .. } => query_failure(
            session_id,
            repository_id,
            repository,
            session,
        ),
        MemoryOperation::IndexStatus => Some("model-controlled actors cannot administer the memory index"@),
        MemoryOperation::IndexSync => Some("model-controlled actors cannot administer the memory index"@),
        MemoryOperation::IndexRebuild => Some("model-controlled actors cannot administer the memory index"@),
        _ => match found {
            Err(reason) => Some(reason@),
            Ok(None) => Some("memory "@ + addressed(operation)->0 + " was not found"@),
            Ok(Some(scope)) => if reachable(scope, repository, session) {
                None
            } else {
                Some("memory tool cannot access another scope"@)
            },
        },
    }
}

/// Why a query is refused, if so: it has to name the current session and the current repository.
pub open spec fn query_failure(
    session_id: Option<String>,
    repository_id: Option<String>,
    repository: Seq<char>,
    session: Option<Seq<char>>,
) -> Option<Seq<char>> {
    if optional_view(session_id) != session || optional_view(repository_id) != Some(repository) {
        Some("memory query scope does not match the current context"@)
    } else {
        None
    }
}

fn validate_query(
    session_id: &Option<String>,
    repository_id: &Option<String>,
    repository: &str,
    session: &Option<String>,
) -> (result: Result<(), ExecutionError>)
    ensures
        match query_failure(*session_id, *repository_id, repository@, optional_view(*session)) {
            Some(text) => fails(result, text),
            None => result is Ok,
        },
{
    if !same_optional(session_id, session) || !optional_is(repository_id, repository) {
        return execution_failure("memory query scope does not match the current context");
    }
    Ok(())
}

fn validate_record(
    id: &str,
    repository: &str,
    session: &Option<String>,
    found: &Result<Option<MemoryScope>, String>,
) -> (result: Result<(), ExecutionError>)
    ensures
        match *found {
            Err(reason) => fails(result, reason@),
            Ok(None) => fails(result, "memory "@ + id@ + " was not found"@),
            Ok(Some(scope)) => if reachable(scope, repository@, optional_view(*session)) {
                result is Ok
            } else {
                fails(result, "memory tool cannot access another scope"@)
            },
        },
{
    match found {
        Err(reason) => execution_failure(reason.as_str()),
        Ok(None) => {
            let text = concat3("memory ", id, " was not found");
            execution_failure(text.as_str())
        },
        Ok(Some(scope)) => {
            if scope_allowed(scope, repository, session) {
                Ok(())
            } else {
                execution_failure("memory tool cannot access another scope")
            }
        },
    }
}

/// Validates the access of an actor: a model reaches no scope but the global one, the current
/// repository and the current session, and does not administer the index. `found` is the scope of the
/// record that the operation is about, or why it could not be read.
pub fn validate_access(
    actor: ActorType,
    operation: &MemoryOperation,
    repository: &str,
    session: &Option<String>,
    found: &Result<Option<MemoryScope>, String>,
) -> (result: Result<(), ExecutionError>)
    ensures
        if !model_led(actor) {
            result is Ok
        } else {
            match access_failure(*operation, repository@, optional_view(*session), *found) {
                Some(text) => fails(result, text),
                None => result is Ok,
            }
        },
{
    if !model_controlled(actor) {
        return Ok(());
    }
    match operation {
        MemoryOperation::Create { scope, .. } => {
            if !scope_allowed(scope, repository, session) {
                return execution_failure("memory tool cannot create outside its current scope");
            }
            Ok(())
        },
        MemoryOperation::Update { id, .. } => validate_record(id.as_str(), repository, session, found),
        MemoryOperation::Archive { id } => validate_record(id.as_str(), repository, session, found),
        MemoryOperation::Supersede { id, .. } => validate_record(id.as_str(), repository, session, found),
        MemoryOperation::Read { id } => validate_record(id.as_str(), repository, session, found),
        MemoryOperation::List { session_id, repository_id, .. } => validate_query(
            session_id,
            repository_id,
            repository,
            session,
        ),
        MemoryOperation::Search { session_id, repository_id, .. } => validate_query(
            session_id,
            repository_id,
            repository,
            session,
        ),
        MemoryOperation::IndexStatus => execution_failure("model-controlled actors cannot administer the memory index"),
        MemoryOperation::IndexSync => execution_failure("model-controlled actors cannot administer the memory index"),
        MemoryOperation::IndexRebuild => execution_failure("model-controlled actors cannot administer the memory index"),
    }
}

/// Accepts a request for an operation on memory: its action has to be that of the operation, and the
/// actor has to have access.
pub fn accept_memory_request(
    actor: ActorType,
    action: &str,
    operation: &MemoryOperation,
    repository: &str,
    session: &Option<String>,
    found: &Result<Option<MemoryScope>, String>,
) -> (result: Result<(), ExecutionError>)
    ensures
        if action@ != memory_action(*operation) {
            fails(result, "memory operation action does not match its validated content"@)
        } else if !model_led(actor) {
            result is Ok
        } else {
            match access_failure(*operation, repository@, optional_view(*session), *found) {
                Some(text) => fails(result, text),
                None => result is Ok,
            }
        },
{
    if !same_text(action, operation.action()) {
        return execution_failure("memory operation action does not match its validated content");
    }
    validate_access(actor, operation, repository, session, found)
}

/// A memory: its scope, and its document.
#[derive(Debug)]
pub struct MemoryRecord {
    pub scope: MemoryScope,
    pub document: String,
}

impl Clone for MemoryRecord {
    fn clone(&self) -> (copy: Self)
        ensures
            copy == *self,
    {
        MemoryRecord { scope: self.scope.clone(), document: self.document.clone() }
    }
}

/// Most records that are looked through for a model.
pub const MODEL_FETCH_LIMIT: usize = 1_000;

/// How many records are fetched for a listing: a model's is filtered afterwards.
pub fn fetch_limit(actor: ActorType, limit: usize) -> (fetched: usize)
    ensures
        fetched == if model_led(actor) {
            MODEL_FETCH_LIMIT
        } else {
            limit
        },
{
    if model_controlled(actor) {
        MODEL_FETCH_LIMIT
    } else {
        limit
    }
}

/// The records within reach, in order.
pub open spec fn within_reach(records: Seq<MemoryRecord>, repository: Seq<char>, session: Option<Seq<char>>) -> Seq<
    MemoryRecord,
>
    decreases records.len(),
{
    if records.len() == 0 {
        records
    } else {
        let before = within_reach(records.drop_last(), repository, session);
        if reachable(records.last().scope, repository, session) {
            before.push(records.last())
        } else {
            before
        }
    }
}

/// The records that a listing hands out.
pub open spec fn listed(
    actor: ActorType,
    records: Seq<MemoryRecord>,
    repository: Seq<char>,
    session: Option<Seq<char>>,
    limit: nat,
) -> Seq<MemoryRecord> {
    if model_led(actor) {
        let kept = within_reach(records, repository, session);
        if kept.len() <= limit {
            kept
        } else {
            kept.take(limit as int)
        }
    } else {
        records
    }
}

/// The records that a listing hands out: to a model only those within its reach, at most as many as
/// it asked for.
pub fn released_records(
    actor: ActorType,
    records: Vec<MemoryRecord>,
    repository: &str,
    session: &Option<String>,
    limit: usize,
) -> (kept: Vec<MemoryRecord>)
    ensures
        kept@ == listed(actor, records@, repository@, optional_view(*session), limit as nat),
{
    if !model_controlled(actor) {
        return records;
    }
    let mut kept: Vec<MemoryRecord> = Vec::new();
    let mut i: usize = 0;
    while i < records.len()
        invariant
            i <= records@.len(),
            kept@ == within_reach(records@.take(i as int), repository@, optional_view(*session)),
        decreases records@.len() - i,
    {
        proof {
            assert(records@.take(i + 1).drop_last() =~= records@.take(i as int));
            assert(records@.take(i + 1).last() == records@[i as int]);
        }
        if scope_allowed(&records[i].scope, repository, session) {
            kept.push(records[i].clone());
        }
        i = i + 1;
    }
    proof {
        assert(records@.take(i as int) =~= records@);
    }
    if kept.len() > limit {
        kept.truncate(limit);
    }
    kept
}

/// The session that an operation of the terminal acts in. `found` is the scope of the record that the
/// operation is about.
pub open spec fn acting_session(operation: MemoryOperation, found: Option<MemoryScope>) -> Option<Seq<char>> {
    match operation {
        MemoryOperation::Create { scope, .. } => session_of(Some(scope)),
        MemoryOperation::Search { session_id, .. } => optional_view(session_id),
        _ => if addressed(operation) is Some {
            session_of(found)
        } else {
            None
        },
    }
}

/// The session of a scope.
pub open spec fn session_of(scope: Option<MemoryScope>) -> Option<Seq<char>> {
    match scope {
        Some(MemoryScope::Session(id)) => Some(id@),
        _ => None,
    }
}

fn scope_session(scope: &Option<MemoryScope>) -> (session: Option<String>)
    ensures
        optional_view(session) == session_of(*scope),
{
    match scope {
        Some(MemoryScope::Session(id)) => Some(id.clone()),
        _ => None,
    }
}

/// The session that an operation of the terminal acts in: that of the memory that it creates or is
/// about, or the one that it searches.
pub fn operation_session(operation: &MemoryOperation, found: &Option<MemoryScope>) -> (session: Option<String>)
    ensures
        optional_view(session) == acting_session(*operation, *found),
{
    match operation {
        MemoryOperation::Create { scope, .. } => match scope {
            MemoryScope::Session(id) => Some(id.clone()),
            _ => None,
        },
        MemoryOperation::Update { .. } => scope_session(found),
        MemoryOperation::Archive { .. } => scope_session(found),
        MemoryOperation::Supersede { .. } => scope_session(found),
        MemoryOperation::Read { .. } => scope_session(found),
        MemoryOperation::Search { session_id, .. } => match session_id {
            Some(id) => Some(id.clone()),
            None => None,
        },
        MemoryOperation::List { .. } => None,
        MemoryOperation::IndexStatus => None,
        MemoryOperation::IndexSync => None,
        MemoryOperation::IndexRebuild => None,
    }
}

/// The search for what is relevant to a query, and its request.
#[derive(Debug)]
pub struct Retrieval {
    pub plan: EffectPlan,
    pub operation: MemoryOperation,
}

/// A retrieval searches for this.
pub open spec fn retrieves(
    operation: MemoryOperation,
    query: Seq<char>,
    session: Seq<char>,
    repository: Seq<char>,
    most: int,
) -> bool {
    operation matches MemoryOperation::Search { query: text, session_id, repository_id, limit } && text@ == query
        && optional_view(session_id) == Some(session) && optional_view(repository_id) == Some(repository) && limit
        == most
}

/// The search for what is relevant to a query in a session, by a model.
pub fn plan_retrieval(
    query: &str,
    session: &str,
    repository: &str,
    limit: usize,
    own_limit: usize,
) -> (retrieval: Retrieval)
    ensures
        asks_for(retrieval.plan, "memory.search"@, "session:"@ + session@),
        retrieves(
            retrieval.operation,
            query@,
            session@,
            repository@,
            if limit <= own_limit {
                limit as int
            } else {
                own_limit as int
            },
        ),
{
    let most: usize = if limit <= own_limit {
        limit
    } else {
        own_limit
    };
    let resource = concat2("session:", session);
    Retrieval {
        plan: effect_plan("memory.search", resource.as_str()),
        operation: MemoryOperation::Search {
            query: query.to_owned(),
            session_id: Some(session.to_owned()),
            repository_id: Some(repository.to_owned()),
            limit: most,
        },
    }
}

/// What a failed retrieval means: where it was denied nothing is relevant, any other failure is one of
/// the store.
pub fn settle_retrieval(failure: &GatewayError) -> (result: Result<(), StoreError>)
    ensures
        match *failure {
            GatewayError::Denied(_) => result is Ok,
            GatewayError::Approval(_) => result is Ok,
            _ => result matches Err(StoreError::Adapter(message)) && message@ == "memory retrieval failed: "@
                + gateway_text(*failure),
        },
{
    match failure {
        GatewayError::Denied(_) => Ok(()),
        GatewayError::Approval(_) => Ok(()),
        _ => {
            let text = gateway_message(failure);
            Err(StoreError::Adapter(concat2("memory retrieval failed: ", text.as_str())))
        },
    }
}

/// A retrieval is accepted where the model acts in the session that it searches.
pub proof fn retrievals_are_accepted(
    operation: MemoryOperation,
    query: Seq<char>,
    session: Seq<char>,
    repository: Seq<char>,
    limit: int,
    found: Result<Option<MemoryScope>, String>,
)
    requires
        retrieves(operation, query, session, repository, limit),
    ensures
        memory_action(operation) == "memory.search"@,
        access_failure(operation, repository, Some(session), found) is None,
{
}

/// A listing hands a model no memory out of its reach, and no more than it asked for.
pub proof fn listings_stay_within_reach(
    actor: ActorType,
    records: Seq<MemoryRecord>,
    repository: Seq<char>,
    session: Option<Seq<char>>,
    limit: nat,
    position: int,
)
    requires
        model_led(actor),
        0 <= position < listed(actor, records, repository, session, limit).len(),
    ensures
        reachable(listed(actor, records, repository, session, limit)[position].scope, repository, session),
        listed(actor, records, repository, session, limit).len() <= limit,
{
    kept_within_reach(records, repository, session, position);
}

proof fn kept_within_reach(
    records: Seq<MemoryRecord>,
    repository: Seq<char>,
    session: Option<Seq<char>>,
    position: int,
)
    requires
        0 <= position < within_reach(records, repository, session).len(),
    ensures
        reachable(within_reach(records, repository, session)[position].scope, repository, session),
    decreases records.len(),
{
    let before = within_reach(records.drop_last(), repository, session);
    if position < before.len() {
        kept_within_reach(records.drop_last(), repository, session, position);
    }
}

/// What a model leads is an actor of its own: a model, a workflow or a subagent, and nobody else.
pub proof fn models_lead_three_actors(actor: ActorType)
    ensures
        model_led(actor) <==> !(actor is User) && !(actor is System),
{
}

/// A memory is within reach where it is global, of this repository or of this session.
pub proof fn own_memories_are_within_reach(
    id: String,
    repository: Seq<char>,
    session: Option<Seq<char>>,
)
    ensures
        reachable(MemoryScope::Global, repository, session),
        reachable(MemoryScope::Repository(id), repository, session) <==> id@ == repository,
        reachable(MemoryScope::Session(id), repository, session) <==> session == Some(id@),
{
}

/// A model reaches nothing outside its own scope: neither by creating nor by asking nor by naming a
/// memory, and it never administers the index. Within its scope it is not refused.
pub proof fn models_stay_in_their_scope(
    operation: MemoryOperation,
    repository: Seq<char>,
    session: Option<Seq<char>>,
    found: Result<Option<MemoryScope>, String>,
)
    ensures
        operation matches MemoryOperation::Create { scope, .. } ==> (access_failure(
            operation,
            repository,
            session,
            found,
        ) is None <==> reachable(scope, repository, session)),
        operation matches MemoryOperation::List { session_id, repository_id, .. } ==> (access_failure(
            operation,
            repository,
            session,
            found,
        ) is None <==> optional_view(session_id) == session && optional_view(repository_id) == Some(repository)),
        operation matches MemoryOperation::Search { session_id, repository_id, .. } ==> (access_failure(
            operation,
            repository,
            session,
            found,
        ) is None <==> optional_view(session_id) == session && optional_view(repository_id) == Some(repository)),
        operation is IndexStatus || operation is IndexSync || operation is IndexRebuild ==> access_failure(
            operation,
            repository,
            session,
            found,
        ) is Some,
        operation is Update || operation is Archive || operation is Supersede || operation is Read ==> (access_failure(
            operation,
            repository,
            session,
            found,
        ) is None <==> found is Ok && found->Ok_0 is Some && reachable(found->Ok_0->0, repository, session)),
{
}

/// An operation addresses the memory it names.
pub proof fn operations_address_what_they_name(operation: MemoryOperation)
    ensures
        operation matches MemoryOperation::Update { id, .. } ==> addressed(operation) == Some(id@),
        operation matches MemoryOperation::Archive { id } ==> addressed(operation) == Some(id@),
        operation matches MemoryOperation::Supersede { id, .. } ==> addressed(operation) == Some(id@),
        operation matches MemoryOperation::Read { id } ==> addressed(operation) == Some(id@),
        addressed(operation) is Some ==> operation is Update || operation is Archive || operation is Supersede
            || operation is Read,
{
}

/// Every record within reach is kept, in its order.
pub proof fn records_within_reach_are_kept(
    records: Seq<MemoryRecord>,
    more: Seq<MemoryRecord>,
    record: MemoryRecord,
    repository: Seq<char>,
    session: Option<Seq<char>>,
)
    ensures
        within_reach(records + more, repository, session) == within_reach(records, repository, session)
            + within_reach(more, repository, session),
        reachable(record.scope, repository, session) ==> within_reach(seq![record], repository, session) == seq![
            record,
        ],
        !reachable(record.scope, repository, session) ==> within_reach(seq![record], repository, session).len() == 0,
    decreases more.len(),
{
    assert(seq![record].drop_last() == Seq::<MemoryRecord>::empty());
    assert(within_reach(Seq::<MemoryRecord>::empty(), repository, session) == Seq::<MemoryRecord>::empty());
    if more.len() == 0 {
        assert(records + more == records);
        assert(within_reach(records, repository, session) + within_reach(more, repository, session) == within_reach(
            records,
            repository,
            session,
        ));
    } else {
        records_within_reach_are_kept(records, more.drop_last(), record, repository, session);
        assert((records + more).drop_last() == records + more.drop_last());
        assert((records + more).last() == more.last());
        if reachable(more.last().scope, repository, session) {
            assert((within_reach(records, repository, session) + within_reach(more.drop_last(), repository, session))
                .push(more.last()) == within_reach(records, repository, session) + within_reach(
                more.drop_last(),
                repository,
                session,
            ).push(more.last()));
        }
    }
}

/// A user sees every record; a model as many of those within reach as it asked for, the first ones.
pub proof fn listings_are_cut_for_models(
    actor: ActorType,
    records: Seq<MemoryRecord>,
    repository: Seq<char>,
    session: Option<Seq<char>>,
    limit: nat,
)
    ensures
        actor is User || actor is System ==> listed(actor, records, repository, session, limit) == records,
        model_led(actor) ==> listed(actor, records, repository, session, limit).is_prefix_of(
            within_reach(records, repository, session),
        ),
        model_led(actor) ==> listed(actor, records, repository, session, limit).len() <= limit,
        model_led(actor) && within_reach(records, repository, session).len() <= limit ==> listed(
            actor,
            records,
            repository,
            session,
            limit,
        ) == within_reach(records, repository, session),
        model_led(actor) && within_reach(records, repository, session).len() > limit ==> listed(
            actor,
            records,
            repository,
            session,
            limit,
        ).len() == limit,
{
}

/// An operation acts for the session whose memory it is about, and for none where that memory is not a
/// session's.
pub proof fn operations_act_for_the_session_of_their_memory(
    operation: MemoryOperation,
    found: Option<MemoryScope>,
    id: String,
)
    ensures
        session_of(Some(MemoryScope::Session(id))) == Some(id@),
        session_of(Some(MemoryScope::Repository(id))) is None,
        session_of(Some(MemoryScope::Global)) is None,
        session_of(None) is None,
        operation matches MemoryOperation::Create { scope, .. } ==> acting_session(operation, found) == session_of(
            Some(scope),
        ),
        operation matches MemoryOperation::Search { session_id, .. } ==> acting_session(operation, found)
            == optional_view(session_id),
        operation is Update || operation is Archive || operation is Supersede || operation is Read ==> acting_session(
            operation,
            found,
        ) == session_of(found),
        operation is List || operation is IndexStatus || operation is IndexSync || operation is IndexRebuild
            ==> acting_session(operation, found) is None,
{
}

/// A retrieval searches for its query in its own session and repository, for as many as it is told.
pub proof fn retrievals_search_their_own_scope(
    operation: MemoryOperation,
    query: Seq<char>,
    session: Seq<char>,
    repository: Seq<char>,
    most: int,
)
    requires
        retrieves(operation, query, session, repository, most),
    ensures
        operation is Search,
        operation->Search_query@ == query,
        optional_view(operation->Search_session_id) == Some(session),
        optional_view(operation->Search_repository_id) == Some(repository),
        operation->Search_limit == most,
{
}

/// A query of memory is accepted in its own context alone: in the session it runs in, and in the repository
/// at hand.
pub proof fn queries_keep_to_their_context(
    session_id: Option<String>,
    repository_id: Option<String>,
    repository: Seq<char>,
    session: Option<Seq<char>>,
)
    ensures
        optional_view(session_id) != session ==> query_failure(session_id, repository_id, repository, session) is Some,
        repository_id is None || repository_id->0@ != repository ==> query_failure(
            session_id,
            repository_id,
            repository,
            session,
        ) is Some,
        optional_view(session_id) == session && repository_id is Some && repository_id->0@ == repository
            ==> query_failure(session_id, repository_id, repository, session) is None,
{
}

} // verus!
