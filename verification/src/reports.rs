//! Reports on the state of a runtime, as documents.

use crate::config::{FilesystemGrant, Platform};
use crate::development::DevelopmentSandbox;
use crate::diagnostics::{has_public_wildcard, protected_paths_supported, ReadinessCheck, PUBLIC_WILDCARD};
use crate::entries::{distinct_keys, Entry};
use crate::instruction_snapshots::{automatic_sources, provenance_of, shown, InstructionSnapshot, Provenance};
use crate::json::{
    is_json, json_member, json_merged, json_object, json_pointer_keys, member, member_document, member_views,
    merged_documents, nests, object_document, roomy_member, sound_member, FieldView, JsonField,
};
use crate::pack_extensions::ToolSpec;
use crate::text::{clone_optional, clone_texts, optional_view, same_text, views};
use vstd::prelude::*;
use vstd::string::*;
use vstd::utf8::*;

verus! {

/// Whom the grants of the development preset are for.
pub const ACTOR_SCOPE: &'static str = "terminal users, main agents, and child agents without workflow lineage";

/// What is known of the state of a runtime. The head of the journal, the hash of its last record, the
/// description of the storage and the positions of the projections are documents.
#[derive(Debug)]
pub struct StateFindings {
    pub recovery_mode: bool,
    pub recovery_reason: Option<String>,
    pub journal_head: String,
    pub record_hash: String,
    pub storage: String,
    /// The path of the lease of the only writer, where one is held.
    pub writer_lease: Option<String>,
    pub positions: Vec<String>,
}

/// The members of the lease of the writer; without one the database coordinates writers.
pub open spec fn lease_members(lease: Option<Seq<char>>) -> Seq<(Seq<char>, FieldView)> {
    match lease {
        Some(path) => seq![("held"@, FieldView::Flag(true)), ("path"@, FieldView::Text(path))],
        None => seq![("held"@, FieldView::Flag(false)), ("reason"@, FieldView::Text("database-coordinated"@))],
    }
}

/// The adapter that the storage is described with.
pub open spec fn storage_adapter(storage: Seq<char>) -> FieldView {
    match json_member(storage, "adapter"@) {
        Some(adapter) => FieldView::Document(adapter),
        None => FieldView::Text("unknown"@),
    }
}

/// The members of the store of projections.
pub open spec fn projection_members(found: StateFindings) -> Seq<(Seq<char>, FieldView)> {
    seq![
        ("adapter"@, storage_adapter(found.storage@)),
        ("positions"@, FieldView::Documents(views(found.positions@))),
    ]
}

/// Where each repository keeps what it holds.
pub open spec fn repository_members() -> Seq<(Seq<char>, FieldView)> {
    seq![
        ("sessions"@, FieldView::Text("event-journal:sessions-v1+messages-v1"@)),
        ("work"@, FieldView::Text("event-journal:tasks-v1+decisions-v1"@)),
        ("work_projection"@, FieldView::Text("redb-projection:work-v1"@)),
        ("memory"@, FieldView::Text("event-journal:memory-v1"@)),
        ("memory_projection"@, FieldView::Text("redb-projection:memory-v1"@)),
        ("memory_index"@, FieldView::Text("tantivy-or-degraded"@)),
        ("research"@, FieldView::Text("event-journal:research-runs-v1+sources-v1+claims-v1"@)),
        ("telemetry"@, FieldView::Text("derived:journal-envelopes+typed-safe-counters"@)),
        ("workflows"@, FieldView::Text("event-journal+redb-projection:workflows-v1"@)),
    ]
}

/// The members of the report on the state.
pub open spec fn state_members(
    found: StateFindings,
    lease: Seq<char>,
    projections: Seq<char>,
    repositories: Seq<char>,
) -> Seq<(Seq<char>, FieldView)> {
    seq![
        ("recovery_mode"@, FieldView::Flag(found.recovery_mode)),
        ("recovery_reason"@, FieldView::Optional(optional_view(found.recovery_reason))),
        ("journal_head"@, FieldView::Document(found.journal_head@)),
        ("record_hash"@, FieldView::Document(found.record_hash@)),
        ("storage"@, FieldView::Document(found.storage@)),
        ("writer_lease"@, FieldView::Document(lease)),
        ("projection_store"@, FieldView::Document(projections)),
        ("repository_adapters"@, FieldView::Document(repositories)),
    ]
}

/// The report on the state.
pub open spec fn state_text(found: StateFindings) -> Option<Seq<char>> {
    match (
        json_object(lease_members(optional_view(found.writer_lease))),
        json_object(projection_members(found)),
        json_object(repository_members()),
    ) {
        (Some(lease), Some(projections), Some(repositories)) => json_object(
            state_members(found, lease, projections, repositories),
        ),
        _ => None,
    }
}

proof fn held_keys_differ(list: Seq<Entry<JsonField>>)
    requires
        list.len() == 2,
        list[0].key@ == "held"@,
        list[1].key@ == "path"@,
    ensures
        distinct_keys(list),
{
    reveal_strlit("held");
    reveal_strlit("path");
    assert("held"@.len() == 4 && "path"@.len() == 4);
    assert("held"@[0] != "path"@[0]);
}

proof fn unheld_keys_differ(list: Seq<Entry<JsonField>>)
    requires
        list.len() == 2,
        list[0].key@ == "held"@,
        list[1].key@ == "reason"@,
    ensures
        distinct_keys(list),
{
    reveal_strlit("held");
    reveal_strlit("reason");
    assert("held"@.len() == 4 && "reason"@.len() == 6);
}

proof fn projection_keys_differ(list: Seq<Entry<JsonField>>)
    requires
        list.len() == 2,
        list[0].key@ == "adapter"@,
        list[1].key@ == "positions"@,
    ensures
        distinct_keys(list),
{
    reveal_strlit("adapter");
    reveal_strlit("positions");
    assert("adapter"@.len() == 7 && "positions"@.len() == 9);
}

proof fn repository_keys_differ(list: Seq<Entry<JsonField>>)
    requires
        list.len() == 9,
        list[0].key@ == "sessions"@,
        list[1].key@ == "work"@,
        list[2].key@ == "work_projection"@,
        list[3].key@ == "memory"@,
        list[4].key@ == "memory_projection"@,
        list[5].key@ == "memory_index"@,
        list[6].key@ == "research"@,
        list[7].key@ == "telemetry"@,
        list[8].key@ == "workflows"@,
    ensures
        distinct_keys(list),
{
    reveal_strlit("sessions");
    reveal_strlit("work");
    reveal_strlit("work_projection");
    reveal_strlit("memory");
    reveal_strlit("memory_projection");
    reveal_strlit("memory_index");
    reveal_strlit("research");
    reveal_strlit("telemetry");
    reveal_strlit("workflows");
    assert("sessions"@.len() == 8 && "work"@.len() == 4 && "work_projection"@.len() == 15 && "memory"@.len() == 6);
    assert("memory_projection"@.len() == 17 && "memory_index"@.len() == 12 && "research"@.len() == 8);
    assert("telemetry"@.len() == 9 && "workflows"@.len() == 9);
    assert("sessions"@[0] != "research"@[0]);
    assert("telemetry"@[0] != "workflows"@[0]);
}

proof fn state_keys_differ(list: Seq<Entry<JsonField>>)
    requires
        list.len() == 8,
        list[0].key@ == "recovery_mode"@,
        list[1].key@ == "recovery_reason"@,
        list[2].key@ == "journal_head"@,
        list[3].key@ == "record_hash"@,
        list[4].key@ == "storage"@,
        list[5].key@ == "writer_lease"@,
        list[6].key@ == "projection_store"@,
        list[7].key@ == "repository_adapters"@,
    ensures
        distinct_keys(list),
{
    reveal_strlit("recovery_mode");
    reveal_strlit("recovery_reason");
    reveal_strlit("journal_head");
    reveal_strlit("record_hash");
    reveal_strlit("storage");
    reveal_strlit("writer_lease");
    reveal_strlit("projection_store");
    reveal_strlit("repository_adapters");
    assert("recovery_mode"@.len() == 13 && "recovery_reason"@.len() == 15 && "journal_head"@.len() == 12);
    assert("record_hash"@.len() == 11 && "storage"@.len() == 7 && "writer_lease"@.len() == 12);
    assert("projection_store"@.len() == 16 && "repository_adapters"@.len() == 19);
    assert("journal_head"@[0] != "writer_lease"@[0]);
}

proof fn documents_are_sound(list: Seq<String>, levels: nat)
    ensures
        (forall|i: int| 0 <= i < list.len() ==> is_json((#[trigger] list[i])@) && nests(list[i]@, levels + 2))
            ==> sound_member(FieldView::Documents(views(list))) && roomy_member(
            FieldView::Documents(views(list)),
            levels,
        ),
{
    if forall|i: int| 0 <= i < list.len() ==> is_json((#[trigger] list[i])@) && nests(list[i]@, levels + 2) {
        assert forall|i: int| 0 <= i < views(list).len() implies is_json(#[trigger] views(list)[i]) && nests(
            views(list)[i],
            levels + 2,
        ) by {
            assert(is_json(list[i]@));
        }
    }
}

fn lease_document(lease: &Option<String>) -> (text: Option<String>)
    ensures
        optional_view(text) == json_object(lease_members(optional_view(*lease))),
        text is Some && is_json(text->0@),
{
    match lease {
        Some(path) => {
            let members = vec![member("held", JsonField::Flag(true)), member("path", JsonField::Text(path.clone()))];
            proof {
                held_keys_differ(members@);
                assert(member_views(members@) =~= lease_members(optional_view(*lease)));
            }
            object_document(members)
        },
        None => {
            let members = vec![
                member("held", JsonField::Flag(false)),
                member("reason", JsonField::Text("database-coordinated".to_owned())),
            ];
            proof {
                unheld_keys_differ(members@);
                assert(member_views(members@) =~= lease_members(optional_view(*lease)));
            }
            object_document(members)
        },
    }
}

fn projection_document(found: &StateFindings) -> (text: Option<String>)
    ensures
        optional_view(text) == json_object(projection_members(*found)),
        (forall|i: int| 0 <= i < found.positions@.len() ==> is_json((#[trigger] found.positions@[i])@)
            && nests(found.positions@[i]@, 2)) ==> text is Some && is_json(text->0@),
{
    let adapter = match member_document(found.storage.as_str(), "adapter") {
        Some(document) => JsonField::Document(document),
        None => JsonField::Text("unknown".to_owned()),
    };
    let members = vec![
        member("adapter", adapter),
        member("positions", JsonField::Documents(clone_texts(&found.positions))),
    ];
    proof {
        projection_keys_differ(members@);
        assert(member_views(members@) =~= projection_members(*found));
        documents_are_sound(found.positions@, 0);
    }
    object_document(members)
}

fn repository_document() -> (text: Option<String>)
    ensures
        optional_view(text) == json_object(repository_members()),
        text is Some && is_json(text->0@),
{
    let members = vec![
        member("sessions", JsonField::Text("event-journal:sessions-v1+messages-v1".to_owned())),
        member("work", JsonField::Text("event-journal:tasks-v1+decisions-v1".to_owned())),
        member("work_projection", JsonField::Text("redb-projection:work-v1".to_owned())),
        member("memory", JsonField::Text("event-journal:memory-v1".to_owned())),
        member("memory_projection", JsonField::Text("redb-projection:memory-v1".to_owned())),
        member("memory_index", JsonField::Text("tantivy-or-degraded".to_owned())),
        member("research", JsonField::Text("event-journal:research-runs-v1+sources-v1+claims-v1".to_owned())),
        member("telemetry", JsonField::Text("derived:journal-envelopes+typed-safe-counters".to_owned())),
        member("workflows", JsonField::Text("event-journal+redb-projection:workflows-v1".to_owned())),
    ];
    proof {
        repository_keys_differ(members@);
        assert(member_views(members@) =~= repository_members());
    }
    object_document(members)
}

/// The documents of the state are JSON, and the positions can be read from within the report.
pub open spec fn sound_state(found: StateFindings) -> bool {
    &&& is_json(found.journal_head@)
    &&& is_json(found.record_hash@)
    &&& is_json(found.storage@)
    &&& forall|i: int|
        0 <= i < found.positions@.len() ==> is_json((#[trigger] found.positions@[i])@) && nests(
            found.positions@[i]@,
            2,
        )
}

/// The report on the state of a runtime: it says nothing of what events hold. Absent where a document
/// that it is made of is no JSON, or nests deeper than can be read.
pub fn state_report(found: &StateFindings) -> (text: Option<String>)
    ensures
        optional_view(text) == state_text(*found),
        sound_state(*found) ==> text is Some,
{
    match (lease_document(&found.writer_lease), projection_document(found), repository_document()) {
        (Some(lease), Some(projections), Some(repositories)) => {
            let members = vec![
                member("recovery_mode", JsonField::Flag(found.recovery_mode)),
                member("recovery_reason", JsonField::Optional(clone_optional(&found.recovery_reason))),
                member("journal_head", JsonField::Document(found.journal_head.clone())),
                member("record_hash", JsonField::Document(found.record_hash.clone())),
                member("storage", JsonField::Document(found.storage.clone())),
                member("writer_lease", JsonField::Document(lease)),
                member("projection_store", JsonField::Document(projections)),
                member("repository_adapters", JsonField::Document(repositories)),
            ];
            proof {
                state_keys_differ(members@);
                assert(member_views(members@) =~= state_members(*found, lease@, projections@, repositories@));
            }
            object_document(members)
        },
        _ => None,
    }
}

/// What is known of the sandbox of a runtime.
#[derive(Debug)]
pub struct SandboxFindings {
    /// The canonical workspace.
    pub workspace: String,
    pub profile: String,
    pub backend: String,
    /// Whether the native helper can keep paths from its processes.
    pub native_exclusions: bool,
    pub filesystem: Vec<FilesystemGrant>,
    pub executables: Vec<String>,
    pub network_destinations: Vec<String>,
    /// What the development preset adds.
    pub development: DevelopmentSandbox,
    /// The directories of the preset's search path.
    pub command_roots: Vec<String>,
}

/// What a report on the sandbox says beside what its helper says of itself.
#[derive(Debug)]
pub struct SandboxReport<'a> {
    pub canonical_workspace: &'a str,
    pub sandbox_profile: &'a str,
    pub protected_path_exclusions_supported: bool,
    pub protected_paths: &'a Vec<String>,
    pub resolved_shell: &'a Option<String>,
    pub development_actor_scope: &'static str,
    pub sanitized_command_roots: &'a Vec<String>,
    pub explicit_filesystem: &'a Vec<FilesystemGrant>,
    pub derived_filesystem: &'a Vec<FilesystemGrant>,
    pub explicit_executables: &'a Vec<String>,
    pub derived_executables: &'a Vec<String>,
    pub network_destinations: &'a Vec<String>,
    /// What the wildcard among the destinations means, where it is there.
    pub public_network_wildcard: Option<&'static str>,
}

/// The report on a sandbox.
pub fn sandbox_report<'a>(platform: Platform, found: &'a SandboxFindings) -> (report: SandboxReport<'a>)
    ensures
        report.canonical_workspace@ == found.workspace@,
        report.sandbox_profile@ == found.profile@,
        report.protected_path_exclusions_supported == if found.backend@ == "native"@ {
            found.native_exclusions
        } else if found.backend@ == "windows_job"@ {
            platform is Windows
        } else {
            found.backend@ == "oci"@
        },
        *report.protected_paths == found.development.protected_filesystem,
        *report.resolved_shell == found.development.shell,
        report.development_actor_scope@ == ACTOR_SCOPE@,
        *report.sanitized_command_roots == found.command_roots,
        *report.explicit_filesystem == found.filesystem,
        *report.derived_filesystem == found.development.filesystem,
        *report.explicit_executables == found.executables,
        *report.derived_executables == found.development.executables,
        *report.network_destinations == found.network_destinations,
        match report.public_network_wildcard {
            Some(text) => views(found.network_destinations@).contains("*"@) && text@ == PUBLIC_WILDCARD@,
            None => !views(found.network_destinations@).contains("*"@),
        },
{
    let public_network_wildcard = if has_public_wildcard(&found.network_destinations) {
        Some(PUBLIC_WILDCARD)
    } else {
        None
    };
    SandboxReport {
        canonical_workspace: found.workspace.as_str(),
        sandbox_profile: found.profile.as_str(),
        protected_path_exclusions_supported: protected_paths_supported(
            found.backend.as_str(),
            found.native_exclusions,
            platform,
        ),
        protected_paths: &found.development.protected_filesystem,
        resolved_shell: &found.development.shell,
        development_actor_scope: ACTOR_SCOPE,
        sanitized_command_roots: &found.command_roots,
        explicit_filesystem: &found.filesystem,
        derived_filesystem: &found.development.filesystem,
        explicit_executables: &found.executables,
        derived_executables: &found.development.executables,
        network_destinations: &found.network_destinations,
        public_network_wildcard,
    }
}

/// What access resolution says of a tool, but for its name as documents.
#[derive(Debug)]
pub struct ToolAccess {
    pub name: String,
    pub family: String,
    pub source: String,
    pub action_class: String,
    pub decision: String,
    pub reason: String,
}

/// What access resolution says of a tool: the last of its name counts.
pub open spec fn access_of(list: Seq<ToolAccess>, name: Seq<char>) -> Option<ToolAccess>
    decreases list.len(),
{
    if list.len() == 0 {
        None
    } else if list.last().name@ == name {
        Some(list.last())
    } else {
        access_of(list.drop_last(), name)
    }
}

fn find_access<'a>(list: &'a Vec<ToolAccess>, name: &str) -> (found: Option<&'a ToolAccess>)
    ensures
        match found {
            Some(item) => access_of(list@, name@) == Some(*item),
            None => access_of(list@, name@) is None,
        },
{
    let mut i: usize = list.len();
    proof {
        assert(list@.take(i as int) =~= list@);
    }
    while i > 0
        invariant
            i <= list@.len(),
            access_of(list@, name@) == access_of(list@.take(i as int), name@),
        decreases i,
    {
        i = i - 1;
        proof {
            assert(list@.take(i + 1).last() == list@[i as int]);
            assert(list@.take(i + 1).drop_last() =~= list@.take(i as int));
        }
        if same_text(list[i].name.as_str(), name) {
            return Some(&list[i]);
        }
    }
    None
}

/// What the catalogue says of every tool alike; the access profile is a document.
#[derive(Debug)]
pub struct CatalogSettings {
    pub profile: String,
    /// The canonical workspace.
    pub workspace: String,
    pub sandbox_profile: String,
}

/// The members of a tool in the catalogue.
pub open spec fn catalog_members(spec: ToolSpec, access: ToolAccess, settings: CatalogSettings) -> Seq<
    (Seq<char>, FieldView),
> {
    seq![
        ("name"@, FieldView::Text(spec.name@)),
        ("description"@, FieldView::Text(spec.description@)),
        ("input_schema"@, FieldView::Document(spec.input_schema@)),
        ("effect_action"@, FieldView::Optional(optional_view(spec.effect_action))),
        ("capability"@, FieldView::Optional(optional_view(spec.capability))),
        ("max_output_bytes"@, FieldView::Natural(spec.max_output_bytes)),
        ("profile"@, FieldView::Document(settings.profile@)),
        ("family"@, FieldView::Document(access.family@)),
        ("source"@, FieldView::Document(access.source@)),
        ("action_class"@, FieldView::Document(access.action_class@)),
        ("decision"@, FieldView::Document(access.decision@)),
        ("selection_reason"@, FieldView::Document(access.reason@)),
        ("canonical_workspace"@, FieldView::Text(settings.workspace@)),
        ("sandbox_profile"@, FieldView::Text(settings.sandbox_profile@)),
        ("development_grant_scope"@, FieldView::Text(ACTOR_SCOPE@)),
    ]
}

/// A tool in the catalogue.
pub open spec fn catalog_text(spec: ToolSpec, access: Seq<ToolAccess>, settings: CatalogSettings) -> Option<Seq<char>> {
    json_object(catalog_members(spec, access_of(access, spec.name@)->0, settings))
}

/// All documents of a tool in the catalogue are JSON.
pub open spec fn sound_catalog(spec: ToolSpec, access: ToolAccess, settings: CatalogSettings) -> bool {
    &&& is_json(spec.input_schema@)
    &&& is_json(settings.profile@)
    &&& is_json(access.family@)
    &&& is_json(access.source@)
    &&& is_json(access.action_class@)
    &&& is_json(access.decision@)
    &&& is_json(access.reason@)
}

proof fn catalog_keys_differ(list: Seq<Entry<JsonField>>)
    requires
        list.len() == 15,
        list[0].key@ == "name"@,
        list[1].key@ == "description"@,
        list[2].key@ == "input_schema"@,
        list[3].key@ == "effect_action"@,
        list[4].key@ == "capability"@,
        list[5].key@ == "max_output_bytes"@,
        list[6].key@ == "profile"@,
        list[7].key@ == "family"@,
        list[8].key@ == "source"@,
        list[9].key@ == "action_class"@,
        list[10].key@ == "decision"@,
        list[11].key@ == "selection_reason"@,
        list[12].key@ == "canonical_workspace"@,
        list[13].key@ == "sandbox_profile"@,
        list[14].key@ == "development_grant_scope"@,
    ensures
        distinct_keys(list),
{
    reveal_strlit("name");
    reveal_strlit("description");
    reveal_strlit("input_schema");
    reveal_strlit("effect_action");
    reveal_strlit("capability");
    reveal_strlit("max_output_bytes");
    reveal_strlit("profile");
    reveal_strlit("family");
    reveal_strlit("source");
    reveal_strlit("action_class");
    reveal_strlit("decision");
    reveal_strlit("selection_reason");
    reveal_strlit("canonical_workspace");
    reveal_strlit("sandbox_profile");
    reveal_strlit("development_grant_scope");
    assert("name"@.len() == 4 && "description"@.len() == 11 && "input_schema"@.len() == 12 && "effect_action"@.len() == 13);
    assert("capability"@.len() == 10 && "max_output_bytes"@.len() == 16 && "profile"@.len() == 7);
    assert("family"@.len() == 6 && "source"@.len() == 6 && "action_class"@.len() == 12 && "decision"@.len() == 8);
    assert("selection_reason"@.len() == 16 && "canonical_workspace"@.len() == 19 && "sandbox_profile"@.len() == 15);
    assert("development_grant_scope"@.len() == 23);
    assert("input_schema"@[0] != "action_class"@[0]);
    assert("max_output_bytes"@[0] != "selection_reason"@[0]);
    assert("family"@[0] != "source"@[0]);
}

fn catalog_entry(spec: &ToolSpec, access: &ToolAccess, settings: &CatalogSettings) -> (text: Option<String>)
    ensures
        optional_view(text) == json_object(catalog_members(*spec, *access, *settings)),
        sound_catalog(*spec, *access, *settings) ==> text is Some,
{
    let members = vec![
        member("name", JsonField::Text(spec.name.clone())),
        member("description", JsonField::Text(spec.description.clone())),
        member("input_schema", JsonField::Document(spec.input_schema.clone())),
        member("effect_action", JsonField::Optional(clone_optional(&spec.effect_action))),
        member("capability", JsonField::Optional(clone_optional(&spec.capability))),
        member("max_output_bytes", JsonField::Natural(spec.max_output_bytes)),
        member("profile", JsonField::Document(settings.profile.clone())),
        member("family", JsonField::Document(access.family.clone())),
        member("source", JsonField::Document(access.source.clone())),
        member("action_class", JsonField::Document(access.action_class.clone())),
        member("decision", JsonField::Document(access.decision.clone())),
        member("selection_reason", JsonField::Document(access.reason.clone())),
        member("canonical_workspace", JsonField::Text(settings.workspace.clone())),
        member("sandbox_profile", JsonField::Text(settings.sandbox_profile.clone())),
        member("development_grant_scope", JsonField::Text(ACTOR_SCOPE.to_owned())),
    ];
    proof {
        catalog_keys_differ(members@);
        assert(member_views(members@) =~= catalog_members(*spec, *access, *settings));
    }
    object_document(members)
}

/// The catalogue of the active tools, with what access resolution says of each, which it has to.
/// Absent where a document that it is made of is no JSON.
pub fn catalog_report(specs: &Vec<ToolSpec>, access: &Vec<ToolAccess>, settings: &CatalogSettings) -> (report: Option<
    Vec<String>,
>)
    requires
        forall|i: int| 0 <= i < specs@.len() ==> access_of(access@, (#[trigger] specs@[i]).name@) is Some,
    ensures
        match report {
            Some(list) => list@.len() == specs@.len() && forall|i: int|
                0 <= i < specs@.len() ==> catalog_text(#[trigger] specs@[i], access@, *settings) == Some(list@[i]@),
            None => exists|i: int|
                0 <= i < specs@.len() && catalog_text(#[trigger] specs@[i], access@, *settings) is None,
        },
        (forall|i: int|
            0 <= i < specs@.len() ==> sound_catalog(
                #[trigger] specs@[i],
                access_of(access@, specs@[i].name@)->0,
                *settings,
            )) ==> report is Some,
{
    let mut list: Vec<String> = Vec::new();
    let mut i: usize = 0;
    while i < specs.len()
        invariant
            i <= specs@.len(),
            list@.len() == i,
            forall|k: int| 0 <= k < specs@.len() ==> access_of(access@, (#[trigger] specs@[k]).name@) is Some,
            forall|k: int|
                0 <= k < i ==> catalog_text(#[trigger] specs@[k], access@, *settings) == Some(list@[k]@),
        decreases specs@.len() - i,
    {
        let spec = &specs[i];
        proof {
            assert(access_of(access@, specs@[i as int].name@) is Some);
        }
        let entry = match find_access(access, spec.name.as_str()) {
            Some(item) => catalog_entry(spec, item, settings),
            None => None,
        };
        match entry {
            Some(text) => {
                list.push(text);
            },
            None => {
                proof {
                    assert(catalog_text(specs@[i as int], access@, *settings) is None);
                }
                return None;
            },
        }
        i = i + 1;
    }
    Some(list)
}

/// What the report on effective access says of the sandbox; the grants are documents.
#[derive(Debug)]
pub struct AccessSandbox {
    pub profile: String,
    pub resolved_shell: Option<String>,
    pub protected_paths: Vec<String>,
    pub command_roots: Vec<String>,
    pub explicit_filesystem: Vec<String>,
    pub derived_filesystem: Vec<String>,
    pub explicit_executables: Vec<String>,
    pub derived_executables: Vec<String>,
    pub network_destinations: Vec<String>,
}

/// What the wildcard among network destinations means for access.
pub const PUBLIC_ACCESS: &'static str = "public HTTP(S) only; exact entries remain required for non-public origins";

/// The members of the sandbox in the report on effective access.
pub open spec fn sandbox_members(sandbox: AccessSandbox, filesystem: Seq<char>, executables: Seq<char>) -> Seq<
    (Seq<char>, FieldView),
> {
    seq![
        ("profile"@, FieldView::Text(sandbox.profile@)),
        ("development_actor_scope"@, FieldView::Text(ACTOR_SCOPE@)),
        ("resolved_shell"@, FieldView::Optional(optional_view(sandbox.resolved_shell))),
        ("protected_paths"@, FieldView::Texts(views(sandbox.protected_paths@))),
        ("sanitized_command_roots"@, FieldView::Texts(views(sandbox.command_roots@))),
        ("filesystem"@, FieldView::Document(filesystem)),
        ("executables"@, FieldView::Document(executables)),
        ("network_destinations"@, FieldView::Texts(views(sandbox.network_destinations@))),
        (
            "public_wildcard"@,
            FieldView::Optional(
                if views(sandbox.network_destinations@).contains("*"@) {
                    Some(PUBLIC_ACCESS@)
                } else {
                    None
                },
            ),
        ),
    ]
}

/// The report on effective access: what was resolved, with the workspace and the sandbox.
pub open spec fn access_text(access: Seq<char>, workspace: Seq<char>, sandbox: AccessSandbox) -> Option<Seq<char>> {
    match (
        json_object(
            seq![
                ("explicit"@, FieldView::Documents(views(sandbox.explicit_filesystem@))),
                ("derived"@, FieldView::Documents(views(sandbox.derived_filesystem@))),
            ],
        ),
        json_object(
            seq![
                ("explicit"@, FieldView::Texts(views(sandbox.explicit_executables@))),
                ("derived"@, FieldView::Texts(views(sandbox.derived_executables@))),
            ],
        ),
    ) {
        (Some(filesystem), Some(executables)) => match json_object(sandbox_members(sandbox, filesystem, executables)) {
            Some(shown) => match json_object(
                seq![
                    ("canonical_workspace"@, FieldView::Text(workspace)),
                    ("sandbox"@, FieldView::Document(shown)),
                ],
            ) {
                Some(added) => json_merged(access, added),
                None => None,
            },
            None => None,
        },
        _ => None,
    }
}

proof fn kinds_differ(list: Seq<Entry<JsonField>>)
    requires
        list.len() == 2,
        list[0].key@ == "explicit"@,
        list[1].key@ == "derived"@,
    ensures
        distinct_keys(list),
{
    reveal_strlit("explicit");
    reveal_strlit("derived");
    assert("explicit"@.len() == 8 && "derived"@.len() == 7);
}

proof fn sandbox_keys_differ(list: Seq<Entry<JsonField>>)
    requires
        list.len() == 9,
        list[0].key@ == "profile"@,
        list[1].key@ == "development_actor_scope"@,
        list[2].key@ == "resolved_shell"@,
        list[3].key@ == "protected_paths"@,
        list[4].key@ == "sanitized_command_roots"@,
        list[5].key@ == "filesystem"@,
        list[6].key@ == "executables"@,
        list[7].key@ == "network_destinations"@,
        list[8].key@ == "public_wildcard"@,
    ensures
        distinct_keys(list),
{
    reveal_strlit("profile");
    reveal_strlit("development_actor_scope");
    reveal_strlit("resolved_shell");
    reveal_strlit("protected_paths");
    reveal_strlit("sanitized_command_roots");
    reveal_strlit("filesystem");
    reveal_strlit("executables");
    reveal_strlit("network_destinations");
    reveal_strlit("public_wildcard");
    assert("profile"@.len() == 7 && "development_actor_scope"@.len() == 23 && "resolved_shell"@.len() == 14);
    assert("protected_paths"@.len() == 15 && "sanitized_command_roots"@.len() == 23 && "filesystem"@.len() == 10);
    assert("executables"@.len() == 11 && "network_destinations"@.len() == 20 && "public_wildcard"@.len() == 15);
    assert("development_actor_scope"@[0] != "sanitized_command_roots"@[0]);
    assert("protected_paths"@[1] != "public_wildcard"@[1]);
}

proof fn added_keys_differ(list: Seq<Entry<JsonField>>)
    requires
        list.len() == 2,
        list[0].key@ == "canonical_workspace"@,
        list[1].key@ == "sandbox"@,
    ensures
        distinct_keys(list),
{
    reveal_strlit("canonical_workspace");
    reveal_strlit("sandbox");
    assert("canonical_workspace"@.len() == 19 && "sandbox"@.len() == 7);
}

fn sandbox_document(sandbox: &AccessSandbox, filesystem: String, executables: String) -> (text: Option<String>)
    ensures
        optional_view(text) == json_object(sandbox_members(*sandbox, filesystem@, executables@)),
        is_json(filesystem@) && is_json(executables@) ==> text is Some,
        text is Some && nests(filesystem@, 1) && nests(executables@, 1) ==> is_json(text->0@),
        text is Some && nests(filesystem@, 2) && nests(executables@, 2) ==> nests(text->0@, 1),
{
    let wildcard = if has_public_wildcard(&sandbox.network_destinations) {
        Some(PUBLIC_ACCESS.to_owned())
    } else {
        None
    };
    let members = vec![
        member("profile", JsonField::Text(sandbox.profile.clone())),
        member("development_actor_scope", JsonField::Text(ACTOR_SCOPE.to_owned())),
        member("resolved_shell", JsonField::Optional(clone_optional(&sandbox.resolved_shell))),
        member("protected_paths", JsonField::Texts(clone_texts(&sandbox.protected_paths))),
        member("sanitized_command_roots", JsonField::Texts(clone_texts(&sandbox.command_roots))),
        member("filesystem", JsonField::Document(filesystem)),
        member("executables", JsonField::Document(executables)),
        member("network_destinations", JsonField::Texts(clone_texts(&sandbox.network_destinations))),
        member("public_wildcard", JsonField::Optional(wildcard)),
    ];
    proof {
        sandbox_keys_differ(members@);
        assert(member_views(members@) =~= sandbox_members(*sandbox, filesystem@, executables@));
    }
    let text = object_document(members);
    proof {
        if text is Some && nests(filesystem@, 2) && nests(executables@, 2) {
            assert(nests(text->0@, 1));
        }
    }
    text
}

proof fn grants_are_sound(list: Seq<String>)
    requires
        sound_grants(list),
    ensures
        sound_member(FieldView::Documents(views(list))),
        roomy_member(FieldView::Documents(views(list)), 0),
        roomy_member(FieldView::Documents(views(list)), 1),
        roomy_member(FieldView::Documents(views(list)), 2),
{
    assert forall|i: int| 0 <= i < views(list).len() implies is_json(#[trigger] views(list)[i]) && nests(
        views(list)[i],
        2,
    ) && nests(views(list)[i], 3) && nests(views(list)[i], 4) by {
        assert(is_json(list[i]@));
    }
}

/// Grants are JSON that can be read from within the report.
pub open spec fn sound_grants(list: Seq<String>) -> bool {
    forall|i: int|
        0 <= i < list.len() ==> is_json((#[trigger] list[i])@) && nests(list[i]@, 2) && nests(list[i]@, 3) && nests(
            list[i]@,
            4,
        )
}

/// The report on effective access: what was resolved, a document, with the workspace and the sandbox.
/// Absent where that is no object, or a grant no JSON that nests shallow enough.
pub fn access_report(access: &str, workspace: &str, sandbox: &AccessSandbox) -> (text: Option<String>)
    ensures
        optional_view(text) == access_text(access@, workspace@, *sandbox),
        json_pointer_keys(encode_utf8(access@), ""@) is Some && sound_grants(sandbox.explicit_filesystem@)
            && sound_grants(sandbox.derived_filesystem@) ==> text is Some,
{
    let grants = vec![
        member("explicit", JsonField::Documents(clone_texts(&sandbox.explicit_filesystem))),
        member("derived", JsonField::Documents(clone_texts(&sandbox.derived_filesystem))),
    ];
    let programs = vec![
        member("explicit", JsonField::Texts(clone_texts(&sandbox.explicit_executables))),
        member("derived", JsonField::Texts(clone_texts(&sandbox.derived_executables))),
    ];
    proof {
        kinds_differ(grants@);
        kinds_differ(programs@);
        assert(member_views(grants@) =~= seq![
            ("explicit"@, FieldView::Documents(views(sandbox.explicit_filesystem@))),
            ("derived"@, FieldView::Documents(views(sandbox.derived_filesystem@))),
        ]);
        assert(member_views(programs@) =~= seq![
            ("explicit"@, FieldView::Texts(views(sandbox.explicit_executables@))),
            ("derived"@, FieldView::Texts(views(sandbox.derived_executables@))),
        ]);
    }
    let ghost granted = grants@;
    let ghost sound = sound_grants(sandbox.explicit_filesystem@) && sound_grants(sandbox.derived_filesystem@);
    proof {
        if sound {
            grants_are_sound(sandbox.explicit_filesystem@);
            grants_are_sound(sandbox.derived_filesystem@);
            assert(forall|i: int| 0 <= i < granted.len() ==> sound_member((#[trigger] granted[i]).value@));
            assert(forall|i: int| 0 <= i < granted.len() ==> roomy_member((#[trigger] granted[i]).value@, 0));
            assert(forall|i: int| 0 <= i < granted.len() ==> roomy_member((#[trigger] granted[i]).value@, 1));
            assert(forall|i: int| 0 <= i < granted.len() ==> roomy_member((#[trigger] granted[i]).value@, 2));
        }
    }
    let filesystem = object_document(grants);
    let executables = object_document(programs);
    proof {
        if sound {
            assert(nests(filesystem->0@, 1) && nests(filesystem->0@, 2));
        }
        assert(nests(executables->0@, 1) && nests(executables->0@, 2));
    }
    match (filesystem, executables) {
        (Some(filesystem), Some(executables)) => match sandbox_document(sandbox, filesystem, executables) {
            Some(shown) => {
                let members = vec![
                    member("canonical_workspace", JsonField::Text(workspace.to_owned())),
                    member("sandbox", JsonField::Document(shown)),
                ];
                proof {
                    added_keys_differ(members@);
                    assert(member_views(members@) =~= seq![
                        ("canonical_workspace"@, FieldView::Text(workspace@)),
                        ("sandbox"@, FieldView::Document(shown@)),
                    ]);
                }
                match object_document(members) {
                    Some(added) => merged_documents(access, added.as_str()),
                    None => None,
                }
            },
            None => None,
        },
        _ => None,
    }
}

/// The check of what is configured of a model, which has been made when it is reported.
pub open spec fn metadata_members() -> Seq<(Seq<char>, FieldView)> {
    seq![
        ("name"@, FieldView::Text("metadata"@)),
        ("status"@, FieldView::Text("pass"@)),
        ("detail"@, FieldView::Text("Explicit limits and capabilities are valid."@)),
    ]
}

/// The report on a model: it is ready where it generated.
pub open spec fn model_text(passed: bool, route: Seq<char>, generation: Seq<char>) -> Option<Seq<char>> {
    match json_object(metadata_members()) {
        Some(metadata) => json_object(
            seq![
                ("ready"@, FieldView::Flag(passed)),
                ("route"@, FieldView::Document(route)),
                ("checks"@, FieldView::Documents(seq![metadata, generation])),
            ],
        ),
        None => None,
    }
}

proof fn check_keys_differ(list: Seq<Entry<JsonField>>)
    requires
        list.len() == 3,
        list[0].key@ == "name"@,
        list[1].key@ == "status"@,
        list[2].key@ == "detail"@,
    ensures
        distinct_keys(list),
{
    reveal_strlit("name");
    reveal_strlit("status");
    reveal_strlit("detail");
    assert("name"@.len() == 4 && "status"@.len() == 6 && "detail"@.len() == 6);
    assert("status"@[0] != "detail"@[0]);
}

proof fn model_keys_differ(list: Seq<Entry<JsonField>>)
    requires
        list.len() == 3,
        list[0].key@ == "ready"@,
        list[1].key@ == "route"@,
        list[2].key@ == "checks"@,
    ensures
        distinct_keys(list),
{
    reveal_strlit("ready");
    reveal_strlit("route");
    reveal_strlit("checks");
    assert("ready"@.len() == 5 && "route"@.len() == 5 && "checks"@.len() == 6);
    assert("ready"@[1] != "route"@[1]);
}

/// The report on a model: its route and the check of its generation are documents. Absent where one of
/// them is no JSON.
pub fn model_report(check: &ReadinessCheck, route: &str, generation: &str) -> (text: Option<String>)
    ensures
        optional_view(text) == model_text(check.passed, route@, generation@),
        is_json(route@) && is_json(generation@) ==> text is Some,
{
    let members = vec![
        member("name", JsonField::Text("metadata".to_owned())),
        member("status", JsonField::Text("pass".to_owned())),
        member("detail", JsonField::Text("Explicit limits and capabilities are valid.".to_owned())),
    ];
    proof {
        check_keys_differ(members@);
        assert(member_views(members@) =~= metadata_members());
    }
    match object_document(members) {
        Some(metadata) => {
            let checks = vec![metadata, generation.to_owned()];
            let members = vec![
                member("ready", JsonField::Flag(check.passed)),
                member("route", JsonField::Document(route.to_owned())),
                member("checks", JsonField::Documents(checks)),
            ];
            proof {
                model_keys_differ(members@);
                assert(views(checks@) =~= seq![metadata@, generation@]);
                assert(member_views(members@) =~= seq![
                    ("ready"@, FieldView::Flag(check.passed)),
                    ("route"@, FieldView::Document(route@)),
                    ("checks"@, FieldView::Documents(seq![metadata@, generation@])),
                ]);
                if is_json(route@) && is_json(generation@) {
                    assert forall|i: int| 0 <= i < members@.len() implies sound_member(
                        (#[trigger] members@[i]).value@,
                    ) by {
                        if i == 2 {
                            assert forall|k: int| 0 <= k < views(checks@).len() implies is_json(
                                #[trigger] views(checks@)[k],
                            ) by {
                                assert(views(checks@)[k] == seq![metadata@, generation@][k]);
                            }
                        }
                    }
                }
            }
            object_document(members)
        },
        None => None,
    }
}

/// A source of instructions, as it is reported.
pub open spec fn source_text(source: (Seq<char>, Seq<char>)) -> Seq<char> {
    json_object(seq![("source"@, FieldView::Text(source.0)), ("sha256"@, FieldView::Text(source.1))])->0
}

/// The members of the report on instructions: the order in which they are loaded, when they are read
/// anew, and the sources that are read by themselves.
pub open spec fn source_members(sources: Seq<(Seq<char>, Seq<char>)>) -> Seq<(Seq<char>, FieldView)> {
    seq![
        (
            "load_order"@,
            FieldView::Texts(
                seq![
                    "home AGENTS.md"@,
                    "workspace AGENTS.md"@,
                    "invocation instructions"@,
                    "runtime mode instructions"@,
                ],
            ),
        ),
        ("snapshot_refresh"@, FieldView::Text("top_level_run"@)),
        (
            "sources"@,
            FieldView::Documents(sources.map_values(|source: (Seq<char>, Seq<char>)| source_text(source))),
        ),
    ]
}

proof fn source_keys_differ(list: Seq<Entry<JsonField>>)
    requires
        list.len() == 2,
        list[0].key@ == "source"@,
        list[1].key@ == "sha256"@,
    ensures
        distinct_keys(list),
{
    reveal_strlit("source");
    reveal_strlit("sha256");
    assert("source"@.len() == 6 && "sha256"@.len() == 6);
    assert("source"@[1] != "sha256"@[1]);
}

proof fn order_keys_differ(list: Seq<Entry<JsonField>>)
    requires
        list.len() == 3,
        list[0].key@ == "load_order"@,
        list[1].key@ == "snapshot_refresh"@,
        list[2].key@ == "sources"@,
    ensures
        distinct_keys(list),
{
    reveal_strlit("load_order");
    reveal_strlit("snapshot_refresh");
    reveal_strlit("sources");
    assert("load_order"@.len() == 10 && "snapshot_refresh"@.len() == 16 && "sources"@.len() == 7);
}

fn source_documents(sources: &Vec<Provenance>) -> (list: Vec<String>)
    ensures
        views(list@) == shown(sources@).map_values(|source: (Seq<char>, Seq<char>)| source_text(source)),
        forall|i: int| 0 <= i < list@.len() ==> is_json((#[trigger] list@[i])@),
{
    let ghost text = |source: (Seq<char>, Seq<char>)| source_text(source);
    let mut list: Vec<String> = Vec::new();
    let mut i: usize = 0;
    proof {
        assert(views(list@) =~= shown(sources@.take(0)).map_values(text));
    }
    while i < sources.len()
        invariant
            i <= sources@.len(),
            text == (|source: (Seq<char>, Seq<char>)| source_text(source)),
            views(list@) == shown(sources@.take(i as int)).map_values(text),
            forall|k: int| 0 <= k < list@.len() ==> is_json((#[trigger] list@[k])@),
        decreases sources@.len() - i,
    {
        let members = vec![
            member("source", JsonField::Text(sources[i].label.clone())),
            member("sha256", JsonField::Text(sources[i].sha256.clone())),
        ];
        let ghost source = (sources@[i as int].label@, sources@[i as int].sha256@);
        let ghost before = list@;
        proof {
            source_keys_differ(members@);
            assert(member_views(members@) =~= seq![
                ("source"@, FieldView::Text(source.0)),
                ("sha256"@, FieldView::Text(source.1)),
            ]);
        }
        if let Some(document) = object_document(members) {
            list.push(document);
        }
        proof {
            assert(sources@.take(i + 1) =~= sources@.take(i as int).push(sources@[i as int]));
            assert(shown(sources@.take(i + 1)) =~= shown(sources@.take(i as int)).push(source));
            assert(views(list@) =~= views(before).push(source_text(source)));
            assert(views(list@) =~= shown(sources@.take(i + 1)).map_values(text));
        }
        i = i + 1;
    }
    proof {
        assert(sources@.take(i as int) =~= sources@);
    }
    list
}

/// The report on the instructions of a run: the sources that are read by themselves, by their labels
/// and digests alone.
pub fn source_report(snapshot: &InstructionSnapshot) -> (text: Option<String>)
    ensures
        text is Some,
        json_object(source_members(provenance_of(automatic_sources(snapshot@.sources)))) == Some(text->0@),
{
    let sources = snapshot.automatic_source_diagnostics();
    let documents = source_documents(&sources);
    let order = vec![
        "home AGENTS.md".to_owned(),
        "workspace AGENTS.md".to_owned(),
        "invocation instructions".to_owned(),
        "runtime mode instructions".to_owned(),
    ];
    let members = vec![
        member("load_order", JsonField::Texts(order)),
        member("snapshot_refresh", JsonField::Text("top_level_run".to_owned())),
        member("sources", JsonField::Documents(documents)),
    ];
    proof {
        order_keys_differ(members@);
        assert(views(order@) =~= seq![
            "home AGENTS.md"@,
            "workspace AGENTS.md"@,
            "invocation instructions"@,
            "runtime mode instructions"@,
        ]);
        assert(member_views(members@) =~= source_members(provenance_of(automatic_sources(snapshot@.sources))));
        assert forall|i: int| 0 <= i < members@.len() implies sound_member((#[trigger] members@[i]).value@) by {
            if i == 2 {
                assert forall|k: int| 0 <= k < views(documents@).len() implies is_json(#[trigger] views(documents@)[k]) by {
                    assert(is_json(documents@[k]@));
                }
            }
        }
    }
    object_document(members)
}

/// What a change of plugins on this machine came to. Trust, origin and manifest are documents.
#[derive(Debug)]
pub enum PluginOutcome {
    /// An installed plugin was verified.
    Installed { digest: String, trust: String, origin: String },
    /// A layout was verified.
    Layout { digest: String, trust: String, manifest: String },
    Disabled { name: String },
    Packaged { digest: String, output: String, manifest: String },
    Exported { name: String, digest: String, output: String },
}

/// The members of an outcome.
pub open spec fn outcome_members(outcome: PluginOutcome) -> Seq<(Seq<char>, FieldView)> {
    match outcome {
        PluginOutcome::Installed { digest, trust, origin } => seq![
            ("digest"@, FieldView::Text(digest@)),
            ("integrity"@, FieldView::Text("verified"@)),
            ("trust"@, FieldView::Document(trust@)),
            ("origin"@, FieldView::Document(origin@)),
        ],
        PluginOutcome::Layout { digest, trust, manifest } => seq![
            ("digest"@, FieldView::Text(digest@)),
            ("trust"@, FieldView::Document(trust@)),
            ("manifest"@, FieldView::Document(manifest@)),
        ],
        PluginOutcome::Disabled { name } => seq![
            ("plugin"@, FieldView::Text(name@)),
            ("active"@, FieldView::Flag(false)),
        ],
        PluginOutcome::Packaged { digest, output, manifest } => seq![
            ("digest"@, FieldView::Text(digest@)),
            ("output"@, FieldView::Text(output@)),
            ("manifest"@, FieldView::Document(manifest@)),
        ],
        PluginOutcome::Exported { name, digest, output } => seq![
            ("plugin"@, FieldView::Text(name@)),
            ("digest"@, FieldView::Text(digest@)),
            ("output"@, FieldView::Text(output@)),
        ],
    }
}

/// The documents of an outcome are JSON.
pub open spec fn sound_outcome(outcome: PluginOutcome) -> bool {
    match outcome {
        PluginOutcome::Installed { digest, trust, origin } => is_json(trust@) && is_json(origin@),
        PluginOutcome::Layout { digest, trust, manifest } => is_json(trust@) && is_json(manifest@),
        PluginOutcome::Packaged { digest, output, manifest } => is_json(manifest@),
        _ => true,
    }
}

proof fn installed_keys_differ(list: Seq<Entry<JsonField>>)
    requires
        list.len() == 4,
        list[0].key@ == "digest"@,
        list[1].key@ == "integrity"@,
        list[2].key@ == "trust"@,
        list[3].key@ == "origin"@,
    ensures
        distinct_keys(list),
{
    reveal_strlit("digest");
    reveal_strlit("integrity");
    reveal_strlit("trust");
    reveal_strlit("origin");
    assert("digest"@.len() == 6 && "integrity"@.len() == 9 && "trust"@.len() == 5 && "origin"@.len() == 6);
    assert("digest"@[0] != "origin"@[0]);
}

proof fn layout_keys_differ(list: Seq<Entry<JsonField>>)
    requires
        list.len() == 3,
        list[0].key@ == "digest"@,
        list[1].key@ == "trust"@,
        list[2].key@ == "manifest"@,
    ensures
        distinct_keys(list),
{
    reveal_strlit("digest");
    reveal_strlit("trust");
    reveal_strlit("manifest");
    assert("digest"@.len() == 6 && "trust"@.len() == 5 && "manifest"@.len() == 8);
}

proof fn disabled_keys_differ(list: Seq<Entry<JsonField>>)
    requires
        list.len() == 2,
        list[0].key@ == "plugin"@,
        list[1].key@ == "active"@,
    ensures
        distinct_keys(list),
{
    reveal_strlit("plugin");
    reveal_strlit("active");
    assert("plugin"@.len() == 6 && "active"@.len() == 6);
    assert("plugin"@[0] != "active"@[0]);
}

proof fn packaged_keys_differ(list: Seq<Entry<JsonField>>)
    requires
        list.len() == 3,
        list[0].key@ == "digest"@,
        list[1].key@ == "output"@,
        list[2].key@ == "manifest"@,
    ensures
        distinct_keys(list),
{
    reveal_strlit("digest");
    reveal_strlit("output");
    reveal_strlit("manifest");
    assert("digest"@.len() == 6 && "output"@.len() == 6 && "manifest"@.len() == 8);
    assert("digest"@[0] != "output"@[0]);
}

proof fn exported_keys_differ(list: Seq<Entry<JsonField>>)
    requires
        list.len() == 3,
        list[0].key@ == "plugin"@,
        list[1].key@ == "digest"@,
        list[2].key@ == "output"@,
    ensures
        distinct_keys(list),
{
    reveal_strlit("plugin");
    reveal_strlit("digest");
    reveal_strlit("output");
    assert("plugin"@.len() == 6 && "digest"@.len() == 6 && "output"@.len() == 6);
    assert("plugin"@[0] != "digest"@[0]);
    assert("plugin"@[0] != "output"@[0]);
    assert("digest"@[0] != "output"@[0]);
}

/// What a change of plugins came to, as a document. Absent where a document that it is made of is no
/// JSON.
pub fn plugin_report(outcome: &PluginOutcome) -> (text: Option<String>)
    ensures
        optional_view(text) == json_object(outcome_members(*outcome)),
        sound_outcome(*outcome) ==> text is Some,
{
    let members = match outcome {
        PluginOutcome::Installed { digest, trust, origin } => {
            let list = vec![
                member("digest", JsonField::Text(digest.clone())),
                member("integrity", JsonField::Text("verified".to_owned())),
                member("trust", JsonField::Document(trust.clone())),
                member("origin", JsonField::Document(origin.clone())),
            ];
            proof {
                installed_keys_differ(list@);
            }
            list
        },
        PluginOutcome::Layout { digest, trust, manifest } => {
            let list = vec![
                member("digest", JsonField::Text(digest.clone())),
                member("trust", JsonField::Document(trust.clone())),
                member("manifest", JsonField::Document(manifest.clone())),
            ];
            proof {
                layout_keys_differ(list@);
            }
            list
        },
        PluginOutcome::Disabled { name } => {
            let list = vec![member("plugin", JsonField::Text(name.clone())), member("active", JsonField::Flag(false))];
            proof {
                disabled_keys_differ(list@);
            }
            list
        },
        PluginOutcome::Packaged { digest, output, manifest } => {
            let list = vec![
                member("digest", JsonField::Text(digest.clone())),
                member("output", JsonField::Text(output.clone())),
                member("manifest", JsonField::Document(manifest.clone())),
            ];
            proof {
                packaged_keys_differ(list@);
            }
            list
        },
        PluginOutcome::Exported { name, digest, output } => {
            let list = vec![
                member("plugin", JsonField::Text(name.clone())),
                member("digest", JsonField::Text(digest.clone())),
                member("output", JsonField::Text(output.clone())),
            ];
            proof {
                exported_keys_differ(list@);
            }
            list
        },
    };
    proof {
        assert(member_views(members@) =~= outcome_members(*outcome));
    }
    object_document(members)
}

/// The report on state shows what was found: whether it is in recovery and why, the journal's head, the
/// record's hash and the storage.
pub proof fn state_reports_show_what_was_found(
    found: StateFindings,
    lease: Seq<char>,
    projections: Seq<char>,
    repositories: Seq<char>,
)
    ensures
        ({
            let members = state_members(found, lease, projections, repositories);
            &&& members.len() == 8
            &&& members[0] == ("recovery_mode"@, FieldView::Flag(found.recovery_mode))
            &&& members[1] == ("recovery_reason"@, FieldView::Optional(optional_view(found.recovery_reason)))
            &&& members[2] == ("journal_head"@, FieldView::Document(found.journal_head@))
            &&& members[3] == ("record_hash"@, FieldView::Document(found.record_hash@))
            &&& members[4] == ("storage"@, FieldView::Document(found.storage@))
            &&& members[5] == ("writer_lease"@, FieldView::Document(lease))
            &&& members[6] == ("projection_store"@, FieldView::Document(projections))
            &&& members[7] == ("repository_adapters"@, FieldView::Document(repositories))
        }),
        projection_members(found)[1] == ("positions"@, FieldView::Documents(views(found.positions@))),
{
}

/// A lease is shown as held exactly where there is one, with its path.
pub proof fn held_leases_are_shown(path: Seq<char>)
    ensures
        lease_members(Some(path)).contains(("held"@, FieldView::Flag(true))),
        lease_members(Some(path)).contains(("path"@, FieldView::Text(path))),
        lease_members(None).contains(("held"@, FieldView::Flag(false))),
{
    assert(lease_members(Some(path))[0] == ("held"@, FieldView::Flag(true)));
    assert(lease_members(Some(path))[1] == ("path"@, FieldView::Text(path)));
    assert(lease_members(None)[0] == ("held"@, FieldView::Flag(false)));
}

/// The last access of a name counts, and a name without one has none.
pub proof fn the_last_access_counts(list: Seq<ToolAccess>, access: ToolAccess, name: Seq<char>)
    ensures
        access_of(list.push(access), access.name@) == Some(access),
        name != access.name@ ==> access_of(list.push(access), name) == access_of(list, name),
        access_of(Seq::empty(), name) is None,
{
    assert(list.push(access).drop_last() == list);
}

/// The catalog shows each tool as it is specified and decided: its name, description, schema, action,
/// capability and bound, and the decision with its reason.
pub proof fn catalogs_show_tools_as_decided(spec: ToolSpec, access: ToolAccess, settings: CatalogSettings)
    ensures
        ({
            let members = catalog_members(spec, access, settings);
            &&& members.len() == 15
            &&& members[0] == ("name"@, FieldView::Text(spec.name@))
            &&& members[1] == ("description"@, FieldView::Text(spec.description@))
            &&& members[2] == ("input_schema"@, FieldView::Document(spec.input_schema@))
            &&& members[3] == ("effect_action"@, FieldView::Optional(optional_view(spec.effect_action)))
            &&& members[4] == ("capability"@, FieldView::Optional(optional_view(spec.capability)))
            &&& members[5] == ("max_output_bytes"@, FieldView::Natural(spec.max_output_bytes))
            &&& members[6] == ("profile"@, FieldView::Document(settings.profile@))
            &&& members[7] == ("family"@, FieldView::Document(access.family@))
            &&& members[8] == ("source"@, FieldView::Document(access.source@))
            &&& members[9] == ("action_class"@, FieldView::Document(access.action_class@))
            &&& members[10] == ("decision"@, FieldView::Document(access.decision@))
            &&& members[11] == ("selection_reason"@, FieldView::Document(access.reason@))
            &&& members[12] == ("canonical_workspace"@, FieldView::Text(settings.workspace@))
            &&& members[13] == ("sandbox_profile"@, FieldView::Text(settings.sandbox_profile@))
        }),
{
}

/// The report on access shows the sandbox's profile, its protected paths and its destinations, and
/// speaks of public access exactly where the wildcard is among them.
pub proof fn access_reports_show_the_sandbox(
    sandbox: AccessSandbox,
    filesystem: Seq<char>,
    executables: Seq<char>,
)
    ensures
        ({
            let members = sandbox_members(sandbox, filesystem, executables);
            &&& members.contains(("profile"@, FieldView::Text(sandbox.profile@)))
            &&& members.contains(("resolved_shell"@, FieldView::Optional(optional_view(sandbox.resolved_shell))))
            &&& members.contains(("protected_paths"@, FieldView::Texts(views(sandbox.protected_paths@))))
            &&& members.contains(("sanitized_command_roots"@, FieldView::Texts(views(sandbox.command_roots@))))
            &&& members.contains(("filesystem"@, FieldView::Document(filesystem)))
            &&& members.contains(("executables"@, FieldView::Document(executables)))
            &&& members.contains(("network_destinations"@, FieldView::Texts(views(sandbox.network_destinations@))))
            &&& members.last().0 == "public_wildcard"@
            &&& members.last().1 is Optional
            &&& members.last().1->Optional_0 is Some <==> views(sandbox.network_destinations@).contains("*"@)
        }),
{
    let members = sandbox_members(sandbox, filesystem, executables);
    assert(members[0] == ("profile"@, FieldView::Text(sandbox.profile@)));
    assert(members[2] == ("resolved_shell"@, FieldView::Optional(optional_view(sandbox.resolved_shell))));
    assert(members[3] == ("protected_paths"@, FieldView::Texts(views(sandbox.protected_paths@))));
    assert(members[4] == ("sanitized_command_roots"@, FieldView::Texts(views(sandbox.command_roots@))));
    assert(members[5] == ("filesystem"@, FieldView::Document(filesystem)));
    assert(members[6] == ("executables"@, FieldView::Document(executables)));
    assert(members[7] == ("network_destinations"@, FieldView::Texts(views(sandbox.network_destinations@))));
}

/// The report on a plugin shows what was done to which: the digest of what was installed, packaged or
/// exported, and that a disabled plugin is not active.
pub proof fn plugin_reports_name_their_plugin(outcome: PluginOutcome)
    ensures
        outcome matches PluginOutcome::Installed { digest, trust, origin } ==> outcome_members(outcome)[0] == (
            "digest"@,
            FieldView::Text(digest@),
        ) && outcome_members(outcome)[2] == ("trust"@, FieldView::Document(trust@)) && outcome_members(outcome)[3]
            == ("origin"@, FieldView::Document(origin@)),
        outcome matches PluginOutcome::Layout { digest, trust, manifest } ==> outcome_members(outcome)[0] == (
            "digest"@,
            FieldView::Text(digest@),
        ) && outcome_members(outcome)[1] == ("trust"@, FieldView::Document(trust@)) && outcome_members(outcome)[2]
            == ("manifest"@, FieldView::Document(manifest@)),
        outcome matches PluginOutcome::Disabled { name } ==> outcome_members(outcome) == seq![
            ("plugin"@, FieldView::Text(name@)),
            ("active"@, FieldView::Flag(false)),
        ],
        outcome matches PluginOutcome::Packaged { digest, output, manifest } ==> outcome_members(outcome) == seq![
            ("digest"@, FieldView::Text(digest@)),
            ("output"@, FieldView::Text(output@)),
            ("manifest"@, FieldView::Document(manifest@)),
        ],
        outcome matches PluginOutcome::Exported { name, digest, output } ==> outcome_members(outcome) == seq![
            ("plugin"@, FieldView::Text(name@)),
            ("digest"@, FieldView::Text(digest@)),
            ("output"@, FieldView::Text(output@)),
        ],
{
}

/// The report on the state holds the lease, the projections and the repositories as documents of their
/// own beside what was found; it is written where each of them is.
pub proof fn state_reports_hold_their_parts(found: StateFindings)
    ensures
        ({
            let lease = json_object(lease_members(optional_view(found.writer_lease)));
            let projections = json_object(projection_members(found));
            let repositories = json_object(repository_members());
            &&& lease is Some && projections is Some && repositories is Some ==> state_text(found) == json_object(
                state_members(found, lease->0, projections->0, repositories->0),
            )
            &&& lease is None || projections is None || repositories is None ==> state_text(found) is None
        }),
{
}

/// Every repository is reported with the adapter that keeps it.
pub proof fn repositories_name_their_adapters()
    ensures
        repository_members().map_values(|member: (Seq<char>, FieldView)| member.0) == seq![
            "sessions"@,
            "work"@,
            "work_projection"@,
            "memory"@,
            "memory_projection"@,
            "memory_index"@,
            "research"@,
            "telemetry"@,
            "workflows"@,
        ],
        repository_members()[0].1 == FieldView::Text("event-journal:sessions-v1+messages-v1"@),
        repository_members()[1].1 == FieldView::Text("event-journal:tasks-v1+decisions-v1"@),
        repository_members()[2].1 == FieldView::Text("redb-projection:work-v1"@),
        repository_members()[3].1 == FieldView::Text("event-journal:memory-v1"@),
        repository_members()[4].1 == FieldView::Text("redb-projection:memory-v1"@),
        repository_members()[5].1 == FieldView::Text("tantivy-or-degraded"@),
        repository_members()[6].1 == FieldView::Text("event-journal:research-runs-v1+sources-v1+claims-v1"@),
        repository_members()[7].1 == FieldView::Text("derived:journal-envelopes+typed-safe-counters"@),
        repository_members()[8].1 == FieldView::Text("event-journal+redb-projection:workflows-v1"@),
{
}

/// A tool is catalogued with the access that was decided for its own name.
pub proof fn catalogs_use_the_access_of_the_tool(spec: ToolSpec, list: Seq<ToolAccess>, settings: CatalogSettings, access: ToolAccess)
    ensures
        access.name@ == spec.name@ ==> catalog_text(spec, list.push(access), settings) == json_object(
            catalog_members(spec, access, settings),
        ),
        access.name@ != spec.name@ ==> catalog_text(spec, list.push(access), settings) == catalog_text(
            spec,
            list,
            settings,
        ),
{
    assert(list.push(access).drop_last() =~= list);
}

/// The report on access adds the workspace and the sandbox to the access that was decided: explicit grants
/// and derived ones stand apart.
pub proof fn access_reports_add_the_sandbox(
    access: Seq<char>,
    workspace: Seq<char>,
    sandbox: AccessSandbox,
    filesystem: Seq<char>,
    executables: Seq<char>,
    shown: Seq<char>,
    added: Seq<char>,
)
    requires
        json_object(
            seq![
                ("explicit"@, FieldView::Documents(views(sandbox.explicit_filesystem@))),
                ("derived"@, FieldView::Documents(views(sandbox.derived_filesystem@))),
            ],
        ) == Some(filesystem),
        json_object(
            seq![
                ("explicit"@, FieldView::Texts(views(sandbox.explicit_executables@))),
                ("derived"@, FieldView::Texts(views(sandbox.derived_executables@))),
            ],
        ) == Some(executables),
        json_object(sandbox_members(sandbox, filesystem, executables)) == Some(shown),
        json_object(
            seq![("canonical_workspace"@, FieldView::Text(workspace)), ("sandbox"@, FieldView::Document(shown))],
        ) == Some(added),
    ensures
        access_text(access, workspace, sandbox) == json_merged(access, added),
{
}

/// A model is ready where its check passed; its report shows the route, that its metadata is valid, and the
/// check itself.
pub proof fn model_reports_show_their_checks(passed: bool, route: Seq<char>, generation: Seq<char>, metadata: Seq<char>)
    requires
        json_object(
            seq![
                ("name"@, FieldView::Text("metadata"@)),
                ("status"@, FieldView::Text("pass"@)),
                ("detail"@, FieldView::Text("Explicit limits and capabilities are valid."@)),
            ],
        ) == Some(metadata),
    ensures
        model_text(passed, route, generation) == json_object(
            seq![
                ("ready"@, FieldView::Flag(passed)),
                ("route"@, FieldView::Document(route)),
                ("checks"@, FieldView::Documents(seq![metadata, generation])),
            ],
        ),
{
}

/// The report on instructions lists every source, in its order, with its digest.
pub proof fn sources_are_reported_in_order(sources: Seq<(Seq<char>, Seq<char>)>, at: int)
    requires
        0 <= at < sources.len(),
    ensures
        source_members(sources).map_values(|member: (Seq<char>, FieldView)| member.0) == seq![
            "load_order"@,
            "snapshot_refresh"@,
            "sources"@,
        ],
        source_members(sources)[0].1 == FieldView::Texts(
            seq![
                "home AGENTS.md"@,
                "workspace AGENTS.md"@,
                "invocation instructions"@,
                "runtime mode instructions"@,
            ],
        ),
        source_members(sources)[1].1 == FieldView::Text("top_level_run"@),
        source_members(sources)[2].1 matches FieldView::Documents(list) && list.len() == sources.len() && list[at]
            == json_object(
            seq![("source"@, FieldView::Text(sources[at].0)), ("sha256"@, FieldView::Text(sources[at].1))],
        )->0,
{
}

} // verus!
