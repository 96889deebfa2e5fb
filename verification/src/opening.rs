//! Opening a runtime: the order of its steps, what ends it, and the packs that take part.

use crate::composition::{
    phase_runs, require_reverified, root_views, runs_phase, PackEvidence, SkillRoot, SkillRootView, StartupPhase,
};
use crate::config::{AuditExporterConfig, Platform};
use crate::error::{is_config_error, RuntimeError};
use crate::paths::{join_path, joined_path};
use crate::text::{
    clone_optional, concat2, concat3, contains_text, optional_view, parts_are_contained, same_text, views,
};
use vstd::prelude::*;
use vstd::string::*;

verus! {

/// A step of opening a runtime, in the order of the steps.
#[derive(Clone, Copy, Debug, PartialEq, Eq, Structural)]
pub enum OpeningStep {
    /// Check the storage section of the configuration.
    ValidateStorage,
    /// Check that the home directory and its retained root agree.
    CheckHome,
    /// Find the canonical workspace.
    ResolveWorkspace,
    /// Load the additional certificates.
    LoadCertificates,
    /// Take the workspace for this process.
    AcquireWorkspace,
    /// Check that the workspace is the one that was taken.
    CheckWorkspace,
    /// Derive the grants of the development profile.
    DeriveDevelopment,
    /// Find the state file.
    LocateState,
    /// Open the state.
    OpenStorage,
    /// Read the tools of the connected integrations.
    ReadIntegrations,
    /// Verify the enabled packs again.
    VerifyPacks,
    /// Compile the extensions of the enabled packs.
    CompilePacks,
    /// Open the directories with skills.
    OpenSkills,
    /// Settle interrupted subagents and catch up the projections.
    CatchUpProjections,
    /// Settle effects with an unknown outcome.
    RecoverEffects,
    /// Compose the providers.
    ComposeProviders,
    /// Compose the search services.
    ComposeSearch,
    /// Resolve access and compose the policy.
    ComposePolicy,
    /// Draw the keys for permits and for jobs of the sandbox.
    DrawKeys,
    /// Find the helper and the container runtime of the sandbox.
    ResolveSandbox,
    /// Check the servers of the configuration and of the packs together.
    ValidateServers,
    /// Open the credential store of the servers.
    OpenCredentials,
    /// Compose the memory indexes.
    ComposeMemory,
    /// Compose the audit export.
    ComposeAudit,
    /// Register the active tools.
    RegisterTools,
    /// Settle interrupted research.
    RecoverResearch,
    /// Compose the context of conversations.
    ComposeContext,
    /// Find the executables of the tools.
    ResolveExecutables,
    /// Settle interrupted workflows.
    RecoverWorkflows,
    /// Check once more that the workspace is the one that was taken.
    ConfirmWorkspace,
}

/// The place of a step in the order.
pub open spec fn place(step: OpeningStep) -> int {
    match step {
        OpeningStep::ValidateStorage => 0,
        OpeningStep::CheckHome => 1,
        OpeningStep::ResolveWorkspace => 2,
        OpeningStep::LoadCertificates => 3,
        OpeningStep::AcquireWorkspace => 4,
        OpeningStep::CheckWorkspace => 5,
        OpeningStep::DeriveDevelopment => 6,
        OpeningStep::LocateState => 7,
        OpeningStep::OpenStorage => 8,
        OpeningStep::ReadIntegrations => 9,
        OpeningStep::VerifyPacks => 10,
        OpeningStep::CompilePacks => 11,
        OpeningStep::OpenSkills => 12,
        OpeningStep::CatchUpProjections => 13,
        OpeningStep::RecoverEffects => 14,
        OpeningStep::ComposeProviders => 15,
        OpeningStep::ComposeSearch => 16,
        OpeningStep::ComposePolicy => 17,
        OpeningStep::DrawKeys => 18,
        OpeningStep::ResolveSandbox => 19,
        OpeningStep::ValidateServers => 20,
        OpeningStep::OpenCredentials => 21,
        OpeningStep::ComposeMemory => 22,
        OpeningStep::ComposeAudit => 23,
        OpeningStep::RegisterTools => 24,
        OpeningStep::RecoverResearch => 25,
        OpeningStep::ComposeContext => 26,
        OpeningStep::ResolveExecutables => 27,
        OpeningStep::RecoverWorkflows => 28,
        OpeningStep::ConfirmWorkspace => 29,
    }
}

/// The observed phase that a step is, if it is one.
pub open spec fn phase_of(step: OpeningStep) -> Option<StartupPhase> {
    match step {
        OpeningStep::AcquireWorkspace => Some(StartupPhase::WorkspaceAcquire),
        OpeningStep::OpenStorage => Some(StartupPhase::StorageOpen),
        OpeningStep::CatchUpProjections => Some(StartupPhase::ProjectionCatchUp),
        OpeningStep::RecoverEffects => Some(StartupPhase::EffectRecovery),
        OpeningStep::RecoverResearch => Some(StartupPhase::ResearchRecovery),
        OpeningStep::RecoverWorkflows => Some(StartupPhase::WorkflowRecovery),
        _ => None,
    }
}

/// Whether a step is performed: recovery mode leaves out the phases that write.
pub open spec fn performed(step: OpeningStep, recovery_mode: bool) -> bool {
    match phase_of(step) {
        Some(phase) => phase_runs(phase, recovery_mode),
        None => true,
    }
}

/// `next` is the first step after `step` that is performed.
pub open spec fn follows(step: OpeningStep, next: OpeningStep, recovery_mode: bool) -> bool {
    &&& place(step) < place(next)
    &&& performed(next, recovery_mode)
    &&& forall|other: OpeningStep| place(step) < #[trigger] place(other) < place(next) ==> !performed(
        other,
        recovery_mode,
    )
}

/// The observed phase that a step is, if it is one.
pub fn observed_phase(step: OpeningStep) -> (phase: Option<StartupPhase>)
    ensures
        phase == phase_of(step),
{
    match step {
        OpeningStep::AcquireWorkspace => Some(StartupPhase::WorkspaceAcquire),
        OpeningStep::OpenStorage => Some(StartupPhase::StorageOpen),
        OpeningStep::CatchUpProjections => Some(StartupPhase::ProjectionCatchUp),
        OpeningStep::RecoverEffects => Some(StartupPhase::EffectRecovery),
        OpeningStep::RecoverResearch => Some(StartupPhase::ResearchRecovery),
        OpeningStep::RecoverWorkflows => Some(StartupPhase::WorkflowRecovery),
        _ => None,
    }
}

fn is_performed(step: OpeningStep, recovery_mode: bool) -> (yes: bool)
    ensures
        yes == performed(step, recovery_mode),
{
    match observed_phase(step) {
        Some(phase) => runs_phase(phase, recovery_mode),
        None => true,
    }
}

fn step_after(step: OpeningStep) -> (next: Option<OpeningStep>)
    ensures
        match next {
            Some(other) => place(other) == place(step) + 1,
            None => step == OpeningStep::ConfirmWorkspace,
        },
{
    match step {
        OpeningStep::ValidateStorage => Some(OpeningStep::CheckHome),
        OpeningStep::CheckHome => Some(OpeningStep::ResolveWorkspace),
        OpeningStep::ResolveWorkspace => Some(OpeningStep::LoadCertificates),
        OpeningStep::LoadCertificates => Some(OpeningStep::AcquireWorkspace),
        OpeningStep::AcquireWorkspace => Some(OpeningStep::CheckWorkspace),
        OpeningStep::CheckWorkspace => Some(OpeningStep::DeriveDevelopment),
        OpeningStep::DeriveDevelopment => Some(OpeningStep::LocateState),
        OpeningStep::LocateState => Some(OpeningStep::OpenStorage),
        OpeningStep::OpenStorage => Some(OpeningStep::ReadIntegrations),
        OpeningStep::ReadIntegrations => Some(OpeningStep::VerifyPacks),
        OpeningStep::VerifyPacks => Some(OpeningStep::CompilePacks),
        OpeningStep::CompilePacks => Some(OpeningStep::OpenSkills),
        OpeningStep::OpenSkills => Some(OpeningStep::CatchUpProjections),
        OpeningStep::CatchUpProjections => Some(OpeningStep::RecoverEffects),
        OpeningStep::RecoverEffects => Some(OpeningStep::ComposeProviders),
        OpeningStep::ComposeProviders => Some(OpeningStep::ComposeSearch),
        OpeningStep::ComposeSearch => Some(OpeningStep::ComposePolicy),
        OpeningStep::ComposePolicy => Some(OpeningStep::DrawKeys),
        OpeningStep::DrawKeys => Some(OpeningStep::ResolveSandbox),
        OpeningStep::ResolveSandbox => Some(OpeningStep::ValidateServers),
        OpeningStep::ValidateServers => Some(OpeningStep::OpenCredentials),
        OpeningStep::OpenCredentials => Some(OpeningStep::ComposeMemory),
        OpeningStep::ComposeMemory => Some(OpeningStep::ComposeAudit),
        OpeningStep::ComposeAudit => Some(OpeningStep::RegisterTools),
        OpeningStep::RegisterTools => Some(OpeningStep::RecoverResearch),
        OpeningStep::RecoverResearch => Some(OpeningStep::ComposeContext),
        OpeningStep::ComposeContext => Some(OpeningStep::ResolveExecutables),
        OpeningStep::ResolveExecutables => Some(OpeningStep::RecoverWorkflows),
        OpeningStep::RecoverWorkflows => Some(OpeningStep::ConfirmWorkspace),
        OpeningStep::ConfirmWorkspace => None,
    }
}

/// What the host does next.
#[derive(Debug)]
pub enum OpeningAction {
    Perform(OpeningStep),
    Opened,
    Failed(RuntimeError),
}

/// The first thing that is done: no step comes before it.
pub fn begin_opening() -> (action: OpeningAction)
    ensures
        action == OpeningAction::Perform(OpeningStep::ValidateStorage),
        forall|step: OpeningStep| place(OpeningStep::ValidateStorage) <= #[trigger] place(step),
{
    OpeningAction::Perform(OpeningStep::ValidateStorage)
}

/// What is done after a step: a failure ends the opening, else the next step is performed, or the
/// runtime is open. `recovery_mode` is what the state reported once it was open.
pub fn continue_opening(step: OpeningStep, outcome: Result<(), RuntimeError>, recovery_mode: bool) -> (action:
    OpeningAction)
    ensures
        match outcome {
            Err(error) => action == OpeningAction::Failed(error),
            Ok(()) => if step == OpeningStep::ConfirmWorkspace {
                action == OpeningAction::Opened
            } else {
                action matches OpeningAction::Perform(next) && follows(step, next, recovery_mode)
            },
        },
{
    match outcome {
        Err(error) => OpeningAction::Failed(error),
        Ok(()) => {
            let mut current = step;
            loop
                invariant
                    outcome is Ok,
                    place(step) <= place(current),
                    step != OpeningStep::ConfirmWorkspace ==> current != OpeningStep::ConfirmWorkspace,
                    step == OpeningStep::ConfirmWorkspace ==> current == step,
                    forall|other: OpeningStep|
                        place(step) < #[trigger] place(other) <= place(current) ==> !performed(other, recovery_mode),
                decreases 29 - place(current),
            {
                match step_after(current) {
                    None => {
                        return OpeningAction::Opened;
                    },
                    Some(next) => {
                        if is_performed(next, recovery_mode) {
                            return OpeningAction::Perform(next);
                        }
                        current = next;
                    },
                }
            }
        },
    }
}

/// No step that is performed is passed over, and none comes twice: what follows a step comes later in
/// the order, and no later than any other performed step behind it.
pub proof fn no_step_is_passed_over(
    step: OpeningStep,
    next: OpeningStep,
    later: OpeningStep,
    recovery_mode: bool,
)
    requires
        follows(step, next, recovery_mode),
        performed(later, recovery_mode),
        place(step) < place(later),
    ensures
        place(step) < place(next) <= place(later),
        place(next) == place(later) ==> next == later,
{
}

/// In recovery mode nothing is settled or caught up: what is performed neither writes to the journal
/// nor to a projection.
pub proof fn recovery_mode_settles_nothing(step: OpeningStep, next: OpeningStep)
    requires
        follows(step, next, true),
    ensures
        next != OpeningStep::CatchUpProjections,
        next != OpeningStep::RecoverEffects,
        next != OpeningStep::RecoverResearch,
        next != OpeningStep::RecoverWorkflows,
{
}

/// The failure that a step ends with, from the words of the host.
pub fn step_failure(step: OpeningStep, reason: &str) -> (error: RuntimeError)
    ensures
        match step {
            OpeningStep::CheckHome => is_config_error(
                Err::<(), RuntimeError>(error),
                "the explicit Colossus home is unsafe: "@ + reason@,
            ),
            OpeningStep::LoadCertificates => is_config_error(
                Err::<(), RuntimeError>(error),
                "network.caBundlePath is invalid: "@ + reason@,
            ),
            OpeningStep::DrawKeys => is_config_error(
                Err::<(), RuntimeError>(error),
                "operating-system randomness is unavailable"@,
            ),
            _ => error matches RuntimeError::Io(text) && text@ == reason@,
        },
{
    match step {
        OpeningStep::CheckHome => RuntimeError::Config(concat2("the explicit Colossus home is unsafe: ", reason)),
        OpeningStep::LoadCertificates => RuntimeError::Config(concat2("network.caBundlePath is invalid: ", reason)),
        OpeningStep::DrawKeys => RuntimeError::Config("operating-system randomness is unavailable".to_owned()),
        _ => RuntimeError::Io(reason.to_owned()),
    }
}

/// An installed pack, with what its content verifies to now.
#[derive(Debug)]
pub struct ListedPack {
    pub name: String,
    pub version: String,
    pub installed_path: String,
    pub enabled: bool,
    pub installed: PackEvidence,
    pub verified: Result<PackEvidence, RuntimeError>,
    /// The directories of its skills, below its own.
    pub skills: Vec<String>,
}

/// What the enabled packs bring along.
#[derive(Debug)]
pub struct ActivePacks {
    /// The places of the enabled packs in the list.
    pub packs: Vec<usize>,
    pub skill_roots: Vec<SkillRoot>,
}

/// Two pieces of evidence are the same.
pub open spec fn same_evidence(left: PackEvidence, right: PackEvidence) -> bool {
    left.manifest_sha256@ == right.manifest_sha256@ && optional_view(left.trust_key_id) == optional_view(
        right.trust_key_id,
    )
}

/// An enabled pack no longer verifies to what was installed.
pub open spec fn is_refused(pack: ListedPack) -> bool {
    pack.enabled && !(pack.verified matches Ok(evidence) && same_evidence(pack.installed, evidence))
}

/// The label of the skills of a pack.
pub open spec fn pack_label(pack: ListedPack) -> Seq<char> {
    "pack:"@ + pack.name@ + "@"@ + pack.version@
}

/// The first `count` directories with skills of a pack.
pub open spec fn skill_directories(platform: Platform, pack: ListedPack, count: int) -> Seq<SkillRootView> {
    Seq::new(
        count as nat,
        |i: int| SkillRootView { path: joined_path(
            platform,
            pack.installed_path@,
            pack.skills@[i]@,
        ), label: pack_label(pack) },
    )
}

/// The directories with skills of the enabled packs, in the order of the list.
pub open spec fn pack_roots(platform: Platform, list: Seq<ListedPack>) -> Seq<SkillRootView>
    decreases list.len(),
{
    if list.len() == 0 {
        Seq::empty()
    } else if list.last().enabled {
        pack_roots(
            platform,
            list.drop_last(),
        ) + skill_directories(platform, list.last(), list.last().skills@.len() as int)
    } else {
        pack_roots(platform, list.drop_last())
    }
}

/// The places of the enabled packs in the list.
pub open spec fn enabled_places(list: Seq<ListedPack>) -> Seq<usize>
    decreases list.len(),
{
    if list.len() == 0 {
        Seq::empty()
    } else if list.last().enabled {
        enabled_places(list.drop_last()).push((list.len() - 1) as usize)
    } else {
        enabled_places(list.drop_last())
    }
}

fn add_pack_roots(platform: Platform, roots: &mut Vec<SkillRoot>, pack: &ListedPack)
    ensures
        root_views(final(roots)@) == root_views(old(roots)@) + skill_directories(
            platform,
            *pack,
            pack.skills@.len() as int,
        ),
{
    let ghost before = root_views(roots@);
    let mut i: usize = 0;
    proof {
        assert(before + skill_directories(platform, *pack, 0) =~= before);
    }
    while i < pack.skills.len()
        invariant
            i <= pack.skills@.len(),
            root_views(roots@) == before + skill_directories(platform, *pack, i as int),
        decreases pack.skills@.len() - i,
    {
        let mut label = concat3("pack:", pack.name.as_str(), "@");
        label.append(pack.version.as_str());
        let root = SkillRoot { path: join_path(
            platform,
            pack.installed_path.as_str(),
            pack.skills[i].as_str(),
        ), label };
        let ghost so_far = roots@;
        roots.push(root);
        i = i + 1;
        proof {
            assert(root_views(roots@) =~= root_views(so_far).push(root@));
            assert(before + skill_directories(
                platform,
                *pack,
                i as int,
            ) =~= (before + skill_directories(platform, *pack, i - 1)).push(
                root@,
            ));
        }
    }
}

/// Verifies the enabled packs of a list again, and collects what they bring along; the first one
/// that is refused ends it.
pub fn activate_packs(platform: Platform, list: &Vec<ListedPack>) -> (result: Result<ActivePacks, RuntimeError>)
    ensures
        match result {
            Ok(active) => (forall|i: int| 0 <= i < list@.len() ==> !is_refused(#[trigger] list@[i])) && active.packs@
                == enabled_places(list@) && root_views(active.skill_roots@) == pack_roots(platform, list@),
            Err(error) => exists|i: int|
                0 <= i < list@.len() && is_refused(#[trigger] list@[i]) && (forall|j: int|
                    0 <= j < i ==> !is_refused(#[trigger] list@[j])) && (match list@[i].verified {
                    Err(reason) => error == reason,
                    Ok(_) => is_config_error(
                        Err::<(), RuntimeError>(error),
                        "enabled pack "@ + list@[i].name@ + " failed canonical re-verification"@,
                    ),
                }),
        },
{
    let mut packs: Vec<usize> = Vec::new();
    let mut skill_roots: Vec<SkillRoot> = Vec::new();
    let mut i: usize = 0;
    proof {
        assert(root_views(skill_roots@) =~= Seq::<SkillRootView>::empty());
        assert(list@.take(0) =~= Seq::<ListedPack>::empty());
    }
    while i < list.len()
        invariant
            i <= list@.len(),
            forall|j: int| 0 <= j < i ==> !is_refused(#[trigger] list@[j]),
            packs@ == enabled_places(list@.take(i as int)),
            root_views(skill_roots@) == pack_roots(platform, list@.take(i as int)),
        decreases list@.len() - i,
    {
        let pack = &list[i];
        proof {
            assert(list@.take(i + 1).drop_last() =~= list@.take(i as int));
            assert(list@.take(i + 1).last() == list@[i as int]);
        }
        if pack.enabled {
            match &pack.verified {
                Err(error) => {
                    proof {
                        assert(is_refused(list@[i as int]));
                    }
                    return Err(error.clone());
                },
                Ok(verified) => {
                    match require_reverified(pack.name.as_str(), &pack.installed, verified) {
                        Err(error) => {
                            proof {
                                assert(is_refused(list@[i as int]));
                            }
                            return Err(error);
                        },
                        Ok(()) => {},
                    }
                },
            }
            add_pack_roots(platform, &mut skill_roots, pack);
            packs.push(i);
        }
        i = i + 1;
    }
    proof {
        assert(list@.take(list@.len() as int) =~= list@);
    }
    Ok(ActivePacks { packs, skill_roots })
}

/// A pack that is not enabled brings nothing along, whatever it verifies to: without it the enabled
/// packs bring the same.
pub proof fn disabled_packs_bring_nothing(platform: Platform, list: Seq<ListedPack>, pack: ListedPack)
    requires
        !pack.enabled,
    ensures
        pack_roots(platform, list.push(pack)) == pack_roots(platform, list),
        enabled_places(list.push(pack)) == enabled_places(list),
        !is_refused(pack),
{
    assert(list.push(pack).drop_last() =~= list);
}

/// The capabilities that the gateway knows: the resolved actions, then the one for inputs of runs.
pub fn known_capabilities(actions: &Vec<String>, run_input_action: &str) -> (list: Vec<String>)
    ensures
        views(list@) == views(actions@).push(run_input_action@),
{
    let mut list = crate::text::clone_texts(actions);
    let ghost before = list@;
    list.push(run_input_action.to_owned());
    proof {
        assert(views(list@) =~= views(before).push(run_input_action@));
    }
    list
}

/// Where audit records are exported to.
#[derive(Debug)]
pub enum AuditExport {
    Nowhere,
    Directory(String),
    Service { endpoint: String, credential_reference: Option<String> },
}

/// Where audit records are exported to: a directory is taken from the workspace.
pub fn audit_export(platform: Platform, config: &AuditExporterConfig, workspace: &str) -> (export: AuditExport)
    ensures
        match *config {
            AuditExporterConfig::Disabled => export is Nowhere,
            AuditExporterConfig::Directory { path } => export matches AuditExport::Directory(directory) && directory@
                == joined_path(platform, workspace@, path@),
            AuditExporterConfig::WormHttp { endpoint: url, credential_reference: credential } => {
                export matches AuditExport::Service { endpoint, credential_reference } && endpoint@ == url@
                    && optional_view(credential_reference) == optional_view(credential)
            },
        },
{
    match config {
        AuditExporterConfig::Disabled => AuditExport::Nowhere,
        AuditExporterConfig::Directory { path } => AuditExport::Directory(join_path(
            platform,
            workspace,
            path.as_str(),
        )),
        AuditExporterConfig::WormHttp { endpoint, credential_reference } => AuditExport::Service {
            endpoint: endpoint.clone(),
            credential_reference: clone_optional(credential_reference),
        },
    }
}

/// The executable that a tool may run: as it is written in an image, else the canonical one.
pub open spec fn tool_executable(backend: Seq<char>, path: String, canonical: Result<String, RuntimeError>) -> Result<
    Seq<char>,
    RuntimeError,
> {
    if backend == "oci"@ {
        Ok(path@)
    } else {
        match canonical {
            Ok(found) => Ok(found@),
            Err(error) => Err(error),
        }
    }
}

/// The executables that tools may run; `canonical` is what the host found for each path. The first
/// one that is missing ends it.
pub fn tool_executables(backend: &str, paths: &Vec<String>, canonical: &Vec<Result<String, RuntimeError>>) -> (result:
    Result<Vec<String>, RuntimeError>)
    requires
        paths@.len() == canonical@.len(),
    ensures
        match result {
            Ok(list) => list@.len() == paths@.len() && forall|i: int|
                #![trigger list@[i]]
                0 <= i < paths@.len() ==> tool_executable(backend@, paths@[i], canonical@[i]) == Ok::<
                    Seq<char>,
                    RuntimeError,
                >(list@[i]@),
            Err(error) => exists|i: int|
                0 <= i < paths@.len() && #[trigger] tool_executable(backend@, paths@[i], canonical@[i]) == Err::<
                    Seq<char>,
                    RuntimeError,
                >(error) && forall|j: int|
                    0 <= j < i ==> (#[trigger] tool_executable(backend@, paths@[j], canonical@[j])) is Ok,
        },
{
    let image = same_text(backend, "oci");
    let mut list: Vec<String> = Vec::new();
    let mut i: usize = 0;
    while i < paths.len()
        invariant
            i <= paths@.len(),
            paths@.len() == canonical@.len(),
            image == (backend@ == "oci"@),
            list@.len() == i,
            forall|j: int|
                #![trigger list@[j]]
                0 <= j < i ==> tool_executable(backend@, paths@[j], canonical@[j]) == Ok::<Seq<char>, RuntimeError>(
                    list@[j]@,
                ),
            forall|j: int| 0 <= j < i ==> (#[trigger] tool_executable(backend@, paths@[j], canonical@[j])) is Ok,
        decreases paths@.len() - i,
    {
        let path = if image {
            paths[i].clone()
        } else {
            match &canonical[i] {
                Ok(found) => found.clone(),
                Err(error) => {
                    proof {
                        assert(tool_executable(backend@, paths@[i as int], canonical@[i as int]) == Err::<
                            Seq<char>,
                            RuntimeError,
                        >(*error));
                    }
                    return Err(error.clone());
                },
            }
        };
        proof {
            assert(tool_executable(backend@, paths@[i as int], canonical@[i as int]) is Ok);
        }
        list.push(path);
        i = i + 1;
    }
    Ok(list)
}

/// Storage is opened in the workspace that was acquired, tools are registered before anything is
/// recovered through them, and the workspace is confirmed last of all.
pub proof fn opening_keeps_its_order(step: OpeningStep)
    ensures
        place(OpeningStep::ValidateStorage) <= place(step) <= place(OpeningStep::ConfirmWorkspace),
        place(OpeningStep::AcquireWorkspace) < place(OpeningStep::OpenStorage),
        place(OpeningStep::CheckHome) < place(OpeningStep::OpenStorage),
        place(OpeningStep::OpenStorage) < place(OpeningStep::VerifyPacks),
        place(OpeningStep::VerifyPacks) < place(OpeningStep::CompilePacks),
        place(OpeningStep::OpenStorage) < place(OpeningStep::CatchUpProjections),
        place(OpeningStep::CatchUpProjections) < place(OpeningStep::RecoverEffects),
        place(OpeningStep::ComposePolicy) < place(OpeningStep::RegisterTools),
        place(OpeningStep::RegisterTools) < place(OpeningStep::RecoverResearch),
        place(OpeningStep::RecoverResearch) < place(OpeningStep::RecoverWorkflows),
        forall|other: OpeningStep| place(step) == #[trigger] place(other) ==> step == other,
{
}

/// Six steps are observed, each as a phase of its own, and every other step is performed in any mode.
pub proof fn phases_are_observed_once(step: OpeningStep, other: OpeningStep)
    ensures
        phase_of(step) is Some && phase_of(step) == phase_of(other) ==> step == other,
        phase_of(step) is None ==> performed(step, true) && performed(step, false),
        performed(step, false),
        performed(step, true) ==> step != OpeningStep::RecoverEffects && step != OpeningStep::RecoverWorkflows && step
            != OpeningStep::RecoverResearch && step != OpeningStep::CatchUpProjections,
        performed(OpeningStep::OpenStorage, true) && performed(OpeningStep::AcquireWorkspace, true),
{
}

/// An enabled pack is refused exactly where it could not be verified again or is not what was installed;
/// a disabled one is not looked at.
pub proof fn only_reverified_packs_are_active(pack: ListedPack)
    ensures
        !pack.enabled ==> !is_refused(pack),
        pack.enabled && pack.verified is Err ==> is_refused(pack),
        pack.enabled && pack.verified is Ok ==> (is_refused(pack) <==> !(pack.installed.manifest_sha256@
            == pack.verified->Ok_0.manifest_sha256@ && optional_view(pack.installed.trust_key_id) == optional_view(
            pack.verified->Ok_0.trust_key_id,
        ))),
{
}

/// An enabled pack brings in its skills below its own directory, under its own label; a disabled one
/// brings in nothing.
pub proof fn enabled_packs_bring_their_skills(platform: Platform, list: Seq<ListedPack>, pack: ListedPack, at: int)
    ensures
        !pack.enabled ==> pack_roots(platform, list.push(pack)) == pack_roots(platform, list),
        !pack.enabled ==> enabled_places(list.push(pack)) == enabled_places(list),
        pack.enabled ==> {
            let before = pack_roots(platform, list);
            let after = pack_roots(platform, list.push(pack));
            &&& after.len() == before.len() + pack.skills@.len()
            &&& before.is_prefix_of(after)
            &&& 0 <= at < pack.skills@.len() ==> after[before.len() + at].path == joined_path(
                platform,
                pack.installed_path@,
                pack.skills@[at]@,
            ) && contains_text(after[before.len() + at].label, pack.name@) && contains_text(
                after[before.len() + at].label,
                pack.version@,
            )
        },
        pack.enabled && list.len() < usize::MAX ==> enabled_places(list.push(pack)).len() == enabled_places(
            list,
        ).len() + 1 && enabled_places(list.push(pack)).last() == list.len(),
{
    assert(list.push(pack).drop_last() == list);
    let empty = Seq::<char>::empty();
    parts_are_contained("pack:"@, pack.name@, "@"@ + pack.version@);
    assert("pack:"@ + pack.name@ + ("@"@ + pack.version@) == pack_label(pack));
    parts_are_contained("pack:"@ + pack.name@ + "@"@, pack.version@, empty);
    assert("pack:"@ + pack.name@ + "@"@ + pack.version@ + empty == pack_label(pack));
}

/// A tool's executable is its real path, and in a container the path as it is written.
pub proof fn tools_run_their_real_executable(
    backend: Seq<char>,
    path: String,
    canonical: Result<String, RuntimeError>,
)
    ensures
        backend == "oci"@ ==> tool_executable(backend, path, canonical) == Ok::<Seq<char>, RuntimeError>(path@),
        backend != "oci"@ ==> (tool_executable(backend, path, canonical) is Ok <==> canonical is Ok),
        backend != "oci"@ && canonical is Ok ==> tool_executable(backend, path, canonical) == Ok::<
            Seq<char>,
            RuntimeError,
        >(canonical->Ok_0@),
{
}

} // verus!
