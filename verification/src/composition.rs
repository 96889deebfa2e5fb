//! The decisions of composing a runtime from its configuration.

use crate::config::{
    danger_backend, KeyConfig, McpConfig, McpOAuthCredentialStoreKind, Platform, SandboxConfig, StartupVerificationMode,
    StorageAdapter,
};
use crate::error::{config_error, config_error3, is_config_error, RuntimeError, StoreError};
use crate::paths::{components, extended, join_path, joined_path, same_path, with_extension};
use crate::text::{concat2, list_contains, same_optional, same_text, views};
use vstd::prelude::*;
use vstd::string::*;

verus! {

/// `n` held to what 64 bits can hold.
pub open spec fn saturated(n: nat) -> u64 {
    if n <= u64::MAX {
        n as u64
    } else {
        u64::MAX
    }
}

/// `a * b`, saturated.
fn saturating_product(a: u64, b: u64) -> (product: u64)
    ensures
        product == saturated(a as nat * b as nat),
{
    match a.checked_mul(b) {
        Some(product) => product,
        None => u64::MAX,
    }
}

/// `a + b`, saturated.
fn saturating_sum(a: u64, b: u64) -> (sum: u64)
    ensures
        sum == saturated(a as nat + b as nat),
{
    match a.checked_add(b) {
        Some(sum) => sum,
        None => u64::MAX,
    }
}

/// The time of a research run: a provider call for planning, for synthesis and for each source, a
/// sandboxed call for each worker, and one more for orchestration.
pub open spec fn research_time(provider: u64, sandbox: u64, max_sources: usize, max_workers: usize) -> nat {
    provider as nat * (max_sources as nat + 2) + sandbox as nat * max_workers as nat + sandbox as nat
}

/// The deadline of a research run: what its inner effects may take one after the other, so that it
/// never ends while one of them is still allowed to run.
pub fn research_run_timeout_ms(
    provider_timeout_ms: u64,
    sandbox_timeout_ms: u64,
    max_sources: usize,
    max_workers: usize,
) -> (timeout: u64)
    ensures
        timeout == saturated(research_time(provider_timeout_ms, sandbox_timeout_ms, max_sources, max_workers)),
{
    let model_calls: u64 = saturating_sum(max_sources as u64, 2);
    let collection_calls: u64 = max_workers as u64;
    let models: u64 = saturating_product(provider_timeout_ms, model_calls);
    let collection: u64 = saturating_product(sandbox_timeout_ms, collection_calls);
    proof {
        let calls = max_sources as nat + 2;
        let p = provider_timeout_ms as nat;
        if calls > u64::MAX {
            assert(model_calls == u64::MAX);
            if p > 0 {
                assert(p * calls > u64::MAX) by (nonlinear_arith)
                    requires
                        p >= 1,
                        calls > u64::MAX,
                ;
                assert(p * (u64::MAX as nat) >= u64::MAX) by (nonlinear_arith)
                    requires
                        p >= 1,
                ;
            } else {
                assert(p * calls == 0) by (nonlinear_arith)
                    requires
                        p == 0,
                ;
                assert(p * (u64::MAX as nat) == 0) by (nonlinear_arith)
                    requires
                        p == 0,
                ;
            }
        }
        assert(models == saturated(p * calls));
    }
    saturating_sum(saturating_sum(models, collection), sandbox_timeout_ms)
}

/// The deadline of a research run is at least the time of each inner call, and grows with every
/// bound that it is made of.
pub proof fn research_deadline_contains_inner_deadlines(
    provider: u64,
    sandbox: u64,
    max_sources: usize,
    max_workers: usize,
)
    ensures
        saturated(research_time(provider, sandbox, max_sources, max_workers)) >= provider,
        saturated(research_time(provider, sandbox, max_sources, max_workers)) >= sandbox,
        max_sources < usize::MAX ==> research_time(provider, sandbox, max_sources, max_workers) <= research_time(
            provider,
            sandbox,
            (max_sources + 1) as usize,
            max_workers,
        ),
        max_workers < usize::MAX ==> research_time(provider, sandbox, max_sources, max_workers) <= research_time(
            provider,
            sandbox,
            max_sources,
            (max_workers + 1) as usize,
        ),
{
    let p = provider as nat;
    let s = sandbox as nat;
    let m = max_sources as nat;
    let w = max_workers as nat;
    assert(p * (m + 2) >= p) by (nonlinear_arith);
    assert(s * w >= 0) by (nonlinear_arith);
    assert(p * (m + 3) >= p * (m + 2)) by (nonlinear_arith);
    assert(s * (w + 1) >= s * w) by (nonlinear_arith);
}

/// Label of a storage adapter in startup telemetry.
pub fn storage_adapter_label(adapter: StorageAdapter) -> (label: &'static str)
    ensures
        label@ == match adapter {
            StorageAdapter::Redb => "redb"@,
            StorageAdapter::Ephemeral => "ephemeral"@,
            StorageAdapter::Postgres => "postgresql"@,
        },
{
    match adapter {
        StorageAdapter::Redb => "redb",
        StorageAdapter::Ephemeral => "ephemeral",
        StorageAdapter::Postgres => "postgresql",
    }
}

/// Label of a startup verification in startup telemetry.
pub fn startup_verification_label(mode: StartupVerificationMode) -> (label: &'static str)
    ensures
        label@ == match mode {
            StartupVerificationMode::Incremental => "incremental"@,
            StartupVerificationMode::Full => "full"@,
        },
{
    match mode {
        StartupVerificationMode::Incremental => "incremental",
        StartupVerificationMode::Full => "full",
    }
}

/// What a startup span records when it ends: its status, and an error type unless it succeeded.
pub fn startup_status(succeeded: bool) -> (record: (&'static str, Option<&'static str>))
    ensures
        record.0@ == if succeeded {
            "OK"@
        } else {
            "ERROR"@
        },
        record.1 is None == succeeded,
        record.1 matches Some(kind) ==> kind@ == "_OTHER"@,
{
    if succeeded {
        ("OK", None)
    } else {
        ("ERROR", Some("_OTHER"))
    }
}

/// A phase of starting up.
#[derive(Clone, Copy, Debug, PartialEq, Eq, Structural)]
pub enum StartupPhase {
    WorkspaceAcquire,
    StorageOpen,
    ProjectionCatchUp,
    EffectRecovery,
    ResearchRecovery,
    WorkflowRecovery,
}

/// Whether a phase runs: recovery mode leaves out every phase that writes.
pub open spec fn phase_runs(phase: StartupPhase, recovery_mode: bool) -> bool {
    !recovery_mode || phase is WorkspaceAcquire || phase is StorageOpen
}

/// Whether a phase runs: recovery mode leaves out every phase that writes.
pub fn runs_phase(phase: StartupPhase, recovery_mode: bool) -> (yes: bool)
    ensures
        yes == phase_runs(phase, recovery_mode),
{
    match phase {
        StartupPhase::WorkspaceAcquire | StartupPhase::StorageOpen => true,
        _ => !recovery_mode,
    }
}

/// The span name and the phase label of a startup phase.
pub fn startup_phase_labels(phase: StartupPhase) -> (labels: (&'static str, &'static str))
    ensures
        labels.0@ == match phase {
            StartupPhase::WorkspaceAcquire => "colossus.runtime.workspace.acquire"@,
            StartupPhase::StorageOpen => "colossus.runtime.storage.open"@,
            StartupPhase::ProjectionCatchUp => "colossus.runtime.projections.catch_up"@,
            StartupPhase::EffectRecovery => "colossus.runtime.effects.recover"@,
            StartupPhase::ResearchRecovery => "colossus.runtime.research.recover"@,
            StartupPhase::WorkflowRecovery => "colossus.runtime.workflows.recover"@,
        },
        labels.1@ == match phase {
            StartupPhase::WorkspaceAcquire => "workspace_acquire"@,
            StartupPhase::StorageOpen => "storage_open"@,
            StartupPhase::ProjectionCatchUp => "projection_catch_up"@,
            StartupPhase::EffectRecovery => "effect_recovery"@,
            StartupPhase::ResearchRecovery => "research_recovery"@,
            StartupPhase::WorkflowRecovery => "workflow_recovery"@,
        },
{
    match phase {
        StartupPhase::WorkspaceAcquire => ("colossus.runtime.workspace.acquire", "workspace_acquire"),
        StartupPhase::StorageOpen => ("colossus.runtime.storage.open", "storage_open"),
        StartupPhase::ProjectionCatchUp => ("colossus.runtime.projections.catch_up", "projection_catch_up"),
        StartupPhase::EffectRecovery => ("colossus.runtime.effects.recover", "effect_recovery"),
        StartupPhase::ResearchRecovery => ("colossus.runtime.research.recover", "research_recovery"),
        StartupPhase::WorkflowRecovery => ("colossus.runtime.workflows.recover", "workflow_recovery"),
    }
}

/// What an explicit home directory asks of the host.
#[derive(Clone, Copy, Debug, PartialEq, Eq, Structural)]
pub enum HomeAuthority {
    /// There is none.
    Absent,
    /// Its bound root is to be revalidated.
    Revalidate,
}

/// Checks that a home directory and a bound root come together and are the same path, component by
/// component.
pub fn home_authority(platform: Platform, home: &Option<String>, root: &Option<String>) -> (result: Result<
    HomeAuthority,
    RuntimeError,
>)
    ensures
        match (*home, *root) {
            (None, None) => result == Ok::<HomeAuthority, RuntimeError>(HomeAuthority::Absent),
            (Some(path), Some(bound)) => if components(platform, path@) == components(platform, bound@) {
                result == Ok::<HomeAuthority, RuntimeError>(HomeAuthority::Revalidate)
            } else {
                is_config_error(result, "the explicit Colossus home authority is inconsistent"@)
            },
            _ => is_config_error(result, "the explicit Colossus home authority is inconsistent"@),
        },
{
    match (home, root) {
        (None, None) => Ok(HomeAuthority::Absent),
        (Some(path), Some(bound)) => if same_path(platform, path.as_str(), bound.as_str()) {
            Ok(HomeAuthority::Revalidate)
        } else {
            config_error("the explicit Colossus home authority is inconsistent")
        },
        _ => config_error("the explicit Colossus home authority is inconsistent"),
    }
}

/// Where the OAuth credentials of MCP servers are kept.
#[derive(Debug)]
pub enum OAuthStore {
    /// No server needs any.
    Unused,
    /// In memory.
    Ephemeral,
    /// In a plaintext file.
    Plaintext {
        /// Its path.
        path: String,
    },
    /// In the credential store of the operating system.
    Platform {
        /// Service namespace.
        service: String,
    },
    /// In a file encrypted with the journal keys.
    Encrypted {
        /// Its path.
        path: String,
    },
}

/// The kind of store that the settings select; `None` where they contradict each other.
pub ghost enum OAuthChoice {
    Unused,
    Ephemeral,
    Plaintext,
    Platform(Seq<char>),
    Encrypted,
    Contradiction,
}

/// Whether a server uses OAuth.
pub open spec fn uses_oauth(mcp: McpConfig) -> bool {
    exists|i: int| 0 <= i < mcp.servers@.len() && (#[trigger] mcp.servers@[i]).value.oauth is Some
}

/// The kind of store that the settings select.
pub open spec fn oauth_choice(mcp: McpConfig, adapter: StorageAdapter, keys: KeyConfig) -> OAuthChoice {
    if !uses_oauth(mcp) {
        OAuthChoice::Unused
    } else {
        match mcp.oauth_credential_store {
            McpOAuthCredentialStoreKind::Auto => if adapter == StorageAdapter::Ephemeral {
                OAuthChoice::Ephemeral
            } else {
                match keys {
                    KeyConfig::Plaintext => OAuthChoice::Plaintext,
                    KeyConfig::Platform { service, .. } => OAuthChoice::Platform(service@),
                    KeyConfig::Environment { .. } => OAuthChoice::Encrypted,
                }
            },
            McpOAuthCredentialStoreKind::Platform => match keys {
                KeyConfig::Platform { service, .. } => OAuthChoice::Platform(service@),
                _ => OAuthChoice::Platform("colossus-mcp-oauth"@),
            },
            McpOAuthCredentialStoreKind::PlaintextState => OAuthChoice::Plaintext,
            McpOAuthCredentialStoreKind::EncryptedState => if keys is Plaintext {
                OAuthChoice::Contradiction
            } else {
                OAuthChoice::Encrypted
            },
        }
    }
}

/// `result` is the chosen store, its file beside the state file.
pub open spec fn is_choice(
    platform: Platform,
    result: Result<OAuthStore, RuntimeError>,
    choice: OAuthChoice,
    storage_path: Seq<char>,
) -> bool {
    let file = extended(platform, storage_path, "mcp-oauth.redb"@);
    match choice {
        OAuthChoice::Unused => result == Ok::<OAuthStore, RuntimeError>(OAuthStore::Unused),
        OAuthChoice::Ephemeral => result == Ok::<OAuthStore, RuntimeError>(OAuthStore::Ephemeral),
        OAuthChoice::Plaintext => result matches Ok(OAuthStore::Plaintext { path }) && path@ == file,
        OAuthChoice::Platform(name) => result matches Ok(OAuthStore::Platform { service }) && service@ == name,
        OAuthChoice::Encrypted => result matches Ok(OAuthStore::Encrypted { path }) && path@ == file,
        OAuthChoice::Contradiction => is_config_error(
            result,
            "mcp.oauthCredentialStore encrypted_state requires platform or environment storage keys"@,
        ),
    }
}

fn any_oauth(mcp: &McpConfig) -> (yes: bool)
    ensures
        yes == uses_oauth(*mcp),
{
    let mut i: usize = 0;
    while i < mcp.servers.len()
        invariant
            i <= mcp.servers@.len(),
            forall|j: int| 0 <= j < i ==> (#[trigger] mcp.servers@[j]).value.oauth is None,
        decreases mcp.servers@.len() - i,
    {
        if mcp.servers[i].value.oauth.is_some() {
            return true;
        }
        i = i + 1;
    }
    false
}

/// Selects where the OAuth credentials of MCP servers are kept.
pub fn oauth_store(
    platform: Platform,
    mcp: &McpConfig,
    adapter: StorageAdapter,
    keys: &KeyConfig,
    storage_path: &str,
) -> (result: Result<
    OAuthStore,
    RuntimeError,
>)
    ensures
        is_choice(platform, result, oauth_choice(*mcp, adapter, *keys), storage_path@),
{
    if !any_oauth(mcp) {
        return Ok(OAuthStore::Unused);
    }
    let path = with_extension(platform, storage_path, "mcp-oauth.redb");
    match mcp.oauth_credential_store {
        McpOAuthCredentialStoreKind::Auto => if adapter == StorageAdapter::Ephemeral {
            Ok(OAuthStore::Ephemeral)
        } else {
            match keys {
                KeyConfig::Plaintext => Ok(OAuthStore::Plaintext { path }),
                KeyConfig::Platform { service, .. } => Ok(OAuthStore::Platform { service: service.clone() }),
                KeyConfig::Environment { .. } => Ok(OAuthStore::Encrypted { path }),
            }
        },
        McpOAuthCredentialStoreKind::Platform => match keys {
            KeyConfig::Platform { service, .. } => Ok(OAuthStore::Platform { service: service.clone() }),
            _ => Ok(OAuthStore::Platform { service: "colossus-mcp-oauth".to_owned() }),
        },
        McpOAuthCredentialStoreKind::PlaintextState => Ok(OAuthStore::Plaintext { path }),
        McpOAuthCredentialStoreKind::EncryptedState => match keys {
            KeyConfig::Plaintext => config_error(
                "mcp.oauthCredentialStore encrypted_state requires platform or environment storage keys",
            ),
            _ => Ok(OAuthStore::Encrypted { path }),
        },
    }
}

/// Protected state never keeps OAuth credentials in plaintext unless that is asked for by name.
pub proof fn protected_state_keeps_oauth_protected(mcp: McpConfig, adapter: StorageAdapter, keys: KeyConfig)
    requires
        !(keys is Plaintext),
        mcp.oauth_credential_store != McpOAuthCredentialStoreKind::PlaintextState,
    ensures
        oauth_choice(mcp, adapter, keys) != OAuthChoice::Plaintext,
        oauth_choice(mcp, adapter, keys) != OAuthChoice::Contradiction,
{
}

/// A boundary that the runtime itself does not enforce.
#[derive(Clone, Copy, Debug, PartialEq, Eq, Structural)]
pub enum SandboxBoundaryMode {
    /// The embedding platform isolates.
    External,
    /// Nothing isolates.
    DangerFullAccess,
}

/// The boundary that a backend stands for, where the runtime does not enforce it.
pub open spec fn boundary_mode(backend: Seq<char>) -> Option<SandboxBoundaryMode> {
    if backend == "external"@ {
        Some(SandboxBoundaryMode::External)
    } else if backend == danger_backend() {
        Some(SandboxBoundaryMode::DangerFullAccess)
    } else {
        None
    }
}

/// The boundary of a sandbox and whether the operator acknowledged it.
pub fn boundary_acknowledgement(sandbox: &SandboxConfig) -> (result: (Option<SandboxBoundaryMode>, bool))
    ensures
        result.0 == boundary_mode(sandbox.backend@),
        result.1 == match boundary_mode(sandbox.backend@) {
            Some(SandboxBoundaryMode::External) => sandbox.acknowledge_external_boundary,
            Some(SandboxBoundaryMode::DangerFullAccess) => sandbox.acknowledge_danger_full_access,
            None => false,
        },
{
    if same_text(sandbox.backend.as_str(), "external") {
        (Some(SandboxBoundaryMode::External), sandbox.acknowledge_external_boundary)
    } else if same_text(sandbox.backend.as_str(), "danger_full_access") {
        (Some(SandboxBoundaryMode::DangerFullAccess), sandbox.acknowledge_danger_full_access)
    } else {
        (None, false)
    }
}

/// The texts of `candidates` that `active` holds, in order.
pub open spec fn kept(candidates: Seq<String>, active: Seq<Seq<char>>) -> Seq<String>
    decreases candidates.len(),
{
    if candidates.len() == 0 {
        candidates
    } else if active.contains(candidates.last()@) {
        kept(candidates.drop_last(), active).push(candidates.last())
    } else {
        kept(candidates.drop_last(), active)
    }
}

/// The names of candidate tools that access resolution left active, in order.
pub fn active_tools(candidates: &Vec<String>, active: &Vec<String>) -> (result: Vec<String>)
    ensures
        result@ == kept(candidates@, views(active@)),
{
    let mut result: Vec<String> = Vec::new();
    let mut i: usize = 0;
    while i < candidates.len()
        invariant
            i <= candidates@.len(),
            result@ == kept(candidates@.take(i as int), views(active@)),
        decreases candidates@.len() - i,
    {
        proof {
            assert(candidates@.take(i + 1).drop_last() =~= candidates@.take(i as int));
        }
        if list_contains(active, candidates[i].as_str()) {
            result.push(candidates[i].clone());
        }
        i = i + 1;
    }
    proof {
        assert(candidates@.take(i as int) =~= candidates@);
    }
    result
}

/// A model sees a tool exactly if it is a candidate and access resolution left it active.
pub proof fn only_active_tools_are_kept(candidates: Seq<String>, active: Seq<Seq<char>>, tool: String)
    ensures
        kept(candidates, active).contains(tool) <==> candidates.contains(tool) && active.contains(tool@),
    decreases candidates.len(),
{
    if candidates.len() > 0 {
        let rest = candidates.drop_last();
        only_active_tools_are_kept(rest, active, tool);
        let before = kept(rest, active);
        if candidates.contains(tool) && !rest.contains(tool) {
            let k = choose|k: int| 0 <= k < candidates.len() && candidates[k] == tool;
            if k < rest.len() {
                assert(rest[k] == tool);
            }
        }
        if rest.contains(tool) {
            let k = choose|k: int| 0 <= k < rest.len() && rest[k] == tool;
            assert(candidates[k] == tool);
        }
        if active.contains(candidates.last()@) {
            let after = before.push(candidates.last());
            if before.contains(tool) {
                let k = choose|k: int| 0 <= k < before.len() && before[k] == tool;
                assert(after[k] == tool);
            }
            if tool == candidates.last() {
                assert(after[before.len() as int] == tool);
                assert(candidates[candidates.len() - 1] == tool);
            }
            if after.contains(tool) {
                let k = choose|k: int| 0 <= k < after.len() && after[k] == tool;
                if k < before.len() {
                    assert(before[k] == tool);
                }
            }
        }
    }
}

/// A directory that skills are looked up in.
#[derive(Debug)]
pub struct SkillRoot {
    /// Its path.
    pub path: String,
    /// Where its skills come from.
    pub label: String,
}

/// A directory that skills are looked up in, as characters.
pub ghost struct SkillRootView {
    pub path: Seq<char>,
    pub label: Seq<char>,
}

impl View for SkillRoot {
    type V = SkillRootView;

    open spec fn view(&self) -> SkillRootView {
        SkillRootView { path: self.path@, label: self.label@ }
    }
}

/// The roots of a list as characters.
pub open spec fn root_views(list: Seq<SkillRoot>) -> Seq<SkillRootView> {
    list.map_values(|root: SkillRoot| root@)
}

/// The configured skill roots: bundled, repository and user, seen from the workspace.
pub fn configured_skill_roots(
    platform: Platform,
    workspace: &str,
    bundled: &str,
    repository: &str,
    user: &str,
) -> (roots: Vec<SkillRoot>)
    ensures
        root_views(roots@) == seq![
            SkillRootView { path: joined_path(platform, workspace@, bundled@), label: "bundled"@ },
            SkillRootView { path: joined_path(platform, workspace@, repository@), label: "repository"@ },
            SkillRootView { path: joined_path(platform, workspace@, user@), label: "user"@ },
        ],
{
    let mut roots: Vec<SkillRoot> = Vec::new();
    roots.push(SkillRoot { path: join_path(platform, workspace, bundled), label: "bundled".to_owned() });
    roots.push(SkillRoot { path: join_path(platform, workspace, repository), label: "repository".to_owned() });
    roots.push(SkillRoot { path: join_path(platform, workspace, user), label: "user".to_owned() });
    proof {
        assert(root_views(roots@) =~= seq![
            SkillRootView { path: joined_path(platform, workspace@, bundled@), label: "bundled"@ },
            SkillRootView { path: joined_path(platform, workspace@, repository@), label: "repository"@ },
            SkillRootView { path: joined_path(platform, workspace@, user@), label: "user"@ },
        ]);
    }
    roots
}

/// What identifies the verified content of a pack.
#[derive(Debug)]
pub struct PackEvidence {
    /// Digest of its manifest.
    pub manifest_sha256: String,
    /// Key that it is trusted by.
    pub trust_key_id: Option<String>,
}

/// Checks that an enabled pack still verifies to what was installed.
pub fn require_reverified(name: &str, installed: &PackEvidence, verified: &PackEvidence) -> (result: Result<
    (),
    RuntimeError,
>)
    ensures
        if installed.manifest_sha256@ == verified.manifest_sha256@ && crate::text::optional_view(
            installed.trust_key_id,
        ) == crate::text::optional_view(verified.trust_key_id) {
            result is Ok
        } else {
            is_config_error(result, "enabled pack "@ + name@ + " failed canonical re-verification"@)
        },
{
    if same_text(installed.manifest_sha256.as_str(), verified.manifest_sha256.as_str()) && same_optional(
        &installed.trust_key_id,
        &verified.trust_key_id,
    ) {
        Ok(())
    } else {
        config_error3("enabled pack ", name, " failed canonical re-verification")
    }
}

/// Checks that every projection caught up at startup.
pub fn require_projections_ready(ready: &Vec<bool>) -> (result: Result<(), RuntimeError>)
    ensures
        if forall|i: int| 0 <= i < ready@.len() ==> #[trigger] ready@[i] {
            result is Ok
        } else {
            result matches Err(RuntimeError::Store(StoreError::Adapter(text))) && text@
                == "startup projections did not catch up within the configured bound"@
        },
{
    let mut i: usize = 0;
    while i < ready.len()
        invariant
            i <= ready@.len(),
            forall|j: int| 0 <= j < i ==> #[trigger] ready@[j],
        decreases ready@.len() - i,
    {
        if !ready[i] {
            return Err(
                RuntimeError::Store(
                    StoreError::Adapter(
                        "startup projections did not catch up within the configured bound".to_owned(),
                    ),
                ),
            );
        }
        i = i + 1;
    }
    Ok(())
}

/// Checks that the workspace is a directory.
pub fn require_workspace_directory(workspace: &str, directory: bool) -> (result: Result<(), RuntimeError>)
    ensures
        if directory {
            result is Ok
        } else {
            is_config_error(result, "workspace is not a directory: "@ + workspace@)
        },
{
    if directory {
        Ok(())
    } else {
        Err(RuntimeError::Config(concat2("workspace is not a directory: ", workspace)))
    }
}

/// Numbers that fit stay as they are, and the others are the largest that does; order is kept.
pub proof fn saturation_keeps_order(first: nat, second: nat)
    ensures
        first <= u64::MAX ==> saturated(first) == first,
        first > u64::MAX ==> saturated(first) == u64::MAX,
        first <= second ==> saturated(first) <= saturated(second),
{
}

/// In recovery only the workspace and the storage are opened; otherwise every phase runs.
pub proof fn recovery_opens_storage_alone(phase: StartupPhase)
    ensures
        phase_runs(phase, false),
        phase_runs(phase, true) <==> phase is WorkspaceAcquire || phase is StorageOpen,
{
}

/// Credentials are kept only where a server uses them: as written, or by default as the state itself is
/// kept. Encrypted state without keys is a contradiction.
pub proof fn credentials_are_kept_as_the_state_is(mcp: McpConfig, adapter: StorageAdapter, keys: KeyConfig)
    ensures
        oauth_choice(mcp, adapter, keys) is Unused <==> forall|i: int|
            0 <= i < mcp.servers@.len() ==> (#[trigger] mcp.servers@[i]).value.oauth is None,
        uses_oauth(mcp) && mcp.oauth_credential_store is Auto ==> {
            &&& adapter is Ephemeral ==> oauth_choice(mcp, adapter, keys) is Ephemeral
            &&& !(adapter is Ephemeral) && keys is Plaintext ==> oauth_choice(mcp, adapter, keys) is Plaintext
            &&& !(adapter is Ephemeral) && keys is Environment ==> oauth_choice(mcp, adapter, keys) is Encrypted
            &&& !(adapter is Ephemeral) && keys is Platform ==> oauth_choice(mcp, adapter, keys)
                == OAuthChoice::Platform(keys->Platform_service@)
        },
        uses_oauth(mcp) && mcp.oauth_credential_store is Platform ==> oauth_choice(mcp, adapter, keys) is Platform,
        uses_oauth(mcp) && mcp.oauth_credential_store is PlaintextState ==> oauth_choice(mcp, adapter, keys)
            is Plaintext,
        uses_oauth(mcp) && mcp.oauth_credential_store is EncryptedState ==> (if keys is Plaintext {
            oauth_choice(mcp, adapter, keys) is Contradiction
        } else {
            oauth_choice(mcp, adapter, keys) is Encrypted
        }),
{
}

/// A choice is carried out as it was made: in the state's own file, in the named service, or refused.
pub proof fn choices_are_carried_out(
    platform: Platform,
    result: Result<OAuthStore, RuntimeError>,
    choice: OAuthChoice,
    storage_path: Seq<char>,
)
    requires
        is_choice(platform, result, choice, storage_path),
    ensures
        result is Err <==> choice is Contradiction,
        choice is Unused ==> result->Ok_0 is Unused,
        choice is Ephemeral ==> result->Ok_0 is Ephemeral,
        choice is Plaintext ==> result->Ok_0 is Plaintext && result->Ok_0->Plaintext_path@ == extended(
            platform,
            storage_path,
            "mcp-oauth.redb"@,
        ),
        choice is Encrypted ==> result->Ok_0 is Encrypted && result->Ok_0->Encrypted_path@ == extended(
            platform,
            storage_path,
            "mcp-oauth.redb"@,
        ),
        choice matches OAuthChoice::Platform(name) ==> result->Ok_0 is Platform
            && result->Ok_0->Platform_service@ == name,
{
}

/// Only the two backends without a boundary of their own have to be acknowledged.
pub proof fn two_backends_are_acknowledged(backend: Seq<char>)
    ensures
        boundary_mode(backend) == Some(SandboxBoundaryMode::External) <==> backend == "external"@,
        boundary_mode(backend) == Some(SandboxBoundaryMode::DangerFullAccess) <==> backend == "danger_full_access"@,
{
    reveal_strlit("external");
    reveal_strlit("danger_full_access");
    assert("external"@.len() == 8 && "danger_full_access"@.len() == 18);
}

/// Every candidate that is active is kept, in its order.
pub proof fn active_candidates_are_kept(candidates: Seq<String>, candidate: String, active: Seq<Seq<char>>)
    ensures
        active.contains(candidate@) ==> kept(candidates.push(candidate), active) == kept(candidates, active).push(
            candidate,
        ),
        !active.contains(candidate@) ==> kept(candidates.push(candidate), active) == kept(candidates, active),
        kept(Seq::empty(), active).len() == 0,
{
    assert(candidates.push(candidate).drop_last() == candidates);
}

} // verus!
