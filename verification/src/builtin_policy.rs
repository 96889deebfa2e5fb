//! Built-in policy, put together from a configuration and what was resolved for it.

use crate::access::{
    builtin_outcomes, outcome_views, outcomes, some_external, ActionOutcome, DecisionOutcome, ResolvedAction,
};
use crate::composition::{research_time, saturated};
use crate::config::{
    authority, clone_grants, configured_resource_authority, grant_views, FilesystemGrant, ResourceAuthority,
    RuntimeConfig, SandboxConfig,
};
use crate::development::{development_environment_names, DevelopmentSandbox};
use crate::entries::{value_of, Entry};
use crate::error::{is_config_error, RuntimeError};
use crate::ordered::ascending;
use crate::policy_plan::{
    action_timeout, action_timeouts, canonical_grants, execute_grants, plugin_restrictions, policy_roots,
    provider_timeout, registry_origin, registry_restrictions, restriction_views, then_grants, transfer_restrictions,
    with_run_input, ActionRestriction, CanonicalPath, TimeoutBounds,
};
use crate::text::{clone_texts, same_text, views};
use vstd::prelude::*;
use vstd::string::*;

verus! {

/// What the host and access resolution found out for built-in policy.
#[derive(Debug)]
pub struct PolicyFindings {
    /// The actions with what access resolution decided for them.
    pub actions: Vec<ResolvedAction>,
    /// The canonical workflow directories, where they exist.
    pub workflow_roots: Vec<Option<String>>,
    /// The canonical roots of the configured grants.
    pub roots: Vec<CanonicalPath>,
    /// The canonical configured executables.
    pub executables: Vec<CanonicalPath>,
    /// The restrictions that active plugins bring.
    pub restrictions: Vec<ActionRestriction>,
    /// The generation action of each provider profile.
    pub provider_actions: Vec<String>,
}

/// The bounds that are compiled in.
#[derive(Debug)]
pub struct PolicyBounds {
    /// The action that reads inputs of runs.
    pub run_input_action: String,
    /// Most bytes of an input of a run.
    pub run_input_bytes: u64,
    /// Time that a provider stream needs to clean up.
    pub cleanup_reserve_ms: u64,
}

/// What the development profile adds.
#[derive(Debug)]
pub struct DevelopmentGrants {
    pub filesystem: Vec<FilesystemGrant>,
    pub protected_filesystem: Vec<String>,
    pub environment: Vec<String>,
}

/// The limits of every effect.
#[derive(Clone, Copy, Debug, PartialEq, Eq, Structural)]
pub struct EffectLimits {
    pub timeout_ms: u64,
    pub max_output_bytes: u64,
    pub max_processes: u32,
    pub max_memory_bytes: u64,
    pub max_concurrency: u32,
}

/// The limits that a sandbox sets.
pub open spec fn limits_of(sandbox: SandboxConfig) -> EffectLimits {
    EffectLimits {
        timeout_ms: sandbox.timeout_ms,
        max_output_bytes: sandbox.max_output_bytes,
        max_processes: sandbox.max_processes,
        max_memory_bytes: sandbox.max_memory_bytes,
        max_concurrency: sandbox.max_concurrency,
    }
}

/// Built-in policy, as its decision point is set up.
#[derive(Debug)]
pub struct BuiltinPolicy {
    pub require_post_effect: bool,
    pub backend: String,
    pub profile: String,
    pub allow_broker_fallback: bool,
    pub authority: ResourceAuthority,
    pub limits: EffectLimits,
    pub outcomes: Vec<ActionOutcome>,
    /// Roots that every effect may read.
    pub read_roots: Vec<String>,
    pub roots: Vec<FilesystemGrant>,
    pub environment: Vec<String>,
    pub network_destinations: Vec<String>,
    /// In order; a later one of an action replaces an earlier one.
    pub restrictions: Vec<ActionRestriction>,
    pub development: Option<DevelopmentGrants>,
    pub run_input_bytes: u64,
    pub timeouts: Vec<Entry<u64>>,
}

/// The directories that exist, in order.
pub open spec fn existing(list: Seq<Option<String>>) -> Seq<Seq<char>>
    decreases list.len(),
{
    if list.len() == 0 {
        Seq::empty()
    } else {
        match list.last() {
            Some(path) => existing(list.drop_last()).push(path@),
            None => existing(list.drop_last()),
        }
    }
}

fn existing_roots(list: &Vec<Option<String>>) -> (roots: Vec<String>)
    ensures
        views(roots@) == existing(list@),
{
    let mut roots: Vec<String> = Vec::new();
    let mut i: usize = 0;
    proof {
        assert(views(roots@) =~= existing(list@.take(0)));
    }
    while i < list.len()
        invariant
            i <= list@.len(),
            views(roots@) == existing(list@.take(i as int)),
        decreases list@.len() - i,
    {
        proof {
            assert(list@.take(i + 1).drop_last() =~= list@.take(i as int));
        }
        if let Some(path) = &list[i] {
            let ghost before = roots@;
            roots.push(path.clone());
            proof {
                assert(views(roots@) =~= views(before).push(path@));
            }
        }
        i = i + 1;
    }
    proof {
        assert(list@.take(i as int) =~= list@);
    }
    roots
}

/// The findings belong to the configuration: one for each grant, executable and provider.
pub open spec fn findings_match(config: RuntimeConfig, found: PolicyFindings) -> bool {
    &&& found.roots@.len() == config.sandbox.filesystem@.len()
    &&& found.executables@.len() == config.sandbox.executables@.len()
    &&& found.provider_actions@.len() == config.providers.profiles@.len()
}

/// The restrictions are those of plugin transfers, then those of active plugins.
pub open spec fn restricts(
    policy: BuiltinPolicy,
    config: RuntimeConfig,
    workspace: Seq<char>,
    found: PolicyFindings,
    bounds: PolicyBounds,
) -> bool {
    exists|destinations: Seq<Seq<char>>|
        #![trigger ascending(destinations)]
        ascending(destinations) && (forall|x: Seq<char>|
            #[trigger] destinations.contains(x) <==> registry_origin(config.plugins.registries@, x))
            && restriction_views(policy.restrictions@) == transfer_restrictions(
            workspace,
            config.plugins.registries@,
            destinations,
        ) + with_run_input(restriction_views(found.restrictions@), bounds.run_input_action@)
}

/// The development profile adds its grants, its protected paths and its variables; no other
/// profile adds anything.
pub open spec fn develops(policy: BuiltinPolicy, config: RuntimeConfig, development: DevelopmentSandbox) -> bool {
    if config.sandbox.profile@ == "workspace-development"@ {
        policy.development matches Some(grants) && grant_views(grants.filesystem@) == grant_views(
            development.filesystem@,
        ) && views(grants.protected_filesystem@) == views(development.protected_filesystem@) && views(
            grants.environment@,
        ) == seq!["HOME"@, "PATH"@, "TEMP"@, "TMP"@, "TMPDIR"@]
    } else {
        policy.development is None
    }
}

/// The times that the actions of a policy may take.
pub open spec fn takes(
    policy: BuiltinPolicy,
    config: RuntimeConfig,
    found: PolicyFindings,
    bounds: PolicyBounds,
) -> bool {
    let limits = TimeoutBounds {
        cleanup_reserve_ms: bounds.cleanup_reserve_ms,
        sandbox_timeout_ms: config.sandbox.timeout_ms,
        max_sources: config.research.max_sources,
        max_workers: config.research.max_workers,
    };
    forall|action: Seq<char>|
        #[trigger] value_of(policy.timeouts@, action) == action_timeout(
            config.providers.profiles@,
            found.provider_actions@,
            limits,
            action,
        )
}

/// Reading an input of a run is decided like reading a file: whatever is decided for the one is
/// decided for the other.
pub proof fn run_inputs_are_decided_like_files(
    list: Seq<ResolvedAction>,
    run_input_action: Seq<char>,
    outcome: DecisionOutcome,
)
    requires
        outcomes(list, run_input_action).contains(("filesystem.read"@, outcome)),
    ensures
        outcomes(list, run_input_action).contains((run_input_action, outcome)),
    decreases list.len(),
{
    let all = outcomes(list, run_input_action);
    let k = choose|k: int| 0 <= k < all.len() && all[k] == ("filesystem.read"@, outcome);
    if list.len() > 0 && run_input_action != "filesystem.read"@ {
        let before = outcomes(list.drop_last(), run_input_action);
        if k < before.len() {
            assert(before[k] == all[k]);
            run_inputs_are_decided_like_files(list.drop_last(), run_input_action, outcome);
            let j = choose|j: int| 0 <= j < before.len() && before[j] == (run_input_action, outcome);
            assert(all[j] == before[j]);
        } else {
            assert(all.last() == (run_input_action, outcome));
        }
    }
}

/// Puts built-in policy together.
pub fn compose_builtin_policy(
    config: &RuntimeConfig,
    require_post_effect: bool,
    workspace: &str,
    development: &DevelopmentSandbox,
    found: &PolicyFindings,
    bounds: &PolicyBounds,
) -> (result: Result<BuiltinPolicy, RuntimeError>)
    requires
        findings_match(*config, *found),
    ensures
        ({
            let roots = then_grants(
                canonical_grants(config.sandbox.filesystem@, found.roots@),
                execute_grants(config.sandbox.executables@, found.executables@, config.sandbox.backend@ == "oci"@),
            );
            if some_external(found.actions@) {
                is_config_error(result, "built-in policy received an external access decision"@)
            } else {
                match roots {
                    Err(text) => result matches Err(RuntimeError::Io(message)) && message@ == text,
                    Ok(grants) => {
                        &&& result matches Ok(policy)
                        &&& policy.require_post_effect == require_post_effect
                        &&& policy.backend@ == config.sandbox.backend@
                        &&& policy.profile@ == config.sandbox.profile@
                        &&& policy.allow_broker_fallback == config.sandbox.allow_broker_fallback
                        &&& policy.authority == authority(config.sandbox)
                        &&& policy.limits == limits_of(config.sandbox)
                        &&& outcome_views(policy.outcomes@) == outcomes(found.actions@, bounds.run_input_action@)
                        &&& views(policy.read_roots@) == existing(found.workflow_roots@)
                        &&& grant_views(policy.roots@) == grants
                        &&& views(policy.environment@) == views(config.sandbox.environment@)
                        &&& views(policy.network_destinations@) == views(config.sandbox.network_destinations@)
                        &&& restricts(policy, *config, workspace@, *found, *bounds)
                        &&& develops(policy, *config, *development)
                        &&& policy.run_input_bytes == bounds.run_input_bytes
                        &&& takes(policy, *config, *found, *bounds)
                    },
                }
            }
        }),
{
    let outcomes = match builtin_outcomes(&found.actions, bounds.run_input_action.as_str()) {
        Ok(list) => list,
        Err(error) => {
            return Err(error);
        },
    };
    let read_roots = existing_roots(&found.workflow_roots);
    let roots = match policy_roots(&config.sandbox, &found.roots, &found.executables) {
        Ok(list) => list,
        Err(error) => {
            return Err(error);
        },
    };
    let mut restrictions = registry_restrictions(workspace, &config.plugins.registries);
    let ghost transfers = restrictions@;
    let mut more = plugin_restrictions(&found.restrictions, bounds.run_input_action.as_str());
    let ghost plugins = more@;
    restrictions.append(&mut more);
    proof {
        assert(restriction_views(restrictions@) =~= restriction_views(transfers) + restriction_views(plugins));
    }
    let grants = if same_text(config.sandbox.profile.as_str(), "workspace-development") {
        Some(
            DevelopmentGrants {
                filesystem: clone_grants(&development.filesystem),
                protected_filesystem: clone_texts(&development.protected_filesystem),
                environment: development_environment_names(),
            },
        )
    } else {
        None
    };
    let timeouts = action_timeouts(
        &config.providers.profiles,
        &found.provider_actions,
        TimeoutBounds {
            cleanup_reserve_ms: bounds.cleanup_reserve_ms,
            sandbox_timeout_ms: config.sandbox.timeout_ms,
            max_sources: config.research.max_sources,
            max_workers: config.research.max_workers,
        },
    );
    let policy = BuiltinPolicy {
        require_post_effect,
        backend: config.sandbox.backend.clone(),
        profile: config.sandbox.profile.clone(),
        allow_broker_fallback: config.sandbox.allow_broker_fallback,
        authority: configured_resource_authority(&config.sandbox),
        limits: EffectLimits {
            timeout_ms: config.sandbox.timeout_ms,
            max_output_bytes: config.sandbox.max_output_bytes,
            max_processes: config.sandbox.max_processes,
            max_memory_bytes: config.sandbox.max_memory_bytes,
            max_concurrency: config.sandbox.max_concurrency,
        },
        outcomes,
        read_roots,
        roots,
        environment: clone_texts(&config.sandbox.environment),
        network_destinations: clone_texts(&config.sandbox.network_destinations),
        restrictions,
        development: grants,
        run_input_bytes: bounds.run_input_bytes,
        timeouts,
    };
    Ok(policy)
}

/// The limits of every effect are the sandbox's own.
pub proof fn effects_have_the_sandbox_limits(sandbox: SandboxConfig)
    ensures
        limits_of(sandbox).timeout_ms == sandbox.timeout_ms,
        limits_of(sandbox).max_output_bytes == sandbox.max_output_bytes,
        limits_of(sandbox).max_processes == sandbox.max_processes,
        limits_of(sandbox).max_memory_bytes == sandbox.max_memory_bytes,
        limits_of(sandbox).max_concurrency == sandbox.max_concurrency,
{
}

/// Every workflow root that exists can be read, and no other.
pub proof fn existing_roots_are_kept(list: Seq<Option<String>>, more: Seq<Option<String>>, path: String)
    ensures
        existing(list + more) == existing(list) + existing(more),
        existing(seq![Some(path)]) == seq![path@],
        existing(seq![None::<String>]).len() == 0,
    decreases more.len(),
{
    assert(seq![Some(path)].drop_last() == Seq::<Option<String>>::empty());
    assert(seq![None::<String>].drop_last() == Seq::<Option<String>>::empty());
    assert(existing(Seq::<Option<String>>::empty()) == Seq::<Seq<char>>::empty());
    assert(existing(seq![Some(path)]) == Seq::<Seq<char>>::empty().push(path@));
    if more.len() == 0 {
        assert(list + more == list);
        assert(existing(list) + existing(more) == existing(list));
    } else {
        existing_roots_are_kept(list, more.drop_last(), path);
        assert((list + more).drop_last() == list + more.drop_last());
        assert(more.last() == (list + more).last());
        if more.last() is Some {
            let last = more.last()->0@;
            assert((existing(list) + existing(more.drop_last())).push(last) == existing(list) + existing(
                more.drop_last(),
            ).push(last));
        }
    }
}

/// Development grants are given in the workspace development profile alone, and there as the
/// development sandbox has them, with the five variables that builds need.
pub proof fn development_grants_need_the_profile(
    policy: BuiltinPolicy,
    config: RuntimeConfig,
    development: DevelopmentSandbox,
)
    requires
        develops(policy, config, development),
    ensures
        policy.development is Some <==> config.sandbox.profile@ == "workspace-development"@,
        policy.development matches Some(grants) ==> {
            &&& grant_views(grants.filesystem@) == grant_views(development.filesystem@)
            &&& views(grants.protected_filesystem@) == views(development.protected_filesystem@)
            &&& views(grants.environment@).contains("HOME"@) && views(grants.environment@).contains("PATH"@)
            &&& views(grants.environment@).contains("TEMP"@) && views(grants.environment@).contains("TMP"@)
            &&& views(grants.environment@).contains("TMPDIR"@)
            &&& grants.environment@.len() == 5
        },
{
    if let Some(grants) = policy.development {
        let names = views(grants.environment@);
        assert(names[0] == "HOME"@ && names[1] == "PATH"@ && names[2] == "TEMP"@ && names[3] == "TMP"@ && names[4]
            == "TMPDIR"@);
    }
}

/// A policy waits for an action as long as its provider asks for; research is waited for as long as the
/// configured numbers of sources and workers take.
pub proof fn timeouts_are_the_configured_ones(
    policy: BuiltinPolicy,
    config: RuntimeConfig,
    found: PolicyFindings,
    bounds: PolicyBounds,
    action: Seq<char>,
)
    requires
        takes(policy, config, found, bounds),
    ensures
        action != "research.run"@ ==> value_of(policy.timeouts@, action) == provider_timeout(
            config.providers.profiles@,
            found.provider_actions@,
            bounds.cleanup_reserve_ms,
            action,
        ),
        action == "research.run"@ ==> value_of(policy.timeouts@, action) is Some,
        action == "research.run"@ && config.providers.profiles@.len() == 0 ==> value_of(policy.timeouts@, action)
            == Some(
            saturated(
                research_time(
                    config.sandbox.timeout_ms,
                    config.sandbox.timeout_ms,
                    config.research.max_sources,
                    config.research.max_workers,
                ),
            ),
        ),
{
}

/// A policy restricts pulls, pushes and credential helpers before the actions that the host restricts, in
/// this order, and a transfer reaches the origins of the registries alone.
pub proof fn transfers_are_restricted_first(
    policy: BuiltinPolicy,
    config: RuntimeConfig,
    workspace: Seq<char>,
    found: PolicyFindings,
    bounds: PolicyBounds,
    origin: Seq<char>,
)
    requires
        restricts(policy, config, workspace, found, bounds),
    ensures
        ({
            let shown = restriction_views(policy.restrictions@);
            &&& shown.len() >= 3
            &&& shown[0].action == "plugin.pull"@
            &&& shown[1].action == "plugin.push"@
            &&& shown[2].action == "plugin.registry.credential_helper"@
            &&& shown[0].network_destinations.contains(origin) <==> registry_origin(
                config.plugins.registries@,
                origin,
            )
            &&& shown[1].network_destinations == shown[0].network_destinations
            &&& shown[2].network_destinations.len() == 0
            &&& shown.skip(3) == with_run_input(restriction_views(found.restrictions@), bounds.run_input_action@)
        }),
{
    let destinations = choose|destinations: Seq<Seq<char>>|
        #![trigger ascending(destinations)]
        ascending(destinations) && (forall|x: Seq<char>|
            #[trigger] destinations.contains(x) <==> registry_origin(config.plugins.registries@, x))
            && restriction_views(policy.restrictions@) == transfer_restrictions(
            workspace,
            config.plugins.registries@,
            destinations,
        ) + with_run_input(restriction_views(found.restrictions@), bounds.run_input_action@);
    let shown = restriction_views(policy.restrictions@);
    let transfers = transfer_restrictions(workspace, config.plugins.registries@, destinations);
    assert(transfers.len() == 3);
    assert(shown[0] == transfers[0] && shown[1] == transfers[1] && shown[2] == transfers[2]);
    assert(shown.skip(3) =~= with_run_input(restriction_views(found.restrictions@), bounds.run_input_action@));
}

} // verus!
