//! What a runtime may do: the tools a model sees and the authority behind each effect.

use crate::config::{
    authority, configured_resource_authority, extend_grants, extend_texts, FilesystemGrant, Platform,
    PluginMcpServerConfig, PluginsConfig, ResourceAuthority, RuntimeConfig, SandboxConfig,
};
use crate::development::DevelopmentSandbox;
use crate::entries::Entry;
use crate::error::{config_error, is_config_error, RuntimeError};
use crate::paths::{file_stem, path_file_stem};
use crate::text::{list_contains, lowercase, lowered, same_text, views};
use vstd::prelude::*;
use vstd::string::*;

verus! {

/// What kind of effect an action is.
#[derive(Clone, Copy, Debug, PartialEq, Eq, Structural)]
pub enum ActionClass {
    /// Reaches the network.
    ExternalNetwork,
    /// Runs a process.
    Execution,
}

/// Where a capability comes from.
#[derive(Clone, Copy, Debug, PartialEq, Eq, Structural)]
pub enum CapabilitySource {
    Core,
    Integration,
}

/// An action that access resolution decides about.
#[derive(Debug)]
pub struct ActionDescriptor {
    /// Its name.
    pub name: String,
    /// Its kind.
    pub class: ActionClass,
    /// Where it comes from.
    pub source: CapabilitySource,
}

/// The names of descriptors.
pub open spec fn descriptor_names(list: Seq<ActionDescriptor>) -> Seq<Seq<char>> {
    list.map_values(|descriptor: ActionDescriptor| descriptor.name@)
}

/// Whether a list of descriptors holds a name.
fn described(list: &Vec<ActionDescriptor>, name: &str) -> (found: bool)
    ensures
        found == descriptor_names(list@).contains(name@),
{
    let mut i: usize = 0;
    while i < list.len()
        invariant
            i <= list@.len(),
            forall|j: int| 0 <= j < i ==> #[trigger] list@[j].name@ != name@,
        decreases list@.len() - i,
    {
        if same_text(list[i].name.as_str(), name) {
            proof {
                assert(descriptor_names(list@)[i as int] == name@);
            }
            return true;
        }
        i = i + 1;
    }
    proof {
        assert forall|j: int| 0 <= j < list@.len() implies descriptor_names(list@)[j] != name@ by {
            assert(descriptor_names(list@)[j] == list@[j].name@);
        }
    }
    false
}

/// `list` with a descriptor of `name` added, unless `known` or `list` already describes it.
pub open spec fn with_action(
    known: Seq<Seq<char>>,
    list: Seq<(Seq<char>, ActionClass, CapabilitySource)>,
    name: Seq<char>,
    class: ActionClass,
    source: CapabilitySource,
) -> Seq<(Seq<char>, ActionClass, CapabilitySource)> {
    if known.contains(name) || exists|i: int| 0 <= i < list.len() && (#[trigger] list[i]).0 == name {
        list
    } else {
        list.push((name, class, source))
    }
}

/// A descriptor as characters.
pub open spec fn descriptor_view(descriptor: ActionDescriptor) -> (Seq<char>, ActionClass, CapabilitySource) {
    (descriptor.name@, descriptor.class, descriptor.source)
}

/// Descriptors as characters.
pub open spec fn descriptor_views(list: Seq<ActionDescriptor>) -> Seq<(Seq<char>, ActionClass, CapabilitySource)> {
    list.map_values(|descriptor: ActionDescriptor| descriptor_view(descriptor))
}

/// `list` with a descriptor of every action of `actions`, in order, each described once.
pub open spec fn with_actions(
    known: Seq<Seq<char>>,
    list: Seq<(Seq<char>, ActionClass, CapabilitySource)>,
    actions: Seq<Seq<char>>,
    class: ActionClass,
    source: CapabilitySource,
) -> Seq<(Seq<char>, ActionClass, CapabilitySource)>
    decreases actions.len(),
{
    if actions.len() == 0 {
        list
    } else {
        with_action(known, with_actions(known, list, actions.drop_last(), class, source), actions.last(), class, source)
    }
}

fn add_actions(
    known: &Vec<String>,
    list: &mut Vec<ActionDescriptor>,
    actions: &Vec<String>,
    class: ActionClass,
    source: CapabilitySource,
)
    ensures
        descriptor_views(final(list)@) == with_actions(
            views(known@),
            descriptor_views(old(list)@),
            views(actions@),
            class,
            source,
        ),
{
    let mut i: usize = 0;
    let ghost start = descriptor_views(list@);
    while i < actions.len()
        invariant
            i <= actions@.len(),
            start == descriptor_views(old(list)@),
            descriptor_views(list@) == with_actions(
                views(known@),
                start,
                views(actions@).take(i as int),
                class,
                source,
            ),
        decreases actions@.len() - i,
    {
        proof {
            assert(views(actions@).take(i + 1).drop_last() =~= views(actions@).take(i as int));
            assert(views(actions@).take(i + 1).last() == actions@[i as int]@);
        }
        let name = actions[i].as_str();
        let ghost before = list@;
        let is_described = described(list, name);
        proof {
            let shown = descriptor_views(before);
            let names = descriptor_names(before);
            if names.contains(name@) {
                let k = choose|k: int| 0 <= k < names.len() && names[k] == name@;
                assert(shown[k].0 == name@);
            }
            if exists|k: int| 0 <= k < shown.len() && (#[trigger] shown[k]).0 == name@ {
                let k = choose|k: int| 0 <= k < shown.len() && (#[trigger] shown[k]).0 == name@;
                assert(names[k] == name@);
            }
        }
        if !list_contains(known, name) && !is_described {
            list.push(ActionDescriptor { name: name.to_owned(), class, source });
            proof {
                assert(descriptor_views(list@) =~= descriptor_views(before).push((name@, class, source)));
            }
        }
        i = i + 1;
    }
    proof {
        assert(views(actions@).take(i as int) =~= views(actions@));
    }
}

/// The actions to describe beside the built-in ones: those of integrations, then those of plugins,
/// each once.
pub fn additional_actions(known: &Vec<String>, integration: &Vec<String>, plugin: &Vec<String>) -> (list: Vec<
    ActionDescriptor,
>)
    ensures
        descriptor_views(list@) == with_actions(
            views(known@),
            with_actions(
                views(known@),
                Seq::empty(),
                views(integration@),
                ActionClass::ExternalNetwork,
                CapabilitySource::Integration,
            ),
            views(plugin@),
            ActionClass::Execution,
            CapabilitySource::Core,
        ),
{
    let mut list: Vec<ActionDescriptor> = Vec::new();
    proof {
        assert(descriptor_views(list@) =~= Seq::<(Seq<char>, ActionClass, CapabilitySource)>::empty());
    }
    add_actions(known, &mut list, integration, ActionClass::ExternalNetwork, CapabilitySource::Integration);
    add_actions(known, &mut list, plugin, ActionClass::Execution, CapabilitySource::Core);
    list
}

/// The facts that tool selection depends on.
#[derive(Clone, Copy, Debug, PartialEq, Eq, Structural)]
pub struct AccessContext {
    /// A filesystem root can be read.
    pub filesystem_read: bool,
    /// A filesystem root can be written.
    pub filesystem_write: bool,
    /// Exactly one git executable can be used.
    pub git_executable: bool,
    /// Some executable can be used.
    pub any_executable: bool,
    /// Some network destination can be reached.
    pub network_destination: bool,
    /// Models may use network tools.
    pub model_network_tools: bool,
    /// Agents have a search route.
    pub agent_search_route: bool,
    /// A user can be asked.
    pub interactive: bool,
    /// Some MCP server can be used.
    pub mcp_configured: bool,
}

/// What the host found out for the access context.
#[derive(Clone, Copy, Debug, PartialEq, Eq, Structural)]
pub struct HostAccess {
    /// A git executable is on the search path of the host.
    pub ambient_git: bool,
    /// Models may use network tools.
    pub model_network_tools: bool,
    /// Agents have a search route.
    pub agent_search_route: bool,
    /// A user can be asked.
    pub interactive: bool,
    /// Some MCP server is composed.
    pub mcp_servers: bool,
}

/// The executable is git, by the stem of its file name in any case.
pub open spec fn is_git(platform: Platform, path: Seq<char>) -> bool {
    file_stem(platform, path) matches Some(name) && lowered(name) == "git"@
}

/// Whether the executable is git, by the stem of its file name in any case.
pub fn git_named(platform: Platform, path: &str) -> (yes: bool)
    ensures
        yes == is_git(platform, path@),
{
    match path_file_stem(platform, path) {
        Some(name) => {
            let name = lowercase(name.as_str());
            same_text(name.as_str(), "git")
        },
        None => false,
    }
}

/// The number of git executables in a list.
pub open spec fn git_count(platform: Platform, list: Seq<String>) -> nat
    decreases list.len(),
{
    if list.len() == 0 {
        0
    } else if is_git(platform, list.last()@) {
        git_count(platform, list.drop_last()) + 1
    } else {
        git_count(platform, list.drop_last())
    }
}

/// The grant lets its root be read.
pub open spec fn grants_read(grant: FilesystemGrant) -> bool {
    grant.mode@ == "read"@ || grant.mode@ == "write"@ || grant.mode@ == "metadata"@
}

/// Some grant lets its root be read.
pub open spec fn some_read(list: Seq<FilesystemGrant>) -> bool {
    exists|i: int| 0 <= i < list.len() && grants_read(#[trigger] list[i])
}

/// Some grant lets its root be written.
pub open spec fn some_write(list: Seq<FilesystemGrant>) -> bool {
    exists|i: int| 0 <= i < list.len() && (#[trigger] list[i]).mode@ == "write"@
}

/// Some plugin server overlay is enabled.
pub open spec fn some_overlay(list: Seq<Entry<PluginMcpServerConfig>>) -> bool {
    exists|i: int| 0 <= i < list.len() && (#[trigger] list[i]).value.enabled
}

fn count_git(platform: Platform, list: &Vec<String>) -> (count: usize)
    ensures
        count == git_count(platform, list@),
{
    let mut count: usize = 0;
    let mut i: usize = 0;
    while i < list.len()
        invariant
            i <= list@.len(),
            count <= i,
            count == git_count(platform, list@.take(i as int)),
        decreases list@.len() - i,
    {
        proof {
            assert(list@.take(i + 1).drop_last() =~= list@.take(i as int));
        }
        if git_named(platform, list[i].as_str()) {
            count = count + 1;
        }
        i = i + 1;
    }
    proof {
        assert(list@.take(i as int) =~= list@);
    }
    count
}

fn any_read(list: &Vec<FilesystemGrant>) -> (yes: bool)
    ensures
        yes == some_read(list@),
{
    let mut i: usize = 0;
    while i < list.len()
        invariant
            i <= list@.len(),
            forall|j: int| 0 <= j < i ==> !grants_read(#[trigger] list@[j]),
        decreases list@.len() - i,
    {
        let mode = list[i].mode.as_str();
        if same_text(mode, "read") || same_text(mode, "write") || same_text(mode, "metadata") {
            return true;
        }
        i = i + 1;
    }
    false
}

fn any_write(list: &Vec<FilesystemGrant>) -> (yes: bool)
    ensures
        yes == some_write(list@),
{
    let mut i: usize = 0;
    while i < list.len()
        invariant
            i <= list@.len(),
            forall|j: int| 0 <= j < i ==> (#[trigger] list@[j]).mode@ != "write"@,
        decreases list@.len() - i,
    {
        if same_text(list[i].mode.as_str(), "write") {
            return true;
        }
        i = i + 1;
    }
    false
}

fn any_overlay(list: &Vec<Entry<PluginMcpServerConfig>>) -> (yes: bool)
    ensures
        yes == some_overlay(list@),
{
    let mut i: usize = 0;
    while i < list.len()
        invariant
            i <= list@.len(),
            forall|j: int| 0 <= j < i ==> !(#[trigger] list@[j]).value.enabled,
        decreases list@.len() - i,
    {
        if list[i].value.enabled {
            return true;
        }
        i = i + 1;
    }
    false
}

/// The access context of a sandbox: everything is reachable where nothing isolates, else what the
/// grants and executables say.
pub open spec fn context_of(
    platform: Platform,
    sandbox: SandboxConfig,
    plugins: PluginsConfig,
    executables: Seq<String>,
    filesystem: Seq<FilesystemGrant>,
    host: HostAccess,
) -> AccessContext {
    let danger = authority(sandbox) == ResourceAuthority::Ambient;
    AccessContext {
        filesystem_read: danger || some_read(filesystem),
        filesystem_write: danger || some_write(filesystem),
        git_executable: git_count(platform, executables) == 1 || (danger && host.ambient_git),
        any_executable: danger || executables.len() > 0,
        network_destination: danger || sandbox.network_destinations@.len() > 0,
        model_network_tools: host.model_network_tools,
        agent_search_route: host.agent_search_route,
        interactive: host.interactive,
        mcp_configured: host.mcp_servers || some_overlay(plugins.mcp_servers@),
    }
}

/// The access context of a sandbox.
pub fn access_context(
    platform: Platform,
    sandbox: &SandboxConfig,
    plugins: &PluginsConfig,
    executables: &Vec<String>,
    filesystem: &Vec<FilesystemGrant>,
    host: HostAccess,
) -> (context: AccessContext)
    ensures
        context == context_of(platform, *sandbox, *plugins, executables@, filesystem@, host),
{
    let danger: bool = configured_resource_authority(sandbox) == ResourceAuthority::Ambient;
    AccessContext {
        filesystem_read: danger || any_read(filesystem),
        filesystem_write: danger || any_write(filesystem),
        git_executable: count_git(platform, executables) == 1 || (danger && host.ambient_git),
        any_executable: danger || executables.len() > 0,
        network_destination: danger || sandbox.network_destinations.len() > 0,
        model_network_tools: host.model_network_tools,
        agent_search_route: host.agent_search_route,
        interactive: host.interactive,
        mcp_configured: host.mcp_servers || any_overlay(&plugins.mcp_servers),
    }
}

/// What access resolution decided for an action.
#[derive(Clone, Copy, Debug, PartialEq, Eq, Structural)]
pub enum AccessDecision {
    Allow,
    RequireApproval,
    Deny,
    ExternalPolicy,
}

/// What policy decides for an effect.
#[derive(Clone, Copy, Debug, PartialEq, Eq, Structural)]
pub enum DecisionOutcome {
    Allow,
    RequireApproval,
    Deny,
}

/// An action with what access resolution decided for it.
#[derive(Debug)]
pub struct ResolvedAction {
    /// Its name.
    pub name: String,
    /// The decision.
    pub decision: AccessDecision,
}

/// An action with what built-in policy decides for it.
#[derive(Debug)]
pub struct ActionOutcome {
    /// Its name.
    pub name: String,
    /// The outcome.
    pub outcome: DecisionOutcome,
}

/// The outcome that a decision stands for; none where another policy decides.
pub open spec fn outcome_of(decision: AccessDecision) -> Option<DecisionOutcome> {
    match decision {
        AccessDecision::Allow => Some(DecisionOutcome::Allow),
        AccessDecision::RequireApproval => Some(DecisionOutcome::RequireApproval),
        AccessDecision::Deny => Some(DecisionOutcome::Deny),
        AccessDecision::ExternalPolicy => None,
    }
}

/// The outcomes of actions in order; reading a run input goes by reading a file.
pub open spec fn outcomes(list: Seq<ResolvedAction>, run_input_action: Seq<char>) -> Seq<(Seq<char>, DecisionOutcome)>
    decreases list.len(),
{
    if list.len() == 0 {
        Seq::empty()
    } else {
        let before = outcomes(list.drop_last(), run_input_action);
        let action = list.last();
        let outcome = outcome_of(action.decision)->0;
        if action.name@ == "filesystem.read"@ {
            before.push((action.name@, outcome)).push((run_input_action, outcome))
        } else {
            before.push((action.name@, outcome))
        }
    }
}

/// Outcomes as characters.
pub open spec fn outcome_views(list: Seq<ActionOutcome>) -> Seq<(Seq<char>, DecisionOutcome)> {
    list.map_values(|entry: ActionOutcome| (entry.name@, entry.outcome))
}

/// Some action is left to another policy.
pub open spec fn some_external(list: Seq<ResolvedAction>) -> bool {
    exists|i: int| 0 <= i < list.len() && (#[trigger] list[i]).decision == AccessDecision::ExternalPolicy
}

/// The outcomes that built-in policy is given, or the failure where an action is left to another
/// policy.
pub fn builtin_outcomes(list: &Vec<ResolvedAction>, run_input_action: &str) -> (result: Result<
    Vec<ActionOutcome>,
    RuntimeError,
>)
    ensures
        if some_external(list@) {
            is_config_error(result, "built-in policy received an external access decision"@)
        } else {
            result matches Ok(given) && outcome_views(given@) == outcomes(list@, run_input_action@)
        },
{
    let mut given: Vec<ActionOutcome> = Vec::new();
    let mut i: usize = 0;
    proof {
        assert(outcome_views(given@) =~= outcomes(list@.take(0), run_input_action@));
    }
    while i < list.len()
        invariant
            i <= list@.len(),
            forall|j: int| 0 <= j < i ==> (#[trigger] list@[j]).decision != AccessDecision::ExternalPolicy,
            outcome_views(given@) == outcomes(list@.take(i as int), run_input_action@),
        decreases list@.len() - i,
    {
        proof {
            assert(list@.take(i + 1).drop_last() =~= list@.take(i as int));
        }
        let outcome = match list[i].decision {
            AccessDecision::Allow => DecisionOutcome::Allow,
            AccessDecision::RequireApproval => DecisionOutcome::RequireApproval,
            AccessDecision::Deny => DecisionOutcome::Deny,
            AccessDecision::ExternalPolicy => {
                return config_error("built-in policy received an external access decision");
            },
        };
        let ghost before = outcome_views(given@);
        given.push(ActionOutcome { name: list[i].name.clone(), outcome });
        proof {
            assert(outcome_views(given@) =~= before.push((list@[i as int].name@, outcome)));
        }
        if same_text(list[i].name.as_str(), "filesystem.read") {
            given.push(ActionOutcome { name: run_input_action.to_owned(), outcome });
            proof {
                assert(outcome_views(given@) =~= before.push((list@[i as int].name@, outcome)).push(
                    (run_input_action@, outcome),
                ));
            }
        }
        i = i + 1;
    }
    proof {
        assert(list@.take(i as int) =~= list@);
    }
    Ok(given)
}

/// What access resolution starts from.
#[derive(Debug)]
pub struct AccessPreparation {
    /// Actions to describe beside the built-in ones.
    pub actions: Vec<ActionDescriptor>,
    /// Executables of the configuration, then of the development preset.
    pub executables: Vec<String>,
    /// Grants of the configuration, then of the development preset.
    pub filesystem: Vec<FilesystemGrant>,
    /// The facts that tool selection depends on.
    pub context: AccessContext,
}

/// The names of the actions that are described already, that integrations bring and that plugins bring.
#[derive(Debug)]
pub struct ActionNames {
    /// Built-in actions.
    pub known: Vec<String>,
    /// Actions of integrations.
    pub integration: Vec<String>,
    /// Actions of plugins.
    pub plugin: Vec<String>,
}

/// Prepares access resolution from a configuration and its development preset, so that the tools a
/// model sees and the authority of effects come from the same grants.
pub fn prepare_access(
    platform: Platform,
    config: &RuntimeConfig,
    development: &DevelopmentSandbox,
    names: &ActionNames,
    host: HostAccess,
) -> (preparation: AccessPreparation)
    ensures
        preparation.executables@ == config.sandbox.executables@ + development.executables@,
        preparation.filesystem@ == config.sandbox.filesystem@ + development.filesystem@,
        preparation.context == context_of(
            platform,
            config.sandbox,
            config.plugins,
            config.sandbox.executables@ + development.executables@,
            config.sandbox.filesystem@ + development.filesystem@,
            host,
        ),
        descriptor_views(preparation.actions@) == with_actions(
            views(names.known@),
            with_actions(
                views(names.known@),
                Seq::empty(),
                views(names.integration@),
                ActionClass::ExternalNetwork,
                CapabilitySource::Integration,
            ),
            views(names.plugin@),
            ActionClass::Execution,
            CapabilitySource::Core,
        ),
{
    let mut executables: Vec<String> = Vec::new();
    extend_texts(&mut executables, &config.sandbox.executables);
    extend_texts(&mut executables, &development.executables);
    let mut filesystem: Vec<FilesystemGrant> = Vec::new();
    extend_grants(&mut filesystem, &config.sandbox.filesystem);
    extend_grants(&mut filesystem, &development.filesystem);
    proof {
        assert(executables@ =~= config.sandbox.executables@ + development.executables@);
        assert(filesystem@ =~= config.sandbox.filesystem@ + development.filesystem@);
    }
    let context = access_context(platform, &config.sandbox, &config.plugins, &executables, &filesystem, host);
    let actions = additional_actions(&names.known, &names.integration, &names.plugin);
    AccessPreparation { actions, executables, filesystem, context }
}

/// Every action that integrations or plugins bring is described, by itself or before.
pub proof fn every_action_is_described(
    known: Seq<Seq<char>>,
    list: Seq<(Seq<char>, ActionClass, CapabilitySource)>,
    actions: Seq<Seq<char>>,
    class: ActionClass,
    source: CapabilitySource,
    name: Seq<char>,
)
    requires
        actions.contains(name),
    ensures
        known.contains(name) || exists|i: int|
            0 <= i < with_actions(known, list, actions, class, source).len() && (#[trigger] with_actions(
                known,
                list,
                actions,
                class,
                source,
            )[i]).0 == name,
    decreases actions.len(),
{
    let before = with_actions(known, list, actions.drop_last(), class, source);
    let after = with_actions(known, list, actions, class, source);
    if actions.last() == name {
        if !known.contains(name) && !(exists|i: int| 0 <= i < before.len() && (#[trigger] before[i]).0 == name) {
            assert(after[before.len() as int].0 == name);
        } else if !known.contains(name) {
            let i = choose|i: int| 0 <= i < before.len() && (#[trigger] before[i]).0 == name;
            assert(after[i].0 == name);
        }
    } else {
        let k = choose|k: int| 0 <= k < actions.len() && actions[k] == name;
        assert(actions.drop_last()[k] == name);
        every_action_is_described(known, list, actions.drop_last(), class, source, name);
        if !known.contains(name) {
            let i = choose|i: int| 0 <= i < before.len() && (#[trigger] before[i]).0 == name;
            assert(after[i].0 == name);
        }
    }
}

/// A destination that the sandbox lists can be reached whatever the backend, and where it lists none
/// under a backend that isolates, none can.
pub proof fn listed_destinations_are_reached(
    platform: Platform,
    sandbox: SandboxConfig,
    plugins: PluginsConfig,
    executables: Seq<String>,
    filesystem: Seq<FilesystemGrant>,
    host: HostAccess,
)
    ensures
        ({
            let context = context_of(platform, sandbox, plugins, executables, filesystem, host);
            &&& sandbox.network_destinations@.len() > 0 ==> context.network_destination
            &&& sandbox.network_destinations@.len() == 0 && sandbox.backend@ != "danger_full_access"@
                ==> !context.network_destination
        }),
{
}

/// A granted executable can be run and a granted directory can be read or written, whatever the
/// backend; under a backend that isolates, nothing can that is not granted.
pub proof fn grants_are_what_can_be_used(
    platform: Platform,
    sandbox: SandboxConfig,
    plugins: PluginsConfig,
    executables: Seq<String>,
    filesystem: Seq<FilesystemGrant>,
    host: HostAccess,
)
    ensures
        ({
            let context = context_of(platform, sandbox, plugins, executables, filesystem, host);
            let readable = exists|i: int|
                0 <= i < filesystem.len() && ((#[trigger] filesystem[i]).mode@ == "read"@ || filesystem[i].mode@
                    == "write"@ || filesystem[i].mode@ == "metadata"@);
            let writable = exists|i: int| 0 <= i < filesystem.len() && (#[trigger] filesystem[i]).mode@ == "write"@;
            &&& executables.len() > 0 ==> context.any_executable
            &&& readable ==> context.filesystem_read
            &&& writable ==> context.filesystem_read && context.filesystem_write
            &&& sandbox.backend@ != "danger_full_access"@ ==> {
                &&& context.any_executable == (executables.len() > 0)
                &&& context.filesystem_read == readable
                &&& context.filesystem_write == writable
            }
        }),
{
    if exists|i: int|
        0 <= i < filesystem.len() && ((#[trigger] filesystem[i]).mode@ == "read"@ || filesystem[i].mode@ == "write"@
            || filesystem[i].mode@ == "metadata"@) {
        let i = choose|i: int|
            0 <= i < filesystem.len() && ((#[trigger] filesystem[i]).mode@ == "read"@ || filesystem[i].mode@
                == "write"@ || filesystem[i].mode@ == "metadata"@);
        assert(grants_read(filesystem[i]));
    }
    if exists|i: int| 0 <= i < filesystem.len() && (#[trigger] filesystem[i]).mode@ == "write"@ {
        let i = choose|i: int| 0 <= i < filesystem.len() && (#[trigger] filesystem[i]).mode@ == "write"@;
        assert(grants_read(filesystem[i]));
    }
}

/// The backend without a boundary lets everything be read, written, run and reached.
pub proof fn full_access_is_full(
    platform: Platform,
    sandbox: SandboxConfig,
    plugins: PluginsConfig,
    executables: Seq<String>,
    filesystem: Seq<FilesystemGrant>,
    host: HostAccess,
)
    requires
        sandbox.backend@ == "danger_full_access"@,
    ensures
        ({
            let context = context_of(platform, sandbox, plugins, executables, filesystem, host);
            &&& context.filesystem_read && context.filesystem_write
            &&& context.any_executable && context.network_destination
            &&& host.ambient_git ==> context.git_executable
        }),
{
}

/// What the host says is passed on: its tools, its search route and whether somebody answers. A server
/// is configured where the host has one or an overlay enables one, and nowhere else.
pub proof fn host_facts_are_passed_on(
    platform: Platform,
    sandbox: SandboxConfig,
    plugins: PluginsConfig,
    executables: Seq<String>,
    filesystem: Seq<FilesystemGrant>,
    host: HostAccess,
)
    ensures
        ({
            let context = context_of(platform, sandbox, plugins, executables, filesystem, host);
            &&& context.model_network_tools == host.model_network_tools
            &&& context.agent_search_route == host.agent_search_route
            &&& context.interactive == host.interactive
            &&& context.mcp_configured <==> host.mcp_servers || exists|i: int|
                0 <= i < plugins.mcp_servers@.len() && (#[trigger] plugins.mcp_servers@[i]).value.enabled
        }),
{
}

/// Git can be used under an isolating backend exactly where one executable is called git: not where none
/// is, and not where two are.
pub proof fn one_git_is_used(
    platform: Platform,
    sandbox: SandboxConfig,
    plugins: PluginsConfig,
    executables: Seq<String>,
    filesystem: Seq<FilesystemGrant>,
    host: HostAccess,
    at: int,
)
    requires
        sandbox.backend@ != "danger_full_access"@,
        0 <= at < executables.len(),
        is_git(platform, executables[at]@),
    ensures
        context_of(platform, sandbox, plugins, executables, filesystem, host).git_executable <==> forall|i: int|
            0 <= i < executables.len() && i != at ==> !is_git(platform, (#[trigger] executables[i])@),
{
    gits_are_counted(platform, executables, at);
}

proof fn gits_are_counted(platform: Platform, list: Seq<String>, at: int)
    requires
        0 <= at < list.len(),
        is_git(platform, list[at]@),
    ensures
        git_count(platform, list) >= 1,
        git_count(platform, list) == 1 <==> forall|i: int|
            0 <= i < list.len() && i != at ==> !is_git(platform, (#[trigger] list[i])@),
    decreases list.len(),
{
    let front = list.drop_last();
    if at < front.len() {
        gits_are_counted(platform, front, at);
        if git_count(platform, list) == 1 {
            assert forall|i: int| 0 <= i < list.len() && i != at implies !is_git(platform, (#[trigger] list[i])@) by {
                if i < front.len() {
                    assert(front[i] == list[i]);
                }
            }
        }
        if forall|i: int| 0 <= i < list.len() && i != at ==> !is_git(platform, (#[trigger] list[i])@) {
            assert forall|i: int| 0 <= i < front.len() && i != at implies !is_git(
                platform,
                (#[trigger] front[i])@,
            ) by {
                assert(front[i] == list[i]);
            }
            assert(!is_git(platform, list[list.len() - 1]@));
        }
    } else {
        no_git_is_counted(platform, front);
        if git_count(platform, list) == 1 {
            assert forall|i: int| 0 <= i < list.len() && i != at implies !is_git(platform, (#[trigger] list[i])@) by {
                assert(front[i] == list[i]);
            }
        }
        if forall|i: int| 0 <= i < list.len() && i != at ==> !is_git(platform, (#[trigger] list[i])@) {
            assert forall|i: int| 0 <= i < front.len() implies !is_git(platform, (#[trigger] front[i])@) by {
                assert(front[i] == list[i]);
            }
        }
    }
}

proof fn no_git_is_counted(platform: Platform, list: Seq<String>)
    ensures
        git_count(platform, list) == 0 <==> forall|i: int|
            0 <= i < list.len() ==> !is_git(platform, (#[trigger] list[i])@),
    decreases list.len(),
{
    if list.len() > 0 {
        let front = list.drop_last();
        no_git_is_counted(platform, front);
        if git_count(platform, list) == 0 {
            assert forall|i: int| 0 <= i < list.len() implies !is_git(platform, (#[trigger] list[i])@) by {
                if i < front.len() {
                    assert(front[i] == list[i]);
                }
            }
        }
        if forall|i: int| 0 <= i < list.len() ==> !is_git(platform, (#[trigger] list[i])@) {
            assert forall|i: int| 0 <= i < front.len() implies !is_git(platform, (#[trigger] front[i])@) by {
                assert(front[i] == list[i]);
            }
            assert(!is_git(platform, list[list.len() - 1]@));
        }
    }
}

/// An action that is granted in no way stays in the way it was decided: each decision of the policy
/// itself has the outcome of the same name, and one that an outside policy takes has none.
pub proof fn decisions_keep_their_outcome(decision: AccessDecision)
    ensures
        decision is Allow <==> outcome_of(decision) == Some(DecisionOutcome::Allow),
        decision is RequireApproval <==> outcome_of(decision) == Some(DecisionOutcome::RequireApproval),
        decision is Deny <==> outcome_of(decision) == Some(DecisionOutcome::Deny),
        decision is ExternalPolicy <==> outcome_of(decision) is None,
{
}

/// Every resolved action is among the outcomes with its own decision, the run's inputs are decided as
/// reading a file is, and nothing else is decided.
pub proof fn every_resolved_action_is_decided(list: Seq<ResolvedAction>, run_input_action: Seq<char>, at: int)
    requires
        0 <= at < list.len(),
    ensures
        outcomes(list, run_input_action).contains((list[at].name@, outcome_of(list[at].decision)->0)),
        list[at].name@ == "filesystem.read"@ ==> outcomes(list, run_input_action).contains(
            (run_input_action, outcome_of(list[at].decision)->0),
        ),
    decreases list.len(),
{
    let all = outcomes(list, run_input_action);
    let before = outcomes(list.drop_last(), run_input_action);
    if at < list.len() - 1 {
        every_resolved_action_is_decided(list.drop_last(), run_input_action, at);
        let pair = (list[at].name@, outcome_of(list[at].decision)->0);
        let i = choose|i: int| 0 <= i < before.len() && before[i] == pair;
        assert(all[i] == pair);
        if list[at].name@ == "filesystem.read"@ {
            let pair = (run_input_action, outcome_of(list[at].decision)->0);
            let i = choose|i: int| 0 <= i < before.len() && before[i] == pair;
            assert(all[i] == pair);
        }
    } else {
        assert(all[before.len() as int] == (list[at].name@, outcome_of(list[at].decision)->0));
        if list[at].name@ == "filesystem.read"@ {
            assert(all[before.len() as int + 1] == (run_input_action, outcome_of(list[at].decision)->0));
        }
    }
}

/// Nothing is decided that was not resolved.
pub proof fn only_resolved_actions_are_decided(list: Seq<ResolvedAction>, run_input_action: Seq<char>, at: int)
    requires
        0 <= at < outcomes(list, run_input_action).len(),
    ensures
        exists|i: int|
            0 <= i < list.len() && outcome_of((#[trigger] list[i]).decision)->0 == outcomes(
                list,
                run_input_action,
            )[at].1 && (list[i].name@ == outcomes(list, run_input_action)[at].0 || (list[i].name@ == "filesystem.read"@
                && run_input_action == outcomes(list, run_input_action)[at].0)),
    decreases list.len(),
{
    let before = outcomes(list.drop_last(), run_input_action);
    if at < before.len() {
        only_resolved_actions_are_decided(list.drop_last(), run_input_action, at);
        let found = choose|i: int|
            0 <= i < list.drop_last().len() && outcome_of((#[trigger] list.drop_last()[i]).decision)->0 == before[at].1
                && (list.drop_last()[i].name@ == before[at].0 || (list.drop_last()[i].name@ == "filesystem.read"@
                && run_input_action == before[at].0));
        assert(list[found] == list.drop_last()[found]);
        assert(outcomes(list, run_input_action)[at] == before[at]);
    } else {
        assert(list[list.len() - 1] == list.last());
    }
}

/// Lists of actions are taken to hold an external decision where one of them does: two lists together do
/// where either does, and a single action is asked for its own decision.
pub proof fn external_decisions_are_noticed(first: Seq<ResolvedAction>, second: Seq<ResolvedAction>, one: ResolvedAction)
    ensures
        some_external(first + second) <==> some_external(first) || some_external(second),
        some_external(seq![one]) <==> one.decision is ExternalPolicy,
        !some_external(Seq::<ResolvedAction>::empty()),
{
    let both = first + second;
    if some_external(first) {
        let i = choose|i: int|
            0 <= i < first.len() && (#[trigger] first[i]).decision == AccessDecision::ExternalPolicy;
        assert(both[i] == first[i]);
    }
    if some_external(second) {
        let i = choose|i: int|
            0 <= i < second.len() && (#[trigger] second[i]).decision == AccessDecision::ExternalPolicy;
        assert(both[first.len() + i] == second[i]);
    }
    if some_external(both) {
        let i = choose|i: int| 0 <= i < both.len() && (#[trigger] both[i]).decision == AccessDecision::ExternalPolicy;
        if i < first.len() {
            assert(first[i] == both[i]);
        } else {
            assert(second[i - first.len()] == both[i]);
        }
    }
    assert(seq![one][0] == one);
}

/// Git is known by its name before the extension, in capital letters or in small ones.
pub proof fn git_is_known_by_its_stem(platform: Platform, path: Seq<char>)
    ensures
        file_stem(platform, path) is None ==> !is_git(platform, path),
        file_stem(platform, path) matches Some(name) ==> (is_git(platform, path) <==> lowered(name) == "git"@),
{
}

/// A grant can be read where its mode is to read, to write or to see metadata, and written where it is to
/// write; one such grant is enough.
pub proof fn modes_say_what_can_be_done(list: Seq<FilesystemGrant>, grant: FilesystemGrant)
    ensures
        some_write(list.push(grant)) <==> some_write(list) || grant.mode@ == "write"@,
        some_read(list.push(grant)) <==> some_read(list) || grant.mode@ == "write"@ || grant.mode@ == "read"@
            || grant.mode@ == "metadata"@,
        !some_write(Seq::<FilesystemGrant>::empty()),
        !some_read(Seq::<FilesystemGrant>::empty()),
{
    let longer = list.push(grant);
    assert(longer[list.len() as int] == grant);
    assert forall|i: int| 0 <= i < list.len() implies longer[i] == #[trigger] list[i] by {}
    if some_write(longer) {
        let i = choose|i: int| 0 <= i < longer.len() && (#[trigger] longer[i]).mode@ == "write"@;
        assert(i < list.len() ==> list[i].mode@ == "write"@);
    }
    if some_read(longer) {
        let i = choose|i: int| 0 <= i < longer.len() && grants_read(#[trigger] longer[i]);
        assert(i < list.len() ==> grants_read(list[i]));
    }
    if some_write(list) {
        let i = choose|i: int| 0 <= i < list.len() && (#[trigger] list[i]).mode@ == "write"@;
        assert(longer[i].mode@ == "write"@);
    }
    if some_read(list) {
        let i = choose|i: int| 0 <= i < list.len() && grants_read(#[trigger] list[i]);
        assert(grants_read(longer[i]));
    }
}

/// Without a configured executable, full access has the git of the host, where the host has one, and a
/// confined sandbox has none.
pub proof fn full_access_uses_the_git_of_the_host(
    platform: Platform,
    sandbox: SandboxConfig,
    plugins: PluginsConfig,
    executables: Seq<String>,
    filesystem: Seq<FilesystemGrant>,
    host: HostAccess,
)
    requires
        executables.len() == 0,
    ensures
        sandbox.backend@ == "danger_full_access"@ ==> context_of(
            platform,
            sandbox,
            plugins,
            executables,
            filesystem,
            host,
        ).git_executable == host.ambient_git,
        sandbox.backend@ != "danger_full_access"@ ==> !context_of(
            platform,
            sandbox,
            plugins,
            executables,
            filesystem,
            host,
        ).git_executable,
{
}

} // verus!
