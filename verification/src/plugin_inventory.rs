//! Installed plugins as a workspace sees them.

use crate::config::PluginsConfig;
use crate::effects::{execution_failure, fails, ExecutionError};
use crate::entries::lookup;
use crate::json::{
    field_flag, field_text, json_field_flag, json_field_text, json_pointer_keys, pointer_keys,
};
use crate::plugin_extensions::enabled_overlay;
use crate::text::{list_contains, optional_view, same_text, views};
use vstd::prelude::*;
use vstd::string::*;

verus! {

/// A diagnostic of an installed plugin, as far as its servers depend on it.
#[derive(Debug)]
pub struct InventoryDiagnostic {
    /// Whether it is about an MCP server.
    pub about_server: bool,
    /// The component that it is about; all of its kind where absent.
    pub name: Option<String>,
}

/// A server of an installed plugin.
#[derive(Debug)]
pub struct InventoryServer {
    pub id: String,
    pub name: String,
    pub enabled: bool,
    pub status: String,
}

/// An installed plugin.
#[derive(Debug)]
pub struct PluginInventoryEntry {
    pub name: String,
    pub digest: String,
    /// Whether it is enabled for all workspaces.
    pub globally_enabled: bool,
    pub available: bool,
    pub unavailable_reason: Option<String>,
    pub diagnostics: Vec<InventoryDiagnostic>,
    pub mcp_servers: Vec<InventoryServer>,
}

/// Why a workspace does not expose a plugin, if so.
pub open spec fn exclusion(config: PluginsConfig, name: Seq<char>) -> Option<Seq<char>> {
    if !config.enabled {
        Some("All plugins are disabled for this workspace"@)
    } else if views(config.exclude@).contains(name) {
        Some("Plugin is excluded by this workspace"@)
    } else if config.include_names@.len() > 0 && !views(config.include_names@).contains(name) {
        Some("Plugin is not included by this workspace"@)
    } else {
        None
    }
}

fn exclusion_reason(config: &PluginsConfig, name: &str) -> (reason: Option<&'static str>)
    ensures
        match exclusion(*config, name@) {
            Some(text) => reason matches Some(shown) && shown@ == text,
            None => reason is None,
        },
{
    if !config.enabled {
        Some("All plugins are disabled for this workspace")
    } else if list_contains(&config.exclude, name) {
        Some("Plugin is excluded by this workspace")
    } else if config.include_names.len() != 0 && !list_contains(&config.include_names, name) {
        Some("Plugin is not included by this workspace")
    } else {
        None
    }
}

/// A diagnostic is about this server.
pub open spec fn concerns(diagnostic: InventoryDiagnostic, server: Seq<char>) -> bool {
    diagnostic.about_server && (diagnostic.name matches Some(name) ==> name@ == server)
}

/// Some diagnostic is about this server.
pub open spec fn server_failed(diagnostics: Seq<InventoryDiagnostic>, server: Seq<char>) -> bool {
    exists|i: int| 0 <= i < diagnostics.len() && concerns(#[trigger] diagnostics[i], server)
}

fn has_failed(diagnostics: &Vec<InventoryDiagnostic>, server: &str) -> (yes: bool)
    ensures
        yes == server_failed(diagnostics@, server@),
{
    let mut i: usize = 0;
    while i < diagnostics.len()
        invariant
            i <= diagnostics@.len(),
            forall|j: int| 0 <= j < i ==> !concerns(#[trigger] diagnostics@[j], server@),
        decreases diagnostics@.len() - i,
    {
        let diagnostic = &diagnostics[i];
        let named = match &diagnostic.name {
            Some(name) => same_text(name.as_str(), server),
            None => true,
        };
        if diagnostic.about_server && named {
            proof {
                assert(concerns(diagnostics@[i as int], server@));
            }
            return true;
        }
        i = i + 1;
    }
    false
}

/// The status of a server.
pub open spec fn server_status(enabled: bool, available: bool, failed: bool) -> Seq<char> {
    if !enabled {
        "Requires explicit runtime enablement"@
    } else if !available {
        "Plugin unavailable in this workspace"@
    } else if failed {
        "Invalid component configuration; see diagnostics"@
    } else {
        "Configured"@
    }
}

/// A server as the workspace sees it.
pub open spec fn narrowed_server(
    seen: InventoryServer,
    server: InventoryServer,
    available: bool,
    diagnostics: Seq<InventoryDiagnostic>,
    config: PluginsConfig,
) -> bool {
    let enabled = enabled_overlay(config, server.id@) is Some;
    &&& seen.id == server.id
    &&& seen.name == server.name
    &&& seen.enabled == enabled
    &&& seen.status@ == server_status(enabled, available, server_failed(diagnostics, server.name@))
}

/// A plugin as the workspace sees it: what the workspace leaves out becomes unavailable, for the
/// reason that was there or for that of the workspace; nothing else of the installation changes.
pub open spec fn narrowed(seen: PluginInventoryEntry, plugin: PluginInventoryEntry, config: PluginsConfig) -> bool {
    let reason = exclusion(config, plugin.name@);
    &&& seen.name == plugin.name
    &&& seen.digest == plugin.digest
    &&& seen.globally_enabled == plugin.globally_enabled
    &&& seen.diagnostics@ == plugin.diagnostics@
    &&& seen.available == (plugin.available && reason is None)
    &&& optional_view(seen.unavailable_reason) == match plugin.unavailable_reason {
        Some(given) => Some(given@),
        None => reason,
    }
    &&& seen.mcp_servers@.len() == plugin.mcp_servers@.len()
    &&& forall|i: int|
        0 <= i < plugin.mcp_servers@.len() ==> narrowed_server(
            #[trigger] seen.mcp_servers@[i],
            plugin.mcp_servers@[i],
            seen.available,
            plugin.diagnostics@,
            config,
        )
}

fn narrow_server(
    server: &InventoryServer,
    available: bool,
    diagnostics: &Vec<InventoryDiagnostic>,
    config: &PluginsConfig,
) -> (seen: InventoryServer)
    ensures
        narrowed_server(seen, *server, available, diagnostics@, *config),
{
    let enabled = match lookup(&config.mcp_servers, server.id.as_str()) {
        Some(overlay) => overlay.enabled,
        None => false,
    };
    let failed = has_failed(diagnostics, server.name.as_str());
    let status = if !enabled {
        "Requires explicit runtime enablement"
    } else if !available {
        "Plugin unavailable in this workspace"
    } else if failed {
        "Invalid component configuration; see diagnostics"
    } else {
        "Configured"
    };
    InventoryServer { id: server.id.clone(), name: server.name.clone(), enabled, status: status.to_owned() }
}

fn narrow_plugin(plugin: PluginInventoryEntry, config: &PluginsConfig) -> (seen: PluginInventoryEntry)
    ensures
        narrowed(seen, plugin, *config),
{
    let reason = exclusion_reason(config, plugin.name.as_str());
    let available = plugin.available && reason.is_none();
    let unavailable_reason = match plugin.unavailable_reason {
        Some(given) => Some(given),
        None => match reason {
            Some(text) => Some(text.to_owned()),
            None => None,
        },
    };
    let mut mcp_servers: Vec<InventoryServer> = Vec::new();
    let mut i: usize = 0;
    while i < plugin.mcp_servers.len()
        invariant
            i <= plugin.mcp_servers@.len(),
            mcp_servers@.len() == i,
            forall|j: int|
                0 <= j < i ==> narrowed_server(
                    #[trigger] mcp_servers@[j],
                    plugin.mcp_servers@[j],
                    available,
                    plugin.diagnostics@,
                    *config,
                ),
        decreases plugin.mcp_servers@.len() - i,
    {
        let seen = narrow_server(&plugin.mcp_servers[i], available, &plugin.diagnostics, config);
        mcp_servers.push(seen);
        i = i + 1;
    }
    PluginInventoryEntry {
        name: plugin.name,
        digest: plugin.digest,
        globally_enabled: plugin.globally_enabled,
        available,
        unavailable_reason,
        diagnostics: plugin.diagnostics,
        mcp_servers,
    }
}

/// The installed plugins as a workspace sees them.
pub fn narrow_plugin_inventory(inventory: Vec<PluginInventoryEntry>, config: &PluginsConfig) -> (seen: Vec<
    PluginInventoryEntry,
>)
    ensures
        seen@.len() == inventory@.len(),
        forall|i: int| 0 <= i < inventory@.len() ==> narrowed(#[trigger] seen@[i], inventory@[i], *config),
{
    let ghost given = inventory@;
    let mut rest = inventory;
    let mut reversed: Vec<PluginInventoryEntry> = Vec::new();
    while rest.len() > 0
        invariant
            rest@.len() + reversed@.len() == given.len(),
            rest@ == given.take(rest@.len() as int),
            forall|j: int|
                0 <= j < reversed@.len() ==> narrowed(
                    #[trigger] reversed@[j],
                    given[given.len() - 1 - j],
                    *config,
                ),
        decreases rest@.len(),
    {
        let ghost before = rest@;
        match rest.pop() {
            Some(plugin) => {
                proof {
                    assert(plugin == given[before.len() - 1]);
                    assert(rest@ =~= given.take(rest@.len() as int));
                }
                reversed.push(narrow_plugin(plugin, config));
            },
            None => {},
        }
    }
    let mut seen: Vec<PluginInventoryEntry> = Vec::new();
    let ghost backwards = reversed@;
    while reversed.len() > 0
        invariant
            reversed@.len() + seen@.len() == given.len(),
            backwards.len() == given.len(),
            reversed@ == backwards.take(reversed@.len() as int),
            forall|j: int|
                0 <= j < backwards.len() ==> narrowed(#[trigger] backwards[j], given[given.len() - 1 - j], *config),
            forall|j: int| 0 <= j < seen@.len() ==> narrowed(#[trigger] seen@[j], given[j], *config),
        decreases reversed@.len(),
    {
        let ghost before = reversed@;
        match reversed.pop() {
            Some(plugin) => {
                proof {
                    assert(plugin == backwards[before.len() - 1]);
                    assert(reversed@ =~= backwards.take(reversed@.len() as int));
                }
                seen.push(plugin);
            },
            None => {},
        }
    }
    seen
}

/// A document is the one object that a request for the live inventory holds: the operation, and that
/// disabled plugins count too.
pub open spec fn inventory_content(content: Seq<u8>) -> bool {
    &&& json_pointer_keys(content, ""@) matches Some(keys) && keys.len() == 2 && keys.contains("operation"@)
        && keys.contains("include_disabled"@)
    &&& json_field_text(content, "operation"@) == Some("list"@)
    &&& json_field_flag(content, "include_disabled"@) == Some(true)
}

fn is_inventory_content(content: &[u8]) -> (yes: bool)
    ensures
        yes == inventory_content(content@),
{
    let listed = match field_text(content, "operation") {
        Some(text) => same_text(text.as_str(), "list"),
        None => false,
    };
    let disabled = match field_flag(content, "include_disabled") {
        Some(flag) => flag,
        None => false,
    };
    match pointer_keys(content, "") {
        Some(keys) => {
            proof {
                assert(views(keys@).len() == keys@.len());
            }
            keys.len() == 2 && list_contains(&keys, "operation") && list_contains(&keys, "include_disabled") && listed
                && disabled
        },
        None => false,
    }
}

/// Whether a request asks for the live inventory: under the action and the resource of listing plugins,
/// for disabled plugins too and for nothing else. `content` is the document that the request holds.
pub fn accept_inventory_request(
    action: &str,
    resource: &str,
    expected_action: &str,
    expected_resource: &str,
    content: &[u8],
) -> (result: Result<(), ExecutionError>)
    ensures
        if action@ == expected_action@ && resource@ == expected_resource@ && inventory_content(content@) {
            result is Ok
        } else {
            fails(result, "invalid live plugin inventory request"@)
        },
{
    if !same_text(action, expected_action) || !same_text(resource, expected_resource) || !is_inventory_content(content) {
        return execution_failure("invalid live plugin inventory request");
    }
    Ok(())
}

/// A workspace only narrows: it never makes a plugin available that is not, never changes what is
/// enabled for all workspaces, and shows a server as configured only where the workspace enables it
/// and the plugin is available.
pub proof fn a_workspace_only_narrows(
    seen: PluginInventoryEntry,
    plugin: PluginInventoryEntry,
    config: PluginsConfig,
    i: int,
)
    requires
        narrowed(seen, plugin, config),
        0 <= i < plugin.mcp_servers@.len(),
    ensures
        seen.available ==> plugin.available,
        seen.globally_enabled == plugin.globally_enabled,
        !seen.available && plugin.available ==> seen.unavailable_reason is Some,
        seen.mcp_servers@[i].status@ == "Configured"@ ==> seen.available && enabled_overlay(
            config,
            plugin.mcp_servers@[i].id@,
        ) is Some,
{
    assert(narrowed_server(
        seen.mcp_servers@[i],
        plugin.mcp_servers@[i],
        seen.available,
        plugin.diagnostics@,
        config,
    ));
    reveal_strlit("Configured");
    reveal_strlit("Requires explicit runtime enablement");
    reveal_strlit("Plugin unavailable in this workspace");
    reveal_strlit("Invalid component configuration; see diagnostics");
    assert("Configured"@.len() == 10);
    assert("Requires explicit runtime enablement"@.len() == 36);
    assert("Plugin unavailable in this workspace"@.len() == 36);
    assert("Invalid component configuration; see diagnostics"@.len() == 48);
}

/// A plugin is left out exactly where plugins are disabled, where it is excluded, or where others are
/// included and it is not.
pub proof fn plugins_are_left_out_by_name(config: PluginsConfig, name: Seq<char>)
    ensures
        exclusion(config, name) is None <==> config.enabled && !views(config.exclude@).contains(name) && (
        config.include_names@.len() == 0 || views(config.include_names@).contains(name)),
{
}

/// A diagnostic concerns a server where it is about servers and names this one or none.
pub proof fn diagnostics_concern_their_server(diagnostic: InventoryDiagnostic, server: Seq<char>)
    ensures
        !diagnostic.about_server ==> !concerns(diagnostic, server),
        diagnostic.about_server && diagnostic.name is None ==> concerns(diagnostic, server),
        diagnostic.about_server && diagnostic.name is Some ==> (concerns(diagnostic, server)
            <==> diagnostic.name->0@ == server),
{
}

/// A server is shown as configured exactly where it is enabled, its plugin is available and nothing
/// failed; no two of its states are shown in the same words.
pub proof fn statuses_tell_servers_apart(enabled: bool, available: bool, failed: bool)
    ensures
        server_status(enabled, available, failed) == "Configured"@ <==> enabled && available && !failed,
        !enabled ==> server_status(enabled, available, failed) == server_status(false, true, false),
        enabled && !available ==> server_status(enabled, available, failed) == server_status(true, false, false),
        server_status(false, true, false) != server_status(true, false, false),
        server_status(true, true, true) != server_status(true, false, false),
        server_status(true, true, true) != server_status(false, true, false),
{
    reveal_strlit("Requires explicit runtime enablement");
    reveal_strlit("Plugin unavailable in this workspace");
    reveal_strlit("Invalid component configuration; see diagnostics");
    reveal_strlit("Configured");
    assert("Requires explicit runtime enablement"@[0] == 'R');
    assert("Plugin unavailable in this workspace"@[0] == 'P');
    assert("Invalid component configuration; see diagnostics"@[0] == 'I');
    assert("Configured"@[0] == 'C');
}

/// A workspace shows a plugin as it is, and says why it is unavailable: the plugin's own reason first,
/// then the workspace's.
pub proof fn workspaces_show_plugins_as_they_are(
    seen: PluginInventoryEntry,
    plugin: PluginInventoryEntry,
    config: PluginsConfig,
    at: int,
)
    requires
        narrowed(seen, plugin, config),
    ensures
        seen.name == plugin.name && seen.digest == plugin.digest && seen.globally_enabled == plugin.globally_enabled,
        seen.diagnostics@ == plugin.diagnostics@,
        seen.available <==> plugin.available && exclusion(config, plugin.name@) is None,
        plugin.unavailable_reason matches Some(reason) ==> optional_view(seen.unavailable_reason) == Some(reason@),
        plugin.unavailable_reason is None ==> optional_view(seen.unavailable_reason) == exclusion(
            config,
            plugin.name@,
        ),
        seen.mcp_servers@.len() == plugin.mcp_servers@.len(),
        0 <= at < plugin.mcp_servers@.len() ==> {
            &&& seen.mcp_servers@[at].id == plugin.mcp_servers@[at].id
            &&& seen.mcp_servers@[at].name == plugin.mcp_servers@[at].name
            &&& seen.mcp_servers@[at].enabled <==> enabled_overlay(config, plugin.mcp_servers@[at].id@) is Some
        },
{
    if 0 <= at < plugin.mcp_servers@.len() {
        assert(narrowed_server(
            seen.mcp_servers@[at],
            plugin.mcp_servers@[at],
            seen.available,
            plugin.diagnostics@,
            config,
        ));
    }
}

/// The inventory is asked for by a list of everything, with the plugins that are switched off: any other
/// operation, a request for the enabled ones alone and a request that says more are refused.
pub proof fn inventories_are_asked_for_in_one_form(content: Seq<u8>)
    ensures
        inventory_content(content) ==> json_field_text(content, "operation"@) == Some("list"@) && json_field_flag(
            content,
            "include_disabled"@,
        ) == Some(true),
        json_pointer_keys(content, ""@) matches Some(names) ==> {
            &&& names.len() != 2 ==> !inventory_content(content)
            &&& !names.contains("operation"@) || !names.contains("include_disabled"@) ==> !inventory_content(content)
            &&& names.len() == 2 && names.contains("operation"@) && names.contains("include_disabled"@)
                && json_field_text(content, "operation"@) == Some("list"@) && json_field_flag(
                content,
                "include_disabled"@,
            ) == Some(true) ==> inventory_content(content)
        },
        json_pointer_keys(content, ""@) is None ==> !inventory_content(content),
{
}

} // verus!
