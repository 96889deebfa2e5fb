//! What active plugins add to the runtime: MCP servers that the workspace enabled, with the
//! restrictions that hold for them, and the roots of their skills.

use crate::config::{
    authority, clone_grants, configured_resource_authority, extend_grants, extend_texts, grant, grant_views,
    FilesystemGrant, GrantView, McpConfig, McpCredentialHeaderConfig, McpOAuthConfig, McpProvenance,
    McpResearchToolConfig, McpServerConfig, McpTransportKind, Platform, PluginMcpServerConfig, PluginsConfig,
    ResourceAuthority, SandboxConfig,
};
use crate::entries::{
    ascending_keys, by_first, by_key, clone_entries, contains_key, has_key, in_key_order, key_list, keys, lookup,
    ordered_by, ordering_commutes, put, text_entries, value_of, Entry,
};
use crate::error::{config_error, config_error3, displayed, is_config_error, RuntimeError, Verdict};
use crate::mcp_servers::{
    by_name, key_is_contained, server_view, server_views, servers_in_order, ProvenanceView, ServerView,
};
use crate::paths::{file_name, join_path, joined_path, path_file_name, starts_with_path, within};
use crate::plugin_variables::{expand_plugin_variables, expansion};
use crate::policy_plan::{restriction_views, ActionRestriction, RestrictionView};
use crate::resolved::{resolution, resolve, ResolvedPath};
use crate::text::{
    bounded, clone_optional, clone_texts, concat2, concat3, contains_char, first_chars, has_prefix, optional_view,
    same_text, starts_with, strip_prefix, views,
};
use crate::validation::reject_if;
use vstd::prelude::*;
use vstd::string::*;

verus! {

/// How a plugin declares that a server is reached.
#[derive(Clone, Copy, Debug, PartialEq, Eq, Structural)]
pub enum PluginMcpTransport {
    Stdio,
    StreamableHttp,
    /// Declared by plugins, never composed.
    Sse,
}

/// A server that a plugin declares, with what the host found of it.
#[derive(Debug)]
pub struct PluginServer {
    /// `<plugin>/<server>`.
    pub id: String,
    pub name: String,
    pub transport: PluginMcpTransport,
    pub command: Option<String>,
    pub args: Vec<String>,
    pub environment: Vec<Entry<String>>,
    pub working_directory: Option<String>,
    pub url: Option<String>,
    pub headers: Vec<Entry<String>>,
    /// The prefix of its effect actions.
    pub action_prefix: String,
    /// The canonical origin of its URL, where it has one.
    pub origin: Option<String>,
    /// What its paths resolve to.
    pub paths: Vec<ResolvedPath>,
    /// Whether the composed server is in order.
    pub validation: Result<(), RuntimeError>,
}

/// An active plugin, with what the host found of it.
#[derive(Debug)]
pub struct PluginRecord {
    pub name: String,
    pub digest: String,
    /// Trust evidence, as its document.
    pub trust: String,
    /// The root of its installation.
    pub root: String,
    /// The canonical root, or why there is none.
    pub canonical_root: Result<String, RuntimeError>,
    /// The directory of its data, or why there is none; absent without a home directory.
    pub data: Option<Result<String, RuntimeError>>,
    /// Its skills, by identifier.
    pub skills: Vec<String>,
    pub mcp_servers: Vec<PluginServer>,
}

/// A component of a plugin that is not available.
#[derive(Debug)]
pub struct PluginDiagnostic {
    pub plugin: String,
    pub server: String,
    pub code: String,
    pub detail: String,
}

/// A component of a plugin that is not available, as characters.
pub ghost struct DiagnosticView {
    pub plugin: Seq<char>,
    pub server: Seq<char>,
    pub code: Seq<char>,
    pub detail: Seq<char>,
}

impl View for PluginDiagnostic {
    type V = DiagnosticView;

    open spec fn view(&self) -> DiagnosticView {
        DiagnosticView { plugin: self.plugin@, server: self.server@, code: self.code@, detail: self.detail@ }
    }
}

/// What one enabled server adds.
#[derive(Debug)]
pub struct CompiledPluginServer {
    pub server: Option<Entry<McpServerConfig>>,
    pub executables: Vec<String>,
    pub filesystem: Vec<FilesystemGrant>,
    pub restrictions: Vec<ActionRestriction>,
}

/// What one enabled server adds, as values.
#[verifier::ext_equal]
pub ghost struct CompiledView {
    pub servers: Seq<ServerView>,
    pub executables: Seq<Seq<char>>,
    pub filesystem: Seq<GrantView>,
    pub restrictions: Seq<RestrictionView>,
}

impl View for CompiledPluginServer {
    type V = CompiledView;

    open spec fn view(&self) -> CompiledView {
        CompiledView {
            servers: match self.server {
                Some(entry) => seq![server_view(entry)],
                None => Seq::empty(),
            },
            executables: views(self.executables@),
            filesystem: grant_views(self.filesystem@),
            restrictions: restriction_views(self.restrictions@),
        }
    }
}

/// The first executable of the sandbox with this file name.
pub open spec fn named_executable(platform: Platform, executables: Seq<String>, name: Seq<char>) -> Option<Seq<char>>
    decreases executables.len(),
{
    if executables.len() == 0 {
        None
    } else if file_name(platform, executables[0]@) == Some(name) {
        Some(executables[0]@)
    } else {
        named_executable(platform, executables.skip(1), name)
    }
}

fn find_executable(platform: Platform, executables: &Vec<String>, name: &str) -> (found: Option<String>)
    ensures
        optional_view(found) == named_executable(platform, executables@, name@),
{
    let mut i: usize = 0;
    proof {
        assert(executables@.skip(0) =~= executables@);
    }
    while i < executables.len()
        invariant
            i <= executables@.len(),
            named_executable(
                platform,
                executables@,
                name@,
            ) == named_executable(platform, executables@.skip(i as int), name@),
        decreases executables@.len() - i,
    {
        proof {
            assert(executables@.skip(i as int)[0] == executables@[i as int]);
            assert(executables@.skip(i as int).skip(1) =~= executables@.skip(i + 1));
        }
        if let Some(file) = path_file_name(platform, executables[i].as_str()) {
            if same_text(file.as_str(), name) {
                return Some(executables[i].clone());
            }
        }
        i = i + 1;
    }
    None
}

/// The file that a server's command names: one below the plugin's root, or an executable of the
/// sandbox of exactly this name.
pub open spec fn command_file(
    platform: Platform,
    server: PluginServer,
    root: Seq<char>,
    sandbox: SandboxConfig,
) -> Result<
    Seq<char>,
    Verdict,
> {
    match server.command {
        None => Err(Verdict::Reject("plugin MCP server "@ + server.id@ + " has no stdio command"@)),
        Some(token) => if has_prefix(token@, "./"@) {
            match resolution(server.paths@, joined_path(platform, root, token@.skip("./"@.len() as int))) {
                Err(verdict) => Err(verdict),
                Ok((candidate, regular)) => if within(platform, candidate, root) && regular {
                    Ok(candidate)
                } else {
                    Err(
                        Verdict::Reject(
                            "plugin MCP command for "@ + server.id@ + " escapes its immutable root"@,
                        ),
                    )
                },
            }
        } else {
            match named_executable(platform, sandbox.executables@, token@) {
                Some(path) => Ok(path),
                None => Err(
                    Verdict::Reject(
                        "plugin MCP server "@ + server.id@ + " requires the exact sandbox executable "@ + token@,
                    ),
                ),
            }
        },
    }
}

/// The executable of a server: the file as it is inside a container, else its canonical path.
pub open spec fn server_command(
    platform: Platform,
    server: PluginServer,
    root: Seq<char>,
    sandbox: SandboxConfig,
) -> Result<
    Seq<char>,
    Verdict,
> {
    match command_file(platform, server, root, sandbox) {
        Err(verdict) => Err(verdict),
        Ok(path) => if sandbox.backend@ == "oci"@ {
            Ok(path)
        } else {
            match resolution(server.paths@, path) {
                Err(verdict) => Err(verdict),
                Ok((canonical, _)) => Ok(canonical),
            }
        },
    }
}

/// The outcome is exactly this path or failure.
pub open spec fn gives(result: Result<String, RuntimeError>, expected: Result<Seq<char>, Verdict>) -> bool {
    match expected {
        Ok(path) => result matches Ok(found) && found@ == path,
        Err(Verdict::Reject(text)) => is_config_error(result, text),
        Err(Verdict::Forward(error)) => result == Err::<String, RuntimeError>(error),
        Err(Verdict::Accept) => false,
    }
}

fn plan_command(
    platform: Platform,
    server: &PluginServer,
    root: &str,
    sandbox: &SandboxConfig,
) -> (result: Result<String, RuntimeError>)
    ensures
        gives(result, server_command(platform, *server, root@, *sandbox)),
{
    let file = match &server.command {
        None => {
            return config_error3("plugin MCP server ", server.id.as_str(), " has no stdio command");
        },
        Some(token) => match strip_prefix(token.as_str(), "./") {
            Some(relative) => {
                let joined = join_path(platform, root, relative.as_str());
                match resolve(&server.paths, joined.as_str()) {
                    Err(error) => {
                        return Err(error);
                    },
                    Ok((candidate, regular)) => {
                        if !starts_with_path(platform, candidate.as_str(), root) || !regular {
                            return config_error3(
                                "plugin MCP command for ",
                                server.id.as_str(),
                                " escapes its immutable root",
                            );
                        }
                        candidate
                    },
                }
            },
            None => match find_executable(platform, &sandbox.executables, token.as_str()) {
                Some(path) => path,
                None => {
                    let mut text = concat3(
                        "plugin MCP server ",
                        server.id.as_str(),
                        " requires the exact sandbox executable ",
                    );
                    text.append(token.as_str());
                    return config_error(text.as_str());
                },
            },
        },
    };
    if same_text(sandbox.backend.as_str(), "oci") {
        return Ok(file);
    }
    match resolve(&server.paths, file.as_str()) {
        Err(error) => Err(error),
        Ok((canonical, _)) => Ok(canonical),
    }
}

/// A directory that is stated to lie in the plugin's data.
pub open spec fn in_data(value: Seq<char>) -> bool {
    value == "${PLUGIN_DATA}"@ || has_prefix(value, "${PLUGIN_DATA}/"@)
}

/// The directory that a server works in: the plugin's root unless it states one below its root or
/// its data.
pub open spec fn server_directory(
    platform: Platform,
    server: PluginServer,
    root: Seq<char>,
    data: Seq<char>,
) -> Result<Seq<char>, Verdict> {
    match server.working_directory {
        None => Ok(root),
        Some(value) => match resolution(server.paths@, joined_path(platform, root, expansion(value@, root, data))) {
            Err(verdict) => Err(verdict),
            Ok((candidate, _)) => if within(
                platform,
                candidate,
                if in_data(value@) {
                    data
                } else {
                    root
                },
            ) {
                Ok(candidate)
            } else {
                Err(
                    Verdict::Reject(
                        "plugin MCP working directory for "@ + server.id@ + " escapes PLUGIN_ROOT and PLUGIN_DATA"@,
                    ),
                )
            },
        },
    }
}

fn plan_directory(
    platform: Platform,
    server: &PluginServer,
    root: &str,
    data: &str,
) -> (result: Result<String, RuntimeError>)
    ensures
        gives(result, server_directory(platform, *server, root@, data@)),
{
    match &server.working_directory {
        None => Ok(root.to_owned()),
        Some(value) => {
            let expanded = expand_plugin_variables(value.as_str(), root, data);
            let joined = join_path(platform, root, expanded.as_str());
            match resolve(&server.paths, joined.as_str()) {
                Err(error) => Err(error),
                Ok((candidate, _)) => {
                    let boundary = if same_text(value.as_str(), "${PLUGIN_DATA}") || starts_with(
                        value.as_str(),
                        "${PLUGIN_DATA}/",
                    ) {
                        data
                    } else {
                        root
                    };
                    if !starts_with_path(platform, candidate.as_str(), boundary) {
                        return config_error3(
                            "plugin MCP working directory for ",
                            server.id.as_str(),
                            " escapes PLUGIN_ROOT and PLUGIN_DATA",
                        );
                    }
                    Ok(candidate)
                },
            }
        },
    }
}

/// The literal environment of a server: what the plugin states, but for what the workspace refers
/// to credentials for.
pub open spec fn stated_environment(
    environment: Seq<Entry<String>>,
    overlay: Seq<Entry<String>>,
    root: Seq<char>,
    data: Seq<char>,
) -> Seq<(Seq<char>, Seq<char>)>
    decreases environment.len(),
{
    if environment.len() == 0 {
        Seq::empty()
    } else {
        let rest = stated_environment(environment.drop_last(), overlay, root, data);
        let entry = environment.last();
        if has_key(overlay, entry.key@) || entry.key@ == "PLUGIN_ROOT"@ || entry.key@ == "PLUGIN_DATA"@ {
            rest
        } else {
            rest.push((entry.key@, expansion(entry.value@, root, data)))
        }
    }
}

/// The literal environment of a server, with the plugin's root and data, in the order of its names.
pub open spec fn literal_environment(
    environment: Seq<Entry<String>>,
    overlay: Seq<Entry<String>>,
    root: Seq<char>,
    data: Seq<char>,
) -> Seq<(Seq<char>, Seq<char>)> {
    ordered_by(
        stated_environment(environment, overlay, root, data).push(("PLUGIN_ROOT"@, root)).push(("PLUGIN_DATA"@, data)),
        by_first(),
    )
}

fn plan_environment(
    environment: &Vec<Entry<String>>,
    overlay: &Vec<Entry<String>>,
    root: &str,
    data: &str,
) -> (list: Vec<
    Entry<String>,
>)
    ensures
        text_entries(list@) == literal_environment(environment@, overlay@, root@, data@),
{
    let mut list: Vec<Entry<String>> = Vec::new();
    let mut i: usize = 0;
    proof {
        assert(text_entries(list@) =~= stated_environment(environment@.take(0), overlay@, root@, data@));
    }
    while i < environment.len()
        invariant
            i <= environment@.len(),
            text_entries(list@) == stated_environment(environment@.take(i as int), overlay@, root@, data@),
        decreases environment@.len() - i,
    {
        let entry = &environment[i];
        let ghost before = list@;
        proof {
            assert(environment@.take(i + 1).drop_last() =~= environment@.take(i as int));
            assert(environment@.take(i + 1).last() == *entry);
        }
        if !contains_key(overlay, entry.key.as_str()) && !same_text(entry.key.as_str(), "PLUGIN_ROOT") && !same_text(
            entry.key.as_str(),
            "PLUGIN_DATA",
        ) {
            let value = expand_plugin_variables(entry.value.as_str(), root, data);
            let item = Entry { key: entry.key.clone(), value };
            list.push(item);
            proof {
                assert(text_entries(list@) =~= text_entries(before).push((item.key@, item.value@)));
            }
        }
        i = i + 1;
    }
    proof {
        assert(environment@.take(i as int) =~= environment@);
    }
    let ghost stated = text_entries(list@);
    list.push(Entry { key: "PLUGIN_ROOT".to_owned(), value: root.to_owned() });
    list.push(Entry { key: "PLUGIN_DATA".to_owned(), value: data.to_owned() });
    proof {
        assert(text_entries(list@) =~= stated.push(("PLUGIN_ROOT"@, root@)).push(("PLUGIN_DATA"@, data@)));
        let change = |entry: Entry<String>| (entry.key@, entry.value@);
        ordering_commutes(list@, change, by_key(), by_first());
        assert(text_entries(list@) =~= list@.map_values(change));
        assert(text_entries(ordered_by(list@, by_key())) =~= ordered_by(list@, by_key()).map_values(change));
    }
    in_key_order(list)
}

/// Arguments with the plugin's variables expanded.
pub open spec fn expanded_args(args: Seq<String>, root: Seq<char>, data: Seq<char>) -> Seq<Seq<char>> {
    args.map_values(|arg: String| expansion(arg@, root, data))
}

fn plan_args(args: &Vec<String>, root: &str, data: &str) -> (list: Vec<String>)
    ensures
        views(list@) == expanded_args(args@, root@, data@),
{
    let mut list: Vec<String> = Vec::new();
    let mut i: usize = 0;
    while i < args.len()
        invariant
            i <= args@.len(),
            views(list@) == expanded_args(args@.take(i as int), root@, data@),
        decreases args@.len() - i,
    {
        let ghost before = list@;
        let value = expand_plugin_variables(args[i].as_str(), root, data);
        list.push(value);
        proof {
            assert(views(list@) =~= views(before).push(value@));
            assert(expanded_args(args@.take(i + 1), root@, data@) =~= expanded_args(
                args@.take(i as int),
                root@,
                data@,
            ).push(value@));
        }
        i = i + 1;
    }
    proof {
        assert(args@.take(i as int) =~= args@);
    }
    list
}

fn clone_headers(list: &Vec<Entry<McpCredentialHeaderConfig>>) -> (copy: Vec<Entry<McpCredentialHeaderConfig>>)
    ensures
        copy@ == list@,
{
    let mut copy: Vec<Entry<McpCredentialHeaderConfig>> = Vec::new();
    let mut i: usize = 0;
    while i < list.len()
        invariant
            i <= list@.len(),
            copy@ == list@.take(i as int),
        decreases list@.len() - i,
    {
        copy.push(
            Entry {
                key: list[i].key.clone(),
                value: McpCredentialHeaderConfig { definition: list[i].value.definition.clone() },
            },
        );
        proof {
            assert(list@.take(i + 1) =~= list@.take(i as int).push(list@[i as int]));
        }
        i = i + 1;
    }
    proof {
        assert(list@.take(i as int) =~= list@);
    }
    copy
}

fn clone_research_tools(list: &Vec<McpResearchToolConfig>) -> (copy: Vec<McpResearchToolConfig>)
    ensures
        copy@ == list@,
{
    let mut copy: Vec<McpResearchToolConfig> = Vec::new();
    let mut i: usize = 0;
    while i < list.len()
        invariant
            i <= list@.len(),
            copy@ == list@.take(i as int),
        decreases list@.len() - i,
    {
        copy.push(McpResearchToolConfig { definition: list[i].definition.clone() });
        proof {
            assert(list@.take(i + 1) =~= list@.take(i as int).push(list@[i as int]));
        }
        i = i + 1;
    }
    proof {
        assert(list@.take(i as int) =~= list@);
    }
    copy
}

/// The grants of a plugin's server: its root for reading and its data for writing.
pub open spec fn plugin_grants(root: Seq<char>, data: Seq<char>) -> Seq<GrantView> {
    seq![GrantView { root, mode: "read"@ }, GrantView { root: data, mode: "write"@ }]
}

fn plan_grants(root: &str, data: &str) -> (list: Vec<FilesystemGrant>)
    ensures
        grant_views(list@) == plugin_grants(root@, data@),
{
    let mut list: Vec<FilesystemGrant> = Vec::new();
    list.push(grant(root, "read"));
    list.push(grant(data, "write"));
    proof {
        assert(grant_views(list@) =~= plugin_grants(root@, data@));
    }
    list
}

/// What an action of a plugin's server may reach.
pub open spec fn server_restriction(
    action: Seq<char>,
    server: PluginServer,
    overlay: PluginMcpServerConfig,
    root: Seq<char>,
    data: Seq<char>,
) -> RestrictionView {
    RestrictionView {
        action,
        filesystem: plugin_grants(root, data),
        allowed_environment: keys(overlay.environment@),
        network_destinations: match server.origin {
            Some(origin) => seq![origin@],
            None => Seq::empty(),
        },
    }
}

fn plan_restriction(
    action: String,
    server: &PluginServer,
    overlay: &PluginMcpServerConfig,
    root: &str,
    data: &str,
) -> (restriction: ActionRestriction)
    ensures
        restriction@ == server_restriction(action@, *server, *overlay, root@, data@),
{
    let filesystem = plan_grants(root, data);
    let allowed_environment = key_list(&overlay.environment);
    let mut network_destinations: Vec<String> = Vec::new();
    if let Some(origin) = &server.origin {
        network_destinations.push(origin.clone());
    }
    proof {
        assert(views(allowed_environment@) =~= keys(overlay.environment@));
        assert(views(network_destinations@) =~= match server.origin {
            Some(origin) => seq![origin@],
            None => Seq::empty(),
        });
    }
    ActionRestriction { action, filesystem, allowed_environment, network_destinations }
}

/// The data directory of a plugin.
pub open spec fn data_directory(plugin: PluginRecord) -> Result<Seq<char>, Verdict> {
    match plugin.data {
        None => Err(Verdict::Reject("active plugins require a Colossus home"@)),
        Some(Ok(path)) => Ok(path@),
        Some(Err(error)) => Err(Verdict::Forward(error)),
    }
}

/// Why an enabled server is not composed, if so.
pub open spec fn server_verdict(
    platform: Platform,
    plugin: PluginRecord,
    server: PluginServer,
    names: Seq<Seq<char>>,
    sandbox: SandboxConfig,
) -> Verdict {
    let conflict = reject_if(
        names.contains(server.id@),
        "plugin MCP server "@ + server.id@ + " conflicts with another configured server"@,
    );
    match plugin.canonical_root {
        Err(error) => Verdict::Forward(error),
        Ok(root) => match data_directory(plugin) {
            Err(verdict) => verdict,
            Ok(data) => match server.transport {
                PluginMcpTransport::Sse => Verdict::Accept,
                PluginMcpTransport::StreamableHttp => conflict,
                PluginMcpTransport::Stdio => match server_command(platform, server, root@, sandbox) {
                    Err(verdict) => verdict,
                    Ok(_) => match server_directory(platform, server, root@, data) {
                        Err(verdict) => verdict,
                        Ok(_) => conflict,
                    },
                },
            },
        },
    }
}

/// The configuration of a plugin's server.
pub open spec fn plugin_server(
    platform: Platform,
    plugin: PluginRecord,
    server: PluginServer,
    overlay: PluginMcpServerConfig,
    sandbox: SandboxConfig,
) -> ServerView {
    let root = plugin.canonical_root->Ok_0@;
    let data = data_directory(plugin)->Ok_0;
    let stdio = server.transport == PluginMcpTransport::Stdio;
    ServerView {
        name: server.id@,
        transport: if stdio {
            McpTransportKind::Stdio
        } else {
            McpTransportKind::StreamableHttp
        },
        command: if stdio {
            server_command(platform, server, root, sandbox)->Ok_0
        } else {
            Seq::empty()
        },
        args: expanded_args(server.args@, root, data),
        working_directory: if stdio {
            Some(server_directory(platform, server, root, data)->Ok_0)
        } else {
            None
        },
        environment: text_entries(overlay.environment@),
        literal_environment: if stdio {
            literal_environment(server.environment@, overlay.environment@, root, data)
        } else {
            Seq::empty()
        },
        url: if stdio {
            None
        } else {
            optional_view(server.url)
        },
        headers: text_entries(server.headers@),
        credential_headers: overlay.credential_headers@,
        allow_stateless: overlay.allow_stateless,
        oauth: overlay.oauth,
        allowed_tools: views(overlay.allowed_tools@),
        research_tools: overlay.research_tools@,
        timeout_ms: overlay.timeout_ms,
        max_output_bytes: overlay.max_output_bytes,
        effect_action_prefix: Some(server.action_prefix@),
        provenance: ProvenanceView::Plugin {
            plugin: plugin.name@,
            manifest_digest: plugin.digest@,
            trust: plugin.trust@,
        },
    }
}

/// What an enabled server adds.
pub open spec fn compiled_server(
    platform: Platform,
    plugin: PluginRecord,
    server: PluginServer,
    overlay: PluginMcpServerConfig,
    sandbox: SandboxConfig,
) -> CompiledView {
    let root = plugin.canonical_root->Ok_0@;
    let data = data_directory(plugin)->Ok_0;
    let grants = plugin_grants(root, data);
    if server.transport == PluginMcpTransport::Sse {
        CompiledView {
            servers: Seq::empty(),
            executables: Seq::empty(),
            filesystem: grants,
            restrictions: Seq::empty(),
        }
    } else {
        let command = server_command(platform, server, root, sandbox)->Ok_0;
        let stdio = server.transport == PluginMcpTransport::Stdio;
        CompiledView {
            servers: seq![plugin_server(platform, plugin, server, overlay, sandbox)],
            executables: if stdio {
                seq![command]
            } else {
                Seq::empty()
            },
            filesystem: if stdio {
                grants.push(GrantView { root: command, mode: "execute"@ })
            } else {
                grants
            },
            restrictions: seq![
                server_restriction(server.action_prefix@ + ".tools"@, server, overlay, root, data),
                server_restriction(server.action_prefix@ + ".call"@, server, overlay, root, data),
            ],
        }
    }
}

/// What an enabled server of a plugin adds; `names` are the servers that there are already.
pub fn compile_plugin_extensions(
    platform: Platform,
    plugin: &PluginRecord,
    server: &PluginServer,
    overlay: &PluginMcpServerConfig,
    servers: &Vec<Entry<McpServerConfig>>,
    sandbox: &SandboxConfig,
) -> (result: Result<CompiledPluginServer, RuntimeError>)
    ensures
        match server_verdict(platform, *plugin, *server, keys(servers@), *sandbox) {
            Verdict::Reject(text) => is_config_error(result, text),
            Verdict::Forward(error) => result == Err::<CompiledPluginServer, RuntimeError>(error),
            Verdict::Accept => result matches Ok(compiled) && compiled@ == compiled_server(
                platform,
                *plugin,
                *server,
                *overlay,
                *sandbox,
            ),
        },
        result matches Ok(compiled) ==> (compiled.server matches Some(entry) ==> entry.key@ == server.id@),
{
    let root = match &plugin.canonical_root {
        Err(error) => {
            return Err(error.clone());
        },
        Ok(root) => root,
    };
    let data = match &plugin.data {
        None => {
            return config_error("active plugins require a Colossus home");
        },
        Some(Err(error)) => {
            return Err(error.clone());
        },
        Some(Ok(data)) => data,
    };
    let mut filesystem = plan_grants(root.as_str(), data.as_str());
    let ghost grants = plugin_grants(root@, data@);
    let mut executables: Vec<String> = Vec::new();
    let stdio = match server.transport {
        PluginMcpTransport::Sse => {
            let compiled = CompiledPluginServer { server: None, executables, filesystem, restrictions: Vec::new() };
            proof {
                assert(compiled@ =~= compiled_server(platform, *plugin, *server, *overlay, *sandbox));
            }
            return Ok(compiled);
        },
        PluginMcpTransport::StreamableHttp => false,
        PluginMcpTransport::Stdio => true,
    };
    let mut command = String::new();
    let mut working_directory: Option<String> = None;
    let mut literal: Vec<Entry<String>> = Vec::new();
    proof {
        assert(text_entries(literal@) =~= Seq::empty());
        assert(views(executables@) =~= Seq::empty());
        assert(command@ =~= Seq::empty());
    }
    if stdio {
        command = match plan_command(platform, server, root.as_str(), sandbox) {
            Ok(path) => path,
            Err(error) => {
                return Err(error);
            },
        };
        let directory = match plan_directory(platform, server, root.as_str(), data.as_str()) {
            Ok(path) => path,
            Err(error) => {
                return Err(error);
            },
        };
        working_directory = Some(directory);
        literal = plan_environment(&server.environment, &overlay.environment, root.as_str(), data.as_str());
        executables.push(command.clone());
        filesystem.push(grant(command.as_str(), "execute"));
        proof {
            assert(views(executables@) =~= seq![command@]);
            assert(grant_views(filesystem@) =~= grants.push(GrantView { root: command@, mode: "execute"@ }));
        }
    }
    proof {
        key_is_contained(servers@, server.id@);
    }
    if contains_key(servers, server.id.as_str()) {
        return config_error3(
            "plugin MCP server ",
            server.id.as_str(),
            " conflicts with another configured server",
        );
    }
    let config = McpServerConfig {
        transport: if stdio {
            McpTransportKind::Stdio
        } else {
            McpTransportKind::StreamableHttp
        },
        command,
        args: plan_args(&server.args, root.as_str(), data.as_str()),
        working_directory,
        environment: clone_entries(&overlay.environment),
        literal_environment: literal,
        url: if stdio {
            None
        } else {
            clone_optional(&server.url)
        },
        headers: clone_entries(&server.headers),
        credential_headers: clone_headers(&overlay.credential_headers),
        allow_stateless: overlay.allow_stateless,
        oauth: match &overlay.oauth {
            Some(oauth) => Some(McpOAuthConfig { definition: oauth.definition.clone() }),
            None => None,
        },
        allowed_tools: clone_texts(&overlay.allowed_tools),
        research_tools: clone_research_tools(&overlay.research_tools),
        timeout_ms: overlay.timeout_ms,
        max_output_bytes: overlay.max_output_bytes,
        effect_action_prefix: Some(server.action_prefix.clone()),
        provenance: Some(
            McpProvenance::Plugin {
                plugin: plugin.name.clone(),
                manifest_digest: plugin.digest.clone(),
                trust: plugin.trust.clone(),
            },
        ),
    };
    let entry = Entry { key: server.id.clone(), value: config };
    proof {
        assert(server_view(entry) == plugin_server(platform, *plugin, *server, *overlay, *sandbox));
    }
    let first = plan_restriction(
        concat2(server.action_prefix.as_str(), ".tools"),
        server,
        overlay,
        root.as_str(),
        data.as_str(),
    );
    let second = plan_restriction(
        concat2(server.action_prefix.as_str(), ".call"),
        server,
        overlay,
        root.as_str(),
        data.as_str(),
    );
    let mut restrictions: Vec<ActionRestriction> = Vec::new();
    restrictions.push(first);
    restrictions.push(second);
    let compiled = CompiledPluginServer { server: Some(entry), executables, filesystem, restrictions };
    proof {
        assert(restriction_views(restrictions@) =~= seq![first@, second@]);
        assert(compiled@ =~= compiled_server(platform, *plugin, *server, *overlay, *sandbox));
    }
    Ok(compiled)
}

/// What the configuration of servers is validated against.
#[derive(Debug)]
pub struct McpValidationContext {
    pub resource_authority: ResourceAuthority,
    pub sandbox_executables: Vec<String>,
    pub sandbox_filesystem: Vec<FilesystemGrant>,
    pub sandbox_environment: Vec<String>,
    pub sandbox_timeout_ms: u64,
    pub sandbox_max_output_bytes: u64,
}

/// What a composed server of a plugin is validated against: the sandbox, with the executables and the
/// grants that the server adds behind the sandbox's own.
pub fn validation_context(sandbox: &SandboxConfig, candidate: &CompiledPluginServer) -> (context: McpValidationContext)
    ensures
        context.resource_authority == authority(*sandbox),
        context.sandbox_executables@ == sandbox.executables@ + candidate.executables@,
        context.sandbox_filesystem@ == sandbox.filesystem@ + candidate.filesystem@,
        context.sandbox_environment@ == sandbox.environment@,
        context.sandbox_timeout_ms == sandbox.timeout_ms,
        context.sandbox_max_output_bytes == sandbox.max_output_bytes,
{
    let mut executables = clone_texts(&sandbox.executables);
    extend_texts(&mut executables, &candidate.executables);
    let mut filesystem = clone_grants(&sandbox.filesystem);
    extend_grants(&mut filesystem, &candidate.filesystem);
    McpValidationContext {
        resource_authority: configured_resource_authority(sandbox),
        sandbox_executables: executables,
        sandbox_filesystem: filesystem,
        sandbox_environment: clone_texts(&sandbox.environment),
        sandbox_timeout_ms: sandbox.timeout_ms,
        sandbox_max_output_bytes: sandbox.max_output_bytes,
    }
}

/// What active plugins add to the runtime.
#[derive(Debug)]
pub struct ActivePluginExtensions {
    pub mcp: McpConfig,
    pub executables: Vec<String>,
    pub filesystem: Vec<FilesystemGrant>,
    pub actions: Vec<String>,
    pub restrictions: Vec<ActionRestriction>,
    /// The root of each skill's plugin, by the skill's identifier.
    pub skill_roots: Vec<Entry<String>>,
    pub diagnostics: Vec<PluginDiagnostic>,
}

struct PluginParts {
    servers: Vec<Entry<McpServerConfig>>,
    executables: Vec<String>,
    filesystem: Vec<FilesystemGrant>,
    restrictions: Vec<ActionRestriction>,
    diagnostics: Vec<PluginDiagnostic>,
}

/// What plugins add, as values; `names` are all servers there are.
#[verifier::ext_equal]
pub ghost struct PluginView {
    pub names: Seq<Seq<char>>,
    pub servers: Seq<ServerView>,
    pub executables: Seq<Seq<char>>,
    pub filesystem: Seq<GrantView>,
    pub restrictions: Seq<RestrictionView>,
    pub diagnostics: Seq<DiagnosticView>,
}

/// Diagnostics as values.
pub open spec fn diagnostic_views(list: Seq<PluginDiagnostic>) -> Seq<DiagnosticView> {
    list.map_values(|item: PluginDiagnostic| item@)
}

spec fn parts_view(parts: PluginParts, base: int) -> PluginView {
    PluginView {
        names: keys(parts.servers@),
        servers: server_views(parts.servers@.skip(base)),
        executables: views(parts.executables@),
        filesystem: grant_views(parts.filesystem@),
        restrictions: restriction_views(parts.restrictions@),
        diagnostics: diagnostic_views(parts.diagnostics@),
    }
}

/// The workspace's overlay of a server, where it enables the server.
pub open spec fn enabled_overlay(config: PluginsConfig, id: Seq<char>) -> Option<PluginMcpServerConfig> {
    match value_of(config.mcp_servers@, id) {
        Some(overlay) if overlay.enabled => Some(overlay),
        _ => None,
    }
}

/// Why an enabled server is not available, as it is displayed.
pub open spec fn unavailability(
    platform: Platform,
    plugin: PluginRecord,
    server: PluginServer,
    names: Seq<Seq<char>>,
    sandbox: SandboxConfig,
) -> Option<Seq<char>> {
    match server_verdict(platform, plugin, server, names, sandbox) {
        Verdict::Reject(text) => Some("configuration error: "@ + text),
        Verdict::Forward(error) => Some(displayed(error)),
        Verdict::Accept => match server.validation {
            Ok(_) => None,
            Err(error) => Some(displayed(error)),
        },
    }
}

/// What is added with a server: nothing where it is not enabled, and where it is not available only
/// the diagnostic of that.
pub open spec fn with_server(
    platform: Platform,
    view: PluginView,
    plugin: PluginRecord,
    server: PluginServer,
    config: PluginsConfig,
    sandbox: SandboxConfig,
) -> PluginView {
    match enabled_overlay(config, server.id@) {
        None => view,
        Some(overlay) => match unavailability(platform, plugin, server, view.names, sandbox) {
            Some(text) => PluginView {
                diagnostics: view.diagnostics.push(
                    DiagnosticView {
                        plugin: plugin.name@,
                        server: server.name@,
                        code: "mcp_configuration_unavailable"@,
                        detail: first_chars(text, 2048),
                    },
                ),
                ..view
            },
            None => {
                let compiled = compiled_server(platform, plugin, server, overlay, sandbox);
                PluginView {
                    names: view.names + compiled.servers.map_values(|added: ServerView| added.name),
                    servers: view.servers + compiled.servers,
                    executables: view.executables + compiled.executables,
                    filesystem: view.filesystem + compiled.filesystem,
                    restrictions: view.restrictions + compiled.restrictions,
                    ..view
                }
            },
        },
    }
}

/// What is added with servers of a plugin.
pub open spec fn with_servers(
    platform: Platform,
    view: PluginView,
    plugin: PluginRecord,
    servers: Seq<PluginServer>,
    config: PluginsConfig,
    sandbox: SandboxConfig,
) -> PluginView
    decreases servers.len(),
{
    if servers.len() == 0 {
        view
    } else {
        with_server(
            platform,
            with_servers(platform, view, plugin, servers.drop_last(), config, sandbox),
            plugin,
            servers.last(),
            config,
            sandbox,
        )
    }
}

/// What is added with plugins.
pub open spec fn with_plugins(
    platform: Platform,
    view: PluginView,
    plugins: Seq<PluginRecord>,
    config: PluginsConfig,
    sandbox: SandboxConfig,
) -> PluginView
    decreases plugins.len(),
{
    if plugins.len() == 0 {
        view
    } else {
        with_servers(
            platform,
            with_plugins(platform, view, plugins.drop_last(), config, sandbox),
            plugins.last(),
            plugins.last().mcp_servers@,
            config,
            sandbox,
        )
    }
}

/// Nothing added to the configured servers.
pub open spec fn nothing_added(configured: Seq<Entry<McpServerConfig>>) -> PluginView {
    PluginView {
        names: keys(configured),
        servers: Seq::empty(),
        executables: Seq::empty(),
        filesystem: Seq::empty(),
        restrictions: Seq::empty(),
        diagnostics: Seq::empty(),
    }
}

fn unavailable(
    parts: &mut PluginParts,
    plugin: &PluginRecord,
    server: &PluginServer,
    error: &RuntimeError,
    base: Ghost<int>,
)
    requires
        0 <= base@ <= old(parts).servers@.len(),
    ensures
        parts_view(*final(parts), base@) == (PluginView {
            diagnostics: parts_view(*old(parts), base@).diagnostics.push(
                DiagnosticView {
                    plugin: plugin.name@,
                    server: server.name@,
                    code: "mcp_configuration_unavailable"@,
                    detail: first_chars(displayed(*error), 2048),
                },
            ),
            ..parts_view(*old(parts), base@)
        }),
        final(parts).servers@ == old(parts).servers@,
{
    let ghost before = *parts;
    let shown = error.shown();
    let item = PluginDiagnostic {
        plugin: plugin.name.clone(),
        server: server.name.clone(),
        code: "mcp_configuration_unavailable".to_owned(),
        detail: bounded(shown.as_str(), 2048),
    };
    parts.diagnostics.push(item);
    proof {
        assert(diagnostic_views(parts.diagnostics@) =~= diagnostic_views(before.diagnostics@).push(item@));
    }
}

fn add_compiled(parts: &mut PluginParts, compiled: CompiledPluginServer, base: Ghost<int>)
    requires
        0 <= base@ <= old(parts).servers@.len(),
    ensures
        ({
            let before = parts_view(*old(parts), base@);
            let added = compiled@;
            parts_view(*final(parts), base@) == (PluginView {
                names: before.names + added.servers.map_values(|server: ServerView| server.name),
                servers: before.servers + added.servers,
                executables: before.executables + added.executables,
                filesystem: before.filesystem + added.filesystem,
                restrictions: before.restrictions + added.restrictions,
                ..before
            })
        }),
        final(parts).servers@.len() >= old(parts).servers@.len(),
        final(parts).servers@.take(old(parts).servers@.len() as int) == old(parts).servers@,
{
    let ghost before = *parts;
    let ghost added = compiled@;
    let mut executables = compiled.executables;
    let mut filesystem = compiled.filesystem;
    let mut restrictions = compiled.restrictions;
    let ghost new_executables = executables@;
    let ghost new_filesystem = filesystem@;
    let ghost new_restrictions = restrictions@;
    let ghost new_server = compiled.server;
    if let Some(entry) = compiled.server {
        parts.servers.push(entry);
    }
    parts.executables.append(&mut executables);
    parts.filesystem.append(&mut filesystem);
    parts.restrictions.append(&mut restrictions);
    proof {
        match new_server {
            Some(entry) => {
                assert(keys(parts.servers@) =~= keys(before.servers@) + seq![entry.key@]);
                assert(added.servers.map_values(|server: ServerView| server.name) =~= seq![entry.key@]);
                assert(parts.servers@.skip(base@) =~= before.servers@.skip(base@).push(entry));
                assert(server_views(parts.servers@.skip(base@)) =~= server_views(before.servers@.skip(base@))
                    + seq![server_view(entry)]);
            },
            None => {
                assert(added.servers.map_values(|server: ServerView| server.name) =~= Seq::empty());
                assert(keys(before.servers@) + Seq::<Seq<char>>::empty() =~= keys(before.servers@));
                assert(server_views(before.servers@.skip(base@)) + Seq::<ServerView>::empty() =~= server_views(
                    before.servers@.skip(base@),
                ));
            },
        }
        assert(views(parts.executables@) =~= views(before.executables@) + views(new_executables));
        assert(grant_views(parts.filesystem@) =~= grant_views(before.filesystem@) + grant_views(new_filesystem));
        assert(restriction_views(parts.restrictions@) =~= restriction_views(before.restrictions@)
            + restriction_views(new_restrictions));
        assert(parts.servers@.take(before.servers@.len() as int) =~= before.servers@);
        assert(parts_view(*parts, base@) =~= PluginView {
            names: parts_view(before, base@).names + added.servers.map_values(|server: ServerView| server.name),
            servers: parts_view(before, base@).servers + added.servers,
            executables: parts_view(before, base@).executables + added.executables,
            filesystem: parts_view(before, base@).filesystem + added.filesystem,
            restrictions: parts_view(before, base@).restrictions + added.restrictions,
            ..parts_view(before, base@)
        });
    }
}

fn add_server(
    platform: Platform,
    parts: &mut PluginParts,
    plugin: &PluginRecord,
    server: &PluginServer,
    config: &PluginsConfig,
    sandbox: &SandboxConfig,
    base: Ghost<int>,
)
    requires
        0 <= base@ <= old(parts).servers@.len(),
    ensures
        parts_view(*final(parts), base@) == with_server(
            platform,
            parts_view(*old(parts), base@),
            *plugin,
            *server,
            *config,
            *sandbox,
        ),
        final(parts).servers@.len() >= old(parts).servers@.len(),
        final(parts).servers@.take(old(parts).servers@.len() as int) == old(parts).servers@,
{
    proof {
        assert(parts.servers@.take(parts.servers@.len() as int) =~= parts.servers@);
    }
    if let Some(overlay) = lookup(&config.mcp_servers, server.id.as_str()) {
        if overlay.enabled {
            match compile_plugin_extensions(platform, plugin, server, overlay, &parts.servers, sandbox) {
                Ok(compiled) => match &server.validation {
                    Ok(()) => {
                        add_compiled(parts, compiled, base);
                    },
                    Err(error) => {
                        unavailable(parts, plugin, server, error, base);
                    },
                },
                Err(error) => {
                    unavailable(parts, plugin, server, &error, base);
                },
            }
        }
    }
}

fn add_plugin(
    platform: Platform,
    parts: &mut PluginParts,
    plugin: &PluginRecord,
    config: &PluginsConfig,
    sandbox: &SandboxConfig,
    base: Ghost<int>,
)
    requires
        0 <= base@ <= old(parts).servers@.len(),
    ensures
        parts_view(*final(parts), base@) == with_servers(
            platform,
            parts_view(*old(parts), base@),
            *plugin,
            plugin.mcp_servers@,
            *config,
            *sandbox,
        ),
        final(parts).servers@.len() >= old(parts).servers@.len(),
        final(parts).servers@.take(old(parts).servers@.len() as int) == old(parts).servers@,
{
    let ghost start = *parts;
    let servers = &plugin.mcp_servers;
    let mut i: usize = 0;
    proof {
        assert(parts.servers@.take(parts.servers@.len() as int) =~= parts.servers@);
        assert(with_servers(
            platform,
            parts_view(start, base@),
            *plugin,
            servers@.take(0),
            *config,
            *sandbox,
        ) == parts_view(
            start,
            base@,
        ));
    }
    while i < servers.len()
        invariant
            i <= servers@.len(),
            start == *old(parts),
            servers@ == plugin.mcp_servers@,
            0 <= base@ <= start.servers@.len() <= parts.servers@.len(),
            parts.servers@.take(start.servers@.len() as int) == start.servers@,
            parts_view(*parts, base@) == with_servers(
                platform,
                parts_view(start, base@),
                *plugin,
                servers@.take(i as int),
                *config,
                *sandbox,
            ),
        decreases servers@.len() - i,
    {
        let ghost before = parts.servers@;
        proof {
            assert(servers@.take(i + 1).drop_last() =~= servers@.take(i as int));
            assert(servers@.take(i + 1).last() == servers@[i as int]);
        }
        add_server(platform, parts, plugin, &servers[i], config, sandbox, base);
        proof {
            assert(parts.servers@.take(start.servers@.len() as int) =~= before.take(start.servers@.len() as int)) by {
                assert(parts.servers@.take(before.len() as int).take(start.servers@.len() as int)
                    =~= parts.servers@.take(start.servers@.len() as int));
            }
        }
        i = i + 1;
    }
    proof {
        assert(servers@.take(i as int) =~= servers@);
    }
}

/// The root of a skill: that of the last plugin that has it.
pub open spec fn skill_root(plugins: Seq<PluginRecord>, skill: Seq<char>) -> Option<Seq<char>>
    decreases plugins.len(),
{
    if plugins.len() == 0 {
        None
    } else if views(plugins.last().skills@).contains(skill) {
        Some(plugins.last().root@)
    } else {
        skill_root(plugins.drop_last(), skill)
    }
}

fn add_skills(roots: &mut Vec<Entry<String>>, plugin: &PluginRecord)
    ensures
        forall|skill: Seq<char>|
            #![trigger value_of(final(roots)@, skill)]
            optional_view(value_of(final(roots)@, skill)) == if views(plugin.skills@).contains(skill) {
                Some(plugin.root@)
            } else {
                optional_view(value_of(old(roots)@, skill))
            },
        ascending_keys(old(roots)@) ==> ascending_keys(final(roots)@),
{
    let ghost before = roots@;
    let ghost all = views(plugin.skills@);
    let mut i: usize = 0;
    while i < plugin.skills.len()
        invariant
            i <= plugin.skills@.len(),
            before == old(roots)@,
            all == views(plugin.skills@),
            ascending_keys(before) ==> ascending_keys(roots@),
            forall|skill: Seq<char>|
                #![trigger value_of(roots@, skill)]
                optional_view(value_of(roots@, skill)) == if all.take(i as int).contains(skill) {
                    Some(plugin.root@)
                } else {
                    optional_view(value_of(before, skill))
                },
        decreases plugin.skills@.len() - i,
    {
        let ghost middle = roots@;
        put(roots, plugin.skills[i].clone(), plugin.root.clone());
        proof {
            assert forall|skill: Seq<char>|
                #![trigger value_of(roots@, skill)]
                optional_view(value_of(roots@, skill)) == if all.take(i + 1).contains(skill) {
                    Some(plugin.root@)
                } else {
                    optional_view(value_of(before, skill))
                } by {
                let fewer = all.take(i as int);
                let more = all.take(i + 1);
                assert(more =~= fewer.push(all[i as int]));
                if fewer.contains(skill) {
                    let k = choose|k: int| 0 <= k < fewer.len() && fewer[k] == skill;
                    assert(more[k] == skill);
                }
                if skill == all[i as int] {
                    assert(more[i as int] == skill);
                }
                if more.contains(skill) && skill != all[i as int] {
                    let k = choose|k: int| 0 <= k < more.len() && more[k] == skill;
                    assert(fewer[k] == skill);
                }
                assert(optional_view(value_of(middle, skill)) == if fewer.contains(skill) {
                    Some(plugin.root@)
                } else {
                    optional_view(value_of(before, skill))
                });
            }
        }
        i = i + 1;
    }
    proof {
        assert(all.take(i as int) =~= all);
    }
}

/// The actions of the servers that the workspace enables, by the prefixes of their identifiers.
pub open spec fn overlay_actions(overlays: Seq<Entry<PluginMcpServerConfig>>, prefixes: Seq<Entry<String>>) -> Seq<
    Seq<char>,
>
    decreases overlays.len(),
{
    if overlays.len() == 0 {
        Seq::empty()
    } else {
        let rest = overlay_actions(overlays.drop_last(), prefixes);
        let last = overlays.last();
        match value_of(prefixes, last.key@) {
            Some(prefix) if last.value.enabled && last.key@.contains('/') => rest.push(prefix@ + ".tools"@).push(
                prefix@ + ".call"@,
            ),
            _ => rest,
        }
    }
}

fn plan_actions(overlays: &Vec<Entry<PluginMcpServerConfig>>, prefixes: &Vec<Entry<String>>) -> (list: Vec<String>)
    ensures
        views(list@) == overlay_actions(overlays@, prefixes@),
{
    let mut list: Vec<String> = Vec::new();
    let mut i: usize = 0;
    proof {
        assert(views(list@) =~= overlay_actions(overlays@.take(0), prefixes@));
    }
    while i < overlays.len()
        invariant
            i <= overlays@.len(),
            views(list@) == overlay_actions(overlays@.take(i as int), prefixes@),
        decreases overlays@.len() - i,
    {
        let overlay = &overlays[i];
        let ghost before = list@;
        proof {
            assert(overlays@.take(i + 1).drop_last() =~= overlays@.take(i as int));
            assert(overlays@.take(i + 1).last() == *overlay);
        }
        if overlay.value.enabled && contains_char(overlay.key.as_str(), '/') {
            if let Some(prefix) = lookup(prefixes, overlay.key.as_str()) {
                let first = concat2(prefix.as_str(), ".tools");
                let second = concat2(prefix.as_str(), ".call");
                list.push(first);
                list.push(second);
                proof {
                    assert(views(list@) =~= views(before).push(first@).push(second@));
                }
            }
        }
        i = i + 1;
    }
    proof {
        assert(overlays@.take(i as int) =~= overlays@);
    }
    list
}

/// What active plugins add to the runtime and to the configured MCP servers. A server that the
/// workspace does not enable adds nothing; one that is not available adds the diagnostic of that and
/// nothing else. `prefixes` are the action prefixes of server identifiers.
pub fn compile_active_plugin_extensions(
    platform: Platform,
    plugins: &Vec<PluginRecord>,
    configured_plugins: &PluginsConfig,
    configured_mcp: McpConfig,
    sandbox: &SandboxConfig,
    prefixes: &Vec<Entry<String>>,
) -> (output: ActivePluginExtensions)
    ensures
        ({
            let added = with_plugins(
                platform,
                nothing_added(configured_mcp.servers@),
                plugins@,
                *configured_plugins,
                *sandbox,
            );
            &&& server_views(output.mcp.servers@) == ordered_by(
                server_views(configured_mcp.servers@) + added.servers,
                by_name(),
            )
            &&& output.mcp.oauth_credential_store == configured_mcp.oauth_credential_store
            &&& views(output.executables@) == added.executables
            &&& grant_views(output.filesystem@) == added.filesystem
            &&& views(output.actions@) == overlay_actions(configured_plugins.mcp_servers@, prefixes@)
            &&& restriction_views(output.restrictions@) == added.restrictions
            &&& diagnostic_views(output.diagnostics@) == added.diagnostics
        }),
        forall|skill: Seq<char>|
            #![trigger value_of(output.skill_roots@, skill)]
            optional_view(value_of(output.skill_roots@, skill)) == skill_root(plugins@, skill),
        ascending_keys(output.skill_roots@),
{
    let ghost configured = configured_mcp.servers@;
    let base: Ghost<int> = Ghost(configured.len() as int);
    let mut parts = PluginParts {
        servers: configured_mcp.servers,
        executables: Vec::new(),
        filesystem: Vec::new(),
        restrictions: Vec::new(),
        diagnostics: Vec::new(),
    };
    let mut skill_roots: Vec<Entry<String>> = Vec::new();
    let mut i: usize = 0;
    proof {
        assert(configured.take(configured.len() as int) =~= configured);
        assert(parts_view(parts, base@) =~= nothing_added(configured));
        assert(with_plugins(platform, nothing_added(configured), plugins@.take(0), *configured_plugins, *sandbox)
            == nothing_added(configured));
    }
    while i < plugins.len()
        invariant
            i <= plugins@.len(),
            base@ == configured.len() <= parts.servers@.len(),
            parts.servers@.take(configured.len() as int) == configured,
            parts_view(parts, base@) == with_plugins(
                platform,
                nothing_added(configured),
                plugins@.take(i as int),
                *configured_plugins,
                *sandbox,
            ),
            forall|skill: Seq<char>|
                #![trigger value_of(skill_roots@, skill)]
                optional_view(value_of(skill_roots@, skill)) == skill_root(plugins@.take(i as int), skill),
            ascending_keys(skill_roots@),
        decreases plugins@.len() - i,
    {
        let ghost before = parts.servers@;
        let ghost before_roots = skill_roots@;
        proof {
            assert(plugins@.take(i + 1).drop_last() =~= plugins@.take(i as int));
            assert(plugins@.take(i + 1).last() == plugins@[i as int]);
        }
        add_skills(&mut skill_roots, &plugins[i]);
        add_plugin(platform, &mut parts, &plugins[i], configured_plugins, sandbox, base);
        proof {
            assert(parts.servers@.take(before.len() as int).take(configured.len() as int) =~= parts.servers@.take(
                configured.len() as int,
            ));
            assert forall|skill: Seq<char>|
                #![trigger value_of(skill_roots@, skill)]
                optional_view(value_of(skill_roots@, skill)) == skill_root(plugins@.take(i + 1), skill) by {
                assert(optional_view(value_of(before_roots, skill)) == skill_root(plugins@.take(i as int), skill));
            }
        }
        i = i + 1;
    }
    proof {
        assert(plugins@.take(i as int) =~= plugins@);
    }
    let actions = plan_actions(&configured_plugins.mcp_servers, prefixes);
    proof {
        let servers = parts.servers@;
        assert(servers =~= configured + servers.skip(configured.len() as int));
        assert(server_views(servers) =~= server_views(configured) + server_views(
            servers.skip(configured.len() as int),
        ));
        servers_in_order(servers);
    }
    let servers = in_key_order(parts.servers);
    ActivePluginExtensions {
        mcp: McpConfig { servers, oauth_credential_store: configured_mcp.oauth_credential_store },
        executables: parts.executables,
        filesystem: parts.filesystem,
        actions,
        restrictions: parts.restrictions,
        skill_roots,
        diagnostics: parts.diagnostics,
    }
}

/// No server without an enabled overlay: a plugin whose servers the workspace does not enable adds
/// nothing at all.
pub proof fn servers_require_an_enabled_overlay(
    platform: Platform,
    view: PluginView,
    plugin: PluginRecord,
    servers: Seq<PluginServer>,
    config: PluginsConfig,
    sandbox: SandboxConfig,
)
    requires
        forall|i: int| 0 <= i < servers.len() ==> enabled_overlay(config, (#[trigger] servers[i]).id@) is None,
    ensures
        with_servers(platform, view, plugin, servers, config, sandbox) == view,
    decreases servers.len(),
{
    if servers.len() > 0 {
        assert(enabled_overlay(config, servers[servers.len() - 1].id@) is None);
        assert forall|i: int| 0 <= i < servers.len() - 1 implies enabled_overlay(
            config,
            (#[trigger] servers.drop_last()[i]).id@,
        ) is None by {
            assert(servers.drop_last()[i] == servers[i]);
        }
        servers_require_an_enabled_overlay(platform, view, plugin, servers.drop_last(), config, sandbox);
    }
}

/// A server that runs a process stays within its plugin: a command stated below the root lies below
/// it, and the directory it works in lies below the root or the data.
pub proof fn processes_stay_within_their_plugin(
    platform: Platform,
    server: PluginServer,
    root: Seq<char>,
    data: Seq<char>,
    sandbox: SandboxConfig,
)
    requires
        command_file(platform, server, root, sandbox) is Ok,
        server_directory(platform, server, root, data) is Ok,
    ensures
        server.command matches Some(token) && (has_prefix(token@, "./"@) ==> within(
            platform,
            command_file(platform, server, root, sandbox)->Ok_0,
            root,
        )),
        within(platform, server_directory(platform, server, root, data)->Ok_0, root) || within(
            platform,
            server_directory(platform, server, root, data)->Ok_0,
            data,
        ),
{
}

/// A server is added only where an overlay for its identity is enabled; then it appears under its own
/// identity and with its own plugin, or a diagnostic says why it does not. What was there stays.
pub proof fn enabled_servers_appear_or_are_explained(
    platform: Platform,
    view: PluginView,
    plugin: PluginRecord,
    server: PluginServer,
    config: PluginsConfig,
    sandbox: SandboxConfig,
)
    ensures
        ({
            let after = with_server(platform, view, plugin, server, config, sandbox);
            let missing = unavailability(platform, plugin, server, view.names, sandbox);
            &&& enabled_overlay(config, server.id@) is None ==> after == view
            &&& enabled_overlay(config, server.id@) is Some && missing is Some ==> {
                &&& after.servers == view.servers
                &&& after.executables == view.executables && after.filesystem == view.filesystem
                &&& after.diagnostics.len() == view.diagnostics.len() + 1
                &&& after.diagnostics.last().plugin == plugin.name@
                &&& after.diagnostics.last().server == server.name@
                &&& after.diagnostics.last().detail.is_prefix_of(missing->0)
            }
            &&& enabled_overlay(config, server.id@) is Some && missing is None && !(server.transport is Sse) ==> {
                &&& after.servers.len() == view.servers.len() + 1
                &&& after.servers.last().name == server.id@
                &&& after.names.contains(server.id@)
                &&& after.diagnostics == view.diagnostics
            }
            &&& view.servers.is_prefix_of(after.servers)
            &&& view.executables.is_prefix_of(after.executables)
            &&& view.filesystem.is_prefix_of(after.filesystem)
            &&& view.restrictions.is_prefix_of(after.restrictions)
            &&& view.diagnostics.is_prefix_of(after.diagnostics)
        }),
{
    let after = with_server(platform, view, plugin, server, config, sandbox);
    let missing = unavailability(platform, plugin, server, view.names, sandbox);
    if enabled_overlay(config, server.id@) is Some && missing is None && !(server.transport is Sse) {
        let overlay = enabled_overlay(config, server.id@)->0;
        let compiled = compiled_server(platform, plugin, server, overlay, sandbox);
        let added = compiled.servers.map_values(|added: ServerView| added.name);
        assert(added[0] == server.id@);
        assert(after.names[view.names.len() as int] == server.id@);
        assert(after.servers.last() == compiled.servers[0]);
    }
}

/// A server may only be called for the tools of its overlay, under the variables, timeouts and
/// credentials of its overlay, and its effects bear its own prefix; it comes from its own plugin.
pub proof fn servers_are_held_to_their_overlay(
    platform: Platform,
    plugin: PluginRecord,
    server: PluginServer,
    overlay: PluginMcpServerConfig,
    sandbox: SandboxConfig,
)
    ensures
        ({
            let added = plugin_server(platform, plugin, server, overlay, sandbox);
            &&& added.name == server.id@
            &&& added.allowed_tools == views(overlay.allowed_tools@)
            &&& added.environment == text_entries(overlay.environment@)
            &&& added.credential_headers == overlay.credential_headers@
            &&& added.oauth == overlay.oauth
            &&& added.research_tools == overlay.research_tools@
            &&& added.allow_stateless == overlay.allow_stateless
            &&& added.timeout_ms == overlay.timeout_ms && added.max_output_bytes == overlay.max_output_bytes
            &&& added.effect_action_prefix == Some(server.action_prefix@)
            &&& added.provenance == (ProvenanceView::Plugin {
                plugin: plugin.name@,
                manifest_digest: plugin.digest@,
                trust: plugin.trust@,
            })
            &&& server.transport is Stdio ==> added.transport is Stdio && added.url is None
                && added.working_directory is Some
            &&& !(server.transport is Stdio) ==> added.transport is StreamableHttp && added.url == optional_view(
                server.url,
            ) && added.command.len() == 0 && added.working_directory is None && added.literal_environment.len() == 0
            &&& added.args.len() == server.args@.len()
            &&& added.headers == text_entries(server.headers@)
        }),
{
}

/// The calls of a server are restricted to reading its plugin, writing its data, seeing the variables of
/// its overlay and reaching its own origin.
pub proof fn server_calls_are_restricted(
    platform: Platform,
    plugin: PluginRecord,
    server: PluginServer,
    overlay: PluginMcpServerConfig,
    sandbox: SandboxConfig,
    at: int,
)
    requires
        !(server.transport is Sse),
        0 <= at < 2,
    ensures
        ({
            let compiled = compiled_server(platform, plugin, server, overlay, sandbox);
            let root = plugin.canonical_root->Ok_0@;
            let data = data_directory(plugin)->Ok_0;
            &&& compiled.restrictions.len() == 2
            &&& compiled.restrictions[0].action == server.action_prefix@ + ".tools"@
            &&& compiled.restrictions[1].action == server.action_prefix@ + ".call"@
            &&& compiled.restrictions[at].filesystem == seq![
                GrantView { root, mode: "read"@ },
                GrantView { root: data, mode: "write"@ },
            ]
            &&& compiled.restrictions[at].allowed_environment == keys(overlay.environment@)
            &&& server.origin matches Some(origin) ==> compiled.restrictions[at].network_destinations == seq![
                origin@,
            ]
            &&& server.origin is None ==> compiled.restrictions[at].network_destinations.len() == 0
            &&& server.transport is Stdio ==> compiled.executables.len() == 1 && compiled.filesystem.last() == (
            GrantView { root: compiled.executables[0], mode: "execute"@ })
            &&& !(server.transport is Stdio) ==> compiled.executables.len() == 0
        }),
{
}

/// The legacy transport adds no server and can run nothing.
pub proof fn the_legacy_transport_adds_nothing(
    platform: Platform,
    plugin: PluginRecord,
    server: PluginServer,
    overlay: PluginMcpServerConfig,
    sandbox: SandboxConfig,
)
    requires
        server.transport is Sse,
    ensures
        compiled_server(platform, plugin, server, overlay, sandbox).servers.len() == 0,
        compiled_server(platform, plugin, server, overlay, sandbox).executables.len() == 0,
        compiled_server(platform, plugin, server, overlay, sandbox).restrictions.len() == 0,
{
}

/// A command inside the plugin has to stand below its root as a regular file; any other has to be an
/// executable that the sandbox lists under that name.
pub proof fn commands_stay_in_the_plugin_or_the_sandbox(
    platform: Platform,
    server: PluginServer,
    root: Seq<char>,
    sandbox: SandboxConfig,
)
    requires
        command_file(platform, server, root, sandbox) is Ok,
    ensures
        server.command is Some,
        has_prefix(server.command->0@, "./"@) ==> within(platform, command_file(platform, server, root, sandbox)->Ok_0, root),
        !has_prefix(server.command->0@, "./"@) ==> exists|i: int|
            0 <= i < sandbox.executables@.len() && (#[trigger] sandbox.executables@[i])@ == command_file(
                platform,
                server,
                root,
                sandbox,
            )->Ok_0 && file_name(platform, sandbox.executables@[i]@) == Some(server.command->0@),
{
    if !has_prefix(server.command->0@, "./"@) {
        named_executables_are_listed(platform, sandbox.executables@, server.command->0@);
    }
}

/// An executable is found by its file name exactly where the list has one of that name.
pub proof fn named_executables_are_listed(platform: Platform, executables: Seq<String>, name: Seq<char>)
    ensures
        named_executable(platform, executables, name) matches Some(path) ==> exists|i: int|
            0 <= i < executables.len() && (#[trigger] executables[i])@ == path && file_name(
                platform,
                executables[i]@,
            ) == Some(name),
        named_executable(platform, executables, name) is None ==> forall|i: int|
            0 <= i < executables.len() ==> file_name(platform, (#[trigger] executables[i])@) != Some(name),
    decreases executables.len(),
{
    if executables.len() > 0 {
        let rest = executables.skip(1);
        named_executables_are_listed(platform, rest, name);
        if file_name(platform, executables[0]@) != Some(name) {
            if named_executable(platform, rest, name) is Some {
                let path = named_executable(platform, rest, name)->0;
                let i = choose|i: int|
                    0 <= i < rest.len() && (#[trigger] rest[i])@ == path && file_name(platform, rest[i]@) == Some(name);
                assert(executables[i + 1] == rest[i]);
            } else {
                assert forall|i: int| 0 <= i < executables.len() implies file_name(
                    platform,
                    (#[trigger] executables[i])@,
                ) != Some(name) by {
                    if i > 0 {
                        assert(rest[i - 1] == executables[i]);
                    }
                }
            }
        }
    }
}

/// A working directory stays below the plugin's root, or below its data where it names them; without
/// one the server runs in its root.
pub proof fn directories_stay_in_root_or_data(
    platform: Platform,
    server: PluginServer,
    root: Seq<char>,
    data: Seq<char>,
)
    ensures
        server.working_directory is None ==> server_directory(platform, server, root, data) == Ok::<
            Seq<char>,
            Verdict,
        >(root),
        server.working_directory is Some && server_directory(platform, server, root, data) is Ok ==> within(
            platform,
            server_directory(platform, server, root, data)->Ok_0,
            root,
        ) || within(platform, server_directory(platform, server, root, data)->Ok_0, data),
{
}

/// A server is accepted only where its plugin's root and data are known, and no other server has its
/// identity.
pub proof fn accepted_servers_have_an_identity_of_their_own(
    platform: Platform,
    plugin: PluginRecord,
    server: PluginServer,
    names: Seq<Seq<char>>,
    sandbox: SandboxConfig,
)
    requires
        server_verdict(platform, plugin, server, names, sandbox) is Accept,
    ensures
        plugin.canonical_root is Ok,
        plugin.data is Some && plugin.data->0 is Ok,
        !(server.transport is Sse) ==> !names.contains(server.id@),
        server.transport is Stdio ==> server_command(
            platform,
            server,
            plugin.canonical_root->Ok_0@,
            sandbox,
        ) is Ok && server_directory(platform, server, plugin.canonical_root->Ok_0@, plugin.data->0->Ok_0@) is Ok,
{
}

/// A server of a known plugin over HTTP is accepted wherever its identity is free.
pub proof fn http_servers_need_a_free_identity(
    platform: Platform,
    plugin: PluginRecord,
    server: PluginServer,
    names: Seq<Seq<char>>,
    sandbox: SandboxConfig,
)
    requires
        server.transport is StreamableHttp,
        plugin.canonical_root is Ok,
        plugin.data is Some && plugin.data->0 is Ok,
    ensures
        server_verdict(platform, plugin, server, names, sandbox) is Accept <==> !names.contains(server.id@),
        server.validation is Ok && !names.contains(server.id@) ==> unavailability(
            platform,
            plugin,
            server,
            names,
            sandbox,
        ) is None,
        server.validation is Err ==> unavailability(platform, plugin, server, names, sandbox) is Some,
{
}

/// Variables that a plugin states hold, expanded, but for those that an overlay sets and the two that
/// are the runtime's own.
pub proof fn stated_variables_hold(
    environment: Seq<Entry<String>>,
    overlay: Seq<Entry<String>>,
    root: Seq<char>,
    data: Seq<char>,
    at: int,
)
    requires
        0 <= at < environment.len(),
    ensures
        !has_key(overlay, environment[at].key@) && environment[at].key@ != "PLUGIN_ROOT"@ && environment[at].key@
            != "PLUGIN_DATA"@ ==> stated_environment(environment, overlay, root, data).contains(
            (environment[at].key@, expansion(environment[at].value@, root, data)),
        ),
    decreases environment.len(),
{
    let rest = stated_environment(environment.drop_last(), overlay, root, data);
    let all = stated_environment(environment, overlay, root, data);
    let pair = (environment[at].key@, expansion(environment[at].value@, root, data));
    if !has_key(overlay, environment[at].key@) && environment[at].key@ != "PLUGIN_ROOT"@ && environment[at].key@
        != "PLUGIN_DATA"@ {
        if at < environment.len() - 1 {
            stated_variables_hold(environment.drop_last(), overlay, root, data, at);
            let i = choose|i: int| 0 <= i < rest.len() && rest[i] == pair;
            assert(all[i] == pair);
        } else {
            assert(all[rest.len() as int] == pair);
        }
    }
}

/// No variable that an overlay sets, nor one of the runtime's own, is taken from what the plugin states.
pub proof fn overlays_win_over_plugins(
    environment: Seq<Entry<String>>,
    overlay: Seq<Entry<String>>,
    root: Seq<char>,
    data: Seq<char>,
    at: int,
)
    requires
        0 <= at < stated_environment(environment, overlay, root, data).len(),
    ensures
        !has_key(overlay, stated_environment(environment, overlay, root, data)[at].0),
        stated_environment(environment, overlay, root, data)[at].0 != "PLUGIN_ROOT"@,
        stated_environment(environment, overlay, root, data)[at].0 != "PLUGIN_DATA"@,
    decreases environment.len(),
{
    if at < stated_environment(environment.drop_last(), overlay, root, data).len() {
        overlays_win_over_plugins(environment.drop_last(), overlay, root, data, at);
    }
}

/// An overlay counts where it is for that very server and is enabled.
pub proof fn overlays_count_where_enabled(config: PluginsConfig, id: Seq<char>)
    ensures
        enabled_overlay(config, id) is Some <==> value_of(config.mcp_servers@, id) is Some && value_of(
            config.mcp_servers@,
            id,
        )->0.enabled,
        enabled_overlay(config, id) is Some ==> enabled_overlay(config, id) == value_of(config.mcp_servers@, id),
{
}

/// A skill stands at the root of the last plugin that has it, and at none where no plugin has it.
pub proof fn skills_stand_in_their_plugin(plugins: Seq<PluginRecord>, plugin: PluginRecord, skill: Seq<char>)
    ensures
        views(plugin.skills@).contains(skill) ==> skill_root(plugins.push(plugin), skill) == Some(plugin.root@),
        !views(plugin.skills@).contains(skill) ==> skill_root(plugins.push(plugin), skill) == skill_root(
            plugins,
            skill,
        ),
        skill_root(Seq::empty(), skill) is None,
{
    assert(plugins.push(plugin).drop_last() == plugins);
}

/// Every enabled overlay of a plugin's server that has a prefix brings in its two actions, and a
/// disabled one none.
pub proof fn enabled_overlays_bring_their_actions(
    overlays: Seq<Entry<PluginMcpServerConfig>>,
    overlay: Entry<PluginMcpServerConfig>,
    prefixes: Seq<Entry<String>>,
)
    ensures
        ({
            let before = overlay_actions(overlays, prefixes);
            let after = overlay_actions(overlays.push(overlay), prefixes);
            let prefix = value_of(prefixes, overlay.key@);
            &&& overlay.value.enabled && overlay.key@.contains('/') && prefix is Some ==> after == before + seq![
                prefix->0@ + ".tools"@,
                prefix->0@ + ".call"@,
            ]
            &&& !overlay.value.enabled || !overlay.key@.contains('/') || prefix is None ==> after == before
            &&& overlay_actions(Seq::empty(), prefixes).len() == 0
        }),
{
    assert(overlays.push(overlay).drop_last() == overlays);
    let before = overlay_actions(overlays, prefixes);
    let prefix = value_of(prefixes, overlay.key@);
    if overlay.value.enabled && overlay.key@.contains('/') && prefix is Some {
        assert(before.push(prefix->0@ + ".tools"@).push(prefix->0@ + ".call"@) == before + seq![
            prefix->0@ + ".tools"@,
            prefix->0@ + ".call"@,
        ]);
    }
}

/// Plugins are added one after another: more plugins add to what the first ones gave, one plugin adds its
/// own servers, and no plugin adds nothing to the configured servers.
pub proof fn plugins_add_up(
    platform: Platform,
    configured: Seq<Entry<McpServerConfig>>,
    view: PluginView,
    first: Seq<PluginRecord>,
    second: Seq<PluginRecord>,
    one: PluginRecord,
    config: PluginsConfig,
    sandbox: SandboxConfig,
)
    ensures
        with_plugins(platform, view, first + second, config, sandbox) == with_plugins(
            platform,
            with_plugins(platform, view, first, config, sandbox),
            second,
            config,
            sandbox,
        ),
        with_plugins(platform, view, seq![one], config, sandbox) == with_servers(
            platform,
            view,
            one,
            one.mcp_servers@,
            config,
            sandbox,
        ),
        nothing_added(configured).names == keys(configured),
        nothing_added(configured).servers.len() == 0,
        nothing_added(configured).executables.len() == 0,
        nothing_added(configured).filesystem.len() == 0,
        nothing_added(configured).restrictions.len() == 0,
        nothing_added(configured).diagnostics.len() == 0,
    decreases second.len(),
{
    reveal_with_fuel(with_plugins, 2);
    assert(seq![one].drop_last() =~= Seq::<PluginRecord>::empty());
    if second.len() == 0 {
        assert(first + second =~= first);
    } else {
        plugins_add_up(platform, configured, view, first, second.drop_last(), one, config, sandbox);
        assert((first + second).drop_last() =~= first + second.drop_last());
        assert((first + second).last() == second.last());
    }
}

/// What is planned for a server is what was expected of it: a path where one was, and no path where the
/// server was refused.
pub proof fn planned_paths_are_the_expected_ones(
    result: Result<String, RuntimeError>,
    expected: Result<Seq<char>, Verdict>,
)
    requires
        gives(result, expected),
    ensures
        result matches Ok(path) ==> expected == Ok::<Seq<char>, Verdict>(path@),
        expected is Ok ==> result is Ok,
        expected matches Err(Verdict::Reject(text)) ==> is_config_error(result, text),
        expected matches Err(Verdict::Forward(error)) ==> result == Err::<String, RuntimeError>(error),
{
}

/// A server that cannot be had is explained under its plugin and its name, in two thousand and
/// forty-eight characters at most, and leaves everything else as it was.
pub proof fn unavailable_servers_are_explained(
    platform: Platform,
    view: PluginView,
    plugin: PluginRecord,
    server: PluginServer,
    config: PluginsConfig,
    sandbox: SandboxConfig,
)
    requires
        enabled_overlay(config, server.id@) is Some,
        unavailability(platform, plugin, server, view.names, sandbox) is Some,
    ensures
        ({
            let after = with_server(platform, view, plugin, server, config, sandbox);
            let reason = unavailability(platform, plugin, server, view.names, sandbox)->0;
            let shown = after.diagnostics.last();
            &&& after.diagnostics.drop_last() == view.diagnostics
            &&& shown.plugin == plugin.name@ && shown.server == server.name@
            &&& shown.code == "mcp_configuration_unavailable"@
            &&& reason.len() <= 2048 ==> shown.detail == reason
            &&& reason.len() > 2048 ==> shown.detail == reason.take(2048)
            &&& after.servers == view.servers && after.names == view.names && after.executables == view.executables
            &&& after.filesystem == view.filesystem && after.restrictions == view.restrictions
        }),
{
}

} // verus!
