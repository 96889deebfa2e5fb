//! What enabled packs add to the runtime: executable tools and MCP servers, with the restrictions
//! that hold for them.

use crate::config::{
    grant, grant_views, FilesystemGrant, GrantView, McpConfig, McpProvenance, McpServerConfig, McpTransportKind,
    Platform, SandboxConfig,
};
use crate::entries::{
    by_first, by_key, clone_entries, contains_key, in_key_order, key_list, keys, ordered_by, ordering_commutes,
    text_entries, Entry,
};
use crate::error::{answers, config_error, config_error3, is_config_error, RuntimeError, Verdict};
use crate::mcp_servers::{
    by_name, key_is_contained, server_view, server_views, servers_in_order, ProvenanceView, ServerView,
};
use crate::paths::{starts_with_path, within};
use crate::policy_plan::{restriction_views, ActionRestriction, RestrictionView};
use crate::text::{
    clone_texts, concat2, concat3, contains_text, list_contains, optional_view, parts_are_contained, same_text, views,
};
use crate::validation::{both, reject_if};
use vstd::prelude::*;
use vstd::string::*;

verus! {

/// A binary of a pack, with what its path resolves to.
#[derive(Debug)]
pub struct PackBinary {
    pub name: String,
    /// The canonical path, or why there is none.
    pub path: Result<String, RuntimeError>,
    /// Whether the path is a regular file.
    pub regular: bool,
}

/// An executable tool of a pack.
#[derive(Debug)]
pub struct PackToolDeclaration {
    pub name: String,
    pub command: String,
    pub args: Vec<String>,
    pub env_refs: Vec<Entry<String>>,
    pub permissions: Vec<String>,
}

/// An MCP server of a pack.
#[derive(Debug)]
pub struct PackMcpServerDeclaration {
    pub name: String,
    pub command: String,
    pub args: Vec<String>,
    pub env_refs: Vec<Entry<String>>,
    pub allowed_tools: Vec<String>,
    pub permissions: Vec<String>,
}

/// An enabled pack, with what its path resolves to.
#[derive(Debug)]
pub struct PackInstallation {
    pub name: String,
    pub version: String,
    pub manifest_sha256: String,
    /// The canonical path of its installation, or why there is none.
    pub root: Result<String, RuntimeError>,
    pub binaries: Vec<PackBinary>,
    pub tools: Vec<PackToolDeclaration>,
    pub mcp_servers: Vec<PackMcpServerDeclaration>,
}

/// The process behind a tool of a pack.
#[derive(Debug)]
pub struct PackProcessDeclaration {
    pub pack: String,
    pub version: String,
    pub manifest_sha256: String,
    pub tool: String,
    pub action: String,
    pub executable: String,
    pub cwd: String,
    pub args: Vec<String>,
    pub environment: Vec<Entry<String>>,
    pub permissions: Vec<String>,
}

/// The process behind a tool of a pack, as characters.
pub ghost struct ProcessView {
    pub pack: Seq<char>,
    pub version: Seq<char>,
    pub manifest_sha256: Seq<char>,
    pub tool: Seq<char>,
    pub action: Seq<char>,
    pub executable: Seq<char>,
    pub cwd: Seq<char>,
    pub args: Seq<Seq<char>>,
    pub environment: Seq<(Seq<char>, Seq<char>)>,
    pub permissions: Seq<Seq<char>>,
}

impl View for PackProcessDeclaration {
    type V = ProcessView;

    open spec fn view(&self) -> ProcessView {
        ProcessView {
            pack: self.pack@,
            version: self.version@,
            manifest_sha256: self.manifest_sha256@,
            tool: self.tool@,
            action: self.action@,
            executable: self.executable@,
            cwd: self.cwd@,
            args: views(self.args@),
            environment: text_entries(self.environment@),
            permissions: views(self.permissions@),
        }
    }
}

/// A tool as a model is shown it.
#[derive(Debug)]
pub struct ToolSpec {
    pub name: String,
    pub description: String,
    /// The input schema, as its document.
    pub input_schema: String,
    pub effect_action: Option<String>,
    pub capability: Option<String>,
    pub max_output_bytes: u64,
}

/// A tool as a model is shown it, as characters.
pub ghost struct ToolView {
    pub name: Seq<char>,
    pub description: Seq<char>,
    pub input_schema: Seq<char>,
    pub effect_action: Option<Seq<char>>,
    pub capability: Option<Seq<char>>,
    pub max_output_bytes: u64,
}

impl View for ToolSpec {
    type V = ToolView;

    open spec fn view(&self) -> ToolView {
        ToolView {
            name: self.name@,
            description: self.description@,
            input_schema: self.input_schema@,
            effect_action: optional_view(self.effect_action),
            capability: optional_view(self.capability),
            max_output_bytes: self.max_output_bytes,
        }
    }
}

/// What enabled packs add to the runtime.
#[derive(Debug)]
pub struct ActivePackExtensions {
    pub process_declarations: Vec<Entry<PackProcessDeclaration>>,
    pub tool_specs: Vec<ToolSpec>,
    pub mcp: McpConfig,
    pub executables: Vec<String>,
    pub filesystem: Vec<FilesystemGrant>,
    pub actions: Vec<String>,
    pub restrictions: Vec<ActionRestriction>,
}

/// What packs add, before it is joined with the configured servers.
struct PackParts {
    declarations: Vec<Entry<PackProcessDeclaration>>,
    specs: Vec<ToolSpec>,
    servers: Vec<Entry<McpServerConfig>>,
    executables: Vec<String>,
    filesystem: Vec<FilesystemGrant>,
    actions: Vec<String>,
    restrictions: Vec<ActionRestriction>,
}

/// What packs add, as values.
#[verifier::ext_equal]
pub ghost struct PackView {
    pub names: Seq<Seq<char>>,
    pub declarations: Seq<ProcessView>,
    pub specs: Seq<ToolView>,
    pub servers: Seq<ServerView>,
    pub executables: Seq<Seq<char>>,
    pub filesystem: Seq<GrantView>,
    pub actions: Seq<Seq<char>>,
    pub restrictions: Seq<RestrictionView>,
}

/// Process declarations as values.
pub open spec fn declaration_views(list: Seq<Entry<PackProcessDeclaration>>) -> Seq<ProcessView> {
    list.map_values(|entry: Entry<PackProcessDeclaration>| entry.value@)
}

/// Process declarations as values, with their names.
pub open spec fn named_declarations(list: Seq<Entry<PackProcessDeclaration>>) -> Seq<(Seq<char>, ProcessView)> {
    list.map_values(|entry: Entry<PackProcessDeclaration>| (entry.key@, entry.value@))
}

/// Tools as values.
pub open spec fn tool_views(list: Seq<ToolSpec>) -> Seq<ToolView> {
    list.map_values(|tool: ToolSpec| tool@)
}

spec fn parts_view(parts: PackParts) -> PackView {
    PackView {
        names: keys(parts.declarations@),
        declarations: declaration_views(parts.declarations@),
        specs: tool_views(parts.specs@),
        servers: server_views(parts.servers@),
        executables: views(parts.executables@),
        filesystem: grant_views(parts.filesystem@),
        actions: views(parts.actions@),
        restrictions: restriction_views(parts.restrictions@),
    }
}

/// Nothing added.
pub open spec fn nothing() -> PackView {
    PackView {
        names: Seq::empty(),
        declarations: Seq::empty(),
        specs: Seq::empty(),
        servers: Seq::empty(),
        executables: Seq::empty(),
        filesystem: Seq::empty(),
        actions: Seq::empty(),
        restrictions: Seq::empty(),
    }
}

/// The grants of a sandbox that a pack may use: those for reading, and those for writing where it
/// may write.
pub open spec fn usable_grants(list: Seq<FilesystemGrant>, write: bool) -> Seq<GrantView>
    decreases list.len(),
{
    if list.len() == 0 {
        Seq::empty()
    } else {
        let rest = usable_grants(list.drop_last(), write);
        let last = list.last()@;
        if last.mode == "read"@ || (last.mode == "write"@ && write) {
            rest.push(last)
        } else {
            rest
        }
    }
}

/// The grants of a pack's action: its own files, and of the sandbox what its permissions allow.
pub open spec fn pack_grants(
    root: Seq<char>,
    executable: Seq<char>,
    permissions: Seq<Seq<char>>,
    sandbox: SandboxConfig,
) -> Seq<GrantView> {
    let own = seq![
        GrantView { root, mode: "read"@ },
        GrantView { root: executable, mode: "execute"@ },
    ];
    if permissions.contains("filesystem.read"@) || permissions.contains("filesystem.write"@) {
        own + usable_grants(sandbox.filesystem@, permissions.contains("filesystem.write"@))
    } else {
        own
    }
}

/// What an action of a pack may reach.
pub open spec fn pack_restriction(
    action: Seq<char>,
    root: Seq<char>,
    executable: Seq<char>,
    permissions: Seq<Seq<char>>,
    environment: Seq<Entry<String>>,
    sandbox: SandboxConfig,
) -> RestrictionView {
    RestrictionView {
        action,
        filesystem: pack_grants(root, executable, permissions, sandbox),
        allowed_environment: keys(environment),
        network_destinations: if permissions.contains("network"@) {
            views(sandbox.network_destinations@)
        } else {
            Seq::empty()
        },
    }
}

/// What an action of a pack may reach: its own files, and of the sandbox what its permissions allow.
pub fn pack_action_restriction(
    action: String,
    root: &str,
    executable: &str,
    permissions: &Vec<String>,
    environment: &Vec<Entry<String>>,
    sandbox: &SandboxConfig,
) -> (restriction: ActionRestriction)
    ensures
        restriction@ == pack_restriction(
            action@,
            root@,
            executable@,
            views(permissions@),
            environment@,
            *sandbox,
        ),
{
    let mut filesystem: Vec<FilesystemGrant> = Vec::new();
    filesystem.push(grant(root, "read"));
    filesystem.push(grant(executable, "execute"));
    let ghost own = seq![
        GrantView { root: root@, mode: "read"@ },
        GrantView { root: executable@, mode: "execute"@ },
    ];
    proof {
        assert(grant_views(filesystem@) =~= own);
    }
    let may_write = list_contains(permissions, "filesystem.write");
    if may_write || list_contains(permissions, "filesystem.read") {
        let ghost all = sandbox.filesystem@;
        let mut i: usize = 0;
        proof {
            assert(own + usable_grants(all.take(0), may_write) =~= own);
        }
        while i < sandbox.filesystem.len()
            invariant
                i <= sandbox.filesystem@.len(),
                all == sandbox.filesystem@,
                grant_views(filesystem@) == own + usable_grants(all.take(i as int), may_write),
            decreases sandbox.filesystem@.len() - i,
        {
            let candidate = &sandbox.filesystem[i];
            let ghost before = filesystem@;
            proof {
                assert(all.take(i + 1).drop_last() =~= all.take(i as int));
                assert(all.take(i + 1).last() == all[i as int]);
            }
            if same_text(
                candidate.mode.as_str(),
                "read",
            ) || (same_text(candidate.mode.as_str(), "write") && may_write) {
                filesystem.push(candidate.clone());
                proof {
                    assert(grant_views(filesystem@) =~= grant_views(before).push(candidate@));
                    assert(own + usable_grants(all.take(i as int), may_write).push(candidate@) =~= (own
                        + usable_grants(all.take(i as int), may_write)).push(candidate@));
                }
            }
            i = i + 1;
        }
        proof {
            assert(all.take(i as int) =~= all);
        }
    }
    let allowed_environment = key_list(environment);
    let network_destinations = if list_contains(permissions, "network") {
        clone_texts(&sandbox.network_destinations)
    } else {
        Vec::new()
    };
    proof {
        assert(views(allowed_environment@) =~= keys(environment@));
        if !views(permissions@).contains("network"@) {
            assert(views(network_destinations@) =~= Seq::empty());
        }
    }
    ActionRestriction { action, filesystem, allowed_environment, network_destinations }
}

/// The path of a binary by its name: that of the last one of the name.
pub open spec fn binary_path(binaries: Seq<PackBinary>, name: Seq<char>) -> Option<Seq<char>>
    decreases binaries.len(),
{
    if binaries.len() == 0 {
        None
    } else if binaries.last().name@ == name {
        match binaries.last().path {
            Ok(path) => Some(path@),
            Err(_) => None,
        }
    } else {
        binary_path(binaries.drop_last(), name)
    }
}

fn find_binary(binaries: &Vec<PackBinary>, name: &str) -> (path: Option<String>)
    ensures
        optional_view(path) == binary_path(binaries@, name@),
{
    let mut i: usize = binaries.len();
    proof {
        assert(binaries@.take(i as int) =~= binaries@);
    }
    while i > 0
        invariant
            i <= binaries@.len(),
            binary_path(binaries@, name@) == binary_path(binaries@.take(i as int), name@),
        decreases i,
    {
        let ghost shorter = binaries@.take(i as int);
        proof {
            assert(shorter.drop_last() =~= binaries@.take(i - 1));
        }
        i = i - 1;
        if same_text(binaries[i].name.as_str(), name) {
            return match &binaries[i].path {
                Ok(path) => Some(path.clone()),
                Err(_) => None,
            };
        }
    }
    None
}

/// Why the binaries of a pack are not taken, if so.
pub open spec fn binaries_verdict(
    platform: Platform,
    pack: Seq<char>,
    root: Seq<char>,
    binaries: Seq<PackBinary>,
) -> Verdict
    decreases binaries.len(),
{
    if binaries.len() == 0 {
        Verdict::Accept
    } else {
        match binaries[0].path {
            Err(error) => Verdict::Forward(error),
            Ok(path) => both(
                reject_if(
                    !within(platform, path@, root) || !binaries[0].regular,
                    "enabled pack "@ + pack + " binary "@ + binaries[0].name@ + " escaped its verified root"@,
                ),
                binaries_verdict(platform, pack, root, binaries.skip(1)),
            ),
        }
    }
}

/// What is added with the binaries of a pack.
pub open spec fn with_binaries(view: PackView, binaries: Seq<PackBinary>) -> PackView
    decreases binaries.len(),
{
    if binaries.len() == 0 {
        view
    } else {
        let before = with_binaries(view, binaries.drop_last());
        let path = binaries.last().path->Ok_0@;
        PackView {
            executables: before.executables.push(path),
            filesystem: before.filesystem.push(GrantView { root: path, mode: "execute"@ }),
            ..before
        }
    }
}

fn add_binaries(
    platform: Platform,
    parts: &mut PackParts,
    pack: &str,
    root: &str,
    binaries: &Vec<PackBinary>,
) -> (result: Result<
    (),
    RuntimeError,
>)
    ensures
        answers(result, binaries_verdict(platform, pack@, root@, binaries@)),
        result is Ok ==> parts_view(*final(parts)) == with_binaries(parts_view(*old(parts)), binaries@),
        final(parts).declarations@ == old(parts).declarations@,
        final(parts).servers@ == old(parts).servers@,
{
    let ghost start = parts_view(*parts);
    let mut i: usize = 0;
    proof {
        assert(binaries@.skip(0) =~= binaries@);
        assert(with_binaries(start, binaries@.take(0)) == start);
    }
    while i < binaries.len()
        invariant
            i <= binaries@.len(),
            binaries_verdict(
                platform,
                pack@,
                root@,
                binaries@,
            ) == binaries_verdict(platform, pack@, root@, binaries@.skip(i as int)),
            parts_view(*parts) == with_binaries(start, binaries@.take(i as int)),
            parts.declarations@ == old(parts).declarations@,
            parts.servers@ == old(parts).servers@,
        decreases binaries@.len() - i,
    {
        let binary = &binaries[i];
        let ghost before = *parts;
        proof {
            assert(binaries@.skip(i as int)[0] == *binary);
            assert(binaries@.skip(i as int).skip(1) =~= binaries@.skip(i + 1));
            assert(binaries@.take(i + 1).drop_last() =~= binaries@.take(i as int));
            assert(binaries@.take(i + 1).last() == *binary);
        }
        match &binary.path {
            Err(error) => {
                return Err(error.clone());
            },
            Ok(path) => {
                if !starts_with_path(platform, path.as_str(), root) || !binary.regular {
                    let mut text = concat3("enabled pack ", pack, " binary ");
                    text.append(binary.name.as_str());
                    text.append(" escaped its verified root");
                    return config_error(text.as_str());
                }
                parts.filesystem.push(grant(path.as_str(), "execute"));
                parts.executables.push(path.clone());
                proof {
                    assert(grant_views(parts.filesystem@) =~= grant_views(before.filesystem@).push(
                        GrantView { root: path@, mode: "execute"@ },
                    ));
                    assert(views(parts.executables@) =~= views(before.executables@).push(path@));
                    assert(parts_view(*parts) =~= with_binaries(start, binaries@.take(i + 1)));
                }
            },
        }
        i = i + 1;
    }
    proof {
        assert(binaries@.take(i as int) =~= binaries@);
    }
    Ok(())
}

/// Why an environment is not given, if so: the sandbox has to name every variable.
pub open spec fn environment_verdict(
    kind: Seq<char>,
    name: Seq<char>,
    environment: Seq<Entry<String>>,
    allowed: Seq<Seq<char>>,
) -> Verdict
    decreases environment.len(),
{
    if environment.len() == 0 {
        Verdict::Accept
    } else {
        both(
            reject_if(
                !allowed.contains(environment[0].key@),
                kind + name + " requires sandbox environment name "@ + environment[0].key@,
            ),
            environment_verdict(kind, name, environment.skip(1), allowed),
        )
    }
}

fn check_environment(
    kind: &str,
    name: &str,
    environment: &Vec<Entry<String>>,
    allowed: &Vec<String>,
) -> (result: Result<
    (),
    RuntimeError,
>)
    ensures
        answers(result, environment_verdict(kind@, name@, environment@, views(allowed@))),
{
    let mut i: usize = 0;
    proof {
        assert(environment@.skip(0) =~= environment@);
    }
    while i < environment.len()
        invariant
            i <= environment@.len(),
            environment_verdict(kind@, name@, environment@, views(allowed@)) == environment_verdict(
                kind@,
                name@,
                environment@.skip(i as int),
                views(allowed@),
            ),
        decreases environment@.len() - i,
    {
        let key = &environment[i].key;
        proof {
            assert(environment@.skip(i as int)[0] == environment@[i as int]);
            assert(environment@.skip(i as int).skip(1) =~= environment@.skip(i + 1));
        }
        if !list_contains(allowed, key.as_str()) {
            let mut text = concat3(kind, name, " requires sandbox environment name ");
            text.append(key.as_str());
            return config_error(text.as_str());
        }
        i = i + 1;
    }
    Ok(())
}

/// Why a tool of a pack is not taken, if so.
pub open spec fn tool_verdict(
    tool: PackToolDeclaration,
    binaries: Seq<PackBinary>,
    names: Seq<Seq<char>>,
    sandbox: SandboxConfig,
) -> Verdict {
    both(
        environment_verdict("enabled pack tool "@, tool.name@, tool.env_refs@, views(sandbox.environment@)),
        both(
            reject_if(
                binary_path(binaries, tool.command@) is None,
                "enabled pack tool "@ + tool.name@ + " has no verified binary"@,
            ),
            reject_if(
                names.contains(tool.name@),
                "enabled packs contain duplicate tool name "@ + tool.name@,
            ),
        ),
    )
}

/// Why the tools of a pack are not taken, if so.
pub open spec fn tools_verdict(
    tools: Seq<PackToolDeclaration>,
    binaries: Seq<PackBinary>,
    names: Seq<Seq<char>>,
    sandbox: SandboxConfig,
) -> Verdict
    decreases tools.len(),
{
    if tools.len() == 0 {
        Verdict::Accept
    } else {
        both(
            tool_verdict(tools[0], binaries, names, sandbox),
            tools_verdict(tools.skip(1), binaries, names.push(tools[0].name@), sandbox),
        )
    }
}

/// The action of a tool.
pub open spec fn tool_action(pack: Seq<char>, tool: Seq<char>) -> Seq<char> {
    "pack.tool."@ + pack + "."@ + tool
}

/// What is added with a tool of a pack.
pub open spec fn with_tool(
    view: PackView,
    pack: PackInstallation,
    root: Seq<char>,
    tool: PackToolDeclaration,
    sandbox: SandboxConfig,
) -> PackView {
    let action = tool_action(pack.name@, tool.name@);
    let executable = binary_path(pack.binaries@, tool.command@)->0;
    PackView {
        names: view.names.push(tool.name@),
        declarations: view.declarations.push(
            ProcessView {
                pack: pack.name@,
                version: pack.version@,
                manifest_sha256: pack.manifest_sha256@,
                tool: tool.name@,
                action,
                executable,
                cwd: root,
                args: views(tool.args@),
                environment: text_entries(tool.env_refs@),
                permissions: views(tool.permissions@),
            },
        ),
        specs: view.specs.push(
            ToolView {
                name: tool.name@,
                description: "Verified executable tool from pack "@ + pack.name@ + "@"@ + pack.version@ + "."@,
                input_schema: "{\"additionalProperties\":false,\"properties\":{},\"type\":\"object\"}"@,
                effect_action: Some(action),
                capability: Some(action),
                max_output_bytes: sandbox.max_output_bytes,
            },
        ),
        actions: view.actions.push(action),
        restrictions: view.restrictions.push(
            pack_restriction(action, root, executable, views(tool.permissions@), tool.env_refs@, sandbox),
        ),
        ..view
    }
}

/// What is added with tools of a pack.
pub open spec fn with_tools(
    view: PackView,
    pack: PackInstallation,
    root: Seq<char>,
    tools: Seq<PackToolDeclaration>,
    sandbox: SandboxConfig,
) -> PackView
    decreases tools.len(),
{
    if tools.len() == 0 {
        view
    } else {
        with_tool(with_tools(view, pack, root, tools.drop_last(), sandbox), pack, root, tools.last(), sandbox)
    }
}

fn add_tool(
    parts: &mut PackParts,
    pack: &PackInstallation,
    root: &str,
    executable: String,
    tool: &PackToolDeclaration,
    sandbox: &SandboxConfig,
)
    requires
        binary_path(pack.binaries@, tool.command@) == Some(executable@),
    ensures
        parts_view(*final(parts)) == with_tool(parts_view(*old(parts)), *pack, root@, *tool, *sandbox),
        final(parts).servers@ == old(parts).servers@,
{
    let ghost before = *parts;
    let mut action = concat3("pack.tool.", pack.name.as_str(), ".");
    action.append(tool.name.as_str());
    let mut description = concat3("Verified executable tool from pack ", pack.name.as_str(), "@");
    description.append(pack.version.as_str());
    description.append(".");
    let restriction = pack_action_restriction(
        action.clone(),
        root,
        executable.as_str(),
        &tool.permissions,
        &tool.env_refs,
        sandbox,
    );
    let spec_item = ToolSpec {
        name: tool.name.clone(),
        description,
        input_schema: "{\"additionalProperties\":false,\"properties\":{},\"type\":\"object\"}".to_owned(),
        effect_action: Some(action.clone()),
        capability: Some(action.clone()),
        max_output_bytes: sandbox.max_output_bytes,
    };
    let declaration = PackProcessDeclaration {
        pack: pack.name.clone(),
        version: pack.version.clone(),
        manifest_sha256: pack.manifest_sha256.clone(),
        tool: tool.name.clone(),
        action: action.clone(),
        executable,
        cwd: root.to_owned(),
        args: clone_texts(&tool.args),
        environment: clone_entries(&tool.env_refs),
        permissions: clone_texts(&tool.permissions),
    };
    let entry = Entry { key: tool.name.clone(), value: declaration };
    parts.declarations.push(entry);
    parts.specs.push(spec_item);
    parts.restrictions.push(restriction);
    parts.actions.push(action);
    proof {
        assert(keys(parts.declarations@) =~= keys(before.declarations@).push(tool.name@));
        assert(declaration_views(parts.declarations@) =~= declaration_views(before.declarations@).push(entry.value@));
        assert(tool_views(parts.specs@) =~= tool_views(before.specs@).push(spec_item@));
        assert(restriction_views(parts.restrictions@) =~= restriction_views(before.restrictions@).push(restriction@));
        assert(views(parts.actions@) =~= views(before.actions@).push(action@));
        assert(parts_view(*parts) =~= with_tool(parts_view(before), *pack, root@, *tool, *sandbox));
    }
}

/// The names of the tools of a pack.
pub open spec fn tool_names(tools: Seq<PackToolDeclaration>) -> Seq<Seq<char>> {
    tools.map_values(|tool: PackToolDeclaration| tool.name@)
}

fn add_tools(parts: &mut PackParts, pack: &PackInstallation, root: &str, sandbox: &SandboxConfig) -> (result: Result<
    (),
    RuntimeError,
>)
    ensures
        answers(
            result,
            tools_verdict(pack.tools@, pack.binaries@, keys(old(parts).declarations@), *sandbox),
        ),
        result is Ok ==> parts_view(*final(parts)) == with_tools(
            parts_view(*old(parts)),
            *pack,
            root@,
            pack.tools@,
            *sandbox,
        ),
        result is Ok ==> keys(final(parts).declarations@) == keys(old(parts).declarations@) + tool_names(pack.tools@),
        final(parts).servers@ == old(parts).servers@,
{
    let ghost start = *parts;
    let tools = &pack.tools;
    let mut i: usize = 0;
    proof {
        assert(tools@.skip(0) =~= tools@);
        assert(with_tools(parts_view(start), *pack, root@, tools@.take(0), *sandbox) == parts_view(start));
        assert(keys(start.declarations@) + tool_names(tools@.take(0)) =~= keys(start.declarations@));
    }
    while i < tools.len()
        invariant
            i <= tools@.len(),
            start == *old(parts),
            tools@ == pack.tools@,
            tools_verdict(tools@, pack.binaries@, keys(start.declarations@), *sandbox) == tools_verdict(
                tools@.skip(i as int),
                pack.binaries@,
                keys(parts.declarations@),
                *sandbox,
            ),
            keys(parts.declarations@) == keys(start.declarations@) + tool_names(tools@.take(i as int)),
            parts_view(*parts) == with_tools(parts_view(start), *pack, root@, tools@.take(i as int), *sandbox),
            parts.servers@ == start.servers@,
        decreases tools@.len() - i,
    {
        let tool = &tools[i];
        let ghost before = *parts;
        proof {
            assert(tools@.skip(i as int)[0] == *tool);
            assert(tools@.skip(i as int).skip(1) =~= tools@.skip(i + 1));
            assert(tools@.take(i + 1).drop_last() =~= tools@.take(i as int));
            assert(tools@.take(i + 1).last() == *tool);
            key_is_contained(parts.declarations@, tool.name@);
        }
        check_environment("enabled pack tool ", tool.name.as_str(), &tool.env_refs, &sandbox.environment)?;
        match find_binary(&pack.binaries, tool.command.as_str()) {
            None => {
                return config_error3("enabled pack tool ", tool.name.as_str(), " has no verified binary");
            },
            Some(executable) => {
                if contains_key(&parts.declarations, tool.name.as_str()) {
                    let text = concat2("enabled packs contain duplicate tool name ", tool.name.as_str());
                    return config_error(text.as_str());
                }
                add_tool(parts, pack, root, executable, tool, sandbox);
                proof {
                    assert(parts_view(*parts).names == parts_view(before).names.push(tool.name@));
                    assert(tool_names(tools@.take(i + 1)) =~= tool_names(tools@.take(i as int)).push(tool.name@));
                    assert(keys(parts.declarations@) =~= keys(start.declarations@) + tool_names(tools@.take(i + 1)));
                }
            },
        }
        i = i + 1;
    }
    proof {
        assert(tools@.take(i as int) =~= tools@);
    }
    Ok(())
}

/// Why a server of a pack is not taken, if so.
pub open spec fn server_verdict(
    server: PackMcpServerDeclaration,
    binaries: Seq<PackBinary>,
    servers: Seq<Seq<char>>,
    sandbox: SandboxConfig,
) -> Verdict {
    both(
        environment_verdict(
            "enabled pack MCP server "@,
            server.name@,
            server.env_refs@,
            views(sandbox.environment@),
        ),
        both(
            reject_if(
                binary_path(binaries, server.command@) is None,
                "enabled pack MCP server "@ + server.name@ + " has no verified binary"@,
            ),
            reject_if(
                servers.contains(server.name@),
                "enabled pack MCP server "@ + server.name@ + " conflicts with another server"@,
            ),
        ),
    )
}

/// Why the servers of a pack are not taken, if so.
pub open spec fn servers_verdict(
    list: Seq<PackMcpServerDeclaration>,
    binaries: Seq<PackBinary>,
    servers: Seq<Seq<char>>,
    sandbox: SandboxConfig,
) -> Verdict
    decreases list.len(),
{
    if list.len() == 0 {
        Verdict::Accept
    } else {
        both(
            server_verdict(list[0], binaries, servers, sandbox),
            servers_verdict(list.skip(1), binaries, servers.push(list[0].name@), sandbox),
        )
    }
}

/// The prefix of a server's actions.
pub open spec fn server_prefix(pack: Seq<char>, server: Seq<char>) -> Seq<char> {
    "pack.mcp."@ + pack + "."@ + server
}

/// The configuration of a pack's server.
pub open spec fn pack_server(
    pack: PackInstallation,
    root: Seq<char>,
    server: PackMcpServerDeclaration,
) -> ServerView {
    ServerView {
        name: server.name@,
        transport: McpTransportKind::Stdio,
        command: binary_path(pack.binaries@, server.command@)->0,
        args: views(server.args@),
        working_directory: Some(root),
        environment: text_entries(server.env_refs@),
        literal_environment: Seq::empty(),
        url: None,
        headers: Seq::empty(),
        credential_headers: Seq::empty(),
        allow_stateless: false,
        oauth: None,
        allowed_tools: views(server.allowed_tools@),
        research_tools: Seq::empty(),
        timeout_ms: None,
        max_output_bytes: None,
        effect_action_prefix: Some(server_prefix(pack.name@, server.name@)),
        provenance: ProvenanceView::Pack {
            pack: pack.name@,
            version: pack.version@,
            manifest_sha256: pack.manifest_sha256@,
            permissions: views(server.permissions@),
        },
    }
}

/// What is added with a server of a pack.
pub open spec fn with_server(
    view: PackView,
    pack: PackInstallation,
    root: Seq<char>,
    server: PackMcpServerDeclaration,
    sandbox: SandboxConfig,
) -> PackView {
    let prefix = server_prefix(pack.name@, server.name@);
    let command = binary_path(pack.binaries@, server.command@)->0;
    let permissions = views(server.permissions@);
    PackView {
        servers: view.servers.push(pack_server(pack, root, server)),
        actions: view.actions.push(prefix + ".tools"@).push(prefix + ".call"@),
        restrictions: view.restrictions.push(
            pack_restriction(prefix + ".tools"@, root, command, permissions, server.env_refs@, sandbox),
        ).push(pack_restriction(prefix + ".call"@, root, command, permissions, server.env_refs@, sandbox)),
        ..view
    }
}

/// What is added with servers of a pack.
pub open spec fn with_servers(
    view: PackView,
    pack: PackInstallation,
    root: Seq<char>,
    list: Seq<PackMcpServerDeclaration>,
    sandbox: SandboxConfig,
) -> PackView
    decreases list.len(),
{
    if list.len() == 0 {
        view
    } else {
        with_server(with_servers(view, pack, root, list.drop_last(), sandbox), pack, root, list.last(), sandbox)
    }
}

fn add_server(
    parts: &mut PackParts,
    pack: &PackInstallation,
    root: &str,
    command: String,
    server: &PackMcpServerDeclaration,
    sandbox: &SandboxConfig,
)
    requires
        binary_path(pack.binaries@, server.command@) == Some(command@),
    ensures
        parts_view(*final(parts)) == with_server(parts_view(*old(parts)), *pack, root@, *server, *sandbox),
        keys(final(parts).servers@) == keys(old(parts).servers@).push(server.name@),
        final(parts).declarations@ == old(parts).declarations@,
{
    let ghost before = *parts;
    let mut prefix = concat3("pack.mcp.", pack.name.as_str(), ".");
    prefix.append(server.name.as_str());
    let tools_action = concat2(prefix.as_str(), ".tools");
    let call_action = concat2(prefix.as_str(), ".call");
    let first = pack_action_restriction(
        tools_action.clone(),
        root,
        command.as_str(),
        &server.permissions,
        &server.env_refs,
        sandbox,
    );
    let second = pack_action_restriction(
        call_action.clone(),
        root,
        command.as_str(),
        &server.permissions,
        &server.env_refs,
        sandbox,
    );
    let config = McpServerConfig {
        transport: McpTransportKind::Stdio,
        command,
        args: clone_texts(&server.args),
        working_directory: Some(root.to_owned()),
        environment: clone_entries(&server.env_refs),
        literal_environment: Vec::new(),
        url: None,
        headers: Vec::new(),
        credential_headers: Vec::new(),
        allow_stateless: false,
        oauth: None,
        allowed_tools: clone_texts(&server.allowed_tools),
        research_tools: Vec::new(),
        timeout_ms: None,
        max_output_bytes: None,
        effect_action_prefix: Some(prefix),
        provenance: Some(
            McpProvenance::Pack {
                pack: pack.name.clone(),
                version: pack.version.clone(),
                manifest_sha256: pack.manifest_sha256.clone(),
                permissions: clone_texts(&server.permissions),
            },
        ),
    };
    let entry = Entry { key: server.name.clone(), value: config };
    let ghost view = server_view(entry);
    proof {
        let expected = pack_server(*pack, root@, *server);
        assert(view.literal_environment =~= expected.literal_environment);
        assert(view.headers =~= expected.headers);
        assert(view == expected);
    }
    parts.servers.push(entry);
    parts.actions.push(tools_action);
    parts.actions.push(call_action);
    parts.restrictions.push(first);
    parts.restrictions.push(second);
    proof {
        assert(keys(parts.servers@) =~= keys(before.servers@).push(server.name@));
        assert(server_views(parts.servers@) =~= server_views(before.servers@).push(view));
        assert(restriction_views(parts.restrictions@) =~= restriction_views(before.restrictions@).push(first@).push(
            second@,
        ));
        assert(views(parts.actions@) =~= views(before.actions@).push(tools_action@).push(call_action@));
        assert(parts_view(*parts) =~= with_server(parts_view(before), *pack, root@, *server, *sandbox));
    }
}

/// The names of the servers of a pack.
pub open spec fn server_names(list: Seq<PackMcpServerDeclaration>) -> Seq<Seq<char>> {
    list.map_values(|server: PackMcpServerDeclaration| server.name@)
}

fn add_servers(
    parts: &mut PackParts,
    pack: &PackInstallation,
    root: &str,
    configured: &McpConfig,
    sandbox: &SandboxConfig,
) -> (result: Result<(), RuntimeError>)
    ensures
        answers(
            result,
            servers_verdict(
                pack.mcp_servers@,
                pack.binaries@,
                keys(configured.servers@) + keys(old(parts).servers@),
                *sandbox,
            ),
        ),
        result is Ok ==> parts_view(*final(parts)) == with_servers(
            parts_view(*old(parts)),
            *pack,
            root@,
            pack.mcp_servers@,
            *sandbox,
        ),
        result is Ok ==> keys(final(parts).servers@) == keys(old(parts).servers@) + server_names(pack.mcp_servers@),
        final(parts).declarations@ == old(parts).declarations@,
{
    let ghost start = *parts;
    let ghost base = keys(configured.servers@);
    let list = &pack.mcp_servers;
    let mut i: usize = 0;
    proof {
        assert(list@.skip(0) =~= list@);
        assert(with_servers(parts_view(start), *pack, root@, list@.take(0), *sandbox) == parts_view(start));
        assert(keys(start.servers@) + server_names(list@.take(0)) =~= keys(start.servers@));
    }
    while i < list.len()
        invariant
            i <= list@.len(),
            start == *old(parts),
            list@ == pack.mcp_servers@,
            base == keys(configured.servers@),
            servers_verdict(list@, pack.binaries@, base + keys(start.servers@), *sandbox) == servers_verdict(
                list@.skip(i as int),
                pack.binaries@,
                base + keys(parts.servers@),
                *sandbox,
            ),
            keys(parts.servers@) == keys(start.servers@) + server_names(list@.take(i as int)),
            parts_view(*parts) == with_servers(parts_view(start), *pack, root@, list@.take(i as int), *sandbox),
            parts.declarations@ == start.declarations@,
        decreases list@.len() - i,
    {
        let server = &list[i];
        let ghost before = *parts;
        proof {
            assert(list@.skip(i as int)[0] == *server);
            assert(list@.skip(i as int).skip(1) =~= list@.skip(i + 1));
            assert(list@.take(i + 1).drop_last() =~= list@.take(i as int));
            assert(list@.take(i + 1).last() == *server);
            key_is_contained(parts.servers@, server.name@);
            key_is_contained(configured.servers@, server.name@);
            contained_in_either(base, keys(parts.servers@), server.name@);
        }
        check_environment("enabled pack MCP server ", server.name.as_str(), &server.env_refs, &sandbox.environment)?;
        match find_binary(&pack.binaries, server.command.as_str()) {
            None => {
                return config_error3("enabled pack MCP server ", server.name.as_str(), " has no verified binary");
            },
            Some(command) => {
                if contains_key(&configured.servers, server.name.as_str()) || contains_key(
                    &parts.servers,
                    server.name.as_str(),
                ) {
                    return config_error3(
                        "enabled pack MCP server ",
                        server.name.as_str(),
                        " conflicts with another server",
                    );
                }
                add_server(parts, pack, root, command, server, sandbox);
                proof {
                    assert(base + keys(before.servers@).push(server.name@) =~= (base + keys(before.servers@)).push(
                        server.name@,
                    ));
                    assert(server_names(list@.take(i + 1)) =~= server_names(list@.take(i as int)).push(server.name@));
                    assert(keys(parts.servers@) =~= keys(start.servers@) + server_names(list@.take(i + 1)));
                }
            },
        }
        i = i + 1;
    }
    proof {
        assert(list@.take(i as int) =~= list@);
    }
    Ok(())
}

/// A joined list contains what either part contains.
pub proof fn contained_in_either(a: Seq<Seq<char>>, b: Seq<Seq<char>>, item: Seq<char>)
    ensures
        (a + b).contains(item) == (a.contains(item) || b.contains(item)),
{
    let all = a + b;
    if a.contains(item) {
        let i = choose|i: int| 0 <= i < a.len() && a[i] == item;
        assert(all[i] == item);
    }
    if b.contains(item) {
        let i = choose|i: int| 0 <= i < b.len() && b[i] == item;
        assert(all[a.len() + i] == item);
    }
    if all.contains(item) {
        let i = choose|i: int| 0 <= i < all.len() && all[i] == item;
        if i < a.len() {
            assert(a[i] == item);
        } else {
            assert(b[i - a.len()] == item);
        }
    }
}

/// A pack executes something.
pub open spec fn executes(pack: PackInstallation) -> bool {
    pack.tools@.len() > 0 || pack.mcp_servers@.len() > 0
}

/// Why a pack is not taken, if so: its permission ceilings cannot be enforced without isolation, its
/// files are not in order, or a tool or server of it is not taken.
pub open spec fn pack_verdict(
    platform: Platform,
    pack: PackInstallation,
    names: Seq<Seq<char>>,
    servers: Seq<Seq<char>>,
    sandbox: SandboxConfig,
) -> Verdict {
    both(
        reject_if(
            sandbox.backend@ == "danger_full_access"@ && executes(pack),
            "enabled pack "@ + pack.name@
                + " declares executable tools or MCP servers whose permission ceilings cannot be enforced by danger_full_access; select an isolating sandbox boundary"@,
        ),
        match pack.root {
            Err(error) => Verdict::Forward(error),
            Ok(root) => both(
                binaries_verdict(platform, pack.name@, root@, pack.binaries@),
                both(
                    tools_verdict(pack.tools@, pack.binaries@, names, sandbox),
                    servers_verdict(pack.mcp_servers@, pack.binaries@, servers, sandbox),
                ),
            ),
        },
    )
}

/// Why packs are not taken, if so.
pub open spec fn packs_verdict(
    platform: Platform,
    packs: Seq<PackInstallation>,
    names: Seq<Seq<char>>,
    servers: Seq<Seq<char>>,
    sandbox: SandboxConfig,
) -> Verdict
    decreases packs.len(),
{
    if packs.len() == 0 {
        Verdict::Accept
    } else {
        both(
            pack_verdict(platform, packs[0], names, servers, sandbox),
            packs_verdict(
                platform,
                packs.skip(1),
                names + tool_names(packs[0].tools@),
                servers + server_names(packs[0].mcp_servers@),
                sandbox,
            ),
        )
    }
}

/// What is added with a pack.
pub open spec fn with_pack(view: PackView, pack: PackInstallation, sandbox: SandboxConfig) -> PackView {
    let root = pack.root->Ok_0@;
    let rooted = PackView { filesystem: view.filesystem.push(GrantView { root, mode: "read"@ }), ..view };
    let bound = with_binaries(rooted, pack.binaries@);
    with_servers(
        with_tools(bound, pack, root, pack.tools@, sandbox),
        pack,
        root,
        pack.mcp_servers@,
        sandbox,
    )
}

/// What is added with packs.
pub open spec fn with_packs(packs: Seq<PackInstallation>, sandbox: SandboxConfig) -> PackView
    decreases packs.len(),
{
    if packs.len() == 0 {
        nothing()
    } else {
        with_pack(with_packs(packs.drop_last(), sandbox), packs.last(), sandbox)
    }
}

fn add_pack(
    platform: Platform,
    parts: &mut PackParts,
    pack: &PackInstallation,
    configured: &McpConfig,
    sandbox: &SandboxConfig,
) -> (result: Result<
    (),
    RuntimeError,
>)
    ensures
        answers(
            result,
            pack_verdict(
                platform,
                *pack,
                keys(old(parts).declarations@),
                keys(configured.servers@) + keys(old(parts).servers@),
                *sandbox,
            ),
        ),
        result is Ok ==> parts_view(*final(parts)) == with_pack(parts_view(*old(parts)), *pack, *sandbox),
        result is Ok ==> keys(final(parts).declarations@) == keys(old(parts).declarations@) + tool_names(pack.tools@),
        result is Ok ==> keys(final(parts).servers@) == keys(old(parts).servers@) + server_names(pack.mcp_servers@),
{
    if same_text(sandbox.backend.as_str(), "danger_full_access") && (pack.tools.len() != 0 || pack.mcp_servers.len()
        != 0) {
        return config_error3(
            "enabled pack ",
            pack.name.as_str(),
            " declares executable tools or MCP servers whose permission ceilings cannot be enforced by danger_full_access; select an isolating sandbox boundary",
        );
    }
    match &pack.root {
        Err(error) => Err(error.clone()),
        Ok(root) => {
            let ghost before = *parts;
            parts.filesystem.push(grant(root.as_str(), "read"));
            proof {
                assert(grant_views(parts.filesystem@) =~= grant_views(before.filesystem@).push(
                    GrantView { root: root@, mode: "read"@ },
                ));
                assert(parts_view(*parts) =~= PackView {
                    filesystem: parts_view(before).filesystem.push(GrantView { root: root@, mode: "read"@ }),
                    ..parts_view(before)
                });
            }
            add_binaries(platform, parts, pack.name.as_str(), root.as_str(), &pack.binaries)?;
            add_tools(parts, pack, root.as_str(), sandbox)?;
            add_servers(parts, pack, root.as_str(), configured, sandbox)?;
            Ok(())
        },
    }
}

/// What enabled packs add to the runtime and to the configured MCP servers.
pub fn compile_active_pack_extensions(
    platform: Platform,
    installations: &Vec<PackInstallation>,
    configured_mcp: McpConfig,
    sandbox: &SandboxConfig,
) -> (result: Result<ActivePackExtensions, RuntimeError>)
    ensures
        match packs_verdict(platform, installations@, Seq::empty(), keys(configured_mcp.servers@), *sandbox) {
            Verdict::Reject(text) => is_config_error(result, text),
            Verdict::Forward(error) => result == Err::<ActivePackExtensions, RuntimeError>(error),
            Verdict::Accept => result matches Ok(extensions) && extends(
                extensions,
                with_packs(installations@, *sandbox),
                configured_mcp,
            ),
        },
{
    let mut parts = PackParts {
        declarations: Vec::new(),
        specs: Vec::new(),
        servers: Vec::new(),
        executables: Vec::new(),
        filesystem: Vec::new(),
        actions: Vec::new(),
        restrictions: Vec::new(),
    };
    let ghost base = keys(configured_mcp.servers@);
    let mut i: usize = 0;
    proof {
        assert(installations@.skip(0) =~= installations@);
        assert(parts_view(parts) =~= nothing());
        assert(keys(parts.declarations@) =~= Seq::empty());
        assert(base + keys(parts.servers@) =~= base);
    }
    while i < installations.len()
        invariant
            i <= installations@.len(),
            base == keys(configured_mcp.servers@),
            packs_verdict(platform, installations@, Seq::empty(), base, *sandbox) == packs_verdict(
                platform,
                installations@.skip(i as int),
                keys(parts.declarations@),
                base + keys(parts.servers@),
                *sandbox,
            ),
            parts_view(parts) == with_packs(installations@.take(i as int), *sandbox),
        decreases installations@.len() - i,
    {
        let pack = &installations[i];
        let ghost before = parts;
        proof {
            assert(installations@.skip(i as int)[0] == *pack);
            assert(installations@.skip(i as int).skip(1) =~= installations@.skip(i + 1));
            assert(installations@.take(i + 1).drop_last() =~= installations@.take(i as int));
            assert(installations@.take(i + 1).last() == *pack);
        }
        match add_pack(platform, &mut parts, pack, &configured_mcp, sandbox) {
            Ok(()) => {},
            Err(error) => {
                return Err(error);
            },
        }
        proof {
            assert(base + (keys(before.servers@) + server_names(pack.mcp_servers@)) =~= base + keys(before.servers@)
                + server_names(pack.mcp_servers@));
        }
        i = i + 1;
    }
    proof {
        assert(installations@.take(i as int) =~= installations@);
    }
    let mut servers = configured_mcp.servers;
    let ghost configured = servers@;
    let ghost added = parts.servers@;
    servers.append(&mut parts.servers);
    proof {
        assert(servers@ == configured + added);
        assert(server_views(servers@) =~= server_views(configured) + server_views(added));
        servers_in_order(servers@);
        let declared = parts.declarations@;
        let change = |entry: Entry<PackProcessDeclaration>| (entry.key@, entry.value@);
        ordering_commutes(declared, change, by_key(), by_first());
        assert(declared.map_values(change) =~= keys(declared).zip_with(declaration_views(declared)));
        assert(named_declarations(ordered_by(declared, by_key())) =~= ordered_by(declared, by_key()).map_values(change));
    }
    let servers = in_key_order(servers);
    let process_declarations = in_key_order(parts.declarations);
    Ok(
        ActivePackExtensions {
            process_declarations,
            tool_specs: parts.specs,
            mcp: McpConfig { servers, oauth_credential_store: configured_mcp.oauth_credential_store },
            executables: parts.executables,
            filesystem: parts.filesystem,
            actions: parts.actions,
            restrictions: parts.restrictions,
        },
    )
}

/// The extensions are exactly what was added: the declarations in the order of their names, and the
/// servers, together with the configured ones, in the order of theirs.
pub open spec fn extends(extensions: ActivePackExtensions, added: PackView, configured: McpConfig) -> bool {
    &&& named_declarations(extensions.process_declarations@) == ordered_by(
        added.names.zip_with(added.declarations),
        by_first(),
    )
    &&& tool_views(extensions.tool_specs@) == added.specs
    &&& server_views(extensions.mcp.servers@) == ordered_by(
        server_views(configured.servers@) + added.servers,
        by_name(),
    )
    &&& extensions.mcp.oauth_credential_store == configured.oauth_credential_store
    &&& views(extensions.executables@) == added.executables
    &&& grant_views(extensions.filesystem@) == added.filesystem
    &&& views(extensions.actions@) == added.actions
    &&& restriction_views(extensions.restrictions@) == added.restrictions
}

proof fn usable_grants_are_granted(list: Seq<FilesystemGrant>, write: bool, item: GrantView)
    requires
        usable_grants(list, write).contains(item),
    ensures
        grant_views(list).contains(item),
        item.mode == "read"@ || (item.mode == "write"@ && write),
    decreases list.len(),
{
    let all = usable_grants(list, write);
    let i = choose|i: int| 0 <= i < all.len() && all[i] == item;
    let rest = usable_grants(list.drop_last(), write);
    if i < rest.len() {
        assert(rest[i] == item);
        usable_grants_are_granted(list.drop_last(), write, item);
        let j = choose|j: int| 0 <= j < list.len() - 1 && grant_views(list.drop_last())[j] == item;
        assert(grant_views(list)[j] == item);
    } else {
        assert(grant_views(list)[list.len() - 1] == item);
    }
}

/// The permissions of a pack are a ceiling: beyond reading its own root and executing its own binary,
/// an action of it reaches only what the sandbox grants, writes only with the permission to write,
/// and reaches the network only with the permission to do so.
pub proof fn permissions_are_a_ceiling(
    action: Seq<char>,
    root: Seq<char>,
    executable: Seq<char>,
    permissions: Seq<Seq<char>>,
    environment: Seq<Entry<String>>,
    sandbox: SandboxConfig,
    item: GrantView,
)
    requires
        pack_restriction(action, root, executable, permissions, environment, sandbox).filesystem.contains(item),
    ensures
        item == (GrantView { root, mode: "read"@ }) || item == (GrantView { root: executable, mode: "execute"@ }) || (
        grant_views(sandbox.filesystem@).contains(item) && (permissions.contains("filesystem.write"@) || (
        permissions.contains("filesystem.read"@) && item.mode == "read"@))),
        !permissions.contains("network"@) ==> pack_restriction(
            action,
            root,
            executable,
            permissions,
            environment,
            sandbox,
        ).network_destinations.len() == 0,
{
    let own = seq![
        GrantView { root, mode: "read"@ },
        GrantView { root: executable, mode: "execute"@ },
    ];
    let all = pack_grants(root, executable, permissions, sandbox);
    let i = choose|i: int| 0 <= i < all.len() && all[i] == item;
    if i >= own.len() {
        let usable = usable_grants(sandbox.filesystem@, permissions.contains("filesystem.write"@));
        assert(usable[i - own.len()] == item);
        usable_grants_are_granted(sandbox.filesystem@, permissions.contains("filesystem.write"@), item);
    }
}

/// Without isolation only packs are accepted that execute nothing, and these add no tool, no server,
/// no action and no restriction.
pub proof fn full_access_accepts_data_alone(
    platform: Platform,
    packs: Seq<PackInstallation>,
    names: Seq<Seq<char>>,
    servers: Seq<Seq<char>>,
    sandbox: SandboxConfig,
)
    requires
        sandbox.backend@ == "danger_full_access"@,
        packs_verdict(platform, packs, names, servers, sandbox) is Accept,
    ensures
        forall|i: int| 0 <= i < packs.len() ==> !executes(#[trigger] packs[i]),
        with_packs(packs, sandbox).declarations.len() == 0,
        with_packs(packs, sandbox).specs.len() == 0,
        with_packs(packs, sandbox).servers.len() == 0,
        with_packs(packs, sandbox).actions.len() == 0,
        with_packs(packs, sandbox).restrictions.len() == 0,
{
    no_pack_executes(platform, packs, names, servers, sandbox);
    data_adds_nothing(packs, sandbox);
}

proof fn no_pack_executes(
    platform: Platform,
    packs: Seq<PackInstallation>,
    names: Seq<Seq<char>>,
    servers: Seq<Seq<char>>,
    sandbox: SandboxConfig,
)
    requires
        sandbox.backend@ == "danger_full_access"@,
        packs_verdict(platform, packs, names, servers, sandbox) is Accept,
    ensures
        forall|i: int| 0 <= i < packs.len() ==> !executes(#[trigger] packs[i]),
    decreases packs.len(),
{
    if packs.len() > 0 {
        no_pack_executes(
            platform,
            packs.skip(1),
            names + tool_names(packs[0].tools@),
            servers + server_names(packs[0].mcp_servers@),
            sandbox,
        );
        assert forall|i: int| 0 <= i < packs.len() implies !executes(#[trigger] packs[i]) by {
            if i > 0 {
                assert(packs.skip(1)[i - 1] == packs[i]);
            }
        }
    }
}

proof fn binaries_add_files_alone(view: PackView, binaries: Seq<PackBinary>)
    ensures
        with_binaries(view, binaries) == (PackView {
            executables: with_binaries(view, binaries).executables,
            filesystem: with_binaries(view, binaries).filesystem,
            ..view
        }),
    decreases binaries.len(),
{
    if binaries.len() > 0 {
        binaries_add_files_alone(view, binaries.drop_last());
    }
}

proof fn data_adds_nothing(packs: Seq<PackInstallation>, sandbox: SandboxConfig)
    requires
        forall|i: int| 0 <= i < packs.len() ==> !executes(#[trigger] packs[i]),
    ensures
        with_packs(packs, sandbox).declarations.len() == 0,
        with_packs(packs, sandbox).specs.len() == 0,
        with_packs(packs, sandbox).servers.len() == 0,
        with_packs(packs, sandbox).actions.len() == 0,
        with_packs(packs, sandbox).restrictions.len() == 0,
    decreases packs.len(),
{
    if packs.len() > 0 {
        let pack = packs.last();
        assert(!executes(packs[packs.len() - 1]));
        assert forall|i: int| 0 <= i < packs.len() - 1 implies !executes(#[trigger] packs.drop_last()[i]) by {
            assert(packs.drop_last()[i] == packs[i]);
        }
        data_adds_nothing(packs.drop_last(), sandbox);
        let view = with_packs(packs.drop_last(), sandbox);
        let root = pack.root->Ok_0@;
        let rooted = PackView { filesystem: view.filesystem.push(GrantView { root, mode: "read"@ }), ..view };
        binaries_add_files_alone(rooted, pack.binaries@);
        assert(pack.tools@.len() == 0 && pack.mcp_servers@.len() == 0);
    }
}

/// A grant of the sandbox is lent to a pack that may read where it is a grant to read, and to one that
/// may write where it is one to write too; every such grant is lent.
pub proof fn grants_are_lent_by_permission(list: Seq<FilesystemGrant>, grant: FilesystemGrant, write: bool)
    ensures
        grant.mode@ == "read"@ || (grant.mode@ == "write"@ && write) ==> usable_grants(list.push(grant), write)
            == usable_grants(list, write).push(grant@),
        !(grant.mode@ == "read"@ || (grant.mode@ == "write"@ && write)) ==> usable_grants(list.push(grant), write)
            == usable_grants(list, write),
        usable_grants(Seq::empty(), write).len() == 0,
{
    assert(list.push(grant).drop_last() == list);
}

/// A pack may read its own root and run its own executable; it reaches the sandbox's destinations only
/// with the permission for the network, and sees its own variables alone.
pub proof fn packs_are_restricted_by_permission(
    action: Seq<char>,
    root: Seq<char>,
    executable: Seq<char>,
    permissions: Seq<Seq<char>>,
    environment: Seq<Entry<String>>,
    sandbox: SandboxConfig,
)
    ensures
        ({
            let restriction = pack_restriction(action, root, executable, permissions, environment, sandbox);
            &&& restriction.action == action
            &&& restriction.filesystem[0] == (GrantView { root, mode: "read"@ })
            &&& restriction.filesystem[1] == (GrantView { root: executable, mode: "execute"@ })
            &&& !permissions.contains("filesystem.read"@) && !permissions.contains("filesystem.write"@)
                ==> restriction.filesystem.len() == 2
            &&& permissions.contains("filesystem.write"@) ==> restriction.filesystem.skip(2) == usable_grants(
                sandbox.filesystem@,
                true,
            )
            &&& permissions.contains("filesystem.read"@) && !permissions.contains("filesystem.write"@)
                ==> restriction.filesystem.skip(2) == usable_grants(sandbox.filesystem@, false)
            &&& permissions.contains("network"@) ==> restriction.network_destinations == views(
                sandbox.network_destinations@,
            )
            &&& !permissions.contains("network"@) ==> restriction.network_destinations.len() == 0
            &&& restriction.allowed_environment == keys(environment)
        }),
{
    let restriction = pack_restriction(action, root, executable, permissions, environment, sandbox);
    let own = seq![GrantView { root, mode: "read"@ }, GrantView { root: executable, mode: "execute"@ }];
    if permissions.contains("filesystem.write"@) {
        assert((own + usable_grants(sandbox.filesystem@, true)).skip(2) == usable_grants(sandbox.filesystem@, true));
    } else if permissions.contains("filesystem.read"@) {
        assert((own + usable_grants(sandbox.filesystem@, false)).skip(2) == usable_grants(
            sandbox.filesystem@,
            false,
        ));
    }
}

/// A command names a binary of the pack: the last of that name gives the path.
pub proof fn commands_name_binaries(binaries: Seq<PackBinary>, binary: PackBinary, name: Seq<char>)
    ensures
        binary.path is Ok ==> binary_path(binaries.push(binary), binary.name@) == Some(binary.path->Ok_0@),
        name != binary.name@ ==> binary_path(binaries.push(binary), name) == binary_path(binaries, name),
        binary_path(Seq::empty(), name) is None,
{
    assert(binaries.push(binary).drop_last() == binaries);
}

/// The binaries of a pack are accepted exactly where each was found as a regular file below the pack's
/// root.
pub proof fn binaries_stay_below_their_root(
    platform: Platform,
    pack: Seq<char>,
    root: Seq<char>,
    binaries: Seq<PackBinary>,
)
    ensures
        binaries_verdict(platform, pack, root, binaries) is Accept <==> forall|i: int|
            0 <= i < binaries.len() ==> (#[trigger] binaries[i]).path is Ok && within(
                platform,
                binaries[i].path->Ok_0@,
                root,
            ) && binaries[i].regular,
    decreases binaries.len(),
{
    if binaries.len() > 0 {
        let rest = binaries.skip(1);
        binaries_stay_below_their_root(platform, pack, root, rest);
        assert(forall|i: int| 0 <= i < rest.len() ==> #[trigger] rest[i] == binaries[i + 1]);
        if binaries_verdict(platform, pack, root, binaries) is Accept {
            assert forall|i: int| 0 <= i < binaries.len() implies (#[trigger] binaries[i]).path is Ok && within(
                platform,
                binaries[i].path->Ok_0@,
                root,
            ) && binaries[i].regular by {
                if i > 0 {
                    assert(rest[i - 1] == binaries[i]);
                }
            }
        }
    }
}

/// The variables of a pack are accepted exactly where the sandbox grants each by name.
pub proof fn variables_are_granted_by_name(
    kind: Seq<char>,
    name: Seq<char>,
    environment: Seq<Entry<String>>,
    allowed: Seq<Seq<char>>,
)
    ensures
        environment_verdict(kind, name, environment, allowed) is Accept <==> forall|i: int|
            0 <= i < environment.len() ==> allowed.contains((#[trigger] environment[i]).key@),
    decreases environment.len(),
{
    if environment.len() > 0 {
        let rest = environment.skip(1);
        variables_are_granted_by_name(kind, name, rest, allowed);
        assert(forall|i: int| 0 <= i < rest.len() ==> #[trigger] rest[i] == environment[i + 1]);
        if environment_verdict(kind, name, environment, allowed) is Accept {
            assert forall|i: int| 0 <= i < environment.len() implies allowed.contains(
                (#[trigger] environment[i]).key@,
            ) by {
                if i > 0 {
                    assert(rest[i - 1] == environment[i]);
                }
            }
        }
    }
}

/// A tool is accepted exactly where its variables are granted, its command is a binary of the pack and
/// its name is free; so is a server.
pub proof fn sound_tools_and_servers_are_accepted(
    tool: PackToolDeclaration,
    server: PackMcpServerDeclaration,
    binaries: Seq<PackBinary>,
    names: Seq<Seq<char>>,
    sandbox: SandboxConfig,
)
    ensures
        tool_verdict(tool, binaries, names, sandbox) is Accept <==> {
            &&& forall|i: int|
                0 <= i < tool.env_refs@.len() ==> views(sandbox.environment@).contains(
                    (#[trigger] tool.env_refs@[i]).key@,
                )
            &&& binary_path(binaries, tool.command@) is Some
            &&& !names.contains(tool.name@)
        },
        server_verdict(server, binaries, names, sandbox) is Accept <==> {
            &&& forall|i: int|
                0 <= i < server.env_refs@.len() ==> views(sandbox.environment@).contains(
                    (#[trigger] server.env_refs@[i]).key@,
                )
            &&& binary_path(binaries, server.command@) is Some
            &&& !names.contains(server.name@)
        },
{
    variables_are_granted_by_name(
        "enabled pack tool "@,
        tool.name@,
        tool.env_refs@,
        views(sandbox.environment@),
    );
    variables_are_granted_by_name(
        "enabled pack MCP server "@,
        server.name@,
        server.env_refs@,
        views(sandbox.environment@),
    );
}

/// A tool of a pack appears under its own name, from its own pack, with the arguments, variables and
/// permissions that it declares, run in the pack's root by its own binary, under an action that names
/// pack and tool.
pub proof fn tools_appear_as_declared(
    view: PackView,
    pack: PackInstallation,
    root: Seq<char>,
    tool: PackToolDeclaration,
    sandbox: SandboxConfig,
)
    ensures
        ({
            let after = with_tool(view, pack, root, tool, sandbox);
            let declared = after.declarations.last();
            let shown = after.specs.last();
            &&& after.names == view.names.push(tool.name@)
            &&& after.declarations.drop_last() == view.declarations
            &&& after.specs.drop_last() == view.specs
            &&& declared.pack == pack.name@ && declared.version == pack.version@ && declared.manifest_sha256
                == pack.manifest_sha256@
            &&& declared.tool == tool.name@ && declared.cwd == root && declared.args == views(tool.args@)
            &&& declared.environment == text_entries(tool.env_refs@)
            &&& declared.permissions == views(tool.permissions@)
            &&& binary_path(pack.binaries@, tool.command@) matches Some(path) ==> declared.executable == path
            &&& contains_text(declared.action, pack.name@) && contains_text(declared.action, tool.name@)
            &&& shown.name == tool.name@ && shown.effect_action == Some(declared.action) && shown.capability == Some(
                declared.action,
            ) && shown.max_output_bytes == sandbox.max_output_bytes
            &&& contains_text(shown.description, pack.name@) && contains_text(shown.description, pack.version@)
            &&& after.actions == view.actions.push(declared.action)
            &&& after.restrictions.last().action == declared.action
            &&& after.servers == view.servers && after.executables == view.executables && after.filesystem
                == view.filesystem
        }),
{
    let after = with_tool(view, pack, root, tool, sandbox);
    let action = tool_action(pack.name@, tool.name@);
    let empty = Seq::<char>::empty();
    parts_are_contained("pack.tool."@, pack.name@, "."@ + tool.name@);
    assert("pack.tool."@ + pack.name@ + ("."@ + tool.name@) == action);
    parts_are_contained("pack.tool."@ + pack.name@ + "."@, tool.name@, empty);
    assert("pack.tool."@ + pack.name@ + "."@ + tool.name@ + empty == action);
    let head = "Verified executable tool from pack "@;
    let text = head + pack.name@ + "@"@ + pack.version@ + "."@;
    parts_are_contained(head, pack.name@, "@"@ + pack.version@ + "."@);
    assert(head + pack.name@ + ("@"@ + pack.version@ + "."@) == text);
    parts_are_contained(head + pack.name@ + "@"@, pack.version@, "."@);
    assert(after.declarations.drop_last() == view.declarations);
    assert(after.specs.drop_last() == view.specs);
}

/// A server of a pack runs its own binary in the pack's root, over its standard streams, with the tools
/// and the variables that it declares, and bears its pack's prefix.
pub proof fn pack_servers_appear_as_declared(
    view: PackView,
    pack: PackInstallation,
    root: Seq<char>,
    server: PackMcpServerDeclaration,
    sandbox: SandboxConfig,
)
    ensures
        ({
            let after = with_server(view, pack, root, server, sandbox);
            let added = after.servers.last();
            &&& after.servers.drop_last() == view.servers
            &&& added.name == server.name@ && added.transport is Stdio && added.working_directory == Some(root)
            &&& added.args == views(server.args@) && added.allowed_tools == views(server.allowed_tools@)
            &&& added.environment == text_entries(server.env_refs@)
            &&& binary_path(pack.binaries@, server.command@) matches Some(path) ==> added.command == path
            &&& added.url is None && added.oauth is None && added.credential_headers.len() == 0
            &&& added.effect_action_prefix is Some
            &&& contains_text(added.effect_action_prefix->0, pack.name@)
            &&& contains_text(added.effect_action_prefix->0, server.name@)
            &&& after.actions == view.actions + seq![
                added.effect_action_prefix->0 + ".tools"@,
                added.effect_action_prefix->0 + ".call"@,
            ]
            &&& after.restrictions.len() == view.restrictions.len() + 2
            &&& added.provenance == (ProvenanceView::Pack {
                pack: pack.name@,
                version: pack.version@,
                manifest_sha256: pack.manifest_sha256@,
                permissions: views(server.permissions@),
            })
        }),
{
    let after = with_server(view, pack, root, server, sandbox);
    let prefix = server_prefix(pack.name@, server.name@);
    let empty = Seq::<char>::empty();
    parts_are_contained("pack.mcp."@, pack.name@, "."@ + server.name@);
    assert("pack.mcp."@ + pack.name@ + ("."@ + server.name@) == prefix);
    parts_are_contained("pack.mcp."@ + pack.name@ + "."@, server.name@, empty);
    assert("pack.mcp."@ + pack.name@ + "."@ + server.name@ + empty == prefix);
    assert(after.servers.drop_last() == view.servers);
    assert(view.actions.push(prefix + ".tools"@).push(prefix + ".call"@) == view.actions + seq![
        prefix + ".tools"@,
        prefix + ".call"@,
    ]);
}

/// Every binary of a pack can be run, and its root read.
pub proof fn pack_binaries_can_be_run(view: PackView, binaries: Seq<PackBinary>, binary: PackBinary)
    ensures
        ({
            let before = with_binaries(view, binaries);
            let after = with_binaries(view, binaries.push(binary));
            &&& after.executables == before.executables.push(binary.path->Ok_0@)
            &&& after.filesystem == before.filesystem.push(
                GrantView { root: binary.path->Ok_0@, mode: "execute"@ },
            )
            &&& after.servers == before.servers && after.declarations == before.declarations
        }),
        with_binaries(view, Seq::empty()) == view,
{
    assert(binaries.push(binary).drop_last() == binaries);
}

/// Two tools of one pack never share an action, nor do two of its servers.
pub proof fn pack_actions_name_their_tool(pack: Seq<char>, first: Seq<char>, second: Seq<char>)
    requires
        first != second,
    ensures
        tool_action(pack, first) != tool_action(pack, second),
        server_prefix(pack, first) != server_prefix(pack, second),
{
    let tools = "pack.tool."@ + pack + "."@;
    if tool_action(pack, first) == tool_action(pack, second) {
        assert(tool_action(pack, first).skip(tools.len() as int) == first);
        assert(tool_action(pack, second).skip(tools.len() as int) == second);
    }
    let servers = "pack.mcp."@ + pack + "."@;
    if server_prefix(pack, first) == server_prefix(pack, second) {
        assert(server_prefix(pack, first).skip(servers.len() as int) == first);
        assert(server_prefix(pack, second).skip(servers.len() as int) == second);
    }
}

/// A pack is accepted exactly where its boundary can be enforced, its root is known, its binaries stay
/// below it, and its tools and servers are.
pub proof fn sound_packs_are_accepted(
    platform: Platform,
    pack: PackInstallation,
    names: Seq<Seq<char>>,
    servers: Seq<Seq<char>>,
    sandbox: SandboxConfig,
)
    ensures
        pack_verdict(platform, pack, names, servers, sandbox) is Accept <==> {
            &&& sandbox.backend@ == "danger_full_access"@ ==> pack.tools@.len() == 0 && pack.mcp_servers@.len() == 0
            &&& pack.root is Ok
            &&& binaries_verdict(platform, pack.name@, pack.root->Ok_0@, pack.binaries@) is Accept
            &&& tools_verdict(pack.tools@, pack.binaries@, names, sandbox) is Accept
            &&& servers_verdict(pack.mcp_servers@, pack.binaries@, servers, sandbox) is Accept
        },
{
}

/// The two actions of a server of a pack are restricted under their own names, and the server keeps its
/// state, sends no headers and has the limits of the sandbox.
pub proof fn pack_server_actions_are_restricted(
    view: PackView,
    pack: PackInstallation,
    root: Seq<char>,
    server: PackMcpServerDeclaration,
    sandbox: SandboxConfig,
)
    ensures
        ({
            let after = with_server(view, pack, root, server, sandbox);
            let added = after.servers.last();
            let count = view.restrictions.len() as int;
            &&& after.restrictions.take(count) == view.restrictions
            &&& after.restrictions[count].action == added.effect_action_prefix->0 + ".tools"@
            &&& after.restrictions[count + 1].action == added.effect_action_prefix->0 + ".call"@
            &&& !added.allow_stateless
            &&& added.headers.len() == 0
            &&& added.literal_environment.len() == 0
            &&& added.research_tools.len() == 0
            &&& added.timeout_ms is None
            &&& added.max_output_bytes is None
        }),
{
}

} // verus!
