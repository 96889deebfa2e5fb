//! Tools that reach the network, plugins and connected servers.

use crate::effects::{asks_for, effect_plan, EffectPlan};
use crate::text::same_text;
use crate::tool_results::{require_adapter, unavailable, Adapter};
use crate::tools::{
    first, forwarded, given, invalid, optional_refusal, refuse_if, refuses, required_refusal, Refusal, TextArgument,
    ToolError,
};
use vstd::prelude::*;
use vstd::string::*;

verus! {

/// The arguments of a tool that reaches the network.
#[derive(Debug)]
pub struct NetworkArguments {
    pub query: TextArgument,
    pub limit: Result<Option<u64>, ToolError>,
    pub url: TextArgument,
}

/// What a tool that reaches the network does.
#[derive(Debug)]
pub enum NetworkPlan {
    /// Asks the search provider.
    Search { query: String, limit: usize },
    /// Reads a page: one request with a method and the kinds of content that it accepts.
    Fetch { plan: EffectPlan, method: String, accept: String },
}

/// How many results are asked for.
pub open spec fn asked_limit(reading: Result<Option<u64>, ToolError>, default_limit: usize) -> u64 {
    match reading {
        Ok(Some(value)) => value,
        _ => default_limit as u64,
    }
}

/// A tool that reads a page.
pub open spec fn fetch_tool(name: Seq<char>) -> bool {
    name == "network.http"@ || name == "web.fetch"@ || name == "docs.fetch"@
}

/// Why a call is refused, if so.
pub open spec fn network_refusal(
    name: Seq<char>,
    arguments: NetworkArguments,
    default_limit: usize,
    available: bool,
) -> Option<Refusal> {
    if name == "web.search"@ {
        first(
            required_refusal(arguments.query),
            first(
                forwarded(arguments.limit),
                first(
                    refuse_if(
                        asked_limit(arguments.limit, default_limit) > usize::MAX,
                        Refusal::Invalid(name, "limit is too large"@),
                    ),
                    refuse_if(!available, Refusal::Failed(unavailable(Adapter::Search))),
                ),
            ),
        )
    } else if fetch_tool(name) {
        required_refusal(arguments.url)
    } else {
        Some(Refusal::Unknown(name))
    }
}

/// What a tool that reaches the network does with its arguments. `available` says whether a search
/// provider is there.
pub fn plan_network(name: &str, arguments: &NetworkArguments, default_limit: usize, available: bool) -> (result: Result<
    NetworkPlan,
    ToolError,
>)
    ensures
        match network_refusal(name@, *arguments, default_limit, available) {
            Some(refusal) => refuses(result, refusal),
            None => result matches Ok(planned) && match planned {
                NetworkPlan::Search { query, limit } => name@ == "web.search"@ && given(arguments.query) == Some(query)
                    && limit == asked_limit(arguments.limit, default_limit),
                NetworkPlan::Fetch { plan, method, accept } => fetch_tool(name@) && name@ != "web.search"@ && asks_for(
                    plan,
                    "network.http"@,
                    given(arguments.url)->0@,
                ) && method@ == "GET"@ && accept@ == "*/*"@,
            },
        },
{
    if same_text(name, "web.search") {
        let query = arguments.query.required()?;
        let asked: u64 = match &arguments.limit {
            Err(error) => {
                return Err(error.clone());
            },
            Ok(Some(value)) => *value,
            Ok(None) => default_limit as u64,
        };
        if asked > usize::MAX as u64 {
            return invalid(name, "limit is too large");
        }
        require_adapter(Adapter::Search, available)?;
        Ok(NetworkPlan::Search { query, limit: asked as usize })
    } else if same_text(name, "network.http") || same_text(name, "web.fetch") || same_text(name, "docs.fetch") {
        let url = arguments.url.required()?;
        Ok(
            NetworkPlan::Fetch {
                plan: effect_plan("network.http", url.as_str()),
                method: "GET".to_owned(),
                accept: "*/*".to_owned(),
            },
        )
    } else {
        Err(ToolError::Unknown(name.to_owned()))
    }
}

/// A question about the active plugins.
#[derive(Debug)]
pub enum PluginOperation {
    List,
    Inspect { plugin_name: String },
    SkillRead { skill_id: String },
    ListResources { skill_id: String },
    ReadResource { skill_id: String, path: String },
}

/// The arguments of a tool for plugins or connected servers. `arguments` says whether the call holds
/// arguments for a tool of a server.
#[derive(Debug)]
pub struct ExtensionArguments {
    pub plugin: TextArgument,
    pub skill: TextArgument,
    pub path: TextArgument,
    pub server: TextArgument,
    pub tool: TextArgument,
    pub arguments: bool,
}

/// What a tool for plugins or connected servers does.
#[derive(Debug)]
pub enum ExtensionPlan {
    Plugin(PluginOperation),
    /// Names the connected servers.
    Servers,
    /// Names the tools of one server or of all.
    Tools { server: Option<String> },
    /// Calls a tool of a server.
    Call { server: String, tool: String },
}

/// Why a call is refused, if so.
pub open spec fn extension_refusal(name: Seq<char>, arguments: ExtensionArguments, available: bool) -> Option<Refusal> {
    let connected = refuse_if(!available, Refusal::Failed(unavailable(Adapter::Mcp)));
    if name == "plugin.list"@ {
        None
    } else if name == "plugin.inspect"@ {
        required_refusal(arguments.plugin)
    } else if name == "plugin.skill.read"@ || name == "plugin.resource.list"@ {
        required_refusal(arguments.skill)
    } else if name == "plugin.resource.read"@ {
        first(required_refusal(arguments.skill), required_refusal(arguments.path))
    } else if name == "mcp.servers"@ {
        connected
    } else if name == "mcp.tools"@ {
        first(optional_refusal(arguments.server), connected)
    } else if name == "mcp.call"@ {
        first(
            required_refusal(arguments.server),
            first(
                required_refusal(arguments.tool),
                first(
                    refuse_if(!arguments.arguments, Refusal::Invalid(name, "arguments must be an object"@)),
                    connected,
                ),
            ),
        )
    } else {
        Some(Refusal::Unknown(name))
    }
}

/// The plan is the one that the tool stands for.
pub open spec fn extends(planned: ExtensionPlan, name: Seq<char>, arguments: ExtensionArguments) -> bool {
    match planned {
        ExtensionPlan::Plugin(PluginOperation::List) => name == "plugin.list"@,
        ExtensionPlan::Plugin(PluginOperation::Inspect { plugin_name }) => name == "plugin.inspect"@ && given(
            arguments.plugin,
        ) == Some(plugin_name),
        ExtensionPlan::Plugin(PluginOperation::SkillRead { skill_id }) => name == "plugin.skill.read"@ && given(
            arguments.skill,
        ) == Some(skill_id),
        ExtensionPlan::Plugin(PluginOperation::ListResources { skill_id }) => name == "plugin.resource.list"@
            && given(arguments.skill) == Some(skill_id),
        ExtensionPlan::Plugin(PluginOperation::ReadResource { skill_id, path }) => name == "plugin.resource.read"@
            && given(arguments.skill) == Some(skill_id) && given(arguments.path) == Some(path),
        ExtensionPlan::Servers => name == "mcp.servers"@,
        ExtensionPlan::Tools { server } => name == "mcp.tools"@ && given(arguments.server) == server,
        ExtensionPlan::Call { server, tool } => name == "mcp.call"@ && given(arguments.server) == Some(server)
            && given(arguments.tool) == Some(tool),
    }
}

/// What a tool for plugins or connected servers does with its arguments. `available` says whether
/// servers are connected.
pub fn plan_extension(name: &str, arguments: &ExtensionArguments, available: bool) -> (result: Result<
    ExtensionPlan,
    ToolError,
>)
    ensures
        match extension_refusal(name@, *arguments, available) {
            Some(refusal) => refuses(result, refusal),
            None => result matches Ok(planned) && extends(planned, name@, *arguments),
        },
{
    if same_text(name, "plugin.list") {
        Ok(ExtensionPlan::Plugin(PluginOperation::List))
    } else if same_text(name, "plugin.inspect") {
        let plugin_name = arguments.plugin.required()?;
        Ok(ExtensionPlan::Plugin(PluginOperation::Inspect { plugin_name }))
    } else if same_text(name, "plugin.skill.read") {
        let skill_id = arguments.skill.required()?;
        Ok(ExtensionPlan::Plugin(PluginOperation::SkillRead { skill_id }))
    } else if same_text(name, "plugin.resource.list") {
        let skill_id = arguments.skill.required()?;
        Ok(ExtensionPlan::Plugin(PluginOperation::ListResources { skill_id }))
    } else if same_text(name, "plugin.resource.read") {
        let skill_id = arguments.skill.required()?;
        let path = arguments.path.required()?;
        Ok(ExtensionPlan::Plugin(PluginOperation::ReadResource { skill_id, path }))
    } else if same_text(name, "mcp.servers") {
        require_adapter(Adapter::Mcp, available)?;
        Ok(ExtensionPlan::Servers)
    } else if same_text(name, "mcp.tools") {
        let server = arguments.server.optional()?;
        require_adapter(Adapter::Mcp, available)?;
        Ok(ExtensionPlan::Tools { server })
    } else if same_text(name, "mcp.call") {
        let server = arguments.server.required()?;
        let tool = arguments.tool.required()?;
        if !arguments.arguments {
            return invalid(name, "arguments must be an object");
        }
        require_adapter(Adapter::Mcp, available)?;
        Ok(ExtensionPlan::Call { server, tool })
    } else {
        Err(ToolError::Unknown(name.to_owned()))
    }
}

/// A search asks for as many results as were asked for, and for the default where nothing was said.
pub proof fn searches_keep_their_limit(asked: u64, default_limit: usize)
    ensures
        asked_limit(Ok(Some(asked)), default_limit) == asked,
        asked_limit(Ok(None), default_limit) == default_limit,
{
}

/// A search with a query and a fetch with an address are refused only for want of a provider or for a
/// limit no machine can hold; without their text they are refused.
pub proof fn complete_network_calls_are_planned(
    name: Seq<char>,
    arguments: NetworkArguments,
    default_limit: usize,
    available: bool,
)
    ensures
        name == "web.search"@ ==> (network_refusal(name, arguments, default_limit, available) is None
            <==> arguments.query is Present && arguments.limit is Ok && asked_limit(arguments.limit, default_limit)
            <= usize::MAX && available),
        name == "network.http"@ || name == "web.fetch"@ || name == "docs.fetch"@ ==> (network_refusal(
            name,
            arguments,
            default_limit,
            available,
        ) is None <==> arguments.url is Present),
        name != "web.search"@ && name != "network.http"@ && name != "web.fetch"@ && name != "docs.fetch"@
            ==> network_refusal(name, arguments, default_limit, available) == Some(Refusal::Unknown(name)),
{
    reveal_strlit("web.search");
    reveal_strlit("network.http");
    reveal_strlit("web.fetch");
    reveal_strlit("docs.fetch");
    assert("web.search"@.len() == 10 && "web.search"@[0] == 'w');
    assert("network.http"@.len() == 12);
    assert("web.fetch"@.len() == 9);
    assert("docs.fetch"@.len() == 10 && "docs.fetch"@[0] == 'd');
}

/// A call of an extension tool is planned exactly where its texts are given and, where it needs a
/// server, servers are connected.
pub proof fn complete_extension_calls_are_planned(name: Seq<char>, arguments: ExtensionArguments, available: bool)
    ensures
        name == "plugin.list"@ ==> extension_refusal(name, arguments, available) is None,
        name == "plugin.inspect"@ ==> (extension_refusal(name, arguments, available) is None
            <==> arguments.plugin is Present),
        name == "plugin.skill.read"@ || name == "plugin.resource.list"@ ==> (extension_refusal(
            name,
            arguments,
            available,
        ) is None <==> arguments.skill is Present),
        name == "plugin.resource.read"@ ==> (extension_refusal(name, arguments, available) is None
            <==> arguments.skill is Present && arguments.path is Present),
        name == "mcp.servers"@ ==> (extension_refusal(name, arguments, available) is None <==> available),
        name == "mcp.tools"@ ==> (extension_refusal(name, arguments, available) is None <==> available && !(
        arguments.server is Invalid)),
        name == "mcp.call"@ ==> (extension_refusal(name, arguments, available) is None <==> available
            && arguments.server is Present && arguments.tool is Present && arguments.arguments),
        !seq![
            "plugin.list"@,
            "plugin.inspect"@,
            "plugin.skill.read"@,
            "plugin.resource.list"@,
            "plugin.resource.read"@,
            "mcp.servers"@,
            "mcp.tools"@,
            "mcp.call"@,
        ].contains(name) ==> extension_refusal(name, arguments, available) == Some(Refusal::Unknown(name)),
{
    reveal_extension_names();
    let names = seq![
        "plugin.list"@,
        "plugin.inspect"@,
        "plugin.skill.read"@,
        "plugin.resource.list"@,
        "plugin.resource.read"@,
        "mcp.servers"@,
        "mcp.tools"@,
        "mcp.call"@,
    ];
    assert(names[0] == "plugin.list"@ && names[1] == "plugin.inspect"@ && names[2] == "plugin.skill.read"@);
    assert(names[3] == "plugin.resource.list"@ && names[4] == "plugin.resource.read"@);
    assert(names[5] == "mcp.servers"@ && names[6] == "mcp.tools"@ && names[7] == "mcp.call"@);
}

proof fn reveal_extension_names()
    ensures
        "plugin.list"@.len() == 11 && "plugin.list"@[0] == 'p',
        "plugin.inspect"@.len() == 14,
        "plugin.skill.read"@.len() == 17,
        "plugin.resource.list"@.len() == 20 && "plugin.resource.list"@[16] == 'l',
        "plugin.resource.read"@.len() == 20 && "plugin.resource.read"@[16] == 'r',
        "mcp.servers"@.len() == 11 && "mcp.servers"@[0] == 'm',
        "mcp.tools"@.len() == 9,
        "mcp.call"@.len() == 8,
{
    reveal_strlit("plugin.list");
    reveal_strlit("plugin.inspect");
    reveal_strlit("plugin.skill.read");
    reveal_strlit("plugin.resource.list");
    reveal_strlit("plugin.resource.read");
    reveal_strlit("mcp.servers");
    reveal_strlit("mcp.tools");
    reveal_strlit("mcp.call");
}

/// An extension plan is of the tool called and carries the texts that were given.
pub proof fn extension_plans_carry_the_given_texts(
    planned: ExtensionPlan,
    name: Seq<char>,
    arguments: ExtensionArguments,
)
    requires
        extends(planned, name, arguments),
    ensures
        planned matches ExtensionPlan::Plugin(PluginOperation::List) ==> name == "plugin.list"@,
        planned matches ExtensionPlan::Plugin(PluginOperation::Inspect { plugin_name }) ==> name == "plugin.inspect"@
            && arguments.plugin == TextArgument::Present(plugin_name),
        planned matches ExtensionPlan::Plugin(PluginOperation::SkillRead { skill_id }) ==> name == "plugin.skill.read"@
            && arguments.skill == TextArgument::Present(skill_id),
        planned matches ExtensionPlan::Plugin(PluginOperation::ListResources { skill_id }) ==> name
            == "plugin.resource.list"@ && arguments.skill == TextArgument::Present(skill_id),
        planned matches ExtensionPlan::Plugin(PluginOperation::ReadResource { skill_id, path }) ==> name
            == "plugin.resource.read"@ && arguments.skill == TextArgument::Present(skill_id) && arguments.path
            == TextArgument::Present(path),
        planned is Servers <==> name == "mcp.servers"@,
        planned is Tools <==> name == "mcp.tools"@,
        planned is Call <==> name == "mcp.call"@,
        planned matches ExtensionPlan::Tools { server } ==> (server matches Some(text) ==> arguments.server
            == TextArgument::Present(text)) && (server is None ==> !(arguments.server is Present)),
        planned matches ExtensionPlan::Call { server, tool } ==> arguments.server == TextArgument::Present(server)
            && arguments.tool == TextArgument::Present(tool),
{
    reveal_extension_names();
}

/// Three tools fetch what stands at an address, and each is refused without one; a tool that neither
/// fetches nor searches is unknown.
pub proof fn fetches_need_an_address(name: Seq<char>, arguments: NetworkArguments, default_limit: usize, available: bool)
    requires
        name != "web.search"@,
    ensures
        name == "network.http"@ || name == "web.fetch"@ || name == "docs.fetch"@ ==> network_refusal(
            name,
            arguments,
            default_limit,
            available,
        ) == required_refusal(arguments.url),
        name != "network.http"@ && name != "web.fetch"@ && name != "docs.fetch"@ ==> network_refusal(
            name,
            arguments,
            default_limit,
            available,
        ) == Some(Refusal::Unknown(name)),
{
}

} // verus!
