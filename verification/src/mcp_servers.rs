//! Composed MCP servers as values.

use crate::config::{
    McpCredentialHeaderConfig, McpOAuthConfig, McpProvenance, McpResearchToolConfig, McpServerConfig, McpTransportKind,
};
use crate::entries::{by_key, has_key, keys, ordered_by, ordering_commutes, text_entries, Entry};
use crate::text::{optional_view, views};
use vstd::prelude::*;
use vstd::string::*;

verus! {

/// Where a server comes from, as characters.
pub ghost enum ProvenanceView {
    Unknown,
    Plugin { plugin: Seq<char>, manifest_digest: Seq<char>, trust: Seq<char> },
    Pack { pack: Seq<char>, version: Seq<char>, manifest_sha256: Seq<char>, permissions: Seq<Seq<char>> },
}

/// A server with its name, as a value.
pub ghost struct ServerView {
    pub name: Seq<char>,
    pub transport: McpTransportKind,
    pub command: Seq<char>,
    pub args: Seq<Seq<char>>,
    pub working_directory: Option<Seq<char>>,
    pub environment: Seq<(Seq<char>, Seq<char>)>,
    pub literal_environment: Seq<(Seq<char>, Seq<char>)>,
    pub url: Option<Seq<char>>,
    pub headers: Seq<(Seq<char>, Seq<char>)>,
    pub credential_headers: Seq<Entry<McpCredentialHeaderConfig>>,
    pub allow_stateless: bool,
    pub oauth: Option<McpOAuthConfig>,
    pub allowed_tools: Seq<Seq<char>>,
    pub research_tools: Seq<McpResearchToolConfig>,
    pub timeout_ms: Option<u64>,
    pub max_output_bytes: Option<u64>,
    pub effect_action_prefix: Option<Seq<char>>,
    pub provenance: ProvenanceView,
}

/// Where a server comes from, as characters.
pub open spec fn provenance_view(provenance: Option<McpProvenance>) -> ProvenanceView {
    match provenance {
        None => ProvenanceView::Unknown,
        Some(McpProvenance::Plugin { plugin, manifest_digest, trust }) => ProvenanceView::Plugin {
            plugin: plugin@,
            manifest_digest: manifest_digest@,
            trust: trust@,
        },
        Some(McpProvenance::Pack { pack, version, manifest_sha256, permissions }) => ProvenanceView::Pack {
            pack: pack@,
            version: version@,
            manifest_sha256: manifest_sha256@,
            permissions: views(permissions@),
        },
    }
}

/// A server with its name, as a value.
pub open spec fn server_view(entry: Entry<McpServerConfig>) -> ServerView {
    let server = entry.value;
    ServerView {
        name: entry.key@,
        transport: server.transport,
        command: server.command@,
        args: views(server.args@),
        working_directory: optional_view(server.working_directory),
        environment: text_entries(server.environment@),
        literal_environment: text_entries(server.literal_environment@),
        url: optional_view(server.url),
        headers: text_entries(server.headers@),
        credential_headers: server.credential_headers@,
        allow_stateless: server.allow_stateless,
        oauth: server.oauth,
        allowed_tools: views(server.allowed_tools@),
        research_tools: server.research_tools@,
        timeout_ms: server.timeout_ms,
        max_output_bytes: server.max_output_bytes,
        effect_action_prefix: optional_view(server.effect_action_prefix),
        provenance: provenance_view(server.provenance),
    }
}

/// The servers of a list, as values.
pub open spec fn server_views(list: Seq<Entry<McpServerConfig>>) -> Seq<ServerView> {
    list.map_values(|entry: Entry<McpServerConfig>| server_view(entry))
}

/// The name of a server.
pub open spec fn by_name() -> spec_fn(ServerView) -> Seq<char> {
    |server: ServerView| server.name
}

/// Servers in the order of their keys are the servers as values in the order of their names.
pub proof fn servers_in_order(list: Seq<Entry<McpServerConfig>>)
    ensures
        server_views(ordered_by(list, by_key())) == ordered_by(server_views(list), by_name()),
{
    let change = |entry: Entry<McpServerConfig>| server_view(entry);
    ordering_commutes(list, change, by_key(), by_name());
    assert(server_views(list) =~= list.map_values(change));
    assert(server_views(ordered_by(list, by_key())) =~= ordered_by(list, by_key()).map_values(change));
}

/// A list has a key exactly where its keys contain it.
pub proof fn key_is_contained<T>(list: Seq<Entry<T>>, key: Seq<char>)
    ensures
        has_key(list, key) == keys(list).contains(key),
{
    if has_key(list, key) {
        let i = choose|i: int| 0 <= i < list.len() && (#[trigger] list[i]).key@ == key;
        assert(keys(list)[i] == key);
    }
    if keys(list).contains(key) {
        let i = choose|i: int| 0 <= i < keys(list).len() && keys(list)[i] == key;
        assert(list[i].key@ == key);
    }
}

} // verus!
