//! What the plugin settings of a workspace must satisfy.

use crate::config::{
    Platform, PluginMcpServerConfig, PluginRegistryProfile, PluginTrustProfile, PluginsConfig, RegistryAuthConfig,
};
use crate::entries::{contains_key, has_key, Entry};
use crate::error::{answers, config_error, config_error3, RuntimeError, Verdict};
use crate::names::{
    distinct_names, is_environment_name, is_name, name_char, unique_names, valid_environment_name, valid_name,
};
use crate::origins::{canonical_origin, is_canonical, OriginFinding};
use crate::paths::{absolute, is_absolute};
use crate::text::{list_contains, pieces, pieces_join_to_the_text, same_text, split, views};
use crate::validation::{both, reject_if};
use vstd::prelude::*;
use vstd::string::*;

verus! {

/// Every text is an absolute path.
pub open spec fn all_absolute(platform: Platform, list: Seq<String>) -> bool {
    forall|i: int| 0 <= i < list.len() ==> absolute(platform, (#[trigger] list[i])@)
}

fn paths_absolute(platform: Platform, list: &Vec<String>) -> (yes: bool)
    ensures
        yes == all_absolute(platform, list@),
{
    let mut i: usize = 0;
    while i < list.len()
        invariant
            i <= list@.len(),
            forall|j: int| 0 <= j < i ==> absolute(platform, (#[trigger] list@[j])@),
        decreases list@.len() - i,
    {
        if !is_absolute(platform, list[i].as_str()) {
            return false;
        }
        i = i + 1;
    }
    true
}

/// Every value is an absolute path.
pub open spec fn values_absolute(platform: Platform, list: Seq<Entry<String>>) -> bool {
    forall|i: int| 0 <= i < list.len() ==> absolute(platform, (#[trigger] list[i]).value@)
}

fn entries_absolute(platform: Platform, list: &Vec<Entry<String>>) -> (yes: bool)
    ensures
        yes == values_absolute(platform, list@),
{
    let mut i: usize = 0;
    while i < list.len()
        invariant
            i <= list@.len(),
            forall|j: int| 0 <= j < i ==> absolute(platform, (#[trigger] list@[j]).value@),
        decreases list@.len() - i,
    {
        if !is_absolute(platform, list[i].value.as_str()) {
            return false;
        }
        i = i + 1;
    }
    true
}

/// The path is absolute where it is present.
pub open spec fn absolute_if_present(platform: Platform, path: Option<String>) -> bool {
    path matches Some(value) ==> absolute(platform, value@)
}

fn optional_absolute(platform: Platform, path: &Option<String>) -> (yes: bool)
    ensures
        yes == absolute_if_present(platform, *path),
{
    match path {
        Some(value) => is_absolute(platform, value.as_str()),
        None => true,
    }
}

/// A name of the denylist that stands in the allowlist too.
pub open spec fn named_twice(config: PluginsConfig) -> bool {
    exists|i: int|
        0 <= i < config.exclude@.len() && views(config.include_names@).contains((#[trigger] config.exclude@[i])@)
}

/// Trust roots are absolute and identities are not empty.
pub open spec fn sound_trust(platform: Platform, profile: PluginTrustProfile) -> bool {
    &&& all_absolute(platform, profile.public_keys@)
    &&& absolute_if_present(platform, profile.trust_root_path)
    &&& forall|i: int|
        0 <= i < profile.identities@.len() ==> (#[trigger] profile.identities@[i]).issuer@.len() > 0
            && profile.identities@[i].subject@.len() > 0
}

fn trust_sound(platform: Platform, profile: &PluginTrustProfile) -> (yes: bool)
    ensures
        yes == sound_trust(platform, *profile),
{
    if !paths_absolute(platform, &profile.public_keys) || !optional_absolute(platform, &profile.trust_root_path) {
        return false;
    }
    let mut i: usize = 0;
    while i < profile.identities.len()
        invariant
            i <= profile.identities@.len(),
            forall|j: int|
                0 <= j < i ==> (#[trigger] profile.identities@[j]).issuer@.len() > 0
                    && profile.identities@[j].subject@.len() > 0,
        decreases profile.identities@.len() - i,
    {
        if profile.identities[i].issuer.as_str().is_empty() || profile.identities[i].subject.as_str().is_empty() {
            return false;
        }
        i = i + 1;
    }
    true
}

/// The verdict on trust profiles, in order.
pub open spec fn trust_verdict(platform: Platform, list: Seq<Entry<PluginTrustProfile>>) -> Verdict
    decreases list.len(),
{
    if list.len() == 0 {
        Verdict::Accept
    } else {
        both(
            reject_if(
                !sound_trust(platform, list[0].value),
                "plugins.trustProfiles."@ + list[0].key@
                    + " requires absolute trust-root paths and non-empty identities"@,
            ),
            trust_verdict(platform, list.skip(1)),
        )
    }
}

/// Every text is its own canonical origin.
pub open spec fn all_canonical(list: Seq<String>, origins: Seq<OriginFinding>) -> bool {
    forall|i: int| 0 <= i < list.len() ==> is_canonical(origins, (#[trigger] list[i])@)
}

fn origins_canonical(list: &Vec<String>, origins: &Vec<OriginFinding>) -> (yes: bool)
    ensures
        yes == all_canonical(list@, origins@),
{
    let mut i: usize = 0;
    while i < list.len()
        invariant
            i <= list@.len(),
            forall|j: int| 0 <= j < i ==> is_canonical(origins@, (#[trigger] list@[j])@),
        decreases list@.len() - i,
    {
        if !canonical_origin(origins, list[i].as_str()) {
            return false;
        }
        i = i + 1;
    }
    true
}

/// Every key is a permitted origin in its canonical form.
pub open spec fn keyed_by_permitted(
    bundles: Seq<Entry<String>>,
    permitted: Seq<String>,
    origins: Seq<OriginFinding>,
) -> bool {
    forall|i: int|
        0 <= i < bundles.len() ==> views(permitted).contains((#[trigger] bundles[i]).key@) && is_canonical(
            origins,
            bundles[i].key@,
        )
}

fn bundles_keyed(bundles: &Vec<Entry<String>>, permitted: &Vec<String>, origins: &Vec<OriginFinding>) -> (yes: bool)
    ensures
        yes == keyed_by_permitted(bundles@, permitted@, origins@),
{
    let mut i: usize = 0;
    while i < bundles.len()
        invariant
            i <= bundles@.len(),
            forall|j: int|
                0 <= j < i ==> views(permitted@).contains((#[trigger] bundles@[j]).key@) && is_canonical(
                    origins@,
                    bundles@[j].key@,
                ),
        decreases bundles@.len() - i,
    {
        if !list_contains(permitted, bundles[i].key.as_str()) || !canonical_origin(origins, bundles[i].key.as_str()) {
            return false;
        }
        i = i + 1;
    }
    true
}

/// The registry is a name with a canonical origin and a trust profile that exists.
pub open spec fn sound_registry(
    name: Seq<char>,
    registry: PluginRegistryProfile,
    trust: Seq<Entry<PluginTrustProfile>>,
    origins: Seq<OriginFinding>,
) -> bool {
    &&& is_name(name)
    &&& registry.trust_profile@.len() > 0
    &&& has_key(trust, registry.trust_profile@)
    &&& is_canonical(origins, registry.origin@)
}

/// CA bundles are absolute and belong to permitted origins.
pub open spec fn sound_bundles(
    platform: Platform,
    registry: PluginRegistryProfile,
    origins: Seq<OriginFinding>,
) -> bool {
    &&& absolute_if_present(platform, registry.ca_bundle_path)
    &&& values_absolute(platform, registry.token_ca_bundle_paths@)
    &&& values_absolute(platform, registry.blob_redirect_ca_bundle_paths@)
    &&& keyed_by_permitted(registry.token_ca_bundle_paths@, registry.token_origins@, origins)
    &&& keyed_by_permitted(registry.blob_redirect_ca_bundle_paths@, registry.blob_redirect_origins@, origins)
}

/// Docker's configuration and helpers are absolute paths.
pub open spec fn sound_docker(platform: Platform, auth: RegistryAuthConfig) -> bool {
    auth matches RegistryAuthConfig::Docker { config_path, helper_executables } ==> absolute_if_present(
        platform,
        config_path,
    )
        && values_absolute(platform, helper_executables@)
}

/// The verdict on one registry.
pub open spec fn registry_verdict(
    platform: Platform,
    name: Seq<char>,
    registry: PluginRegistryProfile,
    trust: Seq<Entry<PluginTrustProfile>>,
    origins: Seq<OriginFinding>,
) -> Verdict {
    both(
        reject_if(
            !sound_registry(name, registry, trust, origins),
            "plugins.registries."@ + name + " requires a canonical exact origin and existing trust profile"@,
        ),
        both(
            reject_if(
                !all_canonical(registry.token_origins@, origins) || !all_canonical(
                    registry.blob_redirect_origins@,
                    origins,
                ),
                "plugins.registries."@ + name + " contains a non-canonical permitted origin"@,
            ),
            both(
                reject_if(
                    !sound_bundles(platform, registry, origins),
                    "plugins.registries."@ + name
                        + " CA paths must be absolute and keyed by permitted exact origins"@,
                ),
                reject_if(
                    !sound_docker(platform, registry.auth),
                    "plugins.registries."@ + name + " Docker config and helper paths must be absolute"@,
                ),
            ),
        ),
    )
}

/// Checks one registry.
pub fn validate_registry(
    platform: Platform,
    name: &str,
    registry: &PluginRegistryProfile,
    trust: &Vec<Entry<PluginTrustProfile>>,
    origins: &Vec<OriginFinding>,
) -> (result: Result<(), RuntimeError>)
    ensures
        answers(result, registry_verdict(platform, name@, *registry, trust@, origins@)),
{
    if !valid_name(name) || registry.trust_profile.as_str().is_empty() || !contains_key(
        trust,
        registry.trust_profile.as_str(),
    ) || !canonical_origin(origins, registry.origin.as_str()) {
        return config_error3(
            "plugins.registries.",
            name,
            " requires a canonical exact origin and existing trust profile",
        );
    }
    if !origins_canonical(&registry.token_origins, origins) || !origins_canonical(
        &registry.blob_redirect_origins,
        origins,
    ) {
        return config_error3("plugins.registries.", name, " contains a non-canonical permitted origin");
    }
    if !optional_absolute(
        platform,
        &registry.ca_bundle_path,
    ) || !entries_absolute(platform, &registry.token_ca_bundle_paths)
        || !entries_absolute(platform, &registry.blob_redirect_ca_bundle_paths) || !bundles_keyed(
        &registry.token_ca_bundle_paths,
        &registry.token_origins,
        origins,
    ) || !bundles_keyed(&registry.blob_redirect_ca_bundle_paths, &registry.blob_redirect_origins, origins) {
        return config_error3(
            "plugins.registries.",
            name,
            " CA paths must be absolute and keyed by permitted exact origins",
        );
    }
    let docker: bool = match &registry.auth {
        RegistryAuthConfig::Docker { config_path, helper_executables } => optional_absolute(platform, config_path)
            && entries_absolute(platform, helper_executables),
        RegistryAuthConfig::Other => true,
    };
    if !docker {
        return config_error3("plugins.registries.", name, " Docker config and helper paths must be absolute");
    }
    Ok(())
}

/// The verdict on registries, in order.
pub open spec fn registries_verdict(
    platform: Platform,
    list: Seq<Entry<PluginRegistryProfile>>,
    trust: Seq<Entry<PluginTrustProfile>>,
    origins: Seq<OriginFinding>,
) -> Verdict
    decreases list.len(),
{
    if list.len() == 0 {
        Verdict::Accept
    } else {
        both(
            registry_verdict(platform, list[0].key@, list[0].value, trust, origins),
            registries_verdict(platform, list.skip(1), trust, origins),
        )
    }
}

/// The identity of a plugin MCP server: a plugin name and a server name with one `/` between them.
pub open spec fn qualified_identity(id: Seq<char>) -> bool {
    let parts = pieces(id, '/');
    parts.len() == 2 && is_name(parts[0]) && is_name(parts[1])
}

/// Whether `id` is a plugin name and a server name with one `/` between them.
pub fn is_qualified_identity(id: &str) -> (yes: bool)
    ensures
        yes == qualified_identity(id@),
{
    let parts = split(id, '/');
    proof {
        if parts@.len() == 2 {
            assert(views(parts@)[0] == parts@[0]@);
            assert(views(parts@)[1] == parts@[1]@);
        }
    }
    parts.len() == 2 && valid_name(parts[0].as_str()) && valid_name(parts[1].as_str())
}

/// A variable that the runtime sets itself.
pub open spec fn reserved_variable(name: Seq<char>) -> bool {
    name == "PLUGIN_ROOT"@ || name == "PLUGIN_DATA"@
}

/// Every key is an environment variable that the runtime does not set itself.
pub open spec fn free_variables(list: Seq<Entry<String>>) -> bool {
    forall|i: int|
        0 <= i < list.len() ==> is_environment_name((#[trigger] list[i]).key@) && !reserved_variable(list[i].key@)
}

fn variables_free(list: &Vec<Entry<String>>) -> (yes: bool)
    ensures
        yes == free_variables(list@),
{
    let mut i: usize = 0;
    while i < list.len()
        invariant
            i <= list@.len(),
            forall|j: int|
                0 <= j < i ==> is_environment_name((#[trigger] list@[j]).key@) && !reserved_variable(list@[j].key@),
        decreases list@.len() - i,
    {
        let key = list[i].key.as_str();
        if !valid_environment_name(key) || same_text(key, "PLUGIN_ROOT") || same_text(key, "PLUGIN_DATA") {
            return false;
        }
        i = i + 1;
    }
    true
}

/// The verdict on one plugin MCP server overlay.
pub open spec fn server_verdict(id: Seq<char>, server: PluginMcpServerConfig) -> Verdict {
    both(
        reject_if(
            !qualified_identity(id),
            "plugins.mcpServers key "@ + id + " must be a qualified <plugin>/<server> identity"@,
        ),
        both(
            reject_if(
                server.enabled && server.allowed_tools@.len() == 0,
                "enabled plugin MCP server "@ + id + " requires an explicit allowedTools list"@,
            ),
            reject_if(
                !free_variables(server.environment@),
                "plugins.mcpServers."@ + id + ".environment contains an invalid or reserved variable"@,
            ),
        ),
    )
}

/// Checks one plugin MCP server overlay.
pub fn validate_server(id: &str, server: &PluginMcpServerConfig) -> (result: Result<(), RuntimeError>)
    ensures
        answers(result, server_verdict(id@, *server)),
{
    if !is_qualified_identity(id) {
        return config_error3(
            "plugins.mcpServers key ",
            id,
            " must be a qualified <plugin>/<server> identity",
        );
    }
    if server.enabled && server.allowed_tools.len() == 0 {
        return config_error3("enabled plugin MCP server ", id, " requires an explicit allowedTools list");
    }
    if !variables_free(&server.environment) {
        return config_error3(
            "plugins.mcpServers.",
            id,
            ".environment contains an invalid or reserved variable",
        );
    }
    Ok(())
}

/// The verdict on plugin MCP server overlays, in order.
pub open spec fn servers_verdict(list: Seq<Entry<PluginMcpServerConfig>>) -> Verdict
    decreases list.len(),
{
    if list.len() == 0 {
        Verdict::Accept
    } else {
        both(server_verdict(list[0].key@, list[0].value), servers_verdict(list.skip(1)))
    }
}

/// There is a trust profile, and every one has a name.
pub open spec fn named_trust(list: Seq<Entry<PluginTrustProfile>>) -> bool {
    &&& list.len() > 0
    &&& forall|i: int| 0 <= i < list.len() ==> is_name((#[trigger] list[i]).key@)
}

/// The verdict on plugin settings.
pub open spec fn plugins_verdict(platform: Platform, config: PluginsConfig, origins: Seq<OriginFinding>) -> Verdict {
    both(
        reject_if(
            !distinct_names(views(config.include_names@)) || !distinct_names(views(config.exclude@)),
            "plugins.include and plugins.exclude require unique valid plugin names"@,
        ),
        both(
            reject_if(
                named_twice(config),
                "a plugin name cannot appear in both plugins.include and plugins.exclude"@,
            ),
            both(
                reject_if(
                    !named_trust(config.trust_profiles@),
                    "plugins.trustProfiles requires at least one valid named profile"@,
                ),
                both(
                    trust_verdict(platform, config.trust_profiles@),
                    both(
                        registries_verdict(platform, config.registries@, config.trust_profiles@, origins),
                        servers_verdict(config.mcp_servers@),
                    ),
                ),
            ),
        ),
    )
}

fn names_overlap(config: &PluginsConfig) -> (yes: bool)
    ensures
        yes == named_twice(*config),
{
    let mut i: usize = 0;
    while i < config.exclude.len()
        invariant
            i <= config.exclude@.len(),
            forall|j: int| 0 <= j < i ==> !views(config.include_names@).contains((#[trigger] config.exclude@[j])@),
        decreases config.exclude@.len() - i,
    {
        if list_contains(&config.include_names, config.exclude[i].as_str()) {
            return true;
        }
        i = i + 1;
    }
    false
}

fn trust_named(list: &Vec<Entry<PluginTrustProfile>>) -> (yes: bool)
    ensures
        yes == named_trust(list@),
{
    if list.len() == 0 {
        return false;
    }
    let mut i: usize = 0;
    while i < list.len()
        invariant
            i <= list@.len(),
            forall|j: int| 0 <= j < i ==> is_name((#[trigger] list@[j]).key@),
        decreases list@.len() - i,
    {
        if !valid_name(list[i].key.as_str()) {
            return false;
        }
        i = i + 1;
    }
    true
}

fn validate_trust(platform: Platform, list: &Vec<Entry<PluginTrustProfile>>) -> (result: Result<(), RuntimeError>)
    ensures
        answers(result, trust_verdict(platform, list@)),
{
    let mut i: usize = 0;
    proof {
        assert(list@.skip(0) =~= list@);
    }
    while i < list.len()
        invariant
            i <= list@.len(),
            trust_verdict(platform, list@) == trust_verdict(platform, list@.skip(i as int)),
        decreases list@.len() - i,
    {
        if !trust_sound(platform, &list[i].value) {
            return config_error3(
                "plugins.trustProfiles.",
                list[i].key.as_str(),
                " requires absolute trust-root paths and non-empty identities",
            );
        }
        proof {
            assert(list@.skip(i as int).skip(1) =~= list@.skip(i + 1));
        }
        i = i + 1;
    }
    Ok(())
}

fn validate_registries(
    platform: Platform,
    list: &Vec<Entry<PluginRegistryProfile>>,
    trust: &Vec<Entry<PluginTrustProfile>>,
    origins: &Vec<OriginFinding>,
) -> (result: Result<(), RuntimeError>)
    ensures
        answers(result, registries_verdict(platform, list@, trust@, origins@)),
{
    let mut i: usize = 0;
    proof {
        assert(list@.skip(0) =~= list@);
    }
    while i < list.len()
        invariant
            i <= list@.len(),
            registries_verdict(platform, list@, trust@, origins@) == registries_verdict(
                platform,
                list@.skip(i as int),
                trust@,
                origins@,
            ),
        decreases list@.len() - i,
    {
        validate_registry(platform, list[i].key.as_str(), &list[i].value, trust, origins)?;
        proof {
            assert(list@.skip(i as int).skip(1) =~= list@.skip(i + 1));
        }
        i = i + 1;
    }
    Ok(())
}

fn validate_servers(list: &Vec<Entry<PluginMcpServerConfig>>) -> (result: Result<(), RuntimeError>)
    ensures
        answers(result, servers_verdict(list@)),
{
    let mut i: usize = 0;
    proof {
        assert(list@.skip(0) =~= list@);
    }
    while i < list.len()
        invariant
            i <= list@.len(),
            servers_verdict(list@) == servers_verdict(list@.skip(i as int)),
        decreases list@.len() - i,
    {
        validate_server(list[i].key.as_str(), &list[i].value)?;
        proof {
            assert(list@.skip(i as int).skip(1) =~= list@.skip(i + 1));
        }
        i = i + 1;
    }
    Ok(())
}

/// Checks plugin settings and answers with the first failure.
pub fn validate_plugins_config(
    platform: Platform,
    config: &PluginsConfig,
    origins: &Vec<OriginFinding>,
) -> (result: Result<
    (),
    RuntimeError,
>)
    ensures
        answers(result, plugins_verdict(platform, *config, origins@)),
{
    if !unique_names(&config.include_names) || !unique_names(&config.exclude) {
        return config_error("plugins.include and plugins.exclude require unique valid plugin names");
    }
    if names_overlap(config) {
        return config_error("a plugin name cannot appear in both plugins.include and plugins.exclude");
    }
    if !trust_named(&config.trust_profiles) {
        return config_error("plugins.trustProfiles requires at least one valid named profile");
    }
    validate_trust(platform, &config.trust_profiles)?;
    validate_registries(platform, &config.registries, &config.trust_profiles, origins)?;
    validate_servers(&config.mcp_servers)
}

/// Plugin settings are accepted exactly where the included and the excluded names are names, each
/// listed once and in one list alone, where a trust profile exists and every profile, registry and
/// server is sound.
pub proof fn sound_settings_are_accepted(platform: Platform, config: PluginsConfig, origins: Seq<OriginFinding>)
    ensures
        plugins_verdict(platform, config, origins) is Accept <==> {
            &&& distinct_names(views(config.include_names@)) && distinct_names(views(config.exclude@))
            &&& forall|i: int, j: int|
                0 <= i < config.exclude@.len() && 0 <= j < config.include_names@.len() ==> (
                #[trigger] config.exclude@[i])@ != (#[trigger] config.include_names@[j])@
            &&& config.trust_profiles@.len() > 0
            &&& forall|i: int|
                0 <= i < config.trust_profiles@.len() ==> is_name((#[trigger] config.trust_profiles@[i]).key@)
                    && sound_trust(platform, config.trust_profiles@[i].value)
            &&& forall|i: int|
                0 <= i < config.registries@.len() ==> registry_verdict(
                    platform,
                    (#[trigger] config.registries@[i]).key@,
                    config.registries@[i].value,
                    config.trust_profiles@,
                    origins,
                ) is Accept
            &&& forall|i: int|
                0 <= i < config.mcp_servers@.len() ==> server_verdict(
                    (#[trigger] config.mcp_servers@[i]).key@,
                    config.mcp_servers@[i].value,
                ) is Accept
        },
{
    sound_trust_is_accepted(platform, config.trust_profiles@);
    sound_registries_are_accepted(platform, config.registries@, config.trust_profiles@, origins);
    sound_servers_are_accepted(config.mcp_servers@);
    let included = views(config.include_names@);
    assert(included.len() == config.include_names@.len());
    assert(forall|j: int| 0 <= j < included.len() ==> #[trigger] included[j] == config.include_names@[j]@);
    if !named_twice(config) {
        assert forall|i: int, j: int|
            0 <= i < config.exclude@.len() && 0 <= j < config.include_names@.len() implies (
        #[trigger] config.exclude@[i])@ != (#[trigger] config.include_names@[j])@ by {
            assert(!included.contains(config.exclude@[i]@));
            assert(included[j] == config.include_names@[j]@);
        }
    } else {
        let i = choose|i: int|
            0 <= i < config.exclude@.len() && included.contains((#[trigger] config.exclude@[i])@);
        let j = choose|j: int| 0 <= j < included.len() && included[j] == config.exclude@[i]@;
        assert(config.include_names@[j]@ == config.exclude@[i]@);
    }
}

proof fn sound_trust_is_accepted(platform: Platform, list: Seq<Entry<PluginTrustProfile>>)
    ensures
        trust_verdict(platform, list) is Accept <==> forall|i: int|
            0 <= i < list.len() ==> sound_trust(platform, (#[trigger] list[i]).value),
    decreases list.len(),
{
    if list.len() > 0 {
        let rest = list.skip(1);
        sound_trust_is_accepted(platform, rest);
        assert(forall|i: int| 0 <= i < rest.len() ==> #[trigger] rest[i] == list[i + 1]);
        if trust_verdict(platform, list) is Accept {
            assert forall|i: int| 0 <= i < list.len() implies sound_trust(platform, (#[trigger] list[i]).value) by {
                if i > 0 {
                    assert(rest[i - 1] == list[i]);
                }
            }
        }
    }
}

proof fn sound_registries_are_accepted(
    platform: Platform,
    list: Seq<Entry<PluginRegistryProfile>>,
    trust: Seq<Entry<PluginTrustProfile>>,
    origins: Seq<OriginFinding>,
)
    ensures
        registries_verdict(platform, list, trust, origins) is Accept <==> forall|i: int|
            0 <= i < list.len() ==> registry_verdict(
                platform,
                (#[trigger] list[i]).key@,
                list[i].value,
                trust,
                origins,
            ) is Accept,
    decreases list.len(),
{
    if list.len() > 0 {
        let rest = list.skip(1);
        sound_registries_are_accepted(platform, rest, trust, origins);
        assert(forall|i: int| 0 <= i < rest.len() ==> #[trigger] rest[i] == list[i + 1]);
        if registries_verdict(platform, list, trust, origins) is Accept {
            assert forall|i: int| 0 <= i < list.len() implies registry_verdict(
                platform,
                (#[trigger] list[i]).key@,
                list[i].value,
                trust,
                origins,
            ) is Accept by {
                if i > 0 {
                    assert(rest[i - 1] == list[i]);
                }
            }
        }
    }
}

proof fn sound_servers_are_accepted(list: Seq<Entry<PluginMcpServerConfig>>)
    ensures
        servers_verdict(list) is Accept <==> forall|i: int|
            0 <= i < list.len() ==> server_verdict((#[trigger] list[i]).key@, list[i].value) is Accept,
    decreases list.len(),
{
    if list.len() > 0 {
        let rest = list.skip(1);
        sound_servers_are_accepted(rest);
        assert(forall|i: int| 0 <= i < rest.len() ==> #[trigger] rest[i] == list[i + 1]);
        if servers_verdict(list) is Accept {
            assert forall|i: int| 0 <= i < list.len() implies server_verdict(
                (#[trigger] list[i]).key@,
                list[i].value,
            ) is Accept by {
                if i > 0 {
                    assert(rest[i - 1] == list[i]);
                }
            }
        }
    }
}

/// A trust profile is sound exactly where its keys and its root are absolute paths and every identity
/// has an issuer and a subject.
pub proof fn sound_trust_is_absolute(platform: Platform, profile: PluginTrustProfile)
    ensures
        sound_trust(platform, profile) <==> {
            &&& forall|i: int|
                0 <= i < profile.public_keys@.len() ==> absolute(platform, (#[trigger] profile.public_keys@[i])@)
            &&& profile.trust_root_path matches Some(path) ==> absolute(platform, path@)
            &&& forall|i: int|
                0 <= i < profile.identities@.len() ==> (#[trigger] profile.identities@[i]).issuer@.len() > 0
                    && profile.identities@[i].subject@.len() > 0
        },
{
}

/// A registry is accepted exactly where it has a name, an exact origin and an existing trust profile,
/// permits exact origins alone, keeps its certificates at absolute paths keyed by origins that it
/// permits, and finds its Docker files at absolute paths.
pub proof fn sound_registries_are_exact(
    platform: Platform,
    name: Seq<char>,
    registry: PluginRegistryProfile,
    trust: Seq<Entry<PluginTrustProfile>>,
    origins: Seq<OriginFinding>,
)
    ensures
        registry_verdict(platform, name, registry, trust, origins) is Accept <==> {
            &&& is_name(name)
            &&& registry.trust_profile@.len() > 0 && has_key(trust, registry.trust_profile@)
            &&& is_canonical(origins, registry.origin@)
            &&& forall|i: int|
                0 <= i < registry.token_origins@.len() ==> is_canonical(
                    origins,
                    (#[trigger] registry.token_origins@[i])@,
                )
            &&& forall|i: int|
                0 <= i < registry.blob_redirect_origins@.len() ==> is_canonical(
                    origins,
                    (#[trigger] registry.blob_redirect_origins@[i])@,
                )
            &&& registry.ca_bundle_path matches Some(path) ==> absolute(platform, path@)
            &&& forall|i: int|
                0 <= i < registry.token_ca_bundle_paths@.len() ==> {
                    let bundle = #[trigger] registry.token_ca_bundle_paths@[i];
                    absolute(platform, bundle.value@) && is_canonical(origins, bundle.key@) && views(
                        registry.token_origins@,
                    ).contains(bundle.key@)
                }
            &&& forall|i: int|
                0 <= i < registry.blob_redirect_ca_bundle_paths@.len() ==> {
                    let bundle = #[trigger] registry.blob_redirect_ca_bundle_paths@[i];
                    absolute(platform, bundle.value@) && is_canonical(origins, bundle.key@) && views(
                        registry.blob_redirect_origins@,
                    ).contains(bundle.key@)
                }
            &&& registry.auth matches RegistryAuthConfig::Docker { config_path, helper_executables } ==> {
                &&& config_path matches Some(path) ==> absolute(platform, path@)
                &&& forall|i: int|
                    0 <= i < helper_executables@.len() ==> absolute(
                        platform,
                        (#[trigger] helper_executables@[i]).value@,
                    )
            }
        },
{
}

/// A server is accepted exactly where it is named by plugin and server, lists its tools where it is
/// enabled, and sets variables that are names and not the plugin's own.
pub proof fn sound_servers_list_their_tools(id: Seq<char>, server: PluginMcpServerConfig)
    ensures
        server_verdict(id, server) is Accept <==> {
            &&& pieces(id, '/').len() == 2 && is_name(pieces(id, '/')[0]) && is_name(pieces(id, '/')[1])
            &&& server.enabled ==> server.allowed_tools@.len() > 0
            &&& forall|i: int|
                0 <= i < server.environment@.len() ==> is_environment_name((#[trigger] server.environment@[i]).key@)
                    && server.environment@[i].key@ != "PLUGIN_ROOT"@ && server.environment@[i].key@ != "PLUGIN_DATA"@
        },
{
}

/// Two names with a slash between them name a server of a plugin.
pub proof fn plugin_and_server_are_an_identity(plugin: Seq<char>, server: Seq<char>)
    requires
        is_name(plugin),
        is_name(server),
    ensures
        qualified_identity(plugin + "/"@ + server),
{
    reveal_strlit("/");
    let id = plugin + "/"@ + server;
    plain_pieces(plugin);
    let front = plugin + "/"@;
    assert(front.drop_last() == plugin);
    assert(front.last() == '/');
    assert(pieces(front, '/') == pieces(plugin, '/').push(Seq::<char>::empty()));
    pieces_grow(front, server);
    assert(pieces(id, '/') == seq![plugin, Seq::<char>::empty() + server]);
    assert(Seq::<char>::empty() + server == server);
}

proof fn plain_pieces(name: Seq<char>)
    requires
        forall|i: int| 0 <= i < name.len() ==> name_char(#[trigger] name[i]),
    ensures
        pieces(name, '/') == seq![name],
    decreases name.len(),
{
    if name.len() > 0 {
        plain_pieces(name.drop_last());
        assert(name_char(name[name.len() - 1]));
        assert(name.drop_last().push(name.last()) == name);
        assert(seq![name.drop_last()].drop_last().push(name) == seq![name]);
    } else {
        assert(name == Seq::<char>::empty());
    }
}

proof fn pieces_grow(front: Seq<char>, name: Seq<char>)
    requires
        forall|i: int| 0 <= i < name.len() ==> name_char(#[trigger] name[i]),
    ensures
        pieces(front, '/').len() > 0,
        pieces(front + name, '/') == pieces(front, '/').drop_last().push(pieces(front, '/').last() + name),
    decreases name.len(),
{
    pieces_join_to_the_text(front, '/');
    let list = pieces(front, '/');
    if name.len() == 0 {
        assert(front + name == front);
        assert(list.last() + name == list.last());
        assert(list.drop_last().push(list.last()) == list);
    } else {
        let whole = front + name;
        assert(whole.drop_last() == front + name.drop_last());
        assert(whole.last() == name.last());
        pieces_grow(front, name.drop_last());
        assert(name_char(name[name.len() - 1]));
        let before = pieces(whole.drop_last(), '/');
        assert(before.drop_last() == list.drop_last());
        assert((list.last() + name.drop_last()).push(name.last()) == list.last() + name);
    }
}

/// Profiles of trust are named, and there is one at least.
pub proof fn trust_is_named(list: Seq<Entry<PluginTrustProfile>>, profile: Entry<PluginTrustProfile>)
    ensures
        !named_trust(Seq::<Entry<PluginTrustProfile>>::empty()),
        named_trust(seq![profile]) <==> is_name(profile.key@),
        named_trust(list) ==> (named_trust(list.push(profile)) <==> is_name(profile.key@)),
{
    let longer = list.push(profile);
    assert(seq![profile][0] == profile);
    assert(longer[list.len() as int] == profile);
    assert forall|i: int| 0 <= i < list.len() implies longer[i] == #[trigger] list[i] by {}
}

} // verus!
