//! Profiles of outside services, as the configuration asks their adapters for them.

use crate::config::{
    authority, configured_resource_authority, ProviderKind, ProviderProfileConfig, ResourceAuthority, RuntimeConfig,
    SearchProfileConfig,
};
use crate::entries::Entry;
use crate::text::{clone_optional, optional_view};
use vstd::prelude::*;
use vstd::string::*;

verus! {

/// The kinds of search services.
#[derive(Clone, Copy, Debug, PartialEq, Eq, Structural)]
pub enum SearchKind {
    Searxng,
    SerpApi,
}

/// A search profile that an adapter is asked for.
#[derive(Debug)]
pub struct SearchRequestProfile {
    pub name: String,
    pub kind: SearchKind,
    pub endpoint: String,
    pub credential_reference: Option<String>,
    pub auth_header: Option<String>,
    pub user_agent: String,
    pub timeout_ms: u64,
    pub authority: ResourceAuthority,
}

/// The profile is the configured one: SerpAPI always has a credential and never a header for it.
pub open spec fn is_search_profile(
    profile: SearchRequestProfile,
    name: Seq<char>,
    config: SearchProfileConfig,
    authority: ResourceAuthority,
) -> bool {
    &&& profile.name@ == name
    &&& profile.authority == authority
    &&& match config {
        SearchProfileConfig::Searxng { endpoint, credential_reference, auth_header, user_agent, timeout_ms } => {
            &&& profile.kind == SearchKind::Searxng
            &&& profile.endpoint@ == endpoint@
            &&& optional_view(profile.credential_reference) == optional_view(credential_reference)
            &&& optional_view(profile.auth_header) == Some(auth_header@)
            &&& profile.user_agent@ == user_agent@
            &&& profile.timeout_ms == timeout_ms
        },
        SearchProfileConfig::SerpApi { endpoint, credential_reference, user_agent, timeout_ms } => {
            &&& profile.kind == SearchKind::SerpApi
            &&& profile.endpoint@ == endpoint@
            &&& optional_view(profile.credential_reference) == Some(credential_reference@)
            &&& profile.auth_header is None
            &&& profile.user_agent@ == user_agent@
            &&& profile.timeout_ms == timeout_ms
        },
    }
}

/// The search profile that an adapter is asked for.
pub fn configured_search_profile_with_authority(
    name: &str,
    config: &SearchProfileConfig,
    resource_authority: ResourceAuthority,
) -> (profile: SearchRequestProfile)
    ensures
        is_search_profile(profile, name@, *config, resource_authority),
{
    match config {
        SearchProfileConfig::Searxng { endpoint, credential_reference, auth_header, user_agent, timeout_ms } => {
            SearchRequestProfile {
                name: name.to_owned(),
                kind: SearchKind::Searxng,
                endpoint: endpoint.clone(),
                credential_reference: clone_optional(credential_reference),
                auth_header: Some(auth_header.clone()),
                user_agent: user_agent.clone(),
                timeout_ms: *timeout_ms,
                authority: resource_authority,
            }
        },
        SearchProfileConfig::SerpApi { endpoint, credential_reference, user_agent, timeout_ms } => {
            SearchRequestProfile {
                name: name.to_owned(),
                kind: SearchKind::SerpApi,
                endpoint: endpoint.clone(),
                credential_reference: Some(credential_reference.clone()),
                auth_header: None,
                user_agent: user_agent.clone(),
                timeout_ms: *timeout_ms,
                authority: resource_authority,
            }
        },
    }
}

/// The search profiles that adapters are asked for, in the configured order.
pub fn search_registry(config: &RuntimeConfig) -> (list: Vec<SearchRequestProfile>)
    ensures
        list@.len() == config.search.profiles@.len(),
        forall|i: int|
            0 <= i < list@.len() ==> is_search_profile(
                #[trigger] list@[i],
                config.search.profiles@[i].key@,
                config.search.profiles@[i].value,
                authority(config.sandbox),
            ),
{
    let resource_authority = configured_resource_authority(&config.sandbox);
    let profiles = &config.search.profiles;
    let mut list: Vec<SearchRequestProfile> = Vec::new();
    let mut i: usize = 0;
    while i < profiles.len()
        invariant
            i <= profiles@.len(),
            list@.len() == i,
            forall|j: int|
                0 <= j < i ==> is_search_profile(
                    #[trigger] list@[j],
                    profiles@[j].key@,
                    profiles@[j].value,
                    resource_authority,
                ),
        decreases profiles@.len() - i,
    {
        let profile = configured_search_profile_with_authority(
            profiles[i].key.as_str(),
            &profiles[i].value,
            resource_authority,
        );
        list.push(profile);
        i = i + 1;
    }
    list
}

/// A provider profile that an adapter is asked for.
#[derive(Debug)]
pub struct ProviderRequestProfile {
    pub name: String,
    /// The name of the kind of a provider in the network; none for the echo.
    pub network_kind: Option<String>,
    pub base_url: Option<String>,
    pub credential_reference: Option<String>,
    pub timeout_ms: u64,
    pub chat_completions_output_token_parameter: Option<String>,
    pub authority: ResourceAuthority,
}

/// The profile is the configured one, with the timeout that takes effect.
pub open spec fn is_provider_profile(
    profile: ProviderRequestProfile,
    name: Seq<char>,
    config: ProviderProfileConfig,
    authority: ResourceAuthority,
) -> bool {
    &&& profile.name@ == name
    &&& optional_view(profile.network_kind) == match config.kind {
        ProviderKind::Echo => None,
        ProviderKind::Network(kind) => Some(kind@),
    }
    &&& optional_view(profile.base_url) == optional_view(config.base_url)
    &&& optional_view(profile.credential_reference) == optional_view(config.credential_reference)
    &&& profile.timeout_ms == config.timeout_in_force()
    &&& optional_view(profile.chat_completions_output_token_parameter) == optional_view(
        config.chat_completions_output_token_parameter,
    )
    &&& profile.authority == authority
}

/// The provider profile that an adapter is asked for.
pub fn provider_profile_with_authority(
    name: &str,
    config: &ProviderProfileConfig,
    resource_authority: ResourceAuthority,
) -> (profile: ProviderRequestProfile)
    ensures
        is_provider_profile(profile, name@, *config, resource_authority),
{
    ProviderRequestProfile {
        name: name.to_owned(),
        network_kind: match &config.kind {
            ProviderKind::Echo => None,
            ProviderKind::Network(kind) => Some(kind.clone()),
        },
        base_url: clone_optional(&config.base_url),
        credential_reference: clone_optional(&config.credential_reference),
        timeout_ms: config.effective_timeout_ms(),
        chat_completions_output_token_parameter: clone_optional(&config.chat_completions_output_token_parameter),
        authority: resource_authority,
    }
}

/// The provider profiles that adapters are asked for, in the configured order.
pub fn provider_registry(providers: &Vec<Entry<ProviderProfileConfig>>, resource_authority: ResourceAuthority) -> (list:
    Vec<ProviderRequestProfile>)
    ensures
        list@.len() == providers@.len(),
        forall|i: int|
            0 <= i < list@.len() ==> is_provider_profile(
                #[trigger] list@[i],
                providers@[i].key@,
                providers@[i].value,
                resource_authority,
            ),
{
    let mut list: Vec<ProviderRequestProfile> = Vec::new();
    let mut i: usize = 0;
    while i < providers.len()
        invariant
            i <= providers@.len(),
            list@.len() == i,
            forall|j: int|
                0 <= j < i ==> is_provider_profile(
                    #[trigger] list@[j],
                    providers@[j].key@,
                    providers@[j].value,
                    resource_authority,
                ),
        decreases providers@.len() - i,
    {
        let profile = provider_profile_with_authority(
            providers[i].key.as_str(),
            &providers[i].value,
            resource_authority,
        );
        list.push(profile);
        i = i + 1;
    }
    list
}

/// A search profile is requested as it is configured: its endpoint, its credential, its agent and its
/// timeout; only SearXNG has a header of its own.
pub proof fn search_profiles_are_requested_as_configured(
    profile: SearchRequestProfile,
    name: Seq<char>,
    config: SearchProfileConfig,
    authority: ResourceAuthority,
)
    requires
        is_search_profile(profile, name, config, authority),
    ensures
        profile.name@ == name,
        profile.authority == authority,
        config matches SearchProfileConfig::Searxng {
            endpoint,
            credential_reference,
            auth_header,
            user_agent,
            timeout_ms,
        } ==> profile.kind is Searxng && profile.endpoint@ == endpoint@ && optional_view(profile.credential_reference)
            == optional_view(credential_reference) && optional_view(profile.auth_header) == Some(auth_header@)
            && profile.user_agent@ == user_agent@ && profile.timeout_ms == timeout_ms,
        config matches SearchProfileConfig::SerpApi { endpoint, credential_reference, user_agent, timeout_ms }
            ==> profile.kind is SerpApi && profile.endpoint@ == endpoint@ && optional_view(
            profile.credential_reference,
        ) == Some(credential_reference@) && profile.auth_header is None && profile.user_agent@ == user_agent@
            && profile.timeout_ms == timeout_ms,
{
}

/// A provider is requested as it is configured, and waits as long as its timeout says; the echo reaches
/// no network.
pub proof fn provider_profiles_are_requested_as_configured(
    profile: ProviderRequestProfile,
    name: Seq<char>,
    config: ProviderProfileConfig,
    authority: ResourceAuthority,
)
    requires
        is_provider_profile(profile, name, config, authority),
    ensures
        profile.name@ == name,
        profile.authority == authority,
        profile.network_kind is None <==> config.kind is Echo,
        config.kind matches ProviderKind::Network(kind) ==> optional_view(profile.network_kind) == Some(kind@),
        optional_view(profile.base_url) == optional_view(config.base_url),
        optional_view(profile.credential_reference) == optional_view(config.credential_reference),
        optional_view(profile.chat_completions_output_token_parameter) == optional_view(
            config.chat_completions_output_token_parameter,
        ),
        profile.timeout_ms == config.timeout_in_force(),
        config.timeout_ms matches Some(written) ==> profile.timeout_ms == written,
{
}

} // verus!
