//! Where the state of a runtime lies, and how it is protected.

use crate::config::{
    AccessConfig, AgentConfig, AuditConfig, BundlesConfig, KeyConfig, McpConfig, MemoryConfig, ModelsConfig,
    NetworkConfig, Platform, PluginTrustProfile, PluginsConfig, PolicyConfig, ProvidersConfig, ResearchConfig,
    RuntimeConfig, SandboxConfig, SearchConfig, SemanticMemoryConfig, StartupVerificationMode, StorageAdapter,
    StorageConfig, StorageLocation, SubagentConfig, WorkflowLibraryConfig,
};
use crate::documents::{
    block_text, blocks_document, blocks_json, blocks_text, limit_views, plain_blocks, plain_word, reads_as, LimitBlock,
};
use crate::error::{answers, config_error, is_config_error, RuntimeError, Verdict};
use crate::identifiers::fresh_identifier;
use crate::ordered::{precedes, precedes_at};
use crate::paths::{
    absolute, confined, confined_relative_storage_path, extended, is_absolute, join_path, joined_path, with_extension,
};
use crate::text::{characters, concat2, decimal};
use crate::validation::{both, storage_verdict, validate_storage_config};
use vstd::prelude::*;
use vstd::string::*;

verus! {

/// What the host answered for each path that it was asked to prepare below the private root.
#[derive(Debug)]
pub struct PreparedPaths {
    /// The private root, as bound.
    pub root: Result<String, String>,
    /// The state file.
    pub state: Result<String, String>,
    /// The anchor file.
    pub anchor: Result<String, String>,
    /// The memory index directory.
    pub index: Result<String, String>,
    /// The Chroma position file.
    pub position: Result<String, String>,
}

/// The relative paths that the host prepares below the private root.
#[derive(Debug)]
pub struct PathRequests {
    /// The state file.
    pub state: Option<String>,
    /// The anchor file.
    pub anchor: Option<String>,
    /// The memory index directory.
    pub index: Option<String>,
    /// The Chroma position file.
    pub position: Option<String>,
}

/// The state has a place of its own in memory or below the private root.
pub open spec fn index_wanted(config: RuntimeConfig) -> bool {
    config.memory.index_enabled && (config.storage.adapter != StorageAdapter::Ephemeral
        || config.memory.index_path is Some)
}

/// The memory index below the private root: the one set, else beside the state file.
pub open spec fn relative_index(platform: Platform, config: RuntimeConfig) -> Seq<char> {
    match config.memory.index_path {
        Some(path) => path@,
        None => extended(platform, config.storage.path@, "memory-index"@),
    }
}

/// The Chroma position file below the private root: the one set, else beside the state file.
pub open spec fn relative_position(platform: Platform, config: RuntimeConfig, position: Option<String>) -> Seq<char> {
    match position {
        Some(path) => path@,
        None => extended(platform, config.storage.path@, "chroma-position.json"@),
    }
}

/// The characters of an optional path.
pub open spec fn path_view(path: Option<String>) -> Option<Seq<char>> {
    match path {
        Some(value) => Some(value@),
        None => None,
    }
}

/// The paths to prepare for a configuration whose state lies below the private root.
pub fn path_requests(platform: Platform, config: &RuntimeConfig) -> (requests: PathRequests)
    ensures
        path_view(requests.state) == if config.storage.adapter == StorageAdapter::Ephemeral {
            None::<Seq<char>>
        } else {
            Some(config.storage.path@)
        },
        path_view(requests.anchor) == match config.storage.keys {
            KeyConfig::Environment { anchor_path, .. } => Some(anchor_path@),
            _ => None,
        },
        path_view(requests.index) == if index_wanted(*config) {
            Some(relative_index(platform, *config))
        } else {
            None
        },
        path_view(requests.position) == match config.memory.semantic {
            SemanticMemoryConfig::Chroma { position_path, .. } => Some(relative_position(
                platform,
                *config,
                position_path,
            )),
            SemanticMemoryConfig::Disabled => None,
        },
{
    let state = if config.storage.adapter == StorageAdapter::Ephemeral {
        None
    } else {
        Some(config.storage.path.clone())
    };
    let anchor = match &config.storage.keys {
        KeyConfig::Environment { anchor_path, .. } => Some(anchor_path.clone()),
        _ => None,
    };
    let index = if config.memory.index_enabled && (config.storage.adapter != StorageAdapter::Ephemeral
        || config.memory.index_path.is_some()) {
        Some(
            match &config.memory.index_path {
                Some(path) => path.clone(),
                None => with_extension(platform, config.storage.path.as_str(), "memory-index"),
            },
        )
    } else {
        None
    };
    let position = match &config.memory.semantic {
        SemanticMemoryConfig::Chroma { position_path, .. } => Some(
            match position_path {
                Some(path) => path.clone(),
                None => with_extension(platform, config.storage.path.as_str(), "chroma-position.json"),
            },
        ),
        SemanticMemoryConfig::Disabled => None,
    };
    PathRequests { state, anchor, index, position }
}

/// A failure where the host refused a path.
pub open spec fn refused(prepared: Result<String, String>, before: Seq<char>) -> Verdict {
    match prepared {
        Ok(_) => Verdict::Accept,
        Err(text) => Verdict::Reject(before + text@),
    }
}

fn require_prepared(prepared: &Result<String, String>, before: &str) -> (result: Result<(), RuntimeError>)
    ensures
        answers(result, refused(*prepared, before@)),
{
    match prepared {
        Ok(_) => Ok(()),
        Err(text) => Err(RuntimeError::Config(concat2(before, text.as_str()))),
    }
}

/// A failure where the condition holds.
pub open spec fn fails_if(condition: bool, text: Seq<char>) -> Verdict {
    if condition {
        Verdict::Reject(text)
    } else {
        Verdict::Accept
    }
}

/// The verdict on resolving state below the private root, in the order in which it is prepared.
pub open spec fn home_verdict(
    platform: Platform,
    config: RuntimeConfig,
    home_workspace: Seq<char>,
    host: PreparedPaths,
) -> Verdict {
    both(
        fails_if(
            !absolute(platform, home_workspace) || !confined(platform, config.storage.path@),
            "home-workspace storage requires an absolute private root and a confined relative storage.path"@,
        ),
        both(
            refused(host.root, "home-workspace storage root is unsafe: "@),
            both(
                if config.storage.adapter == StorageAdapter::Ephemeral {
                    Verdict::Accept
                } else {
                    refused(host.state, "home-workspace storage.path is unsafe: "@)
                },
                both(
                    anchor_verdict(platform, config, host),
                    both(index_verdict(platform, config, host), position_verdict(platform, config, host)),
                ),
            ),
        ),
    )
}

/// The verdict on the anchor of environment keys.
pub open spec fn anchor_verdict(platform: Platform, config: RuntimeConfig, host: PreparedPaths) -> Verdict {
    match config.storage.keys {
        KeyConfig::Environment { anchor_path, .. } => both(
            fails_if(
                !confined(platform, anchor_path@),
                "storage.keys.anchorPath must be confined when storage.location is home_workspace"@,
            ),
            refused(host.anchor, "home-workspace storage.keys.anchorPath is unsafe: "@),
        ),
        _ => Verdict::Accept,
    }
}

/// The verdict on the memory index.
pub open spec fn index_verdict(platform: Platform, config: RuntimeConfig, host: PreparedPaths) -> Verdict {
    if index_wanted(config) {
        both(
            fails_if(
                config.memory.index_path matches Some(path) && !confined(platform, path@),
                "memory.indexPath must be confined when storage.location is home_workspace"@,
            ),
            refused(host.index, "home-workspace memory index path is unsafe: "@),
        )
    } else {
        Verdict::Accept
    }
}

/// The verdict on the Chroma position file.
pub open spec fn position_verdict(platform: Platform, config: RuntimeConfig, host: PreparedPaths) -> Verdict {
    match config.memory.semantic {
        SemanticMemoryConfig::Chroma { position_path, .. } => both(
            fails_if(
                position_path matches Some(path) && !confined(platform, path@),
                "memory.semantic.positionPath must be confined when storage.location is home_workspace"@,
            ),
            refused(host.position, "home-workspace Chroma position path is unsafe: "@),
        ),
        SemanticMemoryConfig::Disabled => Verdict::Accept,
    }
}

fn check_anchor(platform: Platform, config: &RuntimeConfig, host: &PreparedPaths) -> (result: Result<(), RuntimeError>)
    ensures
        answers(result, anchor_verdict(platform, *config, *host)),
{
    match &config.storage.keys {
        KeyConfig::Environment { anchor_path, .. } => {
            if !confined_relative_storage_path(platform, anchor_path.as_str()) {
                return config_error(
                    "storage.keys.anchorPath must be confined when storage.location is home_workspace",
                );
            }
            require_prepared(&host.anchor, "home-workspace storage.keys.anchorPath is unsafe: ")
        },
        _ => Ok(()),
    }
}

fn check_index(platform: Platform, config: &RuntimeConfig, host: &PreparedPaths) -> (result: Result<(), RuntimeError>)
    ensures
        answers(result, index_verdict(platform, *config, *host)),
{
    if config.memory.index_enabled && (config.storage.adapter != StorageAdapter::Ephemeral
        || config.memory.index_path.is_some()) {
        if let Some(path) = &config.memory.index_path {
            if !confined_relative_storage_path(platform, path.as_str()) {
                return config_error(
                    "memory.indexPath must be confined when storage.location is home_workspace",
                );
            }
        }
        require_prepared(&host.index, "home-workspace memory index path is unsafe: ")
    } else {
        Ok(())
    }
}

fn check_position(
    platform: Platform,
    config: &RuntimeConfig,
    host: &PreparedPaths,
) -> (result: Result<(), RuntimeError>)
    ensures
        answers(result, position_verdict(platform, *config, *host)),
{
    match &config.memory.semantic {
        SemanticMemoryConfig::Chroma { position_path, .. } => {
            if let Some(path) = position_path {
                if !confined_relative_storage_path(platform, path.as_str()) {
                    return config_error(
                        "memory.semantic.positionPath must be confined when storage.location is home_workspace",
                    );
                }
            }
            require_prepared(&host.position, "home-workspace Chroma position path is unsafe: ")
        },
        SemanticMemoryConfig::Disabled => Ok(()),
    }
}

fn check_home(
    platform: Platform,
    config: &RuntimeConfig,
    home_workspace: &str,
    host: &PreparedPaths,
) -> (result: Result<
    (),
    RuntimeError,
>)
    ensures
        answers(result, home_verdict(platform, *config, home_workspace@, *host)),
{
    if !is_absolute(
        platform,
        home_workspace,
    ) || !confined_relative_storage_path(platform, config.storage.path.as_str()) {
        return config_error(
            "home-workspace storage requires an absolute private root and a confined relative storage.path",
        );
    }
    require_prepared(&host.root, "home-workspace storage root is unsafe: ")?;
    if config.storage.adapter != StorageAdapter::Ephemeral {
        require_prepared(&host.state, "home-workspace storage.path is unsafe: ")?;
    }
    check_anchor(platform, config, host)?;
    check_index(platform, config, host)?;
    check_position(platform, config, host)
}

/// The verdict on resolving the storage paths of a configuration.
pub open spec fn resolution_verdict(
    platform: Platform,
    config: RuntimeConfig,
    home_workspace: Seq<char>,
    host: PreparedPaths,
    postgres: Result<(), String>,
) -> Verdict {
    both(
        storage_verdict(config.storage, postgres),
        match config.storage.location {
            StorageLocation::Workspace => Verdict::Accept,
            StorageLocation::HomeWorkspace => home_verdict(platform, config, home_workspace, host),
        },
    )
}

/// Everything but storage and memory is the same.
pub open spec fn same_outside_storage(a: RuntimeConfig, b: RuntimeConfig) -> bool {
    &&& a.schema_version == b.schema_version
    &&& a.access == b.access
    &&& a.network == b.network
    &&& a.audit == b.audit
    &&& a.policy == b.policy
    &&& a.workflows == b.workflows
    &&& a.providers == b.providers
    &&& a.models == b.models
    &&& a.agent == b.agent
    &&& a.subagents == b.subagents
    &&& a.research == b.research
    &&& a.search == b.search
    &&& a.mcp == b.mcp
    &&& a.plugins == b.plugins
    &&& a.bundles == b.bundles
    &&& a.sandbox == b.sandbox
}

/// The storage settings that resolving does not touch.
pub open spec fn same_adapter(a: StorageConfig, b: StorageConfig) -> bool {
    a.adapter == b.adapter && a.startup_verification == b.startup_verification && a.postgres == b.postgres
}

/// `resolved` is `config` with its storage paths resolved below the private root.
pub open spec fn resolved_at_home(
    platform: Platform,
    config: RuntimeConfig,
    resolved: RuntimeConfig,
    host: PreparedPaths,
) -> bool {
    &&& same_outside_storage(config, resolved)
    &&& same_adapter(config.storage, resolved.storage)
    &&& resolved.storage.location == StorageLocation::Workspace
    &&& resolved.storage.path@ == if config.storage.adapter == StorageAdapter::Ephemeral {
        joined_path(platform, host.root->Ok_0@, config.storage.path@)
    } else {
        host.state->Ok_0@
    }
    &&& resolved.storage.resolved_home_workspace == Some(host.root->Ok_0)
    &&& resolved.storage.keys == match config.storage.keys {
        KeyConfig::Environment { journal_variable, journal_key_id, signing_variable, .. } => KeyConfig::Environment {
            journal_variable,
            journal_key_id,
            signing_variable,
            anchor_path: host.anchor->Ok_0,
        },
        other => other,
    }
    &&& resolved.memory.index_enabled == config.memory.index_enabled
    &&& resolved.memory.retrieval_limit == config.memory.retrieval_limit
    &&& resolved.memory.index_path == if index_wanted(config) {
        Some(host.index->Ok_0)
    } else {
        config.memory.index_path
    }
    &&& resolved.memory.semantic == match config.memory.semantic {
        SemanticMemoryConfig::Disabled => SemanticMemoryConfig::Disabled,
        SemanticMemoryConfig::Chroma {
            base_url,
            tenant,
            database,
            collection,
            credential_reference,
            timeout_ms,
            embedding,
            ..
        } => SemanticMemoryConfig::Chroma {
            base_url,
            tenant,
            database,
            collection,
            credential_reference,
            timeout_ms,
            position_path: Some(host.position->Ok_0),
            embedding,
        },
    }
}

/// `resolved` is `config` with its state path seen from the workspace.
pub open spec fn resolved_in_workspace(
    platform: Platform,
    config: RuntimeConfig,
    resolved: RuntimeConfig,
    workspace: Seq<char>,
) -> bool {
    &&& same_outside_storage(config, resolved)
    &&& same_adapter(config.storage, resolved.storage)
    &&& resolved.memory == config.memory
    &&& resolved.storage.keys == config.storage.keys
    &&& resolved.storage.location == StorageLocation::Workspace
    &&& resolved.storage.path@ == joined_path(platform, workspace, config.storage.path@)
    &&& resolved.storage.resolved_home_workspace is None
}

fn prepared_path(prepared: &Result<String, String>) -> (path: String)
    requires
        prepared is Ok,
    ensures
        path == prepared->Ok_0,
{
    match prepared {
        Ok(path) => path.clone(),
        Err(_) => String::new(),
    }
}

impl RuntimeConfig {
    /// Resolves the storage paths for one workspace. A state of the private root is confined to it,
    /// and so is everything kept beside it; all other settings stay as they are.
    pub fn resolve_storage_paths(
        self,
        platform: Platform,
        workspace: &str,
        home_workspace: &str,
        host: &PreparedPaths,
        postgres: &Result<(), String>,
    ) -> (result: Result<RuntimeConfig, RuntimeError>)
        ensures
            match resolution_verdict(platform, self, home_workspace@, *host, *postgres) {
                Verdict::Accept => result matches Ok(resolved) && match self.storage.location {
                    StorageLocation::Workspace => resolved_in_workspace(platform, self, resolved, workspace@),
                    StorageLocation::HomeWorkspace => resolved_at_home(platform, self, resolved, *host),
                },
                Verdict::Reject(text) => is_config_error(result, text),
                Verdict::Forward(error) => result == Err::<RuntimeConfig, RuntimeError>(error),
            },
    {
        validate_storage_config(&self.storage, postgres)?;
        let mut resolved = self;
        match resolved.storage.location {
            StorageLocation::Workspace => {
                resolved.storage.path = join_path(platform, workspace, resolved.storage.path.as_str());
                resolved.storage.resolved_home_workspace = None;
                Ok(resolved)
            },
            StorageLocation::HomeWorkspace => {
                check_home(platform, &resolved, home_workspace, host)?;
                let wanted: bool = resolved.memory.index_enabled && (resolved.storage.adapter
                    != StorageAdapter::Ephemeral || resolved.memory.index_path.is_some());
                let root = prepared_path(&host.root);
                resolved.storage.path = if resolved.storage.adapter == StorageAdapter::Ephemeral {
                    join_path(platform, root.as_str(), resolved.storage.path.as_str())
                } else {
                    prepared_path(&host.state)
                };
                resolved.storage.keys = match resolved.storage.keys {
                    KeyConfig::Environment { journal_variable, journal_key_id, signing_variable, .. } => {
                        KeyConfig::Environment {
                            journal_variable,
                            journal_key_id,
                            signing_variable,
                            anchor_path: prepared_path(&host.anchor),
                        }
                    },
                    other => other,
                };
                if wanted {
                    resolved.memory.index_path = Some(prepared_path(&host.index));
                }
                resolved.memory.semantic = match resolved.memory.semantic {
                    SemanticMemoryConfig::Chroma {
                        base_url,
                        tenant,
                        database,
                        collection,
                        credential_reference,
                        timeout_ms,
                        embedding,
                        ..
                    } => SemanticMemoryConfig::Chroma {
                        base_url,
                        tenant,
                        database,
                        collection,
                        credential_reference,
                        timeout_ms,
                        position_path: Some(prepared_path(&host.position)),
                        embedding,
                    },
                    SemanticMemoryConfig::Disabled => SemanticMemoryConfig::Disabled,
                };
                resolved.storage.resolved_home_workspace = Some(root);
                resolved.storage.location = StorageLocation::Workspace;
                Ok(resolved)
            },
        }
    }

    /// Whether this configuration retains a private root attached by a trusted host.
    pub fn has_resolved_home_workspace(&self) -> (yes: bool)
        ensures
            yes == (self.storage.resolved_home_workspace is Some),
    {
        self.storage.resolved_home_workspace.is_some()
    }
}

/// What the private root answered for the state path.
#[derive(Debug)]
pub struct HomeCheck {
    /// That the path lies below the root.
    pub identity: Result<(), String>,
    /// That the root is still the bound one.
    pub root: Result<(), String>,
    /// That the state file is still the prepared one.
    pub file: Result<(), String>,
}

/// A failure where the private root refused.
pub open spec fn check_verdict(result: Result<(), String>, before: Seq<char>) -> Verdict {
    match result {
        Ok(_) => Verdict::Accept,
        Err(text) => Verdict::Reject(before + text@),
    }
}

fn require_check(result: &Result<(), String>, before: &str) -> (answer: Result<(), RuntimeError>)
    ensures
        answers(answer, check_verdict(*result, before@)),
{
    match result {
        Ok(_) => Ok(()),
        Err(text) => Err(RuntimeError::Config(concat2(before, text.as_str()))),
    }
}

/// The verdict on the state path at runtime composition.
pub open spec fn state_path_verdict(storage: StorageConfig, home: HomeCheck) -> Verdict {
    both(
        fails_if(
            storage.location == StorageLocation::HomeWorkspace,
            "storage.location home_workspace must be resolved by a trusted host before runtime composition"@,
        ),
        if storage.resolved_home_workspace is None {
            Verdict::Accept
        } else if storage.adapter == StorageAdapter::Ephemeral {
            both(
                check_verdict(home.identity, "home-workspace state identity is unsafe: "@),
                check_verdict(home.root, "home-workspace root is unsafe: "@),
            )
        } else {
            check_verdict(home.file, "home-workspace state path is unsafe: "@)
        },
    )
}

/// `result` is `value` where the verdict accepts, and the verdict's failure otherwise.
pub open spec fn gives_path(result: Result<String, RuntimeError>, verdict: Verdict, value: Seq<char>) -> bool {
    match verdict {
        Verdict::Accept => result matches Ok(path) && path@ == value,
        Verdict::Reject(text) => is_config_error(result, text),
        Verdict::Forward(error) => result == Err::<String, RuntimeError>(error),
    }
}

impl RuntimeConfig {
    /// The state path for runtime composition, seen from the workspace and checked against a
    /// retained private root.
    pub fn resolved_storage_path_at(
        &self,
        platform: Platform,
        workspace: &str,
        home: &HomeCheck,
    ) -> (result: Result<String, RuntimeError>)
        ensures
            gives_path(
                result,
                state_path_verdict(self.storage, *home),
                joined_path(platform, workspace@, self.storage.path@),
            ),
    {
        if self.storage.location == StorageLocation::HomeWorkspace {
            return config_error(
                "storage.location home_workspace must be resolved by a trusted host before runtime composition",
            );
        }
        if self.storage.resolved_home_workspace.is_some() {
            if self.storage.adapter == StorageAdapter::Ephemeral {
                require_check(&home.identity, "home-workspace state identity is unsafe: ")?;
                require_check(&home.root, "home-workspace root is unsafe: ")?;
            } else {
                require_check(&home.file, "home-workspace state path is unsafe: ")?;
            }
        }
        Ok(join_path(platform, workspace, self.storage.path.as_str()))
    }

    /// The file with the secret of the local worker: the state path followed by `.worker-auth`;
    /// `derived` is what the private root answered for it.
    pub fn worker_ipc_auth_path_at(
        &self,
        platform: Platform,
        workspace: &str,
        home: &HomeCheck,
        derived: &Result<(), String>,
    ) -> (result:
        Result<String, RuntimeError>)
        ensures
            gives_path(
                result,
                both(
                    state_path_verdict(self.storage, *home),
                    if self.storage.resolved_home_workspace is None {
                        Verdict::Accept
                    } else {
                        check_verdict(*derived, "home-workspace derived file is unsafe: "@)
                    },
                ),
                joined_path(platform, workspace@, self.storage.path@) + ".worker-auth"@,
            ),
    {
        let state = match self.resolved_storage_path_at(platform, workspace, home) {
            Err(error) => {
                return Err(error);
            },
            Ok(path) => path,
        };
        self.revalidate_resolved_home_file(derived)?;
        Ok(concat2(state.as_str(), ".worker-auth"))
    }

    /// Hands on what the private root answered for a derived file, where there is such a root.
    pub fn revalidate_resolved_home_file(&self, derived: &Result<(), String>) -> (result: Result<(), RuntimeError>)
        ensures
            answers(
                result,
                if self.storage.resolved_home_workspace is None {
                    Verdict::Accept
                } else {
                    check_verdict(*derived, "home-workspace derived file is unsafe: "@)
                },
            ),
    {
        if self.storage.resolved_home_workspace.is_some() {
            require_check(derived, "home-workspace derived file is unsafe: ")
        } else {
            Ok(())
        }
    }

    /// Hands on what the private root answered for a derived directory, where there is such a root.
    pub fn revalidate_resolved_home_directory(&self, derived: &Result<(), String>) -> (result: Result<
        (),
        RuntimeError,
    >)
        ensures
            answers(
                result,
                if self.storage.resolved_home_workspace is None {
                    Verdict::Accept
                } else {
                    check_verdict(*derived, "home-workspace derived directory is unsafe: "@)
                },
            ),
    {
        if self.storage.resolved_home_workspace.is_some() {
            require_check(derived, "home-workspace derived directory is unsafe: ")
        } else {
            Ok(())
        }
    }
}

/// Protection by the operating system under one instance identity.
pub open spec fn platform_keys_for(keys: KeyConfig, instance: Seq<char>) -> bool {
    keys matches KeyConfig::Platform { service, journal_key_id, signing_key_id } && service@
        == "dev.colossus.runtime"@ && journal_key_id@ == "journal-"@ + instance && signing_key_id@
        == "checkpoint-"@ + instance
}

/// Protection by environment variables under one instance identity.
pub open spec fn environment_keys_for(keys: KeyConfig, instance: Seq<char>, anchor: String) -> bool {
    keys matches KeyConfig::Environment { journal_variable, journal_key_id, signing_variable, anchor_path }
        && journal_variable@ == "COLOSSUS_JOURNAL_KEY"@ && journal_key_id@ == "journal-"@ + instance
        && signing_variable@ == "COLOSSUS_SIGNING_KEY"@ && anchor_path == anchor
}

/// Protection by the operating system under the instance identity.
pub fn platform_keys(instance: &str) -> (keys: KeyConfig)
    ensures
        platform_keys_for(keys, instance@),
{
    KeyConfig::Platform {
        service: "dev.colossus.runtime".to_owned(),
        journal_key_id: concat2("journal-", instance),
        signing_key_id: concat2("checkpoint-", instance),
    }
}

/// Protection by environment variables under the instance identity.
pub fn environment_keys(instance: &str, anchor_path: String) -> (keys: KeyConfig)
    ensures
        environment_keys_for(keys, instance@, anchor_path),
{
    KeyConfig::Environment {
        journal_variable: "COLOSSUS_JOURNAL_KEY".to_owned(),
        journal_key_id: concat2("journal-", instance),
        signing_variable: "COLOSSUS_SIGNING_KEY".to_owned(),
        anchor_path,
    }
}

/// Storage in one local plaintext file.
pub open spec fn local_plaintext(storage: StorageConfig, path: String) -> bool {
    &&& storage.location == StorageLocation::Workspace
    &&& storage.path == path
    &&& storage.adapter == StorageAdapter::Redb
    &&& storage.startup_verification == StartupVerificationMode::Incremental
    &&& !storage.postgres
    &&& storage.keys is Plaintext
    &&& storage.resolved_home_workspace is None
}

/// Storage in one local plaintext file.
pub fn local_plaintext_storage(path: String) -> (storage: StorageConfig)
    ensures
        local_plaintext(storage, path),
{
    StorageConfig {
        location: StorageLocation::Workspace,
        path,
        adapter: StorageAdapter::Redb,
        startup_verification: StartupVerificationMode::Incremental,
        postgres: false,
        keys: KeyConfig::Plaintext,
        resolved_home_workspace: None,
    }
}

/// Defaults of the sections that other adapters define.
#[derive(Debug)]
pub struct ExternalDefaults {
    /// Access profile.
    pub access: AccessConfig,
    /// Agent limits.
    pub agent: AgentConfig,
    /// Default plugin trust.
    pub trust: PluginTrustProfile,
    /// MCP servers.
    pub mcp: McpConfig,
}

impl RuntimeConfig {
    /// Selects the access profile.
    pub fn set_access_profile(&mut self, profile: String)
        ensures
            final(self).access.profile == profile,
            same_outside_access(*old(self), *final(self)),
    {
        self.access.profile = profile;
    }

    /// Selects the sandbox profile.
    pub fn set_sandbox_profile(&mut self, profile: String)
        ensures
            final(self).sandbox == (SandboxConfig { profile, ..old(self).sandbox }),
            same_outside_sandbox(*old(self), *final(self)),
    {
        self.sandbox.profile = profile;
    }

    /// Selects the isolating sandbox preset of a platform under a profile.
    pub fn use_platform_isolating_sandbox(&mut self, profile: String, platform: Platform)
        ensures
            final(self).sandbox.backend@ == crate::config::isolating_backend(platform),
            !final(self).sandbox.acknowledge_danger_full_access,
            final(self).sandbox.profile == profile,
            final(self).sandbox.has_default_resources(),
            same_outside_sandbox(*old(self), *final(self)),
    {
        let mut sandbox = SandboxConfig::platform_isolating(platform);
        sandbox.profile = profile;
        self.sandbox = sandbox;
    }

    /// Selects plaintext journal storage.
    pub fn use_plaintext_storage(&mut self)
        ensures
            final(self).storage == (StorageConfig { keys: KeyConfig::Plaintext, ..old(self).storage }),
            same_outside_storage(*old(self), *final(self)),
            final(self).memory == old(self).memory,
    {
        self.storage.keys = KeyConfig::Plaintext;
    }

    /// Selects a fresh process-local plaintext journal.
    pub fn use_ephemeral_storage(&mut self)
        ensures
            final(self).storage == (StorageConfig {
                adapter: StorageAdapter::Ephemeral,
                postgres: false,
                keys: KeyConfig::Plaintext,
                ..old(self).storage
            }),
            same_outside_storage(*old(self), *final(self)),
            final(self).memory == old(self).memory,
    {
        self.storage.adapter = StorageAdapter::Ephemeral;
        self.storage.postgres = false;
        self.storage.keys = KeyConfig::Plaintext;
    }

    /// Selects protection by the operating system under a fresh instance identity.
    pub fn use_platform_storage(&mut self)
        ensures
            exists|instance: Seq<char>|
                instance.len() == 36 && #[trigger] platform_keys_for(final(self).storage.keys, instance),
            final(self).storage == (StorageConfig { keys: final(self).storage.keys, ..old(self).storage }),
            same_outside_storage(*old(self), *final(self)),
            final(self).memory == old(self).memory,
    {
        let instance = fresh_identifier();
        self.storage.keys = platform_keys(instance.as_str());
        proof {
            assert(platform_keys_for(self.storage.keys, instance@));
        }
    }

    /// Selects protection by environment variables under a fresh instance identity.
    pub fn use_environment_storage(&mut self, anchor_path: String)
        ensures
            exists|instance: Seq<char>|
                instance.len() == 36 && #[trigger] environment_keys_for(
                    final(self).storage.keys,
                    instance,
                    anchor_path,
                ),
            final(self).storage == (StorageConfig { keys: final(self).storage.keys, ..old(self).storage }),
            same_outside_storage(*old(self), *final(self)),
            final(self).memory == old(self).memory,
    {
        let instance = fresh_identifier();
        self.storage.keys = environment_keys(instance.as_str(), anchor_path);
        proof {
            assert(environment_keys_for(self.storage.keys, instance@, anchor_path));
        }
    }

    /// A safe offline configuration: local plaintext state, no network, the isolating sandbox.
    pub fn offline_template(state_path: String, platform: Platform, defaults: ExternalDefaults) -> (config: Self)
        ensures
            config.schema_version == 3,
            local_plaintext(config.storage, state_path),
            config.access == defaults.access,
            config.agent == defaults.agent,
            config.mcp == defaults.mcp,
            config.subagents.max_concurrent == 10,
            config.network.ca_bundle_path is None,
            config.audit.exporter is Disabled,
            config.policy == (PolicyConfig::BuiltIn { require_post_effect: false }),
            config.memory.semantic is Disabled,
            config.memory.index_enabled,
            config.memory.index_path is None,
            config.memory.retrieval_limit == 6,
            config.research == (ResearchConfig { max_sources: 20, max_workers: 4 }),
            config.search.profiles@.len() == 0,
            config.search.roles@.len() == 0,
            config.workflows.repository@ == ".colossus/workflows"@,
            config.workflows.user@ == "workflows"@,
            crate::config::offline_providers(config.providers),
            crate::config::offline_models(config.models),
            crate::config::unrestricted_plugins(config.plugins, defaults.trust),
            config.bundles.trusted_publishers@.len() == 0,
            config.sandbox.backend@ == crate::config::isolating_backend(platform),
            !config.sandbox.acknowledge_danger_full_access,
            config.sandbox.has_default_limits(),
    {
        RuntimeConfig {
            schema_version: 3,
            access: defaults.access,
            storage: local_plaintext_storage(state_path),
            network: NetworkConfig::default(),
            audit: AuditConfig::default(),
            policy: PolicyConfig::default(),
            workflows: WorkflowLibraryConfig::default(),
            providers: ProvidersConfig::default(),
            models: ModelsConfig::default(),
            agent: defaults.agent,
            subagents: SubagentConfig::default(),
            memory: MemoryConfig::default(),
            research: ResearchConfig::default(),
            search: SearchConfig::default(),
            mcp: defaults.mcp,
            plugins: PluginsConfig::with_default_trust(defaults.trust),
            bundles: BundlesConfig::default(),
            sandbox: SandboxConfig::platform_isolating(platform),
        }
    }

    /// Replaces the storage by an isolated local plaintext file and keeps every other setting.
    pub fn with_isolated_development_storage(self, state_path: String) -> (config: Self)
        ensures
            local_plaintext(config.storage, state_path),
            same_outside_storage(self, config),
            config.memory == self.memory,
    {
        let mut config = self;
        config.storage = local_plaintext_storage(state_path);
        config
    }
}

/// Everything but the access profile is the same.
pub open spec fn same_outside_access(a: RuntimeConfig, b: RuntimeConfig) -> bool {
    b == (RuntimeConfig { access: b.access, ..a })
}

/// Everything but the sandbox is the same.
pub open spec fn same_outside_sandbox(a: RuntimeConfig, b: RuntimeConfig) -> bool {
    b == (RuntimeConfig { sandbox: b.sandbox, ..a })
}

/// The runtime limits that a document states.
#[derive(Debug, Clone, Copy, PartialEq, Eq, Structural)]
pub struct StatedLimits {
    pub agent: Option<AgentConfig>,
    pub subagents: Option<SubagentConfig>,
}

/// The limits that a configuration's document states: those that do not hold their defaults.
pub open spec fn written_limits(config: RuntimeConfig, default_max_turns: u16) -> StatedLimits {
    StatedLimits {
        agent: if config.agent.max_turns == default_max_turns {
            None
        } else {
            Some(config.agent)
        },
        subagents: if config.subagents.max_concurrent == 10 {
            None
        } else {
            Some(config.subagents)
        },
    }
}

/// The limits that a configuration's document leaves out: those that hold their defaults.
pub open spec fn omitted_limits(config: RuntimeConfig, default_max_turns: u16) -> StatedLimits {
    StatedLimits {
        agent: if config.agent.max_turns == default_max_turns {
            Some(config.agent)
        } else {
            None
        },
        subagents: if config.subagents.max_concurrent == 10 {
            Some(config.subagents)
        } else {
            None
        },
    }
}

/// The blocks that state limits.
pub open spec fn limit_blocks(limits: StatedLimits) -> Seq<(Seq<char>, Seq<char>, u64)> {
    let agent = match limits.agent {
        Some(agent) => seq![("agent"@, "maxTurns"@, agent.max_turns as u64)],
        None => Seq::empty(),
    };
    match limits.subagents {
        Some(subagents) => agent.push(("subagents"@, "maxConcurrent"@, subagents.max_concurrent as u64)),
        None => agent,
    }
}

/// A document followed by further blocks, on lines of their own.
pub open spec fn followed_by(document: Seq<char>, blocks: Seq<char>) -> Seq<char> {
    if document.len() > 0 && document.last() == '\n' {
        document + blocks
    } else {
        document + "\n"@ + blocks
    }
}

/// A document with the blocks that state the limits it leaves out.
pub open spec fn resolved_document(document: Seq<char>, omitted: StatedLimits) -> Seq<char> {
    if omitted.agent is None && omitted.subagents is None {
        document
    } else {
        followed_by(document, blocks_text(limit_blocks(omitted)))
    }
}

/// Read as YAML, the blocks that state limits are an object of exactly these limits.
pub open spec fn read_back(limits: StatedLimits) -> bool {
    reads_as(blocks_text(limit_blocks(limits)), blocks_json(limit_blocks(limits)))
}

/// A document with blocks behind it, on lines of their own.
pub fn with_omitted_limits(document: &str, omitted: &Option<String>) -> (rendered: String)
    ensures
        rendered@ == match *omitted {
            None => document@,
            Some(blocks) => followed_by(document@, blocks@),
        },
{
    match omitted {
        None => document.to_owned(),
        Some(blocks) => {
            let list = characters(document);
            if list.len() > 0 && list[list.len() - 1] == '\n' {
                concat2(document, blocks.as_str())
            } else {
                crate::text::concat3(document, "\n", blocks.as_str())
            }
        },
    }
}

proof fn limit_names_are_plain()
    ensures
        plain_word("agent"@),
        plain_word("maxTurns"@),
        plain_word("subagents"@),
        plain_word("maxConcurrent"@),
{
    reveal_strlit("agent");
    reveal_strlit("maxTurns");
    reveal_strlit("subagents");
    reveal_strlit("maxConcurrent");
}

fn omitted_blocks(limits: StatedLimits) -> (list: Vec<LimitBlock>)
    requires
        limits.agent is Some || limits.subagents is Some,
        limits.subagents matches Some(subagents) ==> subagents.max_concurrent <= i64::MAX,
    ensures
        limit_views(list@) == limit_blocks(limits),
        plain_blocks(limit_views(list@)),
{
    let mut list: Vec<LimitBlock> = Vec::new();
    if let Some(agent) = limits.agent {
        list.push(
            LimitBlock { block: "agent".to_owned(), setting: "maxTurns".to_owned(), value: agent.max_turns as u64 },
        );
    }
    if let Some(subagents) = limits.subagents {
        list.push(
            LimitBlock {
                block: "subagents".to_owned(),
                setting: "maxConcurrent".to_owned(),
                value: subagents.max_concurrent as u64,
            },
        );
    }
    proof {
        reveal_strlit("agent");
        reveal_strlit("maxTurns");
        reveal_strlit("subagents");
        reveal_strlit("maxConcurrent");
        assert(limit_views(list@) =~= limit_blocks(limits));
        limit_names_are_plain();
        let views = limit_views(list@);
        assert forall|i: int| 0 <= i < views.len() implies plain_word((#[trigger] views[i]).0) && plain_word(views[i].1)
            && views[i].2 <= i64::MAX by {
        }
        assert forall|i: int, j: int| 0 <= i < j < views.len() implies precedes(
            (#[trigger] views[i]).0,
            (#[trigger] views[j]).0,
        ) by {
            assert(precedes_at("agent"@, "subagents"@, 0));
        }
    }
    list
}

impl RuntimeConfig {
    /// The limits that the configuration's document states.
    pub fn written_limits(&self, default_max_turns: u16) -> (limits: StatedLimits)
        ensures
            limits == written_limits(*self, default_max_turns),
    {
        let agent = if self.agent.is_default(default_max_turns) {
            None
        } else {
            Some(self.agent)
        };
        let subagents = if self.subagents.is_default() {
            None
        } else {
            Some(self.subagents)
        };
        StatedLimits { agent, subagents }
    }

    /// The limits that the configuration's document leaves out.
    pub fn omitted_limits(&self, default_max_turns: u16) -> (limits: StatedLimits)
        ensures
            limits == omitted_limits(*self, default_max_turns),
    {
        let agent = if self.agent.is_default(default_max_turns) {
            Some(self.agent)
        } else {
            None
        };
        let subagents = if self.subagents.is_default() {
            Some(self.subagents)
        } else {
            None
        };
        StatedLimits { agent, subagents }
    }

    /// YAML that always states the limits in force; `document` is the configuration's own. The blocks
    /// behind it, read as YAML, are exactly the limits that it leaves out.
    pub fn to_resolved_yaml(&self, document: Result<String, RuntimeError>, default_max_turns: u16) -> (result: Result<
        String,
        RuntimeError,
    >)
        ensures
            match document {
                Err(error) => result == Err::<String, RuntimeError>(error),
                Ok(text) => {
                    let omitted = omitted_limits(*self, default_max_turns);
                    &&& result matches Ok(shown) && shown@ == resolved_document(text@, omitted)
                    &&& omitted.agent is Some || omitted.subagents is Some ==> read_back(omitted)
                },
            },
    {
        let document = match document {
            Ok(text) => text,
            Err(error) => {
                return Err(error);
            },
        };
        let omitted = self.omitted_limits(default_max_turns);
        if omitted.agent.is_none() && omitted.subagents.is_none() {
            return Ok(document);
        }
        let list = omitted_blocks(omitted);
        match blocks_document(&list) {
            Ok(blocks) => Ok(with_omitted_limits(document.as_str(), &Some(blocks))),
            Err(text) => config_error(text.as_str()),
        }
    }
}

/// A resolved document states every limit exactly once: the configuration's own document states
/// those that differ from their defaults, the blocks behind it the others, each as it is in force.
pub proof fn each_limit_is_stated_once(config: RuntimeConfig, default_max_turns: u16)
    ensures
        ({
            let written = written_limits(config, default_max_turns);
            let omitted = omitted_limits(config, default_max_turns);
            &&& written.agent is Some != omitted.agent is Some
            &&& written.subagents is Some != omitted.subagents is Some
            &&& written.agent == Some(config.agent) || omitted.agent == Some(config.agent)
            &&& written.subagents == Some(config.subagents) || omitted.subagents == Some(config.subagents)
            &&& omitted.agent is Some == (config.agent.max_turns == default_max_turns)
            &&& omitted.subagents is Some == (config.subagents.max_concurrent == 10)
        }),
{
}

/// The blocks behind a document state the limits that it leaves out, each with the value in force and
/// on lines of its own: first the turns of an agent, then the subagents that run at once.
pub proof fn blocks_state_the_limits(limits: StatedLimits)
    ensures
        blocks_text(limit_blocks(limits)) == (match limits.agent {
            Some(agent) => "agent"@ + ":\n  "@ + "maxTurns"@ + ": "@ + decimal(agent.max_turns as nat) + "\n"@,
            None => Seq::empty(),
        }) + (match limits.subagents {
            Some(subagents) => "subagents"@ + ":\n  "@ + "maxConcurrent"@ + ": "@ + decimal(
                subagents.max_concurrent as u64 as nat,
            ) + "\n"@,
            None => Seq::empty(),
        }),
{
    let list = limit_blocks(limits);
    if limits.agent is Some && limits.subagents is Some {
        assert(list.drop_last() =~= seq![list[0]]);
        let first = list.drop_last();
        assert(first.drop_last() =~= Seq::empty());
        assert(blocks_text(first.drop_last()) =~= Seq::<char>::empty());
        assert(blocks_text(first) =~= block_text(list[0])) by {
            assert(first.last() == list[0]);
            assert(blocks_text(first) == blocks_text(first.drop_last()) + block_text(first.last()));
        }
    } else if limits.agent is Some || limits.subagents is Some {
        assert(list.drop_last() =~= Seq::empty());
        assert(blocks_text(list.drop_last()) =~= Seq::empty());
    }
    assert(blocks_text(list) =~= (match limits.agent {
        Some(agent) => block_text(("agent"@, "maxTurns"@, agent.max_turns as u64)),
        None => Seq::empty(),
    }) + (match limits.subagents {
        Some(subagents) => block_text(("subagents"@, "maxConcurrent"@, subagents.max_concurrent as u64)),
        None => Seq::empty(),
    }));
}

/// A resolved document begins with the configuration's own, is that one where it leaves nothing out,
/// and else ends with the blocks that state what it leaves out.
pub proof fn resolved_documents_keep_the_document(document: Seq<char>, omitted: StatedLimits, rendered: Seq<char>)
    requires
        rendered == resolved_document(document, omitted),
    ensures
        document.is_prefix_of(rendered),
        omitted.agent is None && omitted.subagents is None ==> rendered == document,
        blocks_text(limit_blocks(omitted)).is_suffix_of(rendered),
{
    reveal_strlit("\n");
    if omitted.agent is Some || omitted.subagents is Some {
        let blocks = blocks_text(limit_blocks(omitted));
        assert(rendered.subrange(0, document.len() as int) =~= document);
        assert(rendered.subrange(rendered.len() - blocks.len(), rendered.len() as int) =~= blocks);
    } else {
        assert(rendered.subrange(0, document.len() as int) =~= document);
        assert(rendered.subrange(rendered.len() as int, rendered.len() as int) =~= Seq::<char>::empty());
    }
}

/// Resolving twice changes nothing: a resolved configuration in an absolute place resolves to the
/// same state path, and no private root is attached anew.
pub proof fn resolving_is_stable(
    platform: Platform,
    config: RuntimeConfig,
    resolved: RuntimeConfig,
    again: RuntimeConfig,
    workspace: Seq<char>,
)
    requires
        absolute(platform, workspace),
        resolved_in_workspace(platform, config, resolved, workspace),
        resolved_in_workspace(platform, resolved, again, workspace),
    ensures
        again.storage.path@ == resolved.storage.path@,
        again.memory == config.memory,
        again.storage.keys == config.storage.keys,
{
    crate::paths::joining_is_stable(platform, workspace, config.storage.path@);
}

/// A state resolved below the private root without a store of its own stays below that root. A root
/// such as `\\`, which a name turns into a share, is left out.
pub proof fn ephemeral_state_stays_below_root(
    platform: Platform,
    config: RuntimeConfig,
    resolved: RuntimeConfig,
    host: PreparedPaths,
)
    requires
        config.storage.adapter == StorageAdapter::Ephemeral,
        confined(platform, config.storage.path@),
        host.root matches Ok(root) && root@.len() > 0,
        resolved_at_home(platform, config, resolved, host),
        crate::paths::prefix(platform, resolved.storage.path@) == crate::paths::prefix(platform, host.root->Ok_0@),
    ensures
        crate::paths::within(platform, resolved.storage.path@, host.root->Ok_0@),
{
    crate::paths::confined_join_stays_below(platform, host.root->Ok_0@, config.storage.path@);
}

/// An index is wanted exactly where it is enabled and the state outlives the process, or a path is
/// written for it.
pub proof fn lasting_state_is_indexed(config: RuntimeConfig)
    ensures
        index_wanted(config) <==> config.memory.index_enabled && (config.storage.adapter is Redb
            || config.storage.adapter is Postgres || config.memory.index_path is Some),
{
}

/// Paths that are written hold; without them the index and the position stand beside the state.
pub proof fn derived_paths_stand_beside_the_state(platform: Platform, config: RuntimeConfig, path: String)
    ensures
        config.memory.index_path matches Some(written) ==> relative_index(platform, config) == written@,
        config.memory.index_path is None ==> relative_index(platform, config) == extended(
            platform,
            config.storage.path@,
            "memory-index"@,
        ),
        relative_position(platform, config, Some(path)) == path@,
        relative_position(platform, config, None) == extended(
            platform,
            config.storage.path@,
            "chroma-position.json"@,
        ),
{
}

/// State at home is accepted exactly where the home is absolute, everything that is kept there is at a
/// confined relative path, and the host found each place safe.
pub proof fn confined_state_is_accepted(
    platform: Platform,
    config: RuntimeConfig,
    home_workspace: Seq<char>,
    host: PreparedPaths,
)
    ensures
        home_verdict(platform, config, home_workspace, host) is Accept <==> {
            &&& absolute(platform, home_workspace)
            &&& confined(platform, config.storage.path@)
            &&& host.root is Ok
            &&& config.storage.adapter is Ephemeral || host.state is Ok
            &&& config.storage.keys matches KeyConfig::Environment { anchor_path, .. } ==> confined(
                platform,
                anchor_path@,
            ) && host.anchor is Ok
            &&& index_wanted(config) ==> host.index is Ok && (config.memory.index_path matches Some(path)
                ==> confined(platform, path@))
            &&& config.memory.semantic matches SemanticMemoryConfig::Chroma { position_path, .. } ==> {
                &&& host.position is Ok
                &&& position_path matches Some(path) ==> confined(platform, path@)
            }
        },
{
}

/// State in the workspace needs nothing of the host.
pub proof fn workspace_state_needs_no_host(
    platform: Platform,
    config: RuntimeConfig,
    home_workspace: Seq<char>,
    host: PreparedPaths,
    postgres: Result<(), String>,
)
    ensures
        config.storage.location is Workspace ==> resolution_verdict(platform, config, home_workspace, host, postgres)
            == storage_verdict(config.storage, postgres),
        resolution_verdict(platform, config, home_workspace, host, postgres) is Accept <==> storage_verdict(
            config.storage,
            postgres,
        ) is Accept && (config.storage.location is HomeWorkspace ==> home_verdict(
            platform,
            config,
            home_workspace,
            host,
        ) is Accept),
{
}

/// Resolving paths changes nothing but where state is kept: every other setting stays.
pub proof fn resolving_changes_paths_alone(
    platform: Platform,
    config: RuntimeConfig,
    resolved: RuntimeConfig,
    host: PreparedPaths,
    workspace: Seq<char>,
)
    requires
        resolved_at_home(platform, config, resolved, host) || resolved_in_workspace(
            platform,
            config,
            resolved,
            workspace,
        ),
    ensures
        resolved.storage.location is Workspace,
        resolved.storage.adapter == config.storage.adapter,
        resolved.storage.postgres == config.storage.postgres,
        resolved.storage.startup_verification == config.storage.startup_verification,
        resolved.memory.index_enabled == config.memory.index_enabled,
        resolved.memory.retrieval_limit == config.memory.retrieval_limit,
        resolved.access == config.access && resolved.network == config.network && resolved.audit == config.audit,
        resolved.policy == config.policy && resolved.workflows == config.workflows,
        resolved.providers == config.providers && resolved.models == config.models,
        resolved.agent == config.agent && resolved.subagents == config.subagents,
        resolved.research == config.research && resolved.search == config.search,
        resolved.mcp == config.mcp && resolved.plugins == config.plugins && resolved.bundles == config.bundles,
        resolved.sandbox == config.sandbox && resolved.schema_version == config.schema_version,
        config.storage.keys is Plaintext <==> resolved.storage.keys is Plaintext,
        config.storage.keys is Platform ==> resolved.storage.keys == config.storage.keys,
        config.memory.semantic is Disabled <==> resolved.memory.semantic is Disabled,
{
}

/// State at home is kept exactly where the host prepared it, and remembers the root.
pub proof fn state_at_home_is_where_the_host_put_it(
    platform: Platform,
    config: RuntimeConfig,
    resolved: RuntimeConfig,
    host: PreparedPaths,
)
    requires
        resolved_at_home(platform, config, resolved, host),
    ensures
        resolved.storage.resolved_home_workspace == Some(host.root->Ok_0),
        !(config.storage.adapter is Ephemeral) ==> resolved.storage.path@ == host.state->Ok_0@,
        config.storage.adapter is Ephemeral ==> resolved.storage.path@ == joined_path(
            platform,
            host.root->Ok_0@,
            config.storage.path@,
        ),
        index_wanted(config) ==> resolved.memory.index_path == Some(host.index->Ok_0),
        !index_wanted(config) ==> resolved.memory.index_path == config.memory.index_path,
        resolved.storage.keys matches KeyConfig::Environment { anchor_path, .. } ==> anchor_path == host.anchor->Ok_0,
        resolved.memory.semantic matches SemanticMemoryConfig::Chroma { position_path, .. } ==> position_path == Some(
            host.position->Ok_0,
        ),
{
}

/// State in the workspace is kept below it, and no home is remembered.
pub proof fn state_in_the_workspace_is_below_it(
    platform: Platform,
    config: RuntimeConfig,
    resolved: RuntimeConfig,
    workspace: Seq<char>,
)
    requires
        resolved_in_workspace(platform, config, resolved, workspace),
    ensures
        resolved.storage.path@ == joined_path(platform, workspace, config.storage.path@),
        resolved.storage.resolved_home_workspace is None,
        resolved.memory == config.memory,
        resolved.storage.keys == config.storage.keys,
{
}

/// A path of state is given exactly where its location is resolved and, at home, what the host checks
/// again is safe.
pub proof fn unresolved_state_has_no_path(storage: StorageConfig, home: HomeCheck)
    ensures
        state_path_verdict(storage, home) is Accept <==> {
            &&& storage.location is Workspace
            &&& storage.resolved_home_workspace is Some && storage.adapter is Ephemeral ==> home.identity is Ok
                && home.root is Ok
            &&& storage.resolved_home_workspace is Some && !(storage.adapter is Ephemeral) ==> home.file is Ok
        },
{
}

/// A path is given exactly where the verdict accepts, and it is the path asked for.
pub proof fn given_paths_are_the_asked_ones(
    result: Result<String, RuntimeError>,
    verdict: Verdict,
    value: Seq<char>,
)
    requires
        gives_path(result, verdict, value),
    ensures
        result is Ok <==> verdict is Accept,
        result matches Ok(path) ==> path@ == value,
{
}

/// The keys of an instance carry its name, each key another, so two instances share none.
pub proof fn instances_have_keys_of_their_own(
    first: KeyConfig,
    second: KeyConfig,
    one: Seq<char>,
    other: Seq<char>,
)
    requires
        platform_keys_for(first, one),
        platform_keys_for(second, other),
        one != other,
    ensures
        first->Platform_journal_key_id@ != second->Platform_journal_key_id@,
        first->Platform_signing_key_id@ != second->Platform_signing_key_id@,
        one.is_suffix_of(first->Platform_journal_key_id@),
        one.is_suffix_of(first->Platform_signing_key_id@),
        first->Platform_journal_key_id@ != first->Platform_signing_key_id@,
{
    reveal_strlit("journal-");
    reveal_strlit("checkpoint-");
    let journal = first->Platform_journal_key_id@;
    if journal == second->Platform_journal_key_id@ {
        assert(journal.skip("journal-"@.len() as int) == one);
        assert(journal.skip("journal-"@.len() as int) == other);
    }
    let signing = first->Platform_signing_key_id@;
    if signing == second->Platform_signing_key_id@ {
        assert(signing.skip("checkpoint-"@.len() as int) == one);
        assert(signing.skip("checkpoint-"@.len() as int) == other);
    }
    assert(journal[0] == 'j' && signing[0] == 'c');
}

/// Keys from the environment are read from the two documented variables and anchored where asked.
pub proof fn environment_keys_are_anchored(keys: KeyConfig, instance: Seq<char>, anchor: String)
    requires
        environment_keys_for(keys, instance, anchor),
    ensures
        keys is Environment,
        keys->Environment_anchor_path == anchor,
        keys->Environment_journal_variable@ == "COLOSSUS_JOURNAL_KEY"@,
        keys->Environment_signing_variable@ == "COLOSSUS_SIGNING_KEY"@,
        instance.is_suffix_of(keys->Environment_journal_key_id@),
{
}

/// Local plain storage is kept in the workspace at the path given, by the embedded adapter, with no key.
pub proof fn local_storage_is_plain(storage: StorageConfig, path: String)
    requires
        local_plaintext(storage, path),
    ensures
        storage.location is Workspace && storage.path == path,
        storage.adapter is Redb && !storage.postgres,
        storage.keys is Plaintext,
        storage.resolved_home_workspace is None,
        storage_verdict(storage, Ok(())) is Accept,
{
}

/// A limit is written exactly where it is not the default, and omitted exactly where it is.
pub proof fn defaults_are_omitted(config: RuntimeConfig, default_max_turns: u16)
    ensures
        written_limits(config, default_max_turns).agent is Some <==> config.agent.max_turns != default_max_turns,
        written_limits(config, default_max_turns).subagents is Some <==> config.subagents.max_concurrent != 10,
        omitted_limits(config, default_max_turns).agent is Some <==> config.agent.max_turns == default_max_turns,
        omitted_limits(config, default_max_turns).subagents is Some <==> config.subagents.max_concurrent == 10,
        written_limits(config, default_max_turns).agent matches Some(agent) ==> agent == config.agent,
        omitted_limits(config, default_max_turns).agent matches Some(agent) ==> agent == config.agent,
        written_limits(config, default_max_turns).subagents matches Some(limit) ==> limit == config.subagents,
        omitted_limits(config, default_max_turns).subagents matches Some(limit) ==> limit == config.subagents,
{
}

/// Choosing a profile of access changes nothing but the access, and choosing a sandbox nothing but the
/// sandbox.
pub proof fn profiles_change_their_own_part(a: RuntimeConfig, b: RuntimeConfig)
    ensures
        same_outside_access(a, b) ==> same_outside_sandbox(a, RuntimeConfig { access: a.access, ..b }) && a.sandbox
            == b.sandbox && a.storage == b.storage && a.memory == b.memory && a.providers == b.providers && a.models
            == b.models && a.policy == b.policy && a.network == b.network && a.plugins == b.plugins && a.mcp == b.mcp,
        same_outside_sandbox(a, b) ==> a.access == b.access && a.storage == b.storage && a.memory == b.memory
            && a.providers == b.providers && a.models == b.models && a.policy == b.policy && a.network == b.network
            && a.plugins == b.plugins && a.mcp == b.mcp,
        same_outside_access(a, b) && a.access == b.access ==> a == b,
        same_outside_sandbox(a, b) && a.sandbox == b.sandbox ==> a == b,
{
}

} // verus!
