//! The settings of a runtime.

use crate::entries::Entry;
use crate::text::same_text;
use crate::urls::{is_loopback_url, loopback_url};
use vstd::prelude::*;
use vstd::string::*;

verus! {

/// The operating systems that differ in what they can isolate.
#[derive(Clone, Copy, Debug, PartialEq, Eq, Structural)]
pub enum Platform {
    Linux,
    Macos,
    Windows,
    Other,
}

/// How much of the host an effect may reach.
#[derive(Clone, Copy, Debug, PartialEq, Eq, Structural)]
pub enum ResourceAuthority {
    /// Only what policy declares.
    Declared,
    /// Whatever the host process can reach.
    Ambient,
}

/// One filesystem root and the access granted below it.
#[derive(Debug)]
pub struct FilesystemGrant {
    /// Root of the grant.
    pub root: String,
    /// `read`, `write`, `metadata` or `execute`.
    pub mode: String,
}

/// A filesystem grant as characters.
pub ghost struct GrantView {
    pub root: Seq<char>,
    pub mode: Seq<char>,
}

impl View for FilesystemGrant {
    type V = GrantView;

    open spec fn view(&self) -> GrantView {
        GrantView { root: self.root@, mode: self.mode@ }
    }
}

impl Clone for FilesystemGrant {
    fn clone(&self) -> (copy: Self)
        ensures
            copy == *self,
    {
        FilesystemGrant { root: self.root.clone(), mode: self.mode.clone() }
    }
}

/// The grants of a list as characters.
pub open spec fn grant_views(list: Seq<FilesystemGrant>) -> Seq<GrantView> {
    list.map_values(|grant: FilesystemGrant| grant@)
}

/// A grant of `mode` below `root`.
pub fn grant(root: &str, mode: &str) -> (result: FilesystemGrant)
    ensures
        result@ == (GrantView { root: root@, mode: mode@ }),
{
    FilesystemGrant { root: root.to_owned(), mode: mode.to_owned() }
}

/// Appends a clone of every grant of `more`.
pub fn extend_grants(list: &mut Vec<FilesystemGrant>, more: &Vec<FilesystemGrant>)
    ensures
        final(list)@ == old(list)@ + more@,
{
    let mut i: usize = 0;
    proof {
        assert(more@.take(0) =~= Seq::<FilesystemGrant>::empty());
        assert(old(list)@ + more@.take(0) =~= old(list)@);
    }
    while i < more.len()
        invariant
            i <= more@.len(),
            list@ == old(list)@ + more@.take(i as int),
        decreases more@.len() - i,
    {
        list.push(more[i].clone());
        proof {
            assert(more@.take(i + 1) =~= more@.take(i as int).push(more@[i as int]));
            assert(list@ =~= old(list)@ + more@.take(i + 1));
        }
        i = i + 1;
    }
    proof {
        assert(more@.take(i as int) =~= more@);
    }
}

/// A clone of every grant of `list`, in order.
pub fn clone_grants(list: &Vec<FilesystemGrant>) -> (copy: Vec<FilesystemGrant>)
    ensures
        copy@ == list@,
{
    let mut copy: Vec<FilesystemGrant> = Vec::new();
    extend_grants(&mut copy, list);
    proof {
        assert(copy@ =~= list@);
    }
    copy
}

/// Appends a clone of every text of `more`.
pub fn extend_texts(list: &mut Vec<String>, more: &Vec<String>)
    ensures
        final(list)@ == old(list)@ + more@,
{
    let mut i: usize = 0;
    proof {
        assert(more@.take(0) =~= Seq::<String>::empty());
        assert(old(list)@ + more@.take(0) =~= old(list)@);
    }
    while i < more.len()
        invariant
            i <= more@.len(),
            list@ == old(list)@ + more@.take(i as int),
        decreases more@.len() - i,
    {
        list.push(more[i].clone());
        proof {
            assert(more@.take(i + 1) =~= more@.take(i as int).push(more@[i as int]));
            assert(list@ =~= old(list)@ + more@.take(i + 1));
        }
        i = i + 1;
    }
    proof {
        assert(more@.take(i as int) =~= more@);
    }
}

/// Model-visible tool and built-in policy profile.
#[derive(Debug)]
pub struct AccessConfig {
    /// Name of the selected profile.
    pub profile: String,
}

/// Shared trust settings for outbound network clients.
#[derive(Debug)]
pub struct NetworkConfig {
    /// PEM CA bundle added to the built-in public trust roots.
    pub ca_bundle_path: Option<String>,
}

/// Durable audit evidence export.
#[derive(Debug)]
pub struct AuditConfig {
    /// External evidence sink.
    pub exporter: AuditExporterConfig,
}

/// Replaceable external audit evidence adapter.
#[derive(Debug)]
pub enum AuditExporterConfig {
    /// Keep audit evidence only in the canonical journal.
    Disabled,
    /// Write one ciphertext-free record per event through the effect gateway.
    Directory {
        /// Existing directory that receives the records.
        path: String,
    },
    /// Create deterministic objects through an HTTPS endpoint with a retention lock.
    WormHttp {
        /// Credential-free collection endpoint that ends in a slash.
        endpoint: String,
        /// Environment-backed bearer credential reference.
        credential_reference: Option<String>,
    },
}

/// Bounded agent loop.
#[derive(Debug, Clone, Copy, PartialEq, Eq, Structural)]
pub struct AgentConfig {
    /// Most provider turns in one run.
    pub max_turns: u16,
}

/// Bounded durable child-agent scheduler.
#[derive(Debug, Clone, Copy, PartialEq, Eq, Structural)]
pub struct SubagentConfig {
    /// Most child runs that execute concurrently.
    pub max_concurrent: usize,
}

/// Memory index and retrieval.
#[derive(Debug)]
pub struct MemoryConfig {
    /// Whether the disposable lexical index is enabled.
    pub index_enabled: bool,
    /// Index directory; beside the state file where absent.
    pub index_path: Option<String>,
    /// Most memories composed into one model turn.
    pub retrieval_limit: usize,
    /// Semantic projection.
    pub semantic: SemanticMemoryConfig,
}

/// Semantic memory projection.
#[derive(Debug)]
pub enum SemanticMemoryConfig {
    /// Only the offline lexical projection.
    Disabled,
    /// A Chroma collection beside the lexical projection.
    Chroma {
        /// Server origin.
        base_url: String,
        /// Tenant identifier.
        tenant: String,
        /// Database name.
        database: String,
        /// Collection name.
        collection: String,
        /// Token reference.
        credential_reference: Option<String>,
        /// Timeout of one operation.
        timeout_ms: u64,
        /// File with the last applied journal position; beside the state file where absent.
        position_path: Option<String>,
        /// Embedding profile.
        embedding: MemoryEmbeddingConfig,
    },
}

/// Embedding provider of a Chroma projection.
#[derive(Debug)]
pub enum MemoryEmbeddingConfig {
    /// Deterministic offline feature hashing.
    Local {
        /// Output vector dimensions.
        dimensions: usize,
    },
    /// OpenAI-compatible endpoint.
    OpenAiCompatible {
        /// Profile name used in audit requests.
        profile: String,
        /// Embedding model identifier.
        model: String,
        /// API base URL.
        base_url: String,
        /// Credential reference.
        credential_reference: Option<String>,
        /// Timeout of one request.
        timeout_ms: u64,
        /// Strict response dimension.
        dimensions: Option<usize>,
    },
}

/// Bounded durable research.
#[derive(Debug, Clone, Copy, PartialEq, Eq, Structural)]
pub struct ResearchConfig {
    /// Most canonical evidence sources in one run.
    pub max_sources: usize,
    /// Most collection jobs in one run.
    pub max_workers: usize,
}

/// Search profiles and the roles that use them.
#[derive(Debug)]
pub struct SearchConfig {
    /// Named profiles.
    pub profiles: Vec<Entry<SearchProfileConfig>>,
    /// Roles mapped to profiles.
    pub roles: Vec<Entry<String>>,
}

/// One search adapter profile.
#[derive(Debug)]
pub enum SearchProfileConfig {
    /// SearXNG JSON endpoint.
    Searxng {
        /// Credential-free endpoint.
        endpoint: String,
        /// API-key reference.
        credential_reference: Option<String>,
        /// Header that receives the API key.
        auth_header: String,
        /// HTTP user agent.
        user_agent: String,
        /// Timeout of one request.
        timeout_ms: u64,
    },
    /// SerpAPI endpoint.
    SerpApi {
        /// Credential-free endpoint.
        endpoint: String,
        /// Key reference.
        credential_reference: String,
        /// HTTP user agent.
        user_agent: String,
        /// Timeout of one request.
        timeout_ms: u64,
    },
}

/// The signer that a keyless trust profile accepts.
#[derive(Debug)]
pub struct TrustIdentity {
    /// Token issuer.
    pub issuer: String,
    /// Subject of the token.
    pub subject: String,
}

/// Supply-chain trust policy.
#[derive(Debug)]
pub struct PluginTrustProfile {
    /// Files with accepted public keys.
    pub public_keys: Vec<String>,
    /// Trust root file.
    pub trust_root_path: Option<String>,
    /// Accepted signers.
    pub identities: Vec<TrustIdentity>,
}

/// How a registry is authenticated to.
#[derive(Debug)]
pub enum RegistryAuthConfig {
    /// With Docker's configuration and credential helpers.
    Docker {
        /// Docker configuration file.
        config_path: Option<String>,
        /// Helper executables by name.
        helper_executables: Vec<Entry<String>>,
    },
    /// In any other way.
    Other,
}

/// One exact-origin OCI registry.
#[derive(Debug)]
pub struct PluginRegistryProfile {
    /// Origin of the registry.
    pub origin: String,
    /// Trust profile of what it serves.
    pub trust_profile: String,
    /// Origins that issue tokens.
    pub token_origins: Vec<String>,
    /// Origins that blobs may be redirected to.
    pub blob_redirect_origins: Vec<String>,
    /// CA bundle of the registry.
    pub ca_bundle_path: Option<String>,
    /// CA bundles of token origins.
    pub token_ca_bundle_paths: Vec<Entry<String>>,
    /// CA bundles of blob origins.
    pub blob_redirect_ca_bundle_paths: Vec<Entry<String>>,
    /// Authentication.
    pub auth: RegistryAuthConfig,
}

/// A credential header, as its configured document.
#[derive(Debug)]
pub struct McpCredentialHeaderConfig {
    /// Configured document.
    pub definition: String,
}

/// OAuth settings of an MCP server, as their configured document.
#[derive(Debug)]
pub struct McpOAuthConfig {
    /// Configured document.
    pub definition: String,
}

/// A research tool of an MCP server, as its configured document.
#[derive(Debug)]
pub struct McpResearchToolConfig {
    /// Configured document.
    pub definition: String,
}

/// Agent plugins of one workspace.
#[derive(Debug)]
pub struct PluginsConfig {
    /// Whether this workspace exposes globally active plugins at all.
    pub enabled: bool,
    /// Allowlist of plugin names; all where empty.
    pub include_names: Vec<String>,
    /// Denylist applied after the allowlist.
    pub exclude: Vec<String>,
    /// Reusable supply-chain trust policies.
    pub trust_profiles: Vec<Entry<PluginTrustProfile>>,
    /// OCI registries.
    pub registries: Vec<Entry<PluginRegistryProfile>>,
    /// Runtime enablement of plugin MCP servers, by `<plugin>/<server>`.
    pub mcp_servers: Vec<Entry<PluginMcpServerConfig>>,
}

/// Workspace overlay of one plugin MCP server.
#[derive(Debug)]
pub struct PluginMcpServerConfig {
    /// Whether the server is exposed.
    pub enabled: bool,
    /// Child-environment credential references.
    pub environment: Vec<Entry<String>>,
    /// HTTP header credential references.
    pub credential_headers: Vec<Entry<McpCredentialHeaderConfig>>,
    /// OAuth settings.
    pub oauth: Option<McpOAuthConfig>,
    /// Tools that may be exposed, or the sole wildcard `*`.
    pub allowed_tools: Vec<String>,
    /// Research-tool mappings.
    pub research_tools: Vec<McpResearchToolConfig>,
    /// Whether the server may omit session identifiers.
    pub allow_stateless: bool,
    /// Server timeout.
    pub timeout_ms: Option<u64>,
    /// Output cap.
    pub max_output_bytes: Option<u64>,
}

/// Trust bindings for signed offline release bundles: publisher, key identifier, public key.
#[derive(Debug)]
pub struct BundlesConfig {
    /// Keys by publisher.
    pub trusted_publishers: Vec<Entry<Vec<Entry<String>>>>,
}

/// Provider connection profiles.
#[derive(Debug)]
pub struct ProvidersConfig {
    /// Named profiles.
    pub profiles: Vec<Entry<ProviderProfileConfig>>,
}

/// Provider adapter kind.
#[derive(Debug)]
pub enum ProviderKind {
    /// The offline echo.
    Echo,
    /// A network adapter, by its configured name.
    Network(String),
}

/// One provider profile.
#[derive(Debug)]
pub struct ProviderProfileConfig {
    /// Provider adapter kind.
    pub kind: ProviderKind,
    /// API base URL of a network provider.
    pub base_url: Option<String>,
    /// Credential reference.
    pub credential_reference: Option<String>,
    /// Transport timeout.
    pub timeout_ms: Option<u64>,
    /// Hard wall-clock ceiling of one streaming generation.
    pub generation_timeout_ms: Option<u64>,
    /// Chat Completions output-token parameter.
    pub chat_completions_output_token_parameter: Option<String>,
}

/// Model profiles and the roles that use them.
#[derive(Debug)]
pub struct ModelsConfig {
    /// Named profiles.
    pub profiles: Vec<Entry<ModelProfileConfig>>,
    /// Roles mapped to profiles.
    pub roles: Vec<Entry<String>>,
}

/// What a model can be asked for.
#[derive(Debug, Clone, Copy, PartialEq, Eq, Structural)]
pub struct ModelCapabilities {
    /// Tool calls.
    pub tool_calls: bool,
    /// Streaming.
    pub streaming: bool,
    /// Image inputs.
    pub image_inputs: bool,
}

/// One model profile.
#[derive(Debug)]
pub struct ModelProfileConfig {
    /// Provider connection profile.
    pub provider_profile: String,
    /// Model identifier sent to the provider.
    pub model: String,
    /// Total context window.
    pub context_window_tokens: u64,
    /// Most generated tokens.
    pub max_output_tokens: u64,
    /// Capabilities.
    pub capabilities: ModelCapabilities,
    /// Reasoning effort sent on every turn.
    pub reasoning_effort: Option<String>,
}

/// Process isolation, filesystem grants, network allowlist and resource ceilings.
#[derive(Debug)]
pub struct SandboxConfig {
    /// Isolating backend, or an acknowledged direct-execution boundary.
    pub backend: String,
    /// Policy profile label.
    pub profile: String,
    /// Permit a policy-authorized downgrade to the broker.
    pub allow_broker_fallback: bool,
    /// The embedding platform enforces the isolation boundary.
    pub acknowledge_external_boundary: bool,
    /// Processes run without an asserted isolation boundary.
    pub acknowledge_danger_full_access: bool,
    /// Trusted helper executable.
    pub helper_path: Option<String>,
    /// Docker or Podman executable.
    pub oci_runtime: Option<String>,
    /// Immutable image reference.
    pub oci_image: Option<String>,
    /// Immutable proxy image of networked jobs.
    pub oci_proxy_image: Option<String>,
    /// Filesystem roots.
    pub filesystem: Vec<FilesystemGrant>,
    /// Granted executables.
    pub executables: Vec<String>,
    /// Environment variable names visible to child processes.
    pub environment: Vec<String>,
    /// Network origins.
    pub network_destinations: Vec<String>,
    /// Most wall time of an effect.
    pub timeout_ms: u64,
    /// Most request or result bytes.
    pub max_output_bytes: u64,
    /// Most processes in a tree.
    pub max_processes: u32,
    /// Most memory of a process tree.
    pub max_memory_bytes: u64,
    /// Most concurrent effects.
    pub max_concurrency: u32,
}

/// Base directory of relative storage paths.
#[derive(Clone, Copy, Debug, PartialEq, Eq, Structural)]
pub enum StorageLocation {
    /// The selected workspace.
    Workspace,
    /// The workspace's private partition of the home directory.
    HomeWorkspace,
}

/// Journal and projection adapter.
#[derive(Clone, Copy, Debug, PartialEq, Eq, Structural)]
pub enum StorageAdapter {
    /// Embedded single-writer store.
    Redb,
    /// Process-local store in memory.
    Ephemeral,
    /// Multi-process PostgreSQL.
    Postgres,
}

/// What is verified before the runtime becomes writable.
#[derive(Clone, Copy, Debug, PartialEq, Eq, Structural)]
pub enum StartupVerificationMode {
    Incremental,
    Full,
}

/// Journal protection.
#[derive(Debug)]
pub enum KeyConfig {
    /// Hash-chained plaintext without external keys.
    Plaintext,
    /// Credential store of the operating system.
    Platform {
        /// Service namespace.
        service: String,
        /// Journal key identifier.
        journal_key_id: String,
        /// Signing key identifier.
        signing_key_id: String,
    },
    /// Environment credentials.
    Environment {
        /// Variable with the journal key.
        journal_variable: String,
        /// Journal key identifier.
        journal_key_id: String,
        /// Variable with the signing key.
        signing_variable: String,
        /// Separately persisted anchor.
        anchor_path: String,
    },
}

/// Canonical storage.
#[derive(Debug)]
pub struct StorageConfig {
    /// Base directory of the state path.
    pub location: StorageLocation,
    /// State path.
    pub path: String,
    /// Adapter.
    pub adapter: StorageAdapter,
    /// Startup verification.
    pub startup_verification: StartupVerificationMode,
    /// Whether PostgreSQL settings are present.
    pub postgres: bool,
    /// Protection.
    pub keys: KeyConfig,
    /// Private root attached by a trusted host.
    pub resolved_home_workspace: Option<String>,
}

/// Policy decision point.
#[derive(Debug)]
pub enum PolicyConfig {
    /// Built-in policy.
    BuiltIn {
        /// Require post-effect content authorization.
        require_post_effect: bool,
    },
    /// OPA REST policy.
    Opa {
        /// Base URL.
        base_url: String,
        /// Decision path.
        decision_path: String,
        /// Pinned CA file.
        ca_pem_path: Option<String>,
        /// Client identity file.
        identity_pem_path: Option<String>,
        /// Full content disclosure is acknowledged.
        full_content_disclosure_acknowledged: bool,
        /// Decision logs are disabled or masked.
        decision_log_masking_verified: bool,
        /// Transport timeout.
        timeout_ms: u64,
    },
}

/// Workflow libraries.
#[derive(Debug)]
pub struct WorkflowLibraryConfig {
    /// Repository directory.
    pub repository: String,
    /// User directory.
    pub user: String,
}

/// Where OAuth credentials of MCP servers are kept.
#[derive(Clone, Copy, Debug, PartialEq, Eq, Structural)]
pub enum McpOAuthCredentialStoreKind {
    Auto,
    Platform,
    PlaintextState,
    EncryptedState,
}

/// How an MCP server is reached.
#[derive(Clone, Copy, Debug, PartialEq, Eq, Structural)]
pub enum McpTransportKind {
    Stdio,
    StreamableHttp,
}

/// Where a composed MCP server comes from.
#[derive(Debug)]
pub enum McpProvenance {
    /// An installed plugin.
    Plugin {
        /// Plugin name.
        plugin: String,
        /// Manifest digest.
        manifest_digest: String,
        /// Trust evidence, as its document.
        trust: String,
    },
    /// A verified pack.
    Pack {
        /// Pack name.
        pack: String,
        /// Pack version.
        version: String,
        /// Manifest digest.
        manifest_sha256: String,
        /// Declared permissions.
        permissions: Vec<String>,
    },
}

/// One MCP server.
#[derive(Debug)]
pub struct McpServerConfig {
    /// Transport.
    pub transport: McpTransportKind,
    /// Executable.
    pub command: String,
    /// Arguments.
    pub args: Vec<String>,
    /// Working directory.
    pub working_directory: Option<String>,
    /// Credential references of the child environment.
    pub environment: Vec<Entry<String>>,
    /// Literal child environment.
    pub literal_environment: Vec<Entry<String>>,
    /// Endpoint.
    pub url: Option<String>,
    /// HTTP headers.
    pub headers: Vec<Entry<String>>,
    /// Credential headers.
    pub credential_headers: Vec<Entry<McpCredentialHeaderConfig>>,
    /// Whether session identifiers may be omitted.
    pub allow_stateless: bool,
    /// OAuth settings.
    pub oauth: Option<McpOAuthConfig>,
    /// Exposed tools.
    pub allowed_tools: Vec<String>,
    /// Research tools.
    pub research_tools: Vec<McpResearchToolConfig>,
    /// Timeout.
    pub timeout_ms: Option<u64>,
    /// Output cap.
    pub max_output_bytes: Option<u64>,
    /// Prefix of its effect actions.
    pub effect_action_prefix: Option<String>,
    /// Where it comes from.
    pub provenance: Option<McpProvenance>,
}

/// MCP servers.
#[derive(Debug)]
pub struct McpConfig {
    /// Servers by identity.
    pub servers: Vec<Entry<McpServerConfig>>,
    /// OAuth credential store.
    pub oauth_credential_store: McpOAuthCredentialStoreKind,
}

/// Strict runtime configuration.
#[derive(Debug)]
pub struct RuntimeConfig {
    /// Schema version.
    pub schema_version: u16,
    /// Tool and policy profile.
    pub access: AccessConfig,
    /// Journal and keys.
    pub storage: StorageConfig,
    /// Outbound-network trust.
    pub network: NetworkConfig,
    /// Audit evidence export.
    pub audit: AuditConfig,
    /// Policy decision point.
    pub policy: PolicyConfig,
    /// Workflow libraries.
    pub workflows: WorkflowLibraryConfig,
    /// Provider connections.
    pub providers: ProvidersConfig,
    /// Models and roles.
    pub models: ModelsConfig,
    /// Agent limits.
    pub agent: AgentConfig,
    /// Child-agent limits.
    pub subagents: SubagentConfig,
    /// Memory.
    pub memory: MemoryConfig,
    /// Research bounds.
    pub research: ResearchConfig,
    /// Search.
    pub search: SearchConfig,
    /// MCP servers.
    pub mcp: McpConfig,
    /// Plugins.
    pub plugins: PluginsConfig,
    /// Bundle trust.
    pub bundles: BundlesConfig,
    /// Sandbox.
    pub sandbox: SandboxConfig,
}

/// Transport timeout of a remote provider that sets none.
pub const REMOTE_PROVIDER_TIMEOUT_MS: u64 = 300_000;

/// Transport timeout of a provider on this machine that sets none.
pub const LOOPBACK_PROVIDER_TIMEOUT_MS: u64 = 900_000;

/// Least generation ceiling of a remote provider that sets none.
pub const REMOTE_PROVIDER_GENERATION_TIMEOUT_MS: u64 = 1_200_000;

/// Least generation ceiling of a provider on this machine that sets none.
pub const LOOPBACK_PROVIDER_GENERATION_TIMEOUT_MS: u64 = 3_600_000;

impl ProviderProfileConfig {
    /// The provider runs on this machine.
    pub open spec fn on_loopback(&self) -> bool {
        self.base_url matches Some(url) && loopback_url(url@)
    }

    /// The transport timeout in force.
    pub open spec fn timeout_in_force(&self) -> u64 {
        match self.timeout_ms {
            Some(timeout) => timeout,
            None => if self.on_loopback() {
                LOOPBACK_PROVIDER_TIMEOUT_MS
            } else {
                REMOTE_PROVIDER_TIMEOUT_MS
            },
        }
    }

    /// The generation ceiling in force.
    pub open spec fn generation_timeout_in_force(&self) -> u64 {
        match self.generation_timeout_ms {
            Some(timeout) => timeout,
            None => {
                let least = if self.on_loopback() {
                    LOOPBACK_PROVIDER_GENERATION_TIMEOUT_MS
                } else {
                    REMOTE_PROVIDER_GENERATION_TIMEOUT_MS
                };
                if self.timeout_in_force() > least {
                    self.timeout_in_force()
                } else {
                    least
                }
            },
        }
    }

    /// Whether the provider runs on this machine.
    pub fn is_loopback(&self) -> (loopback: bool)
        ensures
            loopback == self.on_loopback(),
    {
        is_loopback_url(&self.base_url)
    }

    /// The transport timeout: the one set, else a default by where the provider runs.
    pub fn effective_timeout_ms(&self) -> (timeout: u64)
        ensures
            timeout == self.timeout_in_force(),
    {
        match self.timeout_ms {
            Some(timeout) => timeout,
            None => if self.is_loopback() {
                LOOPBACK_PROVIDER_TIMEOUT_MS
            } else {
                REMOTE_PROVIDER_TIMEOUT_MS
            },
        }
    }

    /// The generation ceiling: the one set, else a default that is never below the transport timeout.
    pub fn effective_generation_timeout_ms(&self) -> (timeout: u64)
        ensures
            timeout == self.generation_timeout_in_force(),
            self.generation_timeout_ms is None ==> timeout >= self.timeout_in_force(),
    {
        match self.generation_timeout_ms {
            Some(timeout) => timeout,
            None => {
                let transport: u64 = self.effective_timeout_ms();
                let least: u64 = if self.is_loopback() {
                    LOOPBACK_PROVIDER_GENERATION_TIMEOUT_MS
                } else {
                    REMOTE_PROVIDER_GENERATION_TIMEOUT_MS
                };
                if transport > least {
                    transport
                } else {
                    least
                }
            },
        }
    }
}

/// The backend that isolates nothing.
pub open spec fn danger_backend() -> Seq<char> {
    "danger_full_access"@
}

impl SandboxConfig {
    /// The settings that every preset starts from.
    pub open spec fn has_default_limits(&self) -> bool {
        self.profile@ == "offline-default"@ && self.has_default_resources()
    }

    /// The settings beside backend, acknowledgement and profile that every preset starts from.
    pub open spec fn has_default_resources(&self) -> bool {
        &&& !self.allow_broker_fallback
        &&& !self.acknowledge_external_boundary
        &&& self.helper_path is None
        &&& self.oci_runtime is None
        &&& self.oci_image is None
        &&& self.oci_proxy_image is None
        &&& self.filesystem@.len() == 0
        &&& self.executables@.len() == 0
        &&& self.environment@.len() == 0
        &&& self.network_destinations@.len() == 0
        &&& self.timeout_ms == 30_000
        &&& self.max_output_bytes == 4_194_304
        &&& self.max_processes == 16
        &&& self.max_memory_bytes == 1_073_741_824
        &&& self.max_concurrency == 1
    }

    /// Isolating defaults for hosts that opt out of direct execution.
    pub fn platform_isolating(platform: Platform) -> (config: Self)
        ensures
            config.backend@ == isolating_backend(platform),
            !config.acknowledge_danger_full_access,
            config.has_default_limits(),
    {
        let mut config = SandboxConfig::default();
        config.backend = default_isolating_sandbox_backend(platform).to_owned();
        config.acknowledge_danger_full_access = false;
        config
    }

    /// The acknowledgement of direct execution: the one written, else exactly that of the backend
    /// that isolates nothing.
    pub fn danger_acknowledgement(backend: &str, written: Option<bool>) -> (acknowledged: bool)
        ensures
            acknowledged == match written {
                Some(value) => value,
                None => backend@ == danger_backend(),
            },
    {
        match written {
            Some(value) => value,
            None => same_text(backend, "danger_full_access"),
        }
    }
}

impl Default for SandboxConfig {
    fn default() -> (config: Self)
        ensures
            config.backend@ == danger_backend(),
            config.acknowledge_danger_full_access,
            config.has_default_limits(),
    {
        SandboxConfig {
            backend: "danger_full_access".to_owned(),
            profile: "offline-default".to_owned(),
            allow_broker_fallback: false,
            acknowledge_external_boundary: false,
            acknowledge_danger_full_access: true,
            helper_path: None,
            oci_runtime: None,
            oci_image: None,
            oci_proxy_image: None,
            filesystem: Vec::new(),
            executables: Vec::new(),
            environment: Vec::new(),
            network_destinations: Vec::new(),
            timeout_ms: 30_000,
            max_output_bytes: 4_194_304,
            max_processes: 16,
            max_memory_bytes: 1_073_741_824,
            max_concurrency: 1,
        }
    }
}

/// The isolating backend of a platform.
pub open spec fn isolating_backend(platform: Platform) -> Seq<char> {
    match platform {
        Platform::Windows => "windows_job"@,
        Platform::Linux | Platform::Macos => "native"@,
        Platform::Other => "oci"@,
    }
}

/// The backend of an explicit isolating preset.
pub fn default_isolating_sandbox_backend(platform: Platform) -> (backend: &'static str)
    ensures
        backend@ == isolating_backend(platform),
{
    match platform {
        Platform::Windows => "windows_job",
        Platform::Linux | Platform::Macos => "native",
        Platform::Other => "oci",
    }
}

impl KeyConfig {
    /// Diagnostic label of the journal payload protection.
    pub fn protection_label(&self) -> (label: &'static str)
        ensures
            label@ == if *self is Plaintext {
                "plaintext"@
            } else {
                "encrypted"@
            },
    {
        match self {
            KeyConfig::Plaintext => "plaintext",
            KeyConfig::Platform { .. } | KeyConfig::Environment { .. } => "encrypted",
        }
    }
}

/// What the configured backend lets effects reach.
pub open spec fn authority(sandbox: SandboxConfig) -> ResourceAuthority {
    if sandbox.backend@ == danger_backend() {
        ResourceAuthority::Ambient
    } else {
        ResourceAuthority::Declared
    }
}

/// What the configured backend lets effects reach.
pub fn configured_resource_authority(sandbox: &SandboxConfig) -> (result: ResourceAuthority)
    ensures
        result == authority(*sandbox),
{
    if same_text(sandbox.backend.as_str(), "danger_full_access") {
        ResourceAuthority::Ambient
    } else {
        ResourceAuthority::Declared
    }
}

/// What effects outside any session may reach: everything only where that is acknowledged globally.
pub fn globally_acknowledged_resource_authority(sandbox: &SandboxConfig) -> (result: ResourceAuthority)
    ensures
        result == if authority(*sandbox) == ResourceAuthority::Ambient
            && sandbox.acknowledge_danger_full_access {
            ResourceAuthority::Ambient
        } else {
            ResourceAuthority::Declared
        },
{
    if configured_resource_authority(sandbox) == ResourceAuthority::Ambient
        && sandbox.acknowledge_danger_full_access {
        ResourceAuthority::Ambient
    } else {
        ResourceAuthority::Declared
    }
}

impl Default for NetworkConfig {
    fn default() -> (config: Self)
        ensures
            config.ca_bundle_path is None,
    {
        NetworkConfig { ca_bundle_path: None }
    }
}

impl Default for AuditExporterConfig {
    fn default() -> (config: Self)
        ensures
            config is Disabled,
    {
        AuditExporterConfig::Disabled
    }
}

impl Default for AuditConfig {
    fn default() -> (config: Self)
        ensures
            config.exporter is Disabled,
    {
        AuditConfig { exporter: AuditExporterConfig::Disabled }
    }
}

impl Default for SubagentConfig {
    fn default() -> (config: Self)
        ensures
            config.max_concurrent == 10,
    {
        SubagentConfig { max_concurrent: 10 }
    }
}

impl SubagentConfig {
    /// Whether the block holds its default, so that rendering may omit it.
    pub fn is_default(&self) -> (yes: bool)
        ensures
            yes == (self.max_concurrent == 10),
    {
        self.max_concurrent == 10
    }
}

impl AgentConfig {
    /// Whether the block holds the compiled default, so that rendering may omit it.
    pub fn is_default(&self, default_max_turns: u16) -> (yes: bool)
        ensures
            yes == (self.max_turns == default_max_turns),
    {
        self.max_turns == default_max_turns
    }
}

impl Default for SemanticMemoryConfig {
    fn default() -> (config: Self)
        ensures
            config is Disabled,
    {
        SemanticMemoryConfig::Disabled
    }
}

impl Default for MemoryConfig {
    fn default() -> (config: Self)
        ensures
            config.index_enabled,
            config.index_path is None,
            config.retrieval_limit == 6,
            config.semantic is Disabled,
    {
        MemoryConfig {
            index_enabled: true,
            index_path: None,
            retrieval_limit: 6,
            semantic: SemanticMemoryConfig::Disabled,
        }
    }
}

impl Default for ResearchConfig {
    fn default() -> (config: Self)
        ensures
            config.max_sources == 20,
            config.max_workers == 4,
    {
        ResearchConfig { max_sources: 20, max_workers: 4 }
    }
}

impl Default for SearchConfig {
    fn default() -> (config: Self)
        ensures
            config.profiles@.len() == 0,
            config.roles@.len() == 0,
    {
        SearchConfig { profiles: Vec::new(), roles: Vec::new() }
    }
}

/// Header of a SearXNG key where none is set.
pub fn default_searxng_auth_header() -> (header: String)
    ensures
        header@ == "X-Searxng-Key"@,
{
    "X-Searxng-Key".to_owned()
}

/// HTTP user agent of searches where none is set.
pub fn default_search_user_agent() -> (agent: String)
    ensures
        agent@ == "colossus/0.10"@,
{
    "colossus/0.10".to_owned()
}

/// Timeout of searches where none is set.
pub const DEFAULT_SEARCH_TIMEOUT_MS: u64 = 30_000;

impl PluginTrustProfile {
    /// A trust profile that accepts nothing in particular.
    pub fn empty() -> (profile: Self)
        ensures
            profile.public_keys@.len() == 0,
            profile.trust_root_path is None,
            profile.identities@.len() == 0,
    {
        PluginTrustProfile { public_keys: Vec::new(), trust_root_path: None, identities: Vec::new() }
    }
}

/// Plugins are enabled without any restriction beside one default trust profile.
pub open spec fn unrestricted_plugins(config: PluginsConfig, trust: PluginTrustProfile) -> bool {
    &&& config.enabled
    &&& config.include_names@.len() == 0
    &&& config.exclude@.len() == 0
    &&& config.trust_profiles@.len() == 1
    &&& config.trust_profiles@[0].key@ == "default"@
    &&& config.trust_profiles@[0].value == trust
    &&& config.registries@.len() == 0
    &&& config.mcp_servers@.len() == 0
}

impl PluginsConfig {
    /// Plugins without any restriction beside one default trust profile.
    pub fn with_default_trust(default_trust: PluginTrustProfile) -> (config: Self)
        ensures
            unrestricted_plugins(config, default_trust),
    {
        let mut trust_profiles: Vec<Entry<PluginTrustProfile>> = Vec::new();
        trust_profiles.push(Entry { key: "default".to_owned(), value: default_trust });
        PluginsConfig {
            enabled: true,
            include_names: Vec::new(),
            exclude: Vec::new(),
            trust_profiles,
            registries: Vec::new(),
            mcp_servers: Vec::new(),
        }
    }
}

impl Default for PluginMcpServerConfig {
    fn default() -> (config: Self)
        ensures
            !config.enabled,
            config.environment@.len() == 0,
            config.credential_headers@.len() == 0,
            config.oauth is None,
            config.allowed_tools@.len() == 0,
            config.research_tools@.len() == 0,
            !config.allow_stateless,
            config.timeout_ms is None,
            config.max_output_bytes is None,
    {
        PluginMcpServerConfig {
            enabled: false,
            environment: Vec::new(),
            credential_headers: Vec::new(),
            oauth: None,
            allowed_tools: Vec::new(),
            research_tools: Vec::new(),
            allow_stateless: false,
            timeout_ms: None,
            max_output_bytes: None,
        }
    }
}

impl Default for BundlesConfig {
    fn default() -> (config: Self)
        ensures
            config.trusted_publishers@.len() == 0,
    {
        BundlesConfig { trusted_publishers: Vec::new() }
    }
}

/// The only provider is the one that needs no network.
pub open spec fn offline_providers(config: ProvidersConfig) -> bool {
    &&& config.profiles@.len() == 1
    &&& config.profiles@[0].key@ == "echo"@
    &&& config.profiles@[0].value.kind is Echo
    &&& config.profiles@[0].value.base_url is None
    &&& config.profiles@[0].value.credential_reference is None
    &&& config.profiles@[0].value.timeout_ms is None
    &&& config.profiles@[0].value.generation_timeout_ms is None
    &&& config.profiles@[0].value.chat_completions_output_token_parameter is None
}

impl Default for ProvidersConfig {
    fn default() -> (config: Self)
        ensures
            offline_providers(config),
    {
        let mut profiles: Vec<Entry<ProviderProfileConfig>> = Vec::new();
        profiles.push(
            Entry {
                key: "echo".to_owned(),
                value: ProviderProfileConfig {
                    kind: ProviderKind::Echo,
                    base_url: None,
                    credential_reference: None,
                    timeout_ms: None,
                    generation_timeout_ms: None,
                    chat_completions_output_token_parameter: None,
                },
            },
        );
        ProvidersConfig { profiles }
    }
}

/// The only model is that of the provider that needs no network.
pub open spec fn offline_models(config: ModelsConfig) -> bool {
    &&& config.profiles@.len() == 1
    &&& config.profiles@[0].key@ == "echo"@
    &&& config.profiles@[0].value.provider_profile@ == "echo"@
    &&& config.profiles@[0].value.model@ == "echo"@
    &&& config.profiles@[0].value.context_window_tokens == 32_768
    &&& config.profiles@[0].value.max_output_tokens == 4_096
    &&& config.profiles@[0].value.capabilities == (ModelCapabilities {
        tool_calls: true,
        streaming: true,
        image_inputs: false,
    })
    &&& config.profiles@[0].value.reasoning_effort is None
    &&& config.roles@.len() == 1
    &&& config.roles@[0].key@ == "primary"@
    &&& config.roles@[0].value@ == "echo"@
}

impl Default for ModelsConfig {
    fn default() -> (config: Self)
        ensures
            offline_models(config),
    {
        let mut profiles: Vec<Entry<ModelProfileConfig>> = Vec::new();
        profiles.push(
            Entry {
                key: "echo".to_owned(),
                value: ModelProfileConfig {
                    provider_profile: "echo".to_owned(),
                    model: "echo".to_owned(),
                    context_window_tokens: 32_768,
                    max_output_tokens: 4_096,
                    capabilities: ModelCapabilities {
                        tool_calls: true,
                        streaming: true,
                        image_inputs: false,
                    },
                    reasoning_effort: None,
                },
            },
        );
        let mut roles: Vec<Entry<String>> = Vec::new();
        roles.push(Entry { key: "primary".to_owned(), value: "echo".to_owned() });
        ModelsConfig { profiles, roles }
    }
}

impl Default for PolicyConfig {
    fn default() -> (config: Self)
        ensures
            config == (PolicyConfig::BuiltIn { require_post_effect: false }),
    {
        PolicyConfig::BuiltIn { require_post_effect: false }
    }
}

impl Default for WorkflowLibraryConfig {
    fn default() -> (config: Self)
        ensures
            config.repository@ == ".colossus/workflows"@,
            config.user@ == "workflows"@,
    {
        WorkflowLibraryConfig { repository: ".colossus/workflows".to_owned(), user: "workflows".to_owned() }
    }
}

/// Timeouts that are written hold. Without any, a provider on this machine is waited for longer than a
/// remote one, and a generation never for less time than a request.
pub proof fn written_timeouts_hold(profile: ProviderProfileConfig)
    ensures
        profile.timeout_ms matches Some(written) ==> profile.timeout_in_force() == written,
        profile.generation_timeout_ms matches Some(written) ==> profile.generation_timeout_in_force() == written,
        profile.timeout_ms is None && !profile.on_loopback() ==> profile.timeout_in_force() == 300_000,
        profile.timeout_ms is None && profile.on_loopback() ==> profile.timeout_in_force() == 900_000,
        profile.generation_timeout_ms is None ==> profile.generation_timeout_in_force() >= profile.timeout_in_force(),
        profile.generation_timeout_ms is None && !profile.on_loopback() ==> profile.generation_timeout_in_force()
            >= 1_200_000,
        profile.generation_timeout_ms is None && profile.on_loopback() ==> profile.generation_timeout_in_force()
            >= 3_600_000,
        profile.generation_timeout_ms is None && profile.timeout_ms is None && !profile.on_loopback()
            ==> profile.generation_timeout_in_force() == 1_200_000,
        profile.generation_timeout_ms is None && profile.timeout_ms is None && profile.on_loopback()
            ==> profile.generation_timeout_in_force() == 3_600_000,
        profile.base_url is None ==> !profile.on_loopback(),
{
}

/// Authority is ambient under the backend without a boundary and declared under every other; the
/// backend that a platform isolates with is never that one.
pub proof fn only_full_access_is_ambient(sandbox: SandboxConfig, platform: Platform)
    ensures
        authority(sandbox) is Ambient <==> sandbox.backend@ == "danger_full_access"@,
        sandbox.backend@ == isolating_backend(platform) ==> authority(sandbox) is Declared,
        isolating_backend(Platform::Windows) == "windows_job"@,
        isolating_backend(Platform::Linux) == "native"@,
        isolating_backend(Platform::Macos) == "native"@,
        isolating_backend(Platform::Other) == "oci"@,
{
    reveal_strlit("danger_full_access");
    reveal_strlit("windows_job");
    reveal_strlit("native");
    reveal_strlit("oci");
    assert("danger_full_access"@.len() == 18);
    assert("windows_job"@.len() == 11);
    assert("native"@.len() == 6);
    assert("oci"@.len() == 3);
}

/// A sandbox with default limits grants nothing: no directory, executable, variable or destination.
pub proof fn default_sandboxes_grant_nothing(sandbox: SandboxConfig)
    requires
        sandbox.has_default_limits(),
    ensures
        sandbox.filesystem@.len() == 0,
        sandbox.executables@.len() == 0,
        sandbox.environment@.len() == 0,
        sandbox.network_destinations@.len() == 0,
        !sandbox.allow_broker_fallback,
        !sandbox.acknowledge_external_boundary,
        sandbox.profile@ == "offline-default"@,
        sandbox.timeout_ms == 30_000,
        sandbox.max_output_bytes == 4_194_304,
        sandbox.max_processes == 16,
        sandbox.max_memory_bytes == 1_073_741_824,
        sandbox.max_concurrency == 1,
{
}

/// An offline configuration names one provider and one model, the echo, in the primary role, and no
/// address to reach.
pub proof fn offline_defaults_reach_nothing(providers: ProvidersConfig, models: ModelsConfig)
    requires
        offline_providers(providers),
        offline_models(models),
    ensures
        providers.profiles@.len() == 1 && models.profiles@.len() == 1 && models.roles@.len() == 1,
        providers.profiles@[0].value.kind is Echo,
        providers.profiles@[0].value.base_url is None,
        providers.profiles@[0].value.credential_reference is None,
        models.profiles@[0].value.provider_profile@ == providers.profiles@[0].key@,
        models.roles@[0].key@ == "primary"@,
        models.roles@[0].value@ == models.profiles@[0].key@,
{
}

/// Plugins that are not restricted are enabled, none being named or left out.
pub proof fn unrestricted_plugins_are_enabled(config: PluginsConfig, trust: PluginTrustProfile)
    requires
        unrestricted_plugins(config, trust),
    ensures
        config.enabled,
        config.include_names@.len() == 0 && config.exclude@.len() == 0,
        config.trust_profiles@.len() == 1 && config.trust_profiles@[0].value == trust,
        config.registries@.len() == 0 && config.mcp_servers@.len() == 0,
{
}

/// Grants are viewed one by one, each by its root and its mode.
pub proof fn grants_are_viewed_one_by_one(list: Seq<FilesystemGrant>, at: int)
    requires
        0 <= at < list.len(),
    ensures
        grant_views(list).len() == list.len(),
        grant_views(list)[at].root == list[at].root@,
        grant_views(list)[at].mode == list[at].mode@,
{
}

/// The default resources of a sandbox name no helper and no container, acknowledge nothing and keep to one
/// effect at a time within half a minute, sixteen processes, four mebibytes of output and one gibibyte of
/// memory.
pub proof fn default_resources_are_small(sandbox: SandboxConfig)
    requires
        sandbox.has_default_resources(),
    ensures
        sandbox.helper_path is None,
        sandbox.oci_runtime is None,
        sandbox.oci_image is None,
        sandbox.oci_proxy_image is None,
        !sandbox.allow_broker_fallback,
        !sandbox.acknowledge_external_boundary,
        sandbox.max_concurrency == 1,
        sandbox.timeout_ms == 30 * 1000,
        sandbox.max_processes == 16,
        sandbox.max_output_bytes == 4 * 1024 * 1024,
        sandbox.max_memory_bytes == 1024 * 1024 * 1024,
{
}

/// Plugins without restrictions trust under one profile, the default one, and know no registry and no
/// server of their own.
pub proof fn unrestricted_plugins_trust_by_default(config: PluginsConfig, trust: PluginTrustProfile, at: int)
    requires
        unrestricted_plugins(config, trust),
        0 <= at < config.trust_profiles@.len(),
    ensures
        config.trust_profiles@[at].key@ == "default"@,
        config.trust_profiles@[at].value == trust,
        config.include_names@.len() == 0,
        config.exclude@.len() == 0,
        config.registries@.len() == 0,
        config.mcp_servers@.len() == 0,
{
}

} // verus!
