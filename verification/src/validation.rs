//! What a configuration must satisfy before a runtime is composed from it.
//!
//! Checks that belong to other adapters are handed in as findings: what the adapter answered for
//! the parts of the configuration that are its own.

use crate::config::{
    authority, configured_resource_authority, AuditConfig, AuditExporterConfig, KeyConfig, MemoryConfig,
    MemoryEmbeddingConfig, Platform, ProviderProfileConfig, ResourceAuthority, RuntimeConfig, SandboxConfig,
    SearchProfileConfig, SemanticMemoryConfig, StorageAdapter, StorageConfig, StorageLocation,
};
use crate::entries::{keys, Entry};
use crate::error::{answers, config_error, config_error3, ContextError, RuntimeError, Verdict};
use crate::names::{
    is_environment_name, is_immutable_image, is_oci_runtime, valid_environment_name, valid_oci_image_reference,
    valid_oci_runtime_name,
};
use crate::ordered::{ascending, insert_ascending};
use crate::origins::{canonical_origin, is_canonical, network_allowance, sandbox_allows_network, OriginFinding};
use crate::paths::{absolute, confined, confined_relative_storage_path, is_absolute};
use crate::plugin_settings::{plugins_verdict, validate_plugins_config};
use crate::text::{
    concat2, concat3, containing_is_standing_between, contains_text, decimal, decimal_text, has_prefix, list_contains,
    parts_are_contained, same_text, strip_prefix, views,
};
use crate::urls::{parse_origin, parse_url, url_origin, url_parts};
use vstd::prelude::*;
use vstd::string::*;

verus! {

/// The first verdict, unless it accepts: then the second.
pub open spec fn both(first: Verdict, second: Verdict) -> Verdict {
    if first is Accept {
        second
    } else {
        first
    }
}

/// A rejection where the condition holds.
pub open spec fn reject_if(condition: bool, text: Seq<char>) -> Verdict {
    if condition {
        Verdict::Reject(text)
    } else {
        Verdict::Accept
    }
}

/// What an adapter answered, its failure as a configuration failure.
pub open spec fn finding_verdict(result: Result<(), String>) -> Verdict {
    match result {
        Ok(_) => Verdict::Accept,
        Err(text) => Verdict::Reject(text@),
    }
}

/// Answers with a finding.
pub fn report(result: &Result<(), String>) -> (answer: Result<(), RuntimeError>)
    ensures
        answers(answer, finding_verdict(*result)),
{
    match result {
        Ok(_) => Ok(()),
        Err(text) => config_error(text.as_str()),
    }
}

/// The top level of a configuration document, before it is read into settings.
#[derive(Debug)]
pub struct DocumentSummary {
    /// Whether the root is a mapping.
    pub mapping: bool,
    /// `schemaVersion`, where it is a nonnegative integer.
    pub schema_version: Option<u64>,
    /// Whether `agent.tools` is present.
    pub legacy_tools: bool,
    /// Whether `policy.allow_actions` or `policy.approval_actions` is present.
    pub legacy_actions: bool,
}

/// The verdict on the top level of a document.
pub open spec fn document_verdict(document: DocumentSummary) -> Verdict {
    if !document.mapping {
        Verdict::Reject("configuration root must be a YAML mapping"@)
    } else if document.schema_version == Some(1u64) {
        Verdict::Reject(
            "schemaVersion 1 is no longer supported; provider connections and model profiles are now separate, and Agent Plugins replace the legacy extension configuration without migration. Run `colossus --config PATH config init` to generate a fresh schemaVersion 3 configuration"@,
        )
    } else if document.schema_version == Some(2u64) {
        Verdict::Reject(
            "schemaVersion 2 is no longer supported; Agent Plugins replace the legacy skills and packs configuration without migration. Run `colossus --config PATH config init` to regenerate a fresh schemaVersion 3 configuration"@,
        )
    } else if document.schema_version != Some(3u64) {
        Verdict::Reject("schemaVersion must be exactly 3"@)
    } else if document.legacy_tools || document.legacy_actions {
        Verdict::Reject(
            "agent.tools, policy.allow_actions, and policy.approval_actions are not supported; use access.tools and access.actions or generate a fresh configuration with `colossus --config PATH config init`"@,
        )
    } else {
        Verdict::Accept
    }
}

/// Checks the top level of a document: only schema version 3 without legacy blocks passes.
pub fn validate_document(document: &DocumentSummary) -> (result: Result<(), RuntimeError>)
    ensures
        answers(result, document_verdict(*document)),
{
    if !document.mapping {
        return config_error("configuration root must be a YAML mapping");
    }
    match document.schema_version {
        Some(1) => config_error(
            "schemaVersion 1 is no longer supported; provider connections and model profiles are now separate, and Agent Plugins replace the legacy extension configuration without migration. Run `colossus --config PATH config init` to generate a fresh schemaVersion 3 configuration",
        ),
        Some(2) => config_error(
            "schemaVersion 2 is no longer supported; Agent Plugins replace the legacy skills and packs configuration without migration. Run `colossus --config PATH config init` to regenerate a fresh schemaVersion 3 configuration",
        ),
        Some(3) => if document.legacy_tools || document.legacy_actions {
            config_error(
                "agent.tools, policy.allow_actions, and policy.approval_actions are not supported; use access.tools and access.actions or generate a fresh configuration with `colossus --config PATH config init`",
            )
        } else {
            Ok(())
        },
        _ => config_error("schemaVersion must be exactly 3"),
    }
}

/// The verdict on storage settings; `postgres` is what the adapter answered for its own settings.
pub open spec fn storage_verdict(storage: StorageConfig, postgres: Result<(), String>) -> Verdict {
    if storage.adapter == StorageAdapter::Redb && storage.postgres {
        Verdict::Reject("storage.postgres must be omitted when storage.adapter is redb"@)
    } else if storage.adapter == StorageAdapter::Ephemeral && storage.postgres {
        Verdict::Reject("storage.postgres must be omitted when storage.adapter is ephemeral"@)
    } else if storage.adapter == StorageAdapter::Postgres && !storage.postgres {
        Verdict::Reject("storage.postgres is required when storage.adapter is postgres"@)
    } else if storage.adapter == StorageAdapter::Postgres && postgres is Err {
        finding_verdict(postgres)
    } else if storage.adapter == StorageAdapter::Ephemeral && !(storage.keys is Plaintext) {
        Verdict::Reject(
            "storage.adapter ephemeral requires storage.keys.kind none because protected anchors outlive process-local state"@,
        )
    } else {
        Verdict::Accept
    }
}

/// Checks that the settings of an adapter are present exactly where it is selected, and that
/// process-local state is not protected by keys that outlive it.
pub fn validate_storage_config(storage: &StorageConfig, postgres: &Result<(), String>) -> (result: Result<
    (),
    RuntimeError,
>)
    ensures
        answers(result, storage_verdict(*storage, *postgres)),
{
    match storage.adapter {
        StorageAdapter::Redb => if storage.postgres {
            config_error("storage.postgres must be omitted when storage.adapter is redb")
        } else {
            Ok(())
        },
        StorageAdapter::Ephemeral => if storage.postgres {
            config_error("storage.postgres must be omitted when storage.adapter is ephemeral")
        } else {
            match storage.keys {
                KeyConfig::Plaintext => Ok(()),
                _ => config_error(
                    "storage.adapter ephemeral requires storage.keys.kind none because protected anchors outlive process-local state",
                ),
            }
        },
        StorageAdapter::Postgres => if storage.postgres {
            report(postgres)
        } else {
            config_error("storage.postgres is required when storage.adapter is postgres")
        },
    }
}

/// The verdict on an audit exporter.
pub open spec fn audit_verdict(audit: AuditConfig, sandbox: SandboxConfig, origins: Seq<OriginFinding>) -> Verdict {
    match audit.exporter {
        AuditExporterConfig::WormHttp { endpoint, credential_reference } => match url_parts(endpoint@) {
            None => Verdict::Reject("WORM audit endpoint is invalid"@),
            Some(url) => if url.scheme != "https"@ || !url.has_host || url.username.len() > 0 || url.has_password
                || url.has_query || url.has_fragment || !(url.path.len() > 0 && url.path.last() == '/')
                || url.cannot_be_a_base {
                Verdict::Reject("WORM audit endpoint must be a credential-free trailing-slash HTTPS URL"@)
            } else {
                let origin = url_origin(endpoint@)->0;
                match network_allowance(sandbox, origin, origins) {
                    Err(text) => Verdict::Reject(text),
                    Ok(false) => Verdict::Reject(
                        "WORM audit endpoint origin "@ + origin + " requires an exact sandbox network destination"@,
                    ),
                    Ok(true) => match credential_reference {
                        None => Verdict::Accept,
                        Some(reference) => credential_verdict(reference@, sandbox),
                    },
                }
            },
        },
        _ => Verdict::Accept,
    }
}

/// The verdict on the credential reference of an audit exporter.
pub open spec fn credential_verdict(reference: Seq<char>, sandbox: SandboxConfig) -> Verdict {
    if !has_prefix(reference, "env:"@) {
        Verdict::Reject("WORM audit credential must be an env:VARIABLE reference"@)
    } else {
        let variable = reference.skip("env:"@.len() as int);
        if !is_environment_name(variable) || (authority(sandbox) != ResourceAuthority::Ambient && !views(
            sandbox.environment@,
        ).contains(variable)) {
            Verdict::Reject(
                "WORM audit credential variable "@ + variable + " requires an exact sandbox environment grant"@,
            )
        } else {
            Verdict::Accept
        }
    }
}

/// Checks an audit exporter: a retention endpoint is a credential-free HTTPS collection that the
/// sandbox reaches, with a credential that the sandbox grants.
pub fn validate_audit_config(
    audit: &AuditConfig,
    sandbox: &SandboxConfig,
    origins: &Vec<OriginFinding>,
) -> (result: Result<(), RuntimeError>)
    ensures
        answers(result, audit_verdict(*audit, *sandbox, origins@)),
{
    let (endpoint, credential_reference) = match &audit.exporter {
        AuditExporterConfig::WormHttp { endpoint, credential_reference } => (endpoint, credential_reference),
        _ => {
            return Ok(());
        },
    };
    let url = match parse_url(endpoint.as_str()) {
        Some(url) => url,
        None => {
            return config_error("WORM audit endpoint is invalid");
        },
    };
    let path = crate::text::characters(url.path.as_str());
    if !same_text(url.scheme.as_str(), "https") || !url.has_host || !url.username.as_str().is_empty()
        || url.has_password || url.has_query || url.has_fragment || !(path.len() > 0 && path[path.len() - 1]
        == '/') || url.cannot_be_a_base {
        return config_error("WORM audit endpoint must be a credential-free trailing-slash HTTPS URL");
    }
    let origin = match parse_origin(endpoint.as_str()) {
        Some(origin) => origin,
        None => {
            return config_error("WORM audit endpoint is invalid");
        },
    };
    match sandbox_allows_network(sandbox, origin.as_str(), origins) {
        Err(error) => {
            return Err(error);
        },
        Ok(allowed) => if !allowed {
            return config_error3(
                "WORM audit endpoint origin ",
                origin.as_str(),
                " requires an exact sandbox network destination",
            );
        },
    }
    match credential_reference {
        None => Ok(()),
        Some(reference) => match strip_prefix(reference.as_str(), "env:") {
            None => config_error("WORM audit credential must be an env:VARIABLE reference"),
            Some(variable) => if !valid_environment_name(variable.as_str()) || (configured_resource_authority(sandbox)
                != ResourceAuthority::Ambient && !list_contains(&sandbox.environment, variable.as_str())) {
                config_error3(
                    "WORM audit credential variable ",
                    variable.as_str(),
                    " requires an exact sandbox environment grant",
                )
            } else {
                Ok(())
            },
        },
    }
}

/// The verdict on the timeouts of provider profiles, in order.
pub open spec fn timeouts_verdict(list: Seq<Entry<ProviderProfileConfig>>) -> Verdict
    decreases list.len(),
{
    if list.len() == 0 {
        Verdict::Accept
    } else if list[0].value.timeout_in_force() == 0 || list[0].value.generation_timeout_in_force()
        < list[0].value.timeout_in_force() {
        Verdict::Reject(
            "provider profile "@ + list[0].key@
                + " requires positive timeoutMs and generationTimeoutMs at least timeoutMs"@,
        )
    } else {
        timeouts_verdict(list.skip(1))
    }
}

/// Checks that every provider has a positive transport timeout and a generation ceiling not below it.
pub fn validate_provider_timeouts(list: &Vec<Entry<ProviderProfileConfig>>) -> (result: Result<(), RuntimeError>)
    ensures
        answers(result, timeouts_verdict(list@)),
{
    let mut i: usize = 0;
    proof {
        assert(list@.skip(0) =~= list@);
    }
    while i < list.len()
        invariant
            i <= list@.len(),
            timeouts_verdict(list@) == timeouts_verdict(list@.skip(i as int)),
        decreases list@.len() - i,
    {
        let timeout: u64 = list[i].value.effective_timeout_ms();
        let generation: u64 = list[i].value.effective_generation_timeout_ms();
        if timeout == 0 || generation < timeout {
            return config_error3(
                "provider profile ",
                list[i].key.as_str(),
                " requires positive timeoutMs and generationTimeoutMs at least timeoutMs",
            );
        }
        proof {
            assert(list@.skip(i as int).skip(1) =~= list@.skip(i + 1));
        }
        i = i + 1;
    }
    Ok(())
}

/// The least timeouts within which a sandbox backend can confirm its cleanup.
#[derive(Clone, Copy, Debug, PartialEq, Eq, Structural)]
pub struct SandboxFloors {
    /// Of a container job.
    pub oci_effect_timeout_ms: u64,
    /// Of a container job with a proxy.
    pub oci_network_effect_timeout_ms: u64,
    /// Of a Windows job object.
    pub windows_job_effect_timeout_ms: u64,
}

/// A backend that the runtime knows.
pub open spec fn known_backend(backend: Seq<char>) -> bool {
    backend == "native"@ || backend == "oci"@ || backend == "windows_job"@ || backend == "broker"@ || backend
        == "external"@ || backend == "danger_full_access"@
}

fn is_known_backend(backend: &str) -> (yes: bool)
    ensures
        yes == known_backend(backend@),
{
    same_text(backend, "native") || same_text(backend, "oci") || same_text(backend, "windows_job") || same_text(
        backend,
        "broker",
    ) || same_text(backend, "external") || same_text(backend, "danger_full_access")
}

/// The verdict on the backend, its acknowledgements and its resource limits.
pub open spec fn boundary_verdict(sandbox: SandboxConfig, platform: Platform, floors: SandboxFloors) -> Verdict {
    let oci = sandbox.backend@ == "oci"@;
    both(
        reject_if(!known_backend(sandbox.backend@), "unknown sandbox backend "@ + sandbox.backend@),
        both(
            reject_if(
                sandbox.backend@ == "broker"@ && !sandbox.allow_broker_fallback,
                "broker sandbox backend requires allowBrokerFallback: true"@,
            ),
            both(
                reject_if(
                    sandbox.acknowledge_external_boundary && sandbox.backend@ != "external"@,
                    "sandbox.acknowledgeExternalBoundary is valid only with backend: external"@,
                ),
                both(
                    reject_if(
                        sandbox.acknowledge_danger_full_access && sandbox.backend@ != "danger_full_access"@,
                        "sandbox.acknowledgeDangerFullAccess is valid only with backend: danger_full_access"@,
                    ),
                    both(
                        reject_if(
                            sandbox.profile@.len() == 0 || sandbox.timeout_ms == 0 || sandbox.max_output_bytes < 1024
                                || sandbox.max_processes == 0 || sandbox.max_memory_bytes == 0
                                || sandbox.max_concurrency == 0,
                            "sandbox profile and resource limits must be nonempty; maxOutputBytes must be at least 1024"@,
                        ),
                        both(
                            reject_if(
                                oci && platform == Platform::Windows,
                                "OCI process execution is disabled on Windows until path mapping passes live acceptance"@,
                            ),
                            both(
                                reject_if(
                                    oci && sandbox.timeout_ms < floors.oci_effect_timeout_ms,
                                    "OCI sandbox timeoutMs must be at least "@ + decimal(
                                        floors.oci_effect_timeout_ms as nat,
                                    ) + " so cleanup can be confirmed"@,
                                ),
                                both(
                                    reject_if(
                                        sandbox.backend@ == "windows_job"@ && sandbox.timeout_ms
                                            < floors.windows_job_effect_timeout_ms,
                                        "Windows Job Object sandbox timeoutMs must be at least "@ + decimal(
                                            floors.windows_job_effect_timeout_ms as nat,
                                        ) + " so cleanup can be confirmed"@,
                                    ),
                                    reject_if(
                                        oci && sandbox.network_destinations@.len() > 0 && sandbox.timeout_ms
                                            < floors.oci_network_effect_timeout_ms,
                                        "networked OCI sandbox timeoutMs must be at least "@ + decimal(
                                            floors.oci_network_effect_timeout_ms as nat,
                                        ) + " so proxy cleanup can be confirmed"@,
                                    ),
                                ),
                            ),
                        ),
                    ),
                ),
            ),
        ),
    )
}

/// Checks the backend, its acknowledgements and its resource limits.
pub fn validate_sandbox_boundary(sandbox: &SandboxConfig, platform: Platform, floors: SandboxFloors) -> (result: Result<
    (),
    RuntimeError,
>)
    ensures
        answers(result, boundary_verdict(*sandbox, platform, floors)),
{
    let backend = sandbox.backend.as_str();
    if !is_known_backend(backend) {
        return Err(RuntimeError::Config(concat2("unknown sandbox backend ", backend)));
    }
    if same_text(backend, "broker") && !sandbox.allow_broker_fallback {
        return config_error("broker sandbox backend requires allowBrokerFallback: true");
    }
    if sandbox.acknowledge_external_boundary && !same_text(backend, "external") {
        return config_error("sandbox.acknowledgeExternalBoundary is valid only with backend: external");
    }
    if sandbox.acknowledge_danger_full_access && !same_text(backend, "danger_full_access") {
        return config_error("sandbox.acknowledgeDangerFullAccess is valid only with backend: danger_full_access");
    }
    if sandbox.profile.as_str().is_empty() || sandbox.timeout_ms == 0 || sandbox.max_output_bytes < 1024
        || sandbox.max_processes == 0 || sandbox.max_memory_bytes == 0 || sandbox.max_concurrency == 0 {
        return config_error(
            "sandbox profile and resource limits must be nonempty; maxOutputBytes must be at least 1024",
        );
    }
    let oci = same_text(backend, "oci");
    if oci && platform == Platform::Windows {
        return config_error(
            "OCI process execution is disabled on Windows until path mapping passes live acceptance",
        );
    }
    if oci && sandbox.timeout_ms < floors.oci_effect_timeout_ms {
        let least = decimal_text(floors.oci_effect_timeout_ms);
        return config_error3(
            "OCI sandbox timeoutMs must be at least ",
            least.as_str(),
            " so cleanup can be confirmed",
        );
    }
    if same_text(backend, "windows_job") && sandbox.timeout_ms < floors.windows_job_effect_timeout_ms {
        let least = decimal_text(floors.windows_job_effect_timeout_ms);
        return config_error3(
            "Windows Job Object sandbox timeoutMs must be at least ",
            least.as_str(),
            " so cleanup can be confirmed",
        );
    }
    if oci && sandbox.network_destinations.len() > 0 && sandbox.timeout_ms < floors.oci_network_effect_timeout_ms {
        let least = decimal_text(floors.oci_network_effect_timeout_ms);
        return config_error3(
            "networked OCI sandbox timeoutMs must be at least ",
            least.as_str(),
            " so proxy cleanup can be confirmed",
        );
    }
    Ok(())
}

/// Every executable and every filesystem root is absolute.
pub open spec fn absolute_roots(platform: Platform, sandbox: SandboxConfig) -> bool {
    &&& forall|i: int| 0 <= i < sandbox.executables@.len() ==> absolute(platform, (#[trigger] sandbox.executables@[i])@)
    &&& forall|i: int| 0 <= i < sandbox.filesystem@.len() ==> absolute(
        platform,
        (#[trigger] sandbox.filesystem@[i]).root@,
    )
}

fn roots_absolute(platform: Platform, sandbox: &SandboxConfig) -> (yes: bool)
    ensures
        yes == absolute_roots(platform, *sandbox),
{
    let mut i: usize = 0;
    while i < sandbox.executables.len()
        invariant
            i <= sandbox.executables@.len(),
            forall|j: int| 0 <= j < i ==> absolute(platform, (#[trigger] sandbox.executables@[j])@),
        decreases sandbox.executables@.len() - i,
    {
        if !is_absolute(platform, sandbox.executables[i].as_str()) {
            return false;
        }
        i = i + 1;
    }
    let mut k: usize = 0;
    while k < sandbox.filesystem.len()
        invariant
            k <= sandbox.filesystem@.len(),
            forall|j: int| 0 <= j < k ==> absolute(platform, (#[trigger] sandbox.filesystem@[j]).root@),
        decreases sandbox.filesystem@.len() - k,
    {
        if !is_absolute(platform, sandbox.filesystem[k].root.as_str()) {
            return false;
        }
        k = k + 1;
    }
    true
}

/// Every text is an environment variable name.
pub open spec fn environment_names(list: Seq<String>) -> bool {
    forall|i: int| 0 <= i < list.len() ==> is_environment_name((#[trigger] list[i])@)
}

fn all_environment_names(list: &Vec<String>) -> (yes: bool)
    ensures
        yes == environment_names(list@),
{
    let mut i: usize = 0;
    while i < list.len()
        invariant
            i <= list@.len(),
            forall|j: int| 0 <= j < i ==> is_environment_name((#[trigger] list@[j])@),
        decreases list@.len() - i,
    {
        if !valid_environment_name(list[i].as_str()) {
            return false;
        }
        i = i + 1;
    }
    true
}

/// Every destination is a canonical origin or the public wildcard, and none occurs twice.
pub open spec fn proper_destinations(list: Seq<Seq<char>>, origins: Seq<OriginFinding>) -> bool {
    &&& list.no_duplicates()
    &&& forall|i: int| 0 <= i < list.len() ==> (#[trigger] list[i]) == "*"@ || is_canonical(origins, list[i])
}

/// Whether every destination is a canonical origin or the public wildcard, and none occurs twice.
pub fn valid_destinations(list: &Vec<String>, origins: &Vec<OriginFinding>) -> (yes: bool)
    ensures
        yes == proper_destinations(views(list@), origins@),
{
    let ghost texts = views(list@);
    let mut seen: Vec<String> = Vec::new();
    let mut i: usize = 0;
    while i < list.len()
        invariant
            i <= list@.len(),
            texts == views(list@),
            ascending(views(seen@)),
            forall|j: int| 0 <= j < i ==> (#[trigger] texts[j]) == "*"@ || is_canonical(origins@, texts[j]),
            forall|j: int| 0 <= j < i ==> views(seen@).contains(#[trigger] texts[j]),
            forall|x: Seq<char>|
                #[trigger] views(seen@).contains(x) ==> exists|j: int| 0 <= j < i && texts[j] == x,
            forall|a: int, b: int| 0 <= a < i && 0 <= b < i && a != b ==> texts[a] != texts[b],
        decreases list@.len() - i,
    {
        proof {
            assert(texts[i as int] == list@[i as int]@);
        }
        let ghost before = views(seen@);
        let added = insert_ascending(&mut seen, list[i].clone());
        if !added {
            proof {
                assert(before.contains(texts[i as int]));
                let j = choose|j: int| 0 <= j < i && texts[j] == texts[i as int];
                assert(texts[j] == texts[i as int]);
            }
            return false;
        }
        if !same_text(list[i].as_str(), "*") && !canonical_origin(origins, list[i].as_str()) {
            return false;
        }
        proof {
            assert forall|x: Seq<char>| #[trigger] views(seen@).contains(x) implies exists|j: int|
                0 <= j < i + 1 && texts[j] == x by {
                if before.contains(x) {
                    let j = choose|j: int| 0 <= j < i && texts[j] == x;
                    assert(texts[j] == x);
                } else {
                    assert(texts[i as int] == x);
                }
            }
        }
        i = i + 1;
    }
    true
}

/// The verdict on the executables, roots, variables, destinations and images of a sandbox.
pub open spec fn grants_verdict(platform: Platform, sandbox: SandboxConfig, origins: Seq<OriginFinding>) -> Verdict {
    both(
        reject_if(!absolute_roots(platform, sandbox), "sandbox executables and filesystem roots must be absolute"@),
        both(
            reject_if(
                sandbox.oci_runtime matches Some(path) && !absolute(platform, path@),
                "OCI runtime path must be absolute"@,
            ),
            both(
                reject_if(
                    sandbox.oci_runtime matches Some(path) && !is_oci_runtime(platform, path@),
                    "OCI runtime must be an exact Docker or Podman executable path"@,
                ),
                both(
                    reject_if(
                        !environment_names(sandbox.environment@),
                        "sandbox environment entries must be POSIX-style variable names"@,
                    ),
                    both(
                        reject_if(
                            !proper_destinations(views(sandbox.network_destinations@), origins),
                            "sandbox networkDestinations must contain unique canonical HTTP(S) origins or one * public wildcard"@,
                        ),
                        both(
                            reject_if(
                                sandbox.oci_image matches Some(image) && !is_immutable_image(image@),
                                "OCI images must use an immutable @sha256: digest"@,
                            ),
                            both(
                                reject_if(
                                    sandbox.oci_proxy_image matches Some(image) && !is_immutable_image(image@),
                                    "OCI proxy images must use an immutable SHA-256 reference"@,
                                ),
                                reject_if(
                                    sandbox.backend@ == "oci"@ && sandbox.network_destinations@.len() > 0
                                        && sandbox.oci_proxy_image is None,
                                    "networked OCI sandboxing requires ociProxyImage"@,
                                ),
                            ),
                        ),
                    ),
                ),
            ),
        ),
    )
}

/// Checks the executables, roots, variables, destinations and images of a sandbox.
pub fn validate_sandbox_grants(
    platform: Platform,
    sandbox: &SandboxConfig,
    origins: &Vec<OriginFinding>,
) -> (result: Result<
    (),
    RuntimeError,
>)
    ensures
        answers(result, grants_verdict(platform, *sandbox, origins@)),
{
    if !roots_absolute(platform, sandbox) {
        return config_error("sandbox executables and filesystem roots must be absolute");
    }
    if let Some(path) = &sandbox.oci_runtime {
        if !is_absolute(platform, path.as_str()) {
            return config_error("OCI runtime path must be absolute");
        }
        if !valid_oci_runtime_name(platform, path.as_str()) {
            return config_error("OCI runtime must be an exact Docker or Podman executable path");
        }
    }
    if !all_environment_names(&sandbox.environment) {
        return config_error("sandbox environment entries must be POSIX-style variable names");
    }
    if !valid_destinations(&sandbox.network_destinations, origins) {
        return config_error(
            "sandbox networkDestinations must contain unique canonical HTTP(S) origins or one * public wildcard",
        );
    }
    if let Some(image) = &sandbox.oci_image {
        if !valid_oci_image_reference(image.as_str()) {
            return config_error("OCI images must use an immutable @sha256: digest");
        }
    }
    if let Some(image) = &sandbox.oci_proxy_image {
        if !valid_oci_image_reference(image.as_str()) {
            return config_error("OCI proxy images must use an immutable SHA-256 reference");
        }
    }
    if same_text(sandbox.backend.as_str(), "oci") && sandbox.network_destinations.len() > 0
        && sandbox.oci_proxy_image.is_none() {
        return config_error("networked OCI sandboxing requires ociProxyImage");
    }
    Ok(())
}

/// The network origins of one provider profile.
#[derive(Debug)]
pub struct ProviderOrigins {
    /// Origin of its API.
    pub origin: Option<String>,
    /// Origins it authenticates at.
    pub authentication: Vec<String>,
}

/// What adapters answered for the parts of a configuration that are their own.
#[derive(Debug)]
pub struct ConfigFindings {
    /// Access profile.
    pub access: Result<(), String>,
    /// PostgreSQL settings.
    pub postgres: Result<(), String>,
    /// Observability settings.
    pub observability: Result<(), String>,
    /// Context settings.
    pub context: Result<(), ContextError>,
    /// Origin of the Chroma server.
    pub chroma_origin: Result<String, RuntimeError>,
    /// Local embedding dimensions.
    pub local_embedding: Result<(), RuntimeError>,
    /// Origin of the embedding endpoint.
    pub embedding_origin: Result<String, RuntimeError>,
    /// Origin of each search profile, in order.
    pub search_origins: Vec<Result<String, RuntimeError>>,
    /// MCP servers.
    pub mcp: Result<(), String>,
    /// Provider and model registry.
    pub provider_registry: Result<(), RuntimeError>,
    /// Origins of each provider profile, in order.
    pub provider_origins: Vec<Result<ProviderOrigins, RuntimeError>>,
    /// Every resource that a check asks about.
    pub origins: Vec<OriginFinding>,
}

/// There is one finding for each search and each provider profile.
pub open spec fn findings_cover(config: RuntimeConfig, findings: ConfigFindings) -> bool {
    &&& findings.search_origins@.len() == config.search.profiles@.len()
    &&& findings.provider_origins@.len() == config.providers.profiles@.len()
}

/// The verdict on an origin that a check needs to be reachable.
pub open spec fn reach_verdict(
    origin: Result<String, RuntimeError>,
    before: Seq<char>,
    sandbox: SandboxConfig,
    origins: Seq<OriginFinding>,
) -> Verdict {
    match origin {
        Err(error) => Verdict::Forward(error),
        Ok(origin) => match network_allowance(sandbox, origin@, origins) {
            Err(text) => Verdict::Reject(text),
            Ok(false) => Verdict::Reject(before + origin@ + " is absent from sandbox.networkDestinations"@),
            Ok(true) => Verdict::Accept,
        },
    }
}

/// Checks that an origin is reachable; the failure begins with `before`.
pub fn require_reach(
    origin: &Result<String, RuntimeError>,
    before: &str,
    sandbox: &SandboxConfig,
    origins: &Vec<OriginFinding>,
) -> (result: Result<(), RuntimeError>)
    ensures
        answers(result, reach_verdict(*origin, before@, *sandbox, origins@)),
{
    match origin {
        Err(error) => Err(error.clone()),
        Ok(origin) => match sandbox_allows_network(sandbox, origin.as_str(), origins) {
            Err(error) => Err(error),
            Ok(true) => Ok(()),
            Ok(false) => config_error3(before, origin.as_str(), " is absent from sandbox.networkDestinations"),
        },
    }
}

/// What an adapter answered, its failure handed on.
pub open spec fn forward_verdict(result: Result<(), RuntimeError>) -> Verdict {
    match result {
        Ok(_) => Verdict::Accept,
        Err(error) => Verdict::Forward(error),
    }
}

/// The verdict on memory settings.
pub open spec fn memory_verdict(memory: MemoryConfig, sandbox: SandboxConfig, findings: ConfigFindings) -> Verdict {
    match memory.semantic {
        SemanticMemoryConfig::Disabled => Verdict::Accept,
        SemanticMemoryConfig::Chroma { embedding, .. } => both(
            reject_if(!memory.index_enabled, "memory semantic Chroma requires indexEnabled: true"@),
            both(
                reach_verdict(findings.chroma_origin, "Chroma origin "@, sandbox, findings.origins@),
                match embedding {
                    MemoryEmbeddingConfig::Local { .. } => forward_verdict(findings.local_embedding),
                    MemoryEmbeddingConfig::OpenAiCompatible { .. } => reach_verdict(
                        findings.embedding_origin,
                        "embedding origin "@,
                        sandbox,
                        findings.origins@,
                    ),
                },
            ),
        ),
    }
}

/// Checks a semantic projection: it needs the lexical index, and the sandbox reaches what it uses.
pub fn validate_memory_config(memory: &MemoryConfig, sandbox: &SandboxConfig, findings: &ConfigFindings) -> (result:
    Result<(), RuntimeError>)
    ensures
        answers(result, memory_verdict(*memory, *sandbox, *findings)),
{
    match &memory.semantic {
        SemanticMemoryConfig::Disabled => Ok(()),
        SemanticMemoryConfig::Chroma { embedding, .. } => {
            if !memory.index_enabled {
                return config_error("memory semantic Chroma requires indexEnabled: true");
            }
            require_reach(&findings.chroma_origin, "Chroma origin ", sandbox, &findings.origins)?;
            match embedding {
                MemoryEmbeddingConfig::Local { .. } => match &findings.local_embedding {
                    Ok(_) => Ok(()),
                    Err(error) => Err(error.clone()),
                },
                MemoryEmbeddingConfig::OpenAiCompatible { .. } => require_reach(
                    &findings.embedding_origin,
                    "embedding origin ",
                    sandbox,
                    &findings.origins,
                ),
            }
        },
    }
}

/// A role that may use search.
pub open spec fn search_role(role: Seq<char>) -> bool {
    role == "agent"@ || role == "research"@
}

/// The verdict on search profiles, in order.
pub open spec fn search_profiles_verdict(
    list: Seq<Entry<SearchProfileConfig>>,
    found: Seq<Result<String, RuntimeError>>,
    sandbox: SandboxConfig,
    origins: Seq<OriginFinding>,
) -> Verdict
    decreases list.len(),
{
    if list.len() == 0 {
        Verdict::Accept
    } else {
        both(
            reach_verdict(found[0], "search profile "@ + list[0].key@ + " origin "@, sandbox, origins),
            search_profiles_verdict(list.skip(1), found.skip(1), sandbox, origins),
        )
    }
}

/// The verdict on search settings.
pub open spec fn search_verdict(config: RuntimeConfig, findings: ConfigFindings) -> Verdict {
    both(
        reject_if(
            exists|i: int|
                0 <= i < config.search.roles@.len() && !search_role((#[trigger] config.search.roles@[i]).key@),
            "search roles must be exactly agent or research"@,
        ),
        search_profiles_verdict(
            config.search.profiles@,
            findings.search_origins@,
            config.sandbox,
            findings.origins@,
        ),
    )
}

/// Checks that only the agent and research roles search, and that the sandbox reaches every profile.
pub fn validate_search_config(config: &RuntimeConfig, findings: &ConfigFindings) -> (result: Result<
    (),
    RuntimeError,
>)
    requires
        findings_cover(*config, *findings),
    ensures
        answers(result, search_verdict(*config, *findings)),
{
    let roles = &config.search.roles;
    let mut r: usize = 0;
    while r < roles.len()
        invariant
            r <= roles@.len(),
            roles@ == config.search.roles@,
            forall|i: int| 0 <= i < r ==> search_role((#[trigger] roles@[i]).key@),
        decreases roles@.len() - r,
    {
        let role = roles[r].key.as_str();
        if !same_text(role, "agent") && !same_text(role, "research") {
            proof {
                assert(!search_role(config.search.roles@[r as int].key@));
            }
            return config_error("search roles must be exactly agent or research");
        }
        r = r + 1;
    }
    let list = &config.search.profiles;
    let ghost whole = search_profiles_verdict(
        list@,
        findings.search_origins@,
        config.sandbox,
        findings.origins@,
    );
    let mut i: usize = 0;
    proof {
        assert(list@.skip(0) =~= list@);
        assert(findings.search_origins@.skip(0) =~= findings.search_origins@);
    }
    while i < list.len()
        invariant
            i <= list@.len(),
            list@ == config.search.profiles@,
            findings_cover(*config, *findings),
            search_verdict(*config, *findings) == whole,
            whole == search_profiles_verdict(
                list@.skip(i as int),
                findings.search_origins@.skip(i as int),
                config.sandbox,
                findings.origins@,
            ),
        decreases list@.len() - i,
    {
        let before = concat3("search profile ", list[i].key.as_str(), " origin ");
        require_reach(&findings.search_origins[i], before.as_str(), &config.sandbox, &findings.origins)?;
        proof {
            assert(list@.skip(i as int).skip(1) =~= list@.skip(i + 1));
            assert(findings.search_origins@.skip(i as int).skip(1) =~= findings.search_origins@.skip(i + 1));
        }
        i = i + 1;
    }
    Ok(())
}

/// A role that models are routed by.
pub open spec fn model_role(role: Seq<char>) -> bool {
    role == "primary"@ || role == "risk_evaluator"@ || role == "context_summarizer"@ || role
        == "subagent_default"@ || role == "research_planner"@ || role == "research_worker"@ || role
        == "research_synthesizer"@
}

fn is_model_role(role: &str) -> (yes: bool)
    ensures
        yes == model_role(role@),
{
    same_text(role, "primary") || same_text(role, "risk_evaluator") || same_text(role, "context_summarizer")
        || same_text(role, "subagent_default") || same_text(role, "research_planner") || same_text(
        role,
        "research_worker",
    ) || same_text(role, "research_synthesizer")
}

/// The verdict on the authentication origins of a provider, in order.
pub open spec fn authentication_verdict(
    name: Seq<char>,
    list: Seq<String>,
    sandbox: SandboxConfig,
    origins: Seq<OriginFinding>,
) -> Verdict
    decreases list.len(),
{
    if list.len() == 0 {
        Verdict::Accept
    } else {
        both(
            reach_verdict(
                Ok(list[0]),
                "provider profile "@ + name + " authentication origin "@,
                sandbox,
                origins,
            ),
            authentication_verdict(name, list.skip(1), sandbox, origins),
        )
    }
}

/// The verdict on one provider profile.
pub open spec fn provider_verdict(
    name: Seq<char>,
    found: Result<ProviderOrigins, RuntimeError>,
    sandbox: SandboxConfig,
    origins: Seq<OriginFinding>,
) -> Verdict {
    match found {
        Err(error) => Verdict::Forward(error),
        Ok(known) => both(
            match known.origin {
                Some(origin) => reach_verdict(
                    Ok(origin),
                    "provider profile "@ + name + " origin "@,
                    sandbox,
                    origins,
                ),
                None => Verdict::Accept,
            },
            authentication_verdict(name, known.authentication@, sandbox, origins),
        ),
    }
}

fn validate_provider(
    name: &str,
    found: &Result<ProviderOrigins, RuntimeError>,
    sandbox: &SandboxConfig,
    origins: &Vec<OriginFinding>,
) -> (result: Result<(), RuntimeError>)
    ensures
        answers(result, provider_verdict(name@, *found, *sandbox, origins@)),
{
    let known = match found {
        Err(error) => {
            return Err(error.clone());
        },
        Ok(known) => known,
    };
    if let Some(origin) = &known.origin {
        let before = concat3("provider profile ", name, " origin ");
        require_reach(&Ok(origin.clone()), before.as_str(), sandbox, origins)?;
    }
    let list = &known.authentication;
    let mut i: usize = 0;
    proof {
        assert(list@.skip(0) =~= list@);
    }
    while i < list.len()
        invariant
            i <= list@.len(),
            authentication_verdict(name@, list@, *sandbox, origins@) == authentication_verdict(
                name@,
                list@.skip(i as int),
                *sandbox,
                origins@,
            ),
            provider_verdict(name@, *found, *sandbox, origins@) == authentication_verdict(
                name@,
                list@,
                *sandbox,
                origins@,
            ),
        decreases list@.len() - i,
    {
        let before = concat3("provider profile ", name, " authentication origin ");
        require_reach(&Ok(list[i].clone()), before.as_str(), sandbox, origins)?;
        proof {
            assert(list@.skip(i as int).skip(1) =~= list@.skip(i + 1));
        }
        i = i + 1;
    }
    Ok(())
}

/// The verdict on provider profiles, in order.
pub open spec fn provider_profiles_verdict(
    list: Seq<Entry<ProviderProfileConfig>>,
    found: Seq<Result<ProviderOrigins, RuntimeError>>,
    sandbox: SandboxConfig,
    origins: Seq<OriginFinding>,
) -> Verdict
    decreases list.len(),
{
    if list.len() == 0 {
        Verdict::Accept
    } else {
        both(
            provider_verdict(list[0].key@, found[0], sandbox, origins),
            provider_profiles_verdict(list.skip(1), found.skip(1), sandbox, origins),
        )
    }
}

/// The verdict on providers and model roles.
pub open spec fn providers_verdict(config: RuntimeConfig, findings: ConfigFindings) -> Verdict {
    both(
        reject_if(
            exists|i: int|
                0 <= i < config.models.roles@.len() && !model_role((#[trigger] config.models.roles@[i]).key@),
            "model roles contain an unknown role name"@,
        ),
        both(
            forward_verdict(findings.provider_registry),
            provider_profiles_verdict(
                config.providers.profiles@,
                findings.provider_origins@,
                config.sandbox,
                findings.origins@,
            ),
        ),
    )
}

/// Checks that only known roles are routed, and that the sandbox reaches every provider.
pub fn validate_provider_config(config: &RuntimeConfig, findings: &ConfigFindings) -> (result: Result<
    (),
    RuntimeError,
>)
    requires
        findings_cover(*config, *findings),
    ensures
        answers(result, providers_verdict(*config, *findings)),
{
    let roles = &config.models.roles;
    let mut r: usize = 0;
    while r < roles.len()
        invariant
            r <= roles@.len(),
            roles@ == config.models.roles@,
            forall|i: int| 0 <= i < r ==> model_role((#[trigger] roles@[i]).key@),
        decreases roles@.len() - r,
    {
        if !is_model_role(roles[r].key.as_str()) {
            proof {
                assert(!model_role(config.models.roles@[r as int].key@));
            }
            return config_error("model roles contain an unknown role name");
        }
        r = r + 1;
    }
    match &findings.provider_registry {
        Err(error) => {
            return Err(error.clone());
        },
        Ok(_) => {},
    }
    let list = &config.providers.profiles;
    let ghost whole = provider_profiles_verdict(
        list@,
        findings.provider_origins@,
        config.sandbox,
        findings.origins@,
    );
    let mut i: usize = 0;
    proof {
        assert(list@.skip(0) =~= list@);
        assert(findings.provider_origins@.skip(0) =~= findings.provider_origins@);
    }
    while i < list.len()
        invariant
            i <= list@.len(),
            list@ == config.providers.profiles@,
            findings_cover(*config, *findings),
            providers_verdict(*config, *findings) == whole,
            whole == provider_profiles_verdict(
                list@.skip(i as int),
                findings.provider_origins@.skip(i as int),
                config.sandbox,
                findings.origins@,
            ),
        decreases list@.len() - i,
    {
        validate_provider(
            list[i].key.as_str(),
            &findings.provider_origins[i],
            &config.sandbox,
            &findings.origins,
        )?;
        proof {
            assert(list@.skip(i as int).skip(1) =~= list@.skip(i + 1));
            assert(findings.provider_origins@.skip(i as int).skip(1) =~= findings.provider_origins@.skip(i + 1));
        }
        i = i + 1;
    }
    Ok(())
}

/// The verdict on the limits of agents, memory retrieval and context.
pub open spec fn limits_verdict(config: RuntimeConfig, findings: ConfigFindings, max_turns: u16) -> Verdict {
    both(
        reject_if(
            !(1 <= config.agent.max_turns <= max_turns),
            "agent.maxTurns must be in 1..="@ + decimal(max_turns as nat),
        ),
        both(
            reject_if(config.subagents.max_concurrent == 0, "subagents.maxConcurrent must be at least 1"@),
            both(
                match findings.context {
                    Ok(_) => Verdict::Accept,
                    Err(error) => Verdict::Forward(RuntimeError::Context(error)),
                },
                reject_if(
                    !(1 <= config.memory.retrieval_limit <= 100),
                    "memory.retrievalLimit must be in 1..=100"@,
                ),
            ),
        ),
    )
}

fn validate_limits(config: &RuntimeConfig, findings: &ConfigFindings, max_turns: u16) -> (result: Result<
    (),
    RuntimeError,
>)
    ensures
        answers(result, limits_verdict(*config, *findings, max_turns)),
{
    if config.agent.max_turns < 1 || config.agent.max_turns > max_turns {
        let most = decimal_text(max_turns as u64);
        return Err(RuntimeError::Config(concat2("agent.maxTurns must be in 1..=", most.as_str())));
    }
    if config.subagents.max_concurrent == 0 {
        return config_error("subagents.maxConcurrent must be at least 1");
    }
    match &findings.context {
        Err(error) => {
            return Err(RuntimeError::Context(error.clone()));
        },
        Ok(_) => {},
    }
    if config.memory.retrieval_limit < 1 || config.memory.retrieval_limit > 100 {
        return config_error("memory.retrievalLimit must be in 1..=100");
    }
    Ok(())
}

/// The compiled bounds that a configuration is checked against.
#[derive(Clone, Copy, Debug, PartialEq, Eq, Structural)]
pub struct CompiledBounds {
    /// Platform of the host.
    pub platform: Platform,
    /// Least sandbox timeouts.
    pub floors: SandboxFloors,
    /// Most agent turns.
    pub max_turns: u16,
}

/// The verdict on a whole configuration: the first failure in the order of its sections.
pub open spec fn config_verdict(config: RuntimeConfig, findings: ConfigFindings, bounds: CompiledBounds) -> Verdict {
    both(
        finding_verdict(findings.access),
        both(
            storage_verdict(config.storage, findings.postgres),
            both(
                reject_if(
                    config.storage.location == StorageLocation::HomeWorkspace && !confined(
                        bounds.platform,
                        config.storage.path@,
                    ),
                    "storage.path must be a confined relative path when storage.location is home_workspace"@,
                ),
                both(
                    audit_verdict(config.audit, config.sandbox, findings.origins@),
                    both(
                        finding_verdict(findings.observability),
                        both(
                            timeouts_verdict(config.providers.profiles@),
                            both(
                                reject_if(
                                    config.network.ca_bundle_path matches Some(path) && path@.len() == 0,
                                    "network.caBundlePath must be a nonempty file path"@,
                                ),
                                both(
                                    boundary_verdict(config.sandbox, bounds.platform, bounds.floors),
                                    both(
                                        grants_verdict(bounds.platform, config.sandbox, findings.origins@),
                                        both(
                                            limits_verdict(config, findings, bounds.max_turns),
                                            both(
                                                memory_verdict(config.memory, config.sandbox, findings),
                                                sources_verdict(bounds.platform, config, findings),
                                            ),
                                        ),
                                    ),
                                ),
                            ),
                        ),
                    ),
                ),
            ),
        ),
    )
}

/// The verdict on research, search, MCP servers, plugins and providers.
pub open spec fn sources_verdict(platform: Platform, config: RuntimeConfig, findings: ConfigFindings) -> Verdict {
    both(
        reject_if(
            !(1 <= config.research.max_sources <= 100) || !(1 <= config.research.max_workers <= 16),
            "research.maxSources must be in 1..=100 and research.maxWorkers in 1..=16"@,
        ),
        both(
            search_verdict(config, findings),
            both(
                finding_verdict(findings.mcp),
                both(
                    plugins_verdict(platform, config.plugins, findings.origins@),
                    providers_verdict(config, findings),
                ),
            ),
        ),
    )
}

fn validate_sources(
    platform: Platform,
    config: &RuntimeConfig,
    findings: &ConfigFindings,
) -> (result: Result<(), RuntimeError>)
    requires
        findings_cover(*config, *findings),
    ensures
        answers(result, sources_verdict(platform, *config, *findings)),
{
    if config.research.max_sources < 1 || config.research.max_sources > 100 || config.research.max_workers < 1
        || config.research.max_workers > 16 {
        return config_error("research.maxSources must be in 1..=100 and research.maxWorkers in 1..=16");
    }
    validate_search_config(config, findings)?;
    report(&findings.mcp)?;
    validate_plugins_config(platform, &config.plugins, &findings.origins)?;
    validate_provider_config(config, findings)
}

/// Checks a whole configuration and answers with the first failure in the order of its sections.
pub fn validate_config(config: &RuntimeConfig, findings: &ConfigFindings, bounds: CompiledBounds) -> (result: Result<
    (),
    RuntimeError,
>)
    requires
        findings_cover(*config, *findings),
    ensures
        answers(result, config_verdict(*config, *findings, bounds)),
{
    report(&findings.access)?;
    validate_storage_config(&config.storage, &findings.postgres)?;
    if config.storage.location == StorageLocation::HomeWorkspace && !confined_relative_storage_path(
        bounds.platform,
        config.storage.path.as_str(),
    ) {
        return config_error(
            "storage.path must be a confined relative path when storage.location is home_workspace",
        );
    }
    validate_audit_config(&config.audit, &config.sandbox, &findings.origins)?;
    report(&findings.observability)?;
    validate_provider_timeouts(&config.providers.profiles)?;
    if let Some(path) = &config.network.ca_bundle_path {
        if path.as_str().is_empty() {
            return config_error("network.caBundlePath must be a nonempty file path");
        }
    }
    validate_sandbox_boundary(&config.sandbox, bounds.platform, bounds.floors)?;
    validate_sandbox_grants(bounds.platform, &config.sandbox, &findings.origins)?;
    validate_limits(config, findings, bounds.max_turns)?;
    validate_memory_config(&config.memory, &config.sandbox, findings)?;
    validate_sources(bounds.platform, config, findings)
}

/// Two rules both hold exactly where each of them does, and the first that does not gives the reason.
pub proof fn rules_are_met_together(first: Verdict, second: Verdict)
    ensures
        both(first, second) is Accept <==> first is Accept && second is Accept,
        !(first is Accept) ==> both(first, second) == first,
        first is Accept ==> both(first, second) == second,
{
}

/// The names that `models.roles` may use.
pub open spec fn documented_model_roles() -> Seq<Seq<char>> {
    seq![
        "primary"@,
        "risk_evaluator"@,
        "context_summarizer"@,
        "subagent_default"@,
        "research_planner"@,
        "research_worker"@,
        "research_synthesizer"@,
    ]
}

/// Whether a provider's origins were all found and may all be reached.
pub open spec fn reachable_provider(
    found: Result<ProviderOrigins, RuntimeError>,
    sandbox: SandboxConfig,
    origins: Seq<OriginFinding>,
) -> bool {
    &&& found is Ok
    &&& found->Ok_0.origin matches Some(origin) ==> network_allowance(sandbox, origin@, origins) == Ok::<
        bool,
        Seq<char>,
    >(true)
    &&& forall|i: int|
        0 <= i < found->Ok_0.authentication@.len() ==> network_allowance(
            sandbox,
            (#[trigger] found->Ok_0.authentication@[i])@,
            origins,
        ) == Ok::<bool, Seq<char>>(true)
}

/// Providers are accepted exactly where every role is one of the seven documented ones, the registry
/// takes the configuration, and every origin was found and can be reached. An unknown role is the
/// first thing that is refused.
pub proof fn documented_roles_are_accepted(config: RuntimeConfig, findings: ConfigFindings)
    requires
        findings_cover(config, findings),
    ensures
        providers_verdict(config, findings) is Accept <==> {
            &&& forall|i: int|
                0 <= i < config.models.roles@.len() ==> documented_model_roles().contains(
                    (#[trigger] config.models.roles@[i]).key@,
                )
            &&& findings.provider_registry is Ok
            &&& forall|i: int|
                0 <= i < findings.provider_origins@.len() ==> reachable_provider(
                    #[trigger] findings.provider_origins@[i],
                    config.sandbox,
                    findings.origins@,
                )
        },
        (exists|i: int|
            0 <= i < config.models.roles@.len() && !documented_model_roles().contains(
                (#[trigger] config.models.roles@[i]).key@,
            )) ==> providers_verdict(config, findings) == Verdict::Reject(
            "model roles contain an unknown role name"@,
        ),
        findings.provider_registry matches Err(error) ==> !(providers_verdict(config, findings) is Accept),
{
    assert forall|role: Seq<char>| #[trigger] model_role(role) == documented_model_roles().contains(role) by {
        let names = documented_model_roles();
        assert(names[0] == "primary"@ && names[1] == "risk_evaluator"@ && names[2] == "context_summarizer"@);
        assert(names[3] == "subagent_default"@ && names[4] == "research_planner"@);
        assert(names[5] == "research_worker"@ && names[6] == "research_synthesizer"@);
    }
    assert forall|i: int| 0 <= i < config.models.roles@.len() implies model_role(
        (#[trigger] config.models.roles@[i]).key@,
    ) == documented_model_roles().contains(config.models.roles@[i].key@) by {}
    reachable_profiles_are_accepted(
        config.providers.profiles@,
        findings.provider_origins@,
        config.sandbox,
        findings.origins@,
    );
}

proof fn reachable_profiles_are_accepted(
    list: Seq<Entry<ProviderProfileConfig>>,
    found: Seq<Result<ProviderOrigins, RuntimeError>>,
    sandbox: SandboxConfig,
    origins: Seq<OriginFinding>,
)
    requires
        list.len() == found.len(),
    ensures
        provider_profiles_verdict(list, found, sandbox, origins) is Accept <==> forall|i: int|
            0 <= i < found.len() ==> reachable_provider(#[trigger] found[i], sandbox, origins),
    decreases list.len(),
{
    if list.len() > 0 {
        if found[0] is Ok {
            reachable_authentication_is_accepted(list[0].key@, found[0]->Ok_0.authentication@, sandbox, origins);
        }
        assert(provider_verdict(list[0].key@, found[0], sandbox, origins) is Accept == reachable_provider(
            found[0],
            sandbox,
            origins,
        ));
        let rest = found.skip(1);
        reachable_profiles_are_accepted(list.skip(1), rest, sandbox, origins);
        if forall|i: int| 0 <= i < found.len() ==> reachable_provider(#[trigger] found[i], sandbox, origins) {
            assert forall|i: int| 0 <= i < rest.len() implies reachable_provider(#[trigger] rest[i], sandbox, origins) by {
                assert(rest[i] == found[i + 1]);
            }
        }
        if reachable_provider(found[0], sandbox, origins) && forall|i: int|
            0 <= i < rest.len() ==> reachable_provider(#[trigger] rest[i], sandbox, origins) {
            assert forall|i: int| 0 <= i < found.len() implies reachable_provider(
                #[trigger] found[i],
                sandbox,
                origins,
            ) by {
                if i > 0 {
                    assert(rest[i - 1] == found[i]);
                }
            }
        }
    }
}

proof fn reachable_authentication_is_accepted(
    name: Seq<char>,
    list: Seq<String>,
    sandbox: SandboxConfig,
    origins: Seq<OriginFinding>,
)
    ensures
        authentication_verdict(name, list, sandbox, origins) is Accept <==> forall|i: int|
            0 <= i < list.len() ==> network_allowance(sandbox, (#[trigger] list[i])@, origins) == Ok::<
                bool,
                Seq<char>,
            >(true),
    decreases list.len(),
{
    if list.len() > 0 {
        let rest = list.skip(1);
        reachable_authentication_is_accepted(name, rest, sandbox, origins);
        if forall|i: int|
            0 <= i < list.len() ==> network_allowance(sandbox, (#[trigger] list[i])@, origins) == Ok::<
                bool,
                Seq<char>,
            >(true) {
            assert forall|i: int| 0 <= i < rest.len() implies network_allowance(
                sandbox,
                (#[trigger] rest[i])@,
                origins,
            ) == Ok::<bool, Seq<char>>(true) by {
                assert(rest[i] == list[i + 1]);
            }
        }
        if authentication_verdict(name, list, sandbox, origins) is Accept {
            assert forall|i: int| 0 <= i < list.len() implies network_allowance(
                sandbox,
                (#[trigger] list[i])@,
                origins,
            ) == Ok::<bool, Seq<char>>(true) by {
                if i > 0 {
                    assert(rest[i - 1] == list[i]);
                }
            }
        }
    }
}

/// A document is read exactly where its root is a mapping of schema version 3 with no legacy tool or
/// action list in it.
pub proof fn current_documents_are_read(document: DocumentSummary)
    ensures
        document_verdict(document) is Accept <==> document.mapping && document.schema_version == Some(3u64)
            && !document.legacy_tools && !document.legacy_actions,
        !(document_verdict(document) is Forward),
{
}

/// Storage is accepted exactly where PostgreSQL is configured for the PostgreSQL adapter alone, and its
/// settings hold there, and process-local state keeps no protected keys.
pub proof fn storage_matches_its_adapter(storage: StorageConfig, postgres: Result<(), String>)
    ensures
        storage_verdict(storage, postgres) is Accept <==> match storage.adapter {
            StorageAdapter::Redb => !storage.postgres,
            StorageAdapter::Ephemeral => !storage.postgres && storage.keys is Plaintext,
            StorageAdapter::Postgres => storage.postgres && postgres is Ok,
        },
        !(storage_verdict(storage, postgres) is Forward),
{
}

/// The audit exporter is accepted everywhere but where it sends records over HTTP to an endpoint that
/// is no plain HTTPS directory, that cannot be reached, or whose credential variable is not granted.
pub proof fn audit_endpoints_are_plain(audit: AuditConfig, sandbox: SandboxConfig, origins: Seq<OriginFinding>)
    ensures
        !(audit.exporter is WormHttp) ==> audit_verdict(audit, sandbox, origins) is Accept,
        audit.exporter matches AuditExporterConfig::WormHttp { endpoint, credential_reference } ==> (audit_verdict(
            audit,
            sandbox,
            origins,
        ) is Accept <==> {
            &&& url_parts(endpoint@) matches Some(url) && url.scheme == "https"@ && url.has_host && url.username.len()
                == 0 && !url.has_password && !url.has_query && !url.has_fragment && url.path.len() > 0
                && url.path.last() == '/' && !url.cannot_be_a_base
            &&& network_allowance(sandbox, url_origin(endpoint@)->0, origins) == Ok::<bool, Seq<char>>(true)
            &&& credential_reference matches Some(reference) ==> exists|variable: Seq<char>|
                reference@ == #[trigger] ("env:"@ + variable) && is_environment_name(variable) && (sandbox.backend@
                    == "danger_full_access"@ || exists|i: int|
                    0 <= i < sandbox.environment@.len() && (#[trigger] sandbox.environment@[i])@ == variable)
        }),
{
    if let AuditExporterConfig::WormHttp { endpoint, credential_reference } = audit.exporter {
        if let Some(reference) = credential_reference {
            granted_variables_are_accepted(reference@, sandbox);
        }
    }
}

proof fn granted_variables_are_accepted(reference: Seq<char>, sandbox: SandboxConfig)
    ensures
        credential_verdict(reference, sandbox) is Accept <==> exists|variable: Seq<char>|
            reference == #[trigger] ("env:"@ + variable) && is_environment_name(variable) && (sandbox.backend@
                == "danger_full_access"@ || exists|i: int|
                0 <= i < sandbox.environment@.len() && (#[trigger] sandbox.environment@[i])@ == variable),
{
    let names = views(sandbox.environment@);
    let rest = reference.skip("env:"@.len() as int);
    containing_is_standing_between(reference, "env:"@);
    assert(forall|i: int| 0 <= i < names.len() ==> #[trigger] names[i] == sandbox.environment@[i]@);
    if credential_verdict(reference, sandbox) is Accept {
        let after = choose|after: Seq<char>| reference == #[trigger] ("env:"@ + after);
        assert(after == rest);
        if sandbox.backend@ != "danger_full_access"@ {
            let i = choose|i: int| 0 <= i < names.len() && names[i] == rest;
            assert(sandbox.environment@[i]@ == rest);
        }
    }
    if exists|variable: Seq<char>|
        reference == #[trigger] ("env:"@ + variable) && is_environment_name(variable) && (sandbox.backend@
            == "danger_full_access"@ || exists|i: int|
            0 <= i < sandbox.environment@.len() && (#[trigger] sandbox.environment@[i])@ == variable) {
        let variable = choose|variable: Seq<char>|
            reference == #[trigger] ("env:"@ + variable) && is_environment_name(variable) && (sandbox.backend@
                == "danger_full_access"@ || exists|i: int|
                0 <= i < sandbox.environment@.len() && (#[trigger] sandbox.environment@[i])@ == variable);
        assert(variable == rest);
        if sandbox.backend@ != "danger_full_access"@ {
            let i = choose|i: int|
                0 <= i < sandbox.environment@.len() && (#[trigger] sandbox.environment@[i])@ == variable;
            assert(names[i] == rest);
        }
    }
}

/// Provider timeouts are accepted exactly where every profile waits at all, and for a generation no
/// shorter than for a request.
pub proof fn timeouts_are_positive_and_ordered(list: Seq<Entry<ProviderProfileConfig>>)
    ensures
        timeouts_verdict(list) is Accept <==> forall|i: int|
            0 <= i < list.len() ==> 0 < (#[trigger] list[i]).value.timeout_in_force()
                <= list[i].value.generation_timeout_in_force(),
        !(timeouts_verdict(list) is Forward),
    decreases list.len(),
{
    if list.len() > 0 {
        let rest = list.skip(1);
        timeouts_are_positive_and_ordered(rest);
        if timeouts_verdict(list) is Accept {
            assert forall|i: int| 0 <= i < list.len() implies 0 < (#[trigger] list[i]).value.timeout_in_force()
                <= list[i].value.generation_timeout_in_force() by {
                if i > 0 {
                    assert(rest[i - 1] == list[i]);
                }
            }
        }
        if forall|i: int|
            0 <= i < list.len() ==> 0 < (#[trigger] list[i]).value.timeout_in_force()
                <= list[i].value.generation_timeout_in_force() {
            assert forall|i: int| 0 <= i < rest.len() implies 0 < (#[trigger] rest[i]).value.timeout_in_force()
                <= rest[i].value.generation_timeout_in_force() by {
                assert(rest[i] == list[i + 1]);
            }
        }
    }
}

/// A sandbox boundary is accepted exactly where the backend is one of the six documented ones, each
/// acknowledgement belongs to its backend, every limit is positive and the timeout leaves room for
/// the backend's cleanup.
pub proof fn documented_boundaries_are_accepted(sandbox: SandboxConfig, platform: Platform, floors: SandboxFloors)
    ensures
        boundary_verdict(sandbox, platform, floors) is Accept <==> {
            &&& seq!["native"@, "oci"@, "windows_job"@, "broker"@, "external"@, "danger_full_access"@].contains(
                sandbox.backend@,
            )
            &&& sandbox.backend@ == "broker"@ ==> sandbox.allow_broker_fallback
            &&& sandbox.acknowledge_external_boundary ==> sandbox.backend@ == "external"@
            &&& sandbox.acknowledge_danger_full_access ==> sandbox.backend@ == "danger_full_access"@
            &&& sandbox.profile@.len() > 0 && sandbox.timeout_ms > 0 && sandbox.max_output_bytes >= 1024
            &&& sandbox.max_processes > 0 && sandbox.max_memory_bytes > 0 && sandbox.max_concurrency > 0
            &&& sandbox.backend@ == "oci"@ ==> !(platform is Windows) && sandbox.timeout_ms
                >= floors.oci_effect_timeout_ms && (sandbox.network_destinations@.len() > 0 ==> sandbox.timeout_ms
                >= floors.oci_network_effect_timeout_ms)
            &&& sandbox.backend@ == "windows_job"@ ==> sandbox.timeout_ms >= floors.windows_job_effect_timeout_ms
        },
        !(boundary_verdict(sandbox, platform, floors) is Forward),
{
    let names = seq!["native"@, "oci"@, "windows_job"@, "broker"@, "external"@, "danger_full_access"@];
    assert(names[0] == "native"@ && names[1] == "oci"@ && names[2] == "windows_job"@);
    assert(names[3] == "broker"@ && names[4] == "external"@ && names[5] == "danger_full_access"@);
}

/// Sandbox grants are accepted exactly where executables and roots are absolute, the OCI runtime is an
/// absolute path of a known runtime, environment entries are variable names, destinations are
/// different canonical origins or the wildcard, images are immutable, and an OCI sandbox that reaches
/// the network has a proxy image.
pub proof fn sound_grants_are_accepted(platform: Platform, sandbox: SandboxConfig, origins: Seq<OriginFinding>)
    ensures
        grants_verdict(platform, sandbox, origins) is Accept <==> {
            &&& forall|i: int|
                0 <= i < sandbox.executables@.len() ==> absolute(platform, (#[trigger] sandbox.executables@[i])@)
            &&& forall|i: int|
                0 <= i < sandbox.filesystem@.len() ==> absolute(platform, (#[trigger] sandbox.filesystem@[i]).root@)
            &&& sandbox.oci_runtime matches Some(path) ==> absolute(platform, path@) && is_oci_runtime(
                platform,
                path@,
            )
            &&& forall|i: int|
                0 <= i < sandbox.environment@.len() ==> is_environment_name((#[trigger] sandbox.environment@[i])@)
            &&& forall|i: int, j: int|
                0 <= i < j < sandbox.network_destinations@.len() ==> (#[trigger] sandbox.network_destinations@[i])@ != (
                #[trigger] sandbox.network_destinations@[j])@
            &&& forall|i: int|
                0 <= i < sandbox.network_destinations@.len() ==> (#[trigger] sandbox.network_destinations@[i])@ == "*"@
                    || is_canonical(origins, sandbox.network_destinations@[i]@)
            &&& sandbox.oci_image matches Some(image) ==> is_immutable_image(image@)
            &&& sandbox.oci_proxy_image matches Some(image) ==> is_immutable_image(image@)
            &&& sandbox.backend@ == "oci"@ && sandbox.network_destinations@.len() > 0 ==> sandbox.oci_proxy_image is Some
        },
{
    let list = views(sandbox.network_destinations@);
    assert(forall|i: int| 0 <= i < list.len() ==> #[trigger] list[i] == sandbox.network_destinations@[i]@);
    assert(forall|i: int|
        0 <= i < list.len() ==> (#[trigger] sandbox.network_destinations@[i])@ == list[i]);
}

/// An origin is accepted exactly where it was found and the sandbox lets it be reached; one that is not
/// granted is named in the refusal.
pub proof fn granted_origins_are_accepted(
    origin: Result<String, RuntimeError>,
    before: Seq<char>,
    sandbox: SandboxConfig,
    origins: Seq<OriginFinding>,
)
    ensures
        reach_verdict(origin, before, sandbox, origins) is Accept <==> origin is Ok && network_allowance(
            sandbox,
            origin->Ok_0@,
            origins,
        ) == Ok::<bool, Seq<char>>(true),
        origin matches Err(error) ==> reach_verdict(origin, before, sandbox, origins) == Verdict::Forward(error),
        origin is Ok && network_allowance(sandbox, origin->Ok_0@, origins) == Ok::<bool, Seq<char>>(false) ==> (
        reach_verdict(origin, before, sandbox, origins) matches Verdict::Reject(text) && contains_text(
            text,
            origin->Ok_0@,
        )),
{
    if origin is Ok {
        parts_are_contained(before, origin->Ok_0@, " is absent from sandbox.networkDestinations"@);
    }
}

/// Memory is accepted where nothing semantic is configured, and otherwise exactly where the index is
/// enabled and the store and the embedding it names can be used.
pub proof fn usable_memory_is_accepted(memory: MemoryConfig, sandbox: SandboxConfig, findings: ConfigFindings)
    ensures
        memory.semantic is Disabled ==> memory_verdict(memory, sandbox, findings) is Accept,
        memory.semantic matches SemanticMemoryConfig::Chroma { embedding, .. } ==> (memory_verdict(
            memory,
            sandbox,
            findings,
        ) is Accept <==> {
            &&& memory.index_enabled
            &&& findings.chroma_origin is Ok && network_allowance(
                sandbox,
                findings.chroma_origin->Ok_0@,
                findings.origins@,
            ) == Ok::<bool, Seq<char>>(true)
            &&& embedding is Local ==> findings.local_embedding is Ok
            &&& embedding is OpenAiCompatible ==> findings.embedding_origin is Ok && network_allowance(
                sandbox,
                findings.embedding_origin->Ok_0@,
                findings.origins@,
            ) == Ok::<bool, Seq<char>>(true)
        }),
{
}

/// Search is accepted exactly where every role is `agent` or `research` and the origin of every profile
/// was found and can be reached.
pub proof fn documented_search_is_accepted(config: RuntimeConfig, findings: ConfigFindings)
    requires
        findings_cover(config, findings),
    ensures
        search_verdict(config, findings) is Accept <==> {
            &&& forall|i: int|
                0 <= i < config.search.roles@.len() ==> (#[trigger] config.search.roles@[i]).key@ == "agent"@
                    || config.search.roles@[i].key@ == "research"@
            &&& forall|i: int|
                0 <= i < findings.search_origins@.len() ==> (#[trigger] findings.search_origins@[i]) is Ok
                    && network_allowance(
                    config.sandbox,
                    findings.search_origins@[i]->Ok_0@,
                    findings.origins@,
                ) == Ok::<bool, Seq<char>>(true)
        },
{
    reachable_searches_are_accepted(
        config.search.profiles@,
        findings.search_origins@,
        config.sandbox,
        findings.origins@,
    );
    if search_verdict(config, findings) is Accept {
        assert forall|i: int| 0 <= i < config.search.roles@.len() implies (
        #[trigger] config.search.roles@[i]).key@ == "agent"@ || config.search.roles@[i].key@ == "research"@ by {
            assert(search_role(config.search.roles@[i].key@));
        }
    }
}

proof fn reachable_searches_are_accepted(
    list: Seq<Entry<SearchProfileConfig>>,
    found: Seq<Result<String, RuntimeError>>,
    sandbox: SandboxConfig,
    origins: Seq<OriginFinding>,
)
    requires
        list.len() == found.len(),
    ensures
        search_profiles_verdict(list, found, sandbox, origins) is Accept <==> forall|i: int|
            0 <= i < found.len() ==> (#[trigger] found[i]) is Ok && network_allowance(
                sandbox,
                found[i]->Ok_0@,
                origins,
            ) == Ok::<bool, Seq<char>>(true),
    decreases list.len(),
{
    if list.len() > 0 {
        let rest = found.skip(1);
        reachable_searches_are_accepted(list.skip(1), rest, sandbox, origins);
        if search_profiles_verdict(list, found, sandbox, origins) is Accept {
            assert forall|i: int| 0 <= i < found.len() implies (#[trigger] found[i]) is Ok && network_allowance(
                sandbox,
                found[i]->Ok_0@,
                origins,
            ) == Ok::<bool, Seq<char>>(true) by {
                if i > 0 {
                    assert(rest[i - 1] == found[i]);
                }
            }
        }
        if forall|i: int|
            0 <= i < found.len() ==> (#[trigger] found[i]) is Ok && network_allowance(
                sandbox,
                found[i]->Ok_0@,
                origins,
            ) == Ok::<bool, Seq<char>>(true) {
            assert forall|i: int| 0 <= i < rest.len() implies (#[trigger] rest[i]) is Ok && network_allowance(
                sandbox,
                rest[i]->Ok_0@,
                origins,
            ) == Ok::<bool, Seq<char>>(true) by {
                assert(rest[i] == found[i + 1]);
            }
        }
    }
}

/// The configured limits are accepted exactly within their documented ranges.
pub proof fn limits_are_within_their_ranges(config: RuntimeConfig, findings: ConfigFindings, max_turns: u16)
    ensures
        limits_verdict(config, findings, max_turns) is Accept <==> {
            &&& 1 <= config.agent.max_turns <= max_turns
            &&& 1 <= config.subagents.max_concurrent
            &&& findings.context is Ok
            &&& 1 <= config.memory.retrieval_limit <= 100
        },
{
}

/// A configuration is accepted exactly where every part of it is: its access, storage, audit,
/// observability, timeouts, sandbox, limits, memory, research, search, MCP, plugins and providers.
pub proof fn a_configuration_is_accepted_in_all_its_parts(
    config: RuntimeConfig,
    findings: ConfigFindings,
    bounds: CompiledBounds,
)
    ensures
        config_verdict(config, findings, bounds) is Accept <==> {
            &&& findings.access is Ok
            &&& storage_verdict(config.storage, findings.postgres) is Accept
            &&& config.storage.location is HomeWorkspace ==> confined(bounds.platform, config.storage.path@)
            &&& audit_verdict(config.audit, config.sandbox, findings.origins@) is Accept
            &&& findings.observability is Ok
            &&& timeouts_verdict(config.providers.profiles@) is Accept
            &&& config.network.ca_bundle_path matches Some(path) ==> path@.len() > 0
            &&& boundary_verdict(config.sandbox, bounds.platform, bounds.floors) is Accept
            &&& grants_verdict(bounds.platform, config.sandbox, findings.origins@) is Accept
            &&& limits_verdict(config, findings, bounds.max_turns) is Accept
            &&& memory_verdict(config.memory, config.sandbox, findings) is Accept
            &&& 1 <= config.research.max_sources <= 100
            &&& 1 <= config.research.max_workers <= 16
            &&& search_verdict(config, findings) is Accept
            &&& findings.mcp is Ok
            &&& plugins_verdict(bounds.platform, config.plugins, findings.origins@) is Accept
            &&& providers_verdict(config, findings) is Accept
        },
{
}

} // verus!
