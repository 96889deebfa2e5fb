//! Transfers with plugin registries: what their permits have to allow, and the credentials that
//! helpers hand out for them.

use crate::config::{extend_texts, Platform, PluginRegistryProfile, RegistryAuthConfig, ResourceAuthority};
use crate::effects::{execution_failure, fails, ExecutionError};
use crate::encoding::{base64_decode, base64_decoded};
use crate::entries::{has_key, insert_value, update_value, value_exists, value_of, Entry};
use crate::error::{config_error, is_config_error, RuntimeError};
use crate::json::{
    failure, field_flag, field_integer, field_text, json_error, json_field_flag, json_field_integer, json_field_text,
};
use crate::operations::PluginRegistryOperation;
use crate::origins::{find, finding, unresolved, DestinationMatch, OriginFinding};
use crate::paths::{ancestors, components, path_ancestors, same_path, starts_with_path, within};
use crate::plugin_management::{enforce_management_path, granted, managed_target, PathLookup, Permit};
use crate::policy_plan::{bundle_files, push_values};
use crate::text::{concat2, concat3, optional_view, same_text, views};
use vstd::prelude::*;
use vstd::string::*;

verus! {

/// Whether a request is the one that was authorized.
pub fn accept_registry_request(action: &str, resource: &str, operation: &PluginRegistryOperation) -> (result: Result<
    (),
    ExecutionError,
>)
    ensures
        ({
            let (expected_action, expected_resource) = match *operation {
                PluginRegistryOperation::Pull { output, .. } => ("plugin.pull"@, output@),
                PluginRegistryOperation::Push { layout, .. } => ("plugin.push"@, layout@),
            };
            if action@ == expected_action && resource@ == expected_resource {
                result is Ok
            } else {
                fails(result, "plugin registry request does not match its authorized effect"@)
            }
        }),
{
    if !same_text(action, operation.action()) || !same_text(resource, operation.resource().as_str()) {
        return execution_failure("plugin registry request does not match its authorized effect");
    }
    Ok(())
}

/// The origins of a registry: its own, those of its tokens and those of its blobs.
pub open spec fn registry_origins(profile: PluginRegistryProfile) -> Seq<Seq<char>> {
    seq![profile.origin@] + views(profile.token_origins@) + views(profile.blob_redirect_origins@)
}

fn origins_of(profile: &PluginRegistryProfile) -> (list: Vec<String>)
    ensures
        views(list@) == registry_origins(*profile),
{
    let mut list: Vec<String> = Vec::new();
    list.push(profile.origin.clone());
    extend_texts(&mut list, &profile.token_origins);
    extend_texts(&mut list, &profile.blob_redirect_origins);
    proof {
        assert(views(list@) =~= registry_origins(*profile));
    }
    list
}

/// Why an origin is not reached, if so: a permit has to name it exactly.
pub open spec fn origin_failure(origin: Seq<char>, findings: Seq<OriginFinding>) -> Option<Seq<char>> {
    match finding(findings, origin) {
        None => Some(unresolved()),
        Some(found) => match found.destination {
            Err(text) => Some(text@),
            Ok(Some(DestinationMatch::Exact)) => None,
            Ok(_) => Some(
                "plugin registry origin is outside the authorized exact destinations: "@ + origin,
            ),
        },
    }
}

/// Why origins are not reached, if so.
pub open spec fn network_failure(origins: Seq<Seq<char>>, findings: Seq<OriginFinding>) -> Option<Seq<char>>
    decreases origins.len(),
{
    if origins.len() == 0 {
        None
    } else {
        match origin_failure(origins[0], findings) {
            Some(text) => Some(text),
            None => network_failure(origins.skip(1), findings),
        }
    }
}

/// Whether a permit lets a transfer reach every origin of a registry. `findings` say how the permit's
/// destinations cover origins.
pub fn enforce_registry_network(
    profile: &PluginRegistryProfile,
    authority: ResourceAuthority,
    findings: &Vec<OriginFinding>,
) -> (result: Result<(), ExecutionError>)
    ensures
        match network_failure(registry_origins(*profile), findings@) {
            Some(text) if authority != ResourceAuthority::Ambient => fails(result, text),
            _ => result is Ok,
        },
{
    if authority == ResourceAuthority::Ambient {
        return Ok(());
    }
    let origins = origins_of(profile);
    let ghost all = registry_origins(*profile);
    let mut i: usize = 0;
    proof {
        assert(all.skip(0) =~= all);
    }
    while i < origins.len()
        invariant
            i <= origins@.len(),
            views(origins@) == all,
            all == registry_origins(*profile),
            authority != ResourceAuthority::Ambient,
            network_failure(all, findings@) == network_failure(all.skip(i as int), findings@),
        decreases origins@.len() - i,
    {
        let origin = origins[i].as_str();
        proof {
            assert(all[i as int] == origins@[i as int]@);
            assert(all.skip(i as int)[0] == all[i as int]);
            assert(all.skip(i as int).skip(1) =~= all.skip(i + 1));
        }
        match find(findings, origin) {
            None => {
                return execution_failure("network origin is unresolved");
            },
            Some(found) => match &found.destination {
                Err(text) => {
                    return execution_failure(text.as_str());
                },
                Ok(Some(DestinationMatch::Exact)) => {},
                Ok(_) => {
                    let text = concat2(
                        "plugin registry origin is outside the authorized exact destinations: ",
                        origin,
                    );
                    return execution_failure(text.as_str());
                },
            },
        }
        i = i + 1;
    }
    proof {
        assert(views(origins@).len() == origins@.len());
    }
    Ok(())
}

/// A grant with what its root resolves to.
#[derive(Debug)]
pub struct ResolvedGrant {
    pub mode: String,
    /// The canonical root, where there is one.
    pub root: Option<String>,
}

/// A grant lets the files of a transfer be read, or written.
pub open spec fn transfers(platform: Platform, grant: ResolvedGrant, path: Seq<char>, write: bool) -> bool {
    &&& grant.mode@ == "write"@ || (!write && grant.mode@ == "read"@)
    &&& grant.root matches Some(root) && within(platform, path, root@)
}

/// Some grant lets the files of a transfer be read, or written.
pub open spec fn transfer_granted(
    platform: Platform,
    grants: Seq<ResolvedGrant>,
    path: Seq<char>,
    write: bool,
) -> bool {
    exists|i: int| 0 <= i < grants.len() && transfers(platform, #[trigger] grants[i], path, write)
}

fn is_transfer_granted(platform: Platform, grants: &Vec<ResolvedGrant>, path: &str, write: bool) -> (yes: bool)
    ensures
        yes == transfer_granted(platform, grants@, path@, write),
{
    let mut i: usize = 0;
    while i < grants.len()
        invariant
            i <= grants@.len(),
            forall|j: int| 0 <= j < i ==> !transfers(platform, #[trigger] grants@[j], path@, write),
        decreases grants@.len() - i,
    {
        let item = &grants[i];
        let below = match &item.root {
            Some(root) => starts_with_path(platform, path, root.as_str()),
            None => false,
        };
        if below && (same_text(item.mode.as_str(), "write") || (!write && same_text(item.mode.as_str(), "read"))) {
            proof {
                assert(transfers(platform, grants@[i as int], path@, write));
            }
            return true;
        }
        i = i + 1;
    }
    false
}

/// The local path of a transfer, and whether it is written.
pub open spec fn transfer_path(operation: PluginRegistryOperation) -> (Seq<char>, bool) {
    match operation {
        PluginRegistryOperation::Pull { output, .. } => (output@, true),
        PluginRegistryOperation::Push { layout, .. } => (layout@, false),
    }
}

/// The places where the host looks for a transfer: its local path, then what that stands in, outwards.
pub fn transfer_places(platform: Platform, operation: &PluginRegistryOperation) -> (list: Vec<String>)
    ensures
        views(list@) == ancestors(platform, transfer_path(*operation).0),
{
    match operation {
        PluginRegistryOperation::Pull { output, .. } => path_ancestors(platform, output.as_str()),
        PluginRegistryOperation::Push { layout, .. } => path_ancestors(platform, layout.as_str()),
    }
}

/// The canonical path of the first place where there is anything.
pub open spec fn nearest(found: Seq<PathLookup>) -> Option<Result<String, String>>
    decreases found.len(),
{
    if found.len() == 0 {
        None
    } else if found[0].exists {
        Some(found[0].canonical)
    } else {
        nearest(found.skip(1))
    }
}

fn find_nearest(found: &Vec<PathLookup>) -> (canonical: Option<&Result<String, String>>)
    ensures
        match canonical {
            Some(path) => nearest(found@) == Some(*path),
            None => nearest(found@) is None,
        },
{
    let mut i: usize = 0;
    proof {
        assert(found@.skip(0) =~= found@);
    }
    while i < found.len()
        invariant
            i <= found@.len(),
            nearest(found@) == nearest(found@.skip(i as int)),
        decreases found@.len() - i,
    {
        proof {
            assert(found@.skip(i as int)[0] == found@[i as int]);
            assert(found@.skip(i as int).skip(1) =~= found@.skip(i + 1));
        }
        if found[i].exists {
            return Some(&found[i].canonical);
        }
        i = i + 1;
    }
    None
}

/// Whether a permit lets a transfer use its local path. `found` is what the host found at the places
/// of the transfer, in their order.
pub fn enforce_registry_filesystem(
    platform: Platform,
    operation: &PluginRegistryOperation,
    authority: ResourceAuthority,
    grants: &Vec<ResolvedGrant>,
    found: &Vec<PathLookup>,
) -> (result: Result<(), ExecutionError>)
    ensures
        ({
            let (path, write) = transfer_path(*operation);
            if authority == ResourceAuthority::Ambient {
                result is Ok
            } else {
                match nearest(found@) {
                    None => fails(result, "plugin registry output has no existing ancestor"@),
                    Some(Err(text)) => fails(result, text@),
                    Some(Ok(canonical)) => if transfer_granted(platform, grants@, canonical@, write) {
                        result is Ok
                    } else {
                        fails(
                            result,
                            "plugin registry "@ + (if write {
                                "write"@
                            } else {
                                "read"@
                            }) + " path is outside authorized roots: "@ + path,
                        )
                    },
                }
            }
        }),
{
    if authority == ResourceAuthority::Ambient {
        return Ok(());
    }
    let (path, write, mode) = match operation {
        PluginRegistryOperation::Pull { output, .. } => (output, true, "write"),
        PluginRegistryOperation::Push { layout, .. } => (layout, false, "read"),
    };
    match find_nearest(found) {
        None => execution_failure("plugin registry output has no existing ancestor"),
        Some(Err(text)) => execution_failure(text.as_str()),
        Some(Ok(canonical)) => {
            if is_transfer_granted(platform, grants, canonical.as_str(), write) {
                return Ok(());
            }
            let mut text = concat3("plugin registry ", mode, " path is outside authorized roots: ");
            text.append(path.as_str());
            execution_failure(text.as_str())
        },
    }
}

/// What a CA file resolves to.
#[derive(Debug)]
pub struct CaFile {
    pub path: String,
    pub canonical: Result<String, String>,
}

/// The first finding of a CA file.
pub open spec fn ca_finding(list: Seq<CaFile>, path: Seq<char>) -> Result<Seq<char>, Seq<char>>
    decreases list.len(),
{
    if list.len() == 0 {
        Err("path "@ + path + " was not resolved"@)
    } else if list[0].path@ == path {
        match list[0].canonical {
            Ok(canonical) => Ok(canonical@),
            Err(text) => Err(text@),
        }
    } else {
        ca_finding(list.skip(1), path)
    }
}

fn find_ca(list: &Vec<CaFile>, path: &str) -> (result: Result<String, String>)
    ensures
        match ca_finding(list@, path@) {
            Ok(canonical) => result matches Ok(found) && found@ == canonical,
            Err(text) => result matches Err(shown) && shown@ == text,
        },
{
    let mut i: usize = 0;
    proof {
        assert(list@.skip(0) =~= list@);
    }
    while i < list.len()
        invariant
            i <= list@.len(),
            ca_finding(list@, path@) == ca_finding(list@.skip(i as int), path@),
        decreases list@.len() - i,
    {
        proof {
            assert(list@.skip(i as int)[0] == list@[i as int]);
            assert(list@.skip(i as int).skip(1) =~= list@.skip(i + 1));
        }
        if same_text(list[i].path.as_str(), path) {
            return match &list[i].canonical {
                Ok(canonical) => Ok(canonical.clone()),
                Err(text) => Err(text.clone()),
            };
        }
        i = i + 1;
    }
    Err(concat3("path ", path, " was not resolved"))
}

fn ca_files_of(profile: &PluginRegistryProfile) -> (list: Vec<String>)
    ensures
        views(list@) == bundle_files(*profile),
{
    let mut list: Vec<String> = Vec::new();
    if let Some(path) = &profile.ca_bundle_path {
        list.push(path.clone());
    }
    proof {
        assert(views(list@) =~= match profile.ca_bundle_path {
            Some(path) => seq![path@],
            None => Seq::empty(),
        });
    }
    push_values(&mut list, &profile.token_ca_bundle_paths);
    push_values(&mut list, &profile.blob_redirect_ca_bundle_paths);
    list
}

/// A grant is for exactly this file.
pub open spec fn names_file(platform: Platform, grant: ResolvedGrant, path: Seq<char>) -> bool {
    &&& grant.mode@ == "read"@ || grant.mode@ == "write"@
    &&& grant.root matches Some(root) && components(platform, root@) == components(platform, path)
}

/// Some grant is for exactly this file.
pub open spec fn file_granted(platform: Platform, grants: Seq<ResolvedGrant>, path: Seq<char>) -> bool {
    exists|i: int| 0 <= i < grants.len() && names_file(platform, #[trigger] grants[i], path)
}

fn is_file_granted(platform: Platform, grants: &Vec<ResolvedGrant>, path: &str) -> (yes: bool)
    ensures
        yes == file_granted(platform, grants@, path@),
{
    let mut i: usize = 0;
    while i < grants.len()
        invariant
            i <= grants@.len(),
            forall|j: int| 0 <= j < i ==> !names_file(platform, #[trigger] grants@[j], path@),
        decreases grants@.len() - i,
    {
        let item = &grants[i];
        let same = match &item.root {
            Some(root) => same_path(platform, root.as_str(), path),
            None => false,
        };
        if same && (same_text(item.mode.as_str(), "read") || same_text(item.mode.as_str(), "write")) {
            proof {
                assert(names_file(platform, grants@[i as int], path@));
            }
            return true;
        }
        i = i + 1;
    }
    false
}

/// Why CA files are not read, if so: a permit has to grant each of them exactly.
pub open spec fn ca_failure(
    platform: Platform,
    files: Seq<Seq<char>>,
    grants: Seq<ResolvedGrant>,
    findings: Seq<CaFile>,
) -> Option<Seq<char>>
    decreases files.len(),
{
    if files.len() == 0 {
        None
    } else {
        match ca_finding(findings, files[0]) {
            Err(text) => Some(text),
            Ok(path) => if file_granted(platform, grants, path) {
                ca_failure(platform, files.skip(1), grants, findings)
            } else {
                Some("plugin registry CA file is outside authorized roots: "@ + files[0])
            },
        }
    }
}

/// Whether a permit lets a transfer read the CA files of a registry.
pub fn enforce_bundle_files(
    platform: Platform,
    profile: &PluginRegistryProfile,
    authority: ResourceAuthority,
    grants: &Vec<ResolvedGrant>,
    findings: &Vec<CaFile>,
) -> (result: Result<(), ExecutionError>)
    ensures
        match ca_failure(platform, bundle_files(*profile), grants@, findings@) {
            Some(text) if authority != ResourceAuthority::Ambient => fails(result, text),
            _ => result is Ok,
        },
{
    if authority == ResourceAuthority::Ambient {
        return Ok(());
    }
    let files = ca_files_of(profile);
    let ghost all = bundle_files(*profile);
    let mut i: usize = 0;
    proof {
        assert(all.skip(0) =~= all);
    }
    while i < files.len()
        invariant
            i <= files@.len(),
            views(files@) == all,
            all == bundle_files(*profile),
            authority != ResourceAuthority::Ambient,
            ca_failure(
                platform,
                all,
                grants@,
                findings@,
            ) == ca_failure(platform, all.skip(i as int), grants@, findings@),
        decreases files@.len() - i,
    {
        let file = files[i].as_str();
        proof {
            assert(all[i as int] == files@[i as int]@);
            assert(all.skip(i as int)[0] == all[i as int]);
            assert(all.skip(i as int).skip(1) =~= all.skip(i + 1));
        }
        match find_ca(findings, file) {
            Err(text) => {
                return Err(ExecutionError::Failed(text));
            },
            Ok(path) => {
                if !is_file_granted(platform, grants, path.as_str()) {
                    let text = concat2("plugin registry CA file is outside authorized roots: ", file);
                    return execution_failure(text.as_str());
                }
            },
        }
        i = i + 1;
    }
    proof {
        assert(views(files@).len() == files@.len());
    }
    Ok(())
}

/// The Docker configuration that a registry names as the source of its credentials.
pub open spec fn docker_config(auth: RegistryAuthConfig) -> Option<Seq<char>> {
    match auth {
        RegistryAuthConfig::Docker { config_path: Some(path), .. } => Some(path@),
        _ => None,
    }
}

/// Whether a permit lets a transfer read the Docker configuration that its registry names; it is
/// to be asked before the file is opened.
pub fn enforce_docker_config(
    platform: Platform,
    profile: &PluginRegistryProfile,
    lookup: &PathLookup,
    permit: &Permit,
) -> (result: Result<
    (),
    ExecutionError,
>)
    ensures
        match docker_config(profile.auth) {
            None => result is Ok,
            Some(path) => match managed_target(platform, path, false, *lookup) {
                Err(text) => fails(result, text),
                Ok(canonical) => if permit.authority == ResourceAuthority::Ambient || granted(
                    platform,
                    permit.filesystem@,
                    canonical,
                    false,
                ) {
                    result is Ok
                } else {
                    fails(result, "plugin path is outside the permit's authorized filesystem roots"@)
                },
            },
        },
{
    match &profile.auth {
        RegistryAuthConfig::Docker { config_path: Some(path), .. } => enforce_management_path(
            platform,
            path.as_str(),
            false,
            lookup,
            permit,
        ),
        _ => Ok(()),
    }
}

/// What a credential helper printed, or the failure.
pub open spec fn helper_output(document: Seq<u8>) -> Result<Seq<u8>, Seq<char>> {
    match json_error(document) {
        Some(text) => Err(text),
        None => if json_field_flag(document, "success"@) != Some(true) || json_field_integer(document, "exit_code"@)
            != Some(0i64) || json_field_flag(document, "output_truncated"@) != Some(false) {
            Err("Docker credential helper failed"@)
        } else {
            match json_field_text(document, "stdout_base64"@) {
                None => Err("Docker credential helper returned no output"@),
                Some(encoded) => match base64_decoded(encoded) {
                    Ok(bytes) => Ok(bytes),
                    Err(_) => Err("Docker credential helper output was not valid base64"@),
                },
            }
        },
    }
}

/// What a credential helper printed, from the result document of its process: the process has to
/// have succeeded with its whole output.
pub fn accept_helper_result(document: &Vec<u8>) -> (result: Result<Vec<u8>, ExecutionError>)
    ensures
        match helper_output(document@) {
            Ok(bytes) => result matches Ok(printed) && printed@ == bytes,
            Err(text) => fails(result, text),
        },
{
    let bytes = document.as_slice();
    if let Some(text) = failure(bytes) {
        return Err(ExecutionError::Failed(text));
    }
    let success = match field_flag(bytes, "success") {
        Some(flag) => flag,
        None => false,
    };
    let finished = match field_integer(bytes, "exit_code") {
        Some(code) => code == 0,
        None => false,
    };
    let whole = match field_flag(bytes, "output_truncated") {
        Some(flag) => !flag,
        None => false,
    };
    if !success || !finished || !whole {
        return execution_failure("Docker credential helper failed");
    }
    match field_text(bytes, "stdout_base64") {
        None => execution_failure("Docker credential helper returned no output"),
        Some(encoded) => match base64_decode(encoded.as_str()) {
            Ok(printed) => Ok(printed),
            Err(_) => execution_failure("Docker credential helper output was not valid base64"),
        },
    }
}

/// Most credentials that are kept at once.
pub const VAULT_CAPACITY: usize = 8;

/// Credentials that helpers handed out, each under a handle that gives it away once.
#[derive(Debug)]
pub struct CredentialVault<T> {
    entries: Vec<Entry<T>>,
}

impl<T> CredentialVault<T> {
    /// The handles with their credentials.
    pub closed spec fn held(&self) -> Seq<Entry<T>> {
        self.entries@
    }

    /// No handle occurs twice, and no more credentials are kept than fit.
    pub open spec fn wf(&self) -> bool {
        &&& self.held().len() <= VAULT_CAPACITY
        &&& forall|i: int, j: int|
            0 <= i < j < self.held().len() ==> (#[trigger] self.held()[i]).key@ != (#[trigger] self.held()[j]).key@
    }

    /// The credential under a handle.
    pub open spec fn credential(&self, handle: Seq<char>) -> Option<T> {
        value_of(self.held(), handle)
    }

    /// A vault without credentials.
    pub fn new() -> (vault: CredentialVault<T>)
        ensures
            vault.wf(),
            vault.held().len() == 0,
    {
        CredentialVault { entries: Vec::new() }
    }

    /// Keeps a credential under a handle; refused where as many are kept as fit.
    pub fn insert(&mut self, handle: String, credential: T) -> (result: Result<(), ExecutionError>)
        requires
            old(self).wf(),
        ensures
            final(self).wf(),
            if old(self).held().len() >= VAULT_CAPACITY {
                fails(result, "credential helper vault capacity is exhausted"@) && final(self).held()
                    == old(self).held()
            } else {
                result is Ok && forall|other: Seq<char>|
                    #![trigger final(self).credential(other)]
                    final(self).credential(other) == if other == handle@ {
                        Some(credential)
                    } else {
                        old(self).credential(other)
                    }
            },
    {
        if self.entries.len() >= VAULT_CAPACITY {
            return execution_failure("credential helper vault capacity is exhausted");
        }
        let ghost before = self.entries@;
        let mut i: usize = 0;
        while i < self.entries.len()
            invariant
                i <= self.entries@.len() < VAULT_CAPACITY,
                self.entries@ == before,
                before == old(self).held(),
                old(self).wf(),
                forall|j: int| 0 <= j < i ==> (#[trigger] before[j]).key@ != handle@,
            decreases self.entries@.len() - i,
        {
            if same_text(self.entries[i].key.as_str(), handle.as_str()) {
                let entry = Entry { key: handle, value: credential };
                self.entries.set(i, entry);
                proof {
                    assert forall|other: Seq<char>|
                        #![trigger self.credential(other)]
                        self.credential(other) == if other == entry.key@ {
                            Some(entry.value)
                        } else {
                            old(self).credential(other)
                        } by {
                        update_value(before, i as int, entry, other);
                    }
                }
                return Ok(());
            }
            i = i + 1;
        }
        let entry = Entry { key: handle, value: credential };
        self.entries.push(entry);
        proof {
            assert(self.entries@ =~= before.insert(before.len() as int, entry));
            assert forall|other: Seq<char>|
                #![trigger self.credential(other)]
                self.credential(other) == if other == entry.key@ {
                    Some(entry.value)
                } else {
                    old(self).credential(other)
                } by {
                insert_value(before, before.len() as int, entry, other);
            }
        }
        Ok(())
    }

    /// Gives away the credential under a handle.
    pub fn take(&mut self, handle: &str) -> (result: Result<T, RuntimeError>)
        requires
            old(self).wf(),
        ensures
            final(self).wf(),
            match old(self).credential(handle@) {
                None => is_config_error(result, "credential helper handle is invalid"@) && final(self).held()
                    == old(self).held(),
                Some(credential) => result == Ok::<T, RuntimeError>(credential) && forall|other: Seq<char>|
                    #![trigger final(self).credential(other)]
                    final(self).credential(other) == if other == handle@ {
                        None
                    } else {
                        old(self).credential(other)
                    },
            },
    {
        let ghost before = self.entries@;
        let mut i: usize = 0;
        while i < self.entries.len()
            invariant
                i <= self.entries@.len(),
                self.entries@ == before,
                before == old(self).held(),
                old(self).wf(),
                forall|j: int| 0 <= j < i ==> (#[trigger] before[j]).key@ != handle@,
            decreases self.entries@.len() - i,
        {
            if same_text(self.entries[i].key.as_str(), handle) {
                proof {
                    assert forall|other: Seq<char>|
                        #![trigger value_of(before.remove(i as int), other)]
                        value_of(before.remove(i as int), other) == if other == handle@ {
                            None
                        } else {
                            value_of(before, other)
                        } by {
                        removed_value(before, i as int, other);
                    }
                    removed_value(before, i as int, handle@);
                }
                let entry = self.entries.remove(i);
                proof {
                    assert(self.held() == before.remove(i as int));
                    assert forall|a: int, b: int| 0 <= a < b < self.held().len() implies (#[trigger] self.held()[a]).key@
                        != (#[trigger] self.held()[b]).key@ by {
                        let x = if a < i {
                            a
                        } else {
                            a + 1
                        };
                        let y = if b < i {
                            b
                        } else {
                            b + 1
                        };
                        assert(before[x].key@ != before[y].key@);
                    }
                    assert forall|other: Seq<char>|
                        #![trigger self.credential(other)]
                        self.credential(other) == if other == handle@ {
                            None
                        } else {
                            old(self).credential(other)
                        } by {
                        assert(value_of(before.remove(i as int), other) == self.credential(other));
                    }
                }
                return Ok(entry.value);
            }
            i = i + 1;
        }
        proof {
            value_exists(before, handle@);
        }
        config_error("credential helper handle is invalid")
    }
}

/// Removing the only entry of a key takes that key's value away and no other.
proof fn removed_value<T>(list: Seq<Entry<T>>, at: int, key: Seq<char>)
    requires
        0 <= at < list.len(),
        forall|i: int, j: int| 0 <= i < j < list.len() ==> (#[trigger] list[i]).key@ != (#[trigger] list[j]).key@,
    ensures
        value_of(list.remove(at), key) == if key == list[at].key@ {
            None
        } else {
            value_of(list, key)
        },
        value_of(list, list[at].key@) == Some(list[at].value),
    decreases list.len(),
{
    let rest = list.skip(1);
    assert forall|i: int, j: int| 0 <= i < j < rest.len() implies (#[trigger] rest[i]).key@
        != (#[trigger] rest[j]).key@ by {
        assert(list[i + 1].key@ != list[j + 1].key@);
    }
    if at == 0 {
        assert(list.remove(0) =~= rest);
        if key == list[0].key@ {
            value_exists(rest, key);
            if has_key(rest, key) {
                let i = choose|i: int| 0 <= i < rest.len() && (#[trigger] rest[i]).key@ == key;
                assert(list[0].key@ != list[i + 1].key@);
            }
        }
    } else {
        removed_value(rest, at - 1, key);
        assert(list.remove(at).skip(1) =~= rest.remove(at - 1));
        assert(list.remove(at)[0] == list[0]);
        assert(list[0].key@ != list[at].key@);
    }
}

/// A credential is given away once: what was kept under a handle is taken by it, and taking it again
/// gives nothing.
pub proof fn credentials_are_given_once<T>(
    before: CredentialVault<T>,
    kept: CredentialVault<T>,
    taken: CredentialVault<T>,
    handle: Seq<char>,
    credential: T,
)
    requires
        forall|other: Seq<char>|
            #![trigger kept.credential(other)]
            kept.credential(other) == if other == handle {
                Some(credential)
            } else {
                before.credential(other)
            },
        forall|other: Seq<char>|
            #![trigger taken.credential(other)]
            taken.credential(other) == if other == handle {
                None
            } else {
                kept.credential(other)
            },
    ensures
        kept.credential(handle) == Some(credential),
        taken.credential(handle) is None,
        forall|other: Seq<char>|
            other != handle ==> #[trigger] taken.credential(other) == before.credential(other),
{
}

/// Every origin of a registry is checked: its own, those of its tokens and those of its redirects.
pub proof fn every_registry_origin_is_checked(profile: PluginRegistryProfile, at: int)
    ensures
        registry_origins(profile).contains(profile.origin@),
        0 <= at < profile.token_origins@.len() ==> registry_origins(profile).contains(profile.token_origins@[at]@),
        0 <= at < profile.blob_redirect_origins@.len() ==> registry_origins(profile).contains(
            profile.blob_redirect_origins@[at]@,
        ),
{
    let all = registry_origins(profile);
    assert(all[0] == profile.origin@);
    if 0 <= at < profile.token_origins@.len() {
        assert(all[1 + at] == profile.token_origins@[at]@);
    }
    if 0 <= at < profile.blob_redirect_origins@.len() {
        assert(all[1 + profile.token_origins@.len() + at] == profile.blob_redirect_origins@[at]@);
    }
}

/// The network is open to a registry exactly where each of its origins is matched exactly; a wildcard
/// does not do, nor does an origin that nobody looked at.
pub proof fn registries_need_exact_destinations(origins: Seq<Seq<char>>, findings: Seq<OriginFinding>)
    ensures
        network_failure(origins, findings) is None <==> forall|i: int|
            0 <= i < origins.len() ==> (finding(findings, #[trigger] origins[i]) is Some && finding(
                findings,
                origins[i],
            )->0.destination == Ok::<Option<DestinationMatch>, String>(Some(DestinationMatch::Exact))),
    decreases origins.len(),
{
    if origins.len() > 0 {
        let rest = origins.skip(1);
        registries_need_exact_destinations(rest, findings);
        assert(forall|i: int| 0 <= i < rest.len() ==> #[trigger] rest[i] == origins[i + 1]);
        if network_failure(origins, findings) is None {
            assert forall|i: int| 0 <= i < origins.len() implies (finding(findings, #[trigger] origins[i]) is Some
                && finding(findings, origins[i])->0.destination == Ok::<Option<DestinationMatch>, String>(
                Some(DestinationMatch::Exact),
            )) by {
                if i > 0 {
                    assert(rest[i - 1] == origins[i]);
                }
            }
        }
    }
}

/// A grant lets a path below its root be pushed from where it lets it be read or written, and be pulled
/// to where it lets it be written alone.
pub proof fn pulls_need_a_grant_to_write(platform: Platform, grant: ResolvedGrant, path: Seq<char>)
    ensures
        transfers(platform, grant, path, true) <==> grant.mode@ == "write"@ && grant.root is Some && within(
            platform,
            path,
            grant.root->0@,
        ),
        transfers(platform, grant, path, false) <==> (grant.mode@ == "write"@ || grant.mode@ == "read"@)
            && grant.root is Some && within(platform, path, grant.root->0@),
        transfers(platform, grant, path, true) ==> transfers(platform, grant, path, false),
{
    reveal_strlit("write");
    reveal_strlit("read");
}

/// A pull writes its output and a push reads its layout.
pub proof fn pulls_write_and_pushes_read(operation: PluginRegistryOperation)
    ensures
        operation matches PluginRegistryOperation::Pull { output, .. } ==> transfer_path(operation) == (output@, true),
        operation matches PluginRegistryOperation::Push { layout, .. } ==> transfer_path(operation) == (layout@, false),
{
}

/// The nearest place is the first of the list that exists.
pub proof fn the_nearest_place_exists(found: Seq<PathLookup>, at: int)
    requires
        0 <= at < found.len(),
        found[at].exists,
        forall|i: int| 0 <= i < at ==> !(#[trigger] found[i]).exists,
    ensures
        nearest(found) == Some(found[at].canonical),
    decreases found.len(),
{
    if at > 0 {
        let rest = found.skip(1);
        assert forall|i: int| 0 <= i < at - 1 implies !(#[trigger] rest[i]).exists by {
            assert(rest[i] == found[i + 1]);
        }
        assert(rest[at - 1] == found[at]);
        the_nearest_place_exists(rest, at - 1);
        assert(!found[0].exists);
    }
}

/// Without a place that exists there is none.
pub proof fn no_place_is_near_that_does_not_exist(found: Seq<PathLookup>)
    requires
        forall|i: int| 0 <= i < found.len() ==> !(#[trigger] found[i]).exists,
    ensures
        nearest(found) is None,
    decreases found.len(),
{
    if found.len() > 0 {
        let rest = found.skip(1);
        assert forall|i: int| 0 <= i < rest.len() implies !(#[trigger] rest[i]).exists by {
            assert(rest[i] == found[i + 1]);
        }
        no_place_is_near_that_does_not_exist(rest);
        assert(!found[0].exists);
    }
}

/// Certificates may be read exactly where every file was resolved and is named by a grant.
pub proof fn certificates_are_granted_one_by_one(
    platform: Platform,
    files: Seq<Seq<char>>,
    grants: Seq<ResolvedGrant>,
    findings: Seq<CaFile>,
)
    ensures
        ca_failure(platform, files, grants, findings) is None <==> forall|i: int|
            0 <= i < files.len() ==> (ca_finding(findings, #[trigger] files[i]) is Ok && file_granted(
                platform,
                grants,
                ca_finding(findings, files[i])->Ok_0,
            )),
    decreases files.len(),
{
    if files.len() > 0 {
        let rest = files.skip(1);
        certificates_are_granted_one_by_one(platform, rest, grants, findings);
        assert(forall|i: int| 0 <= i < rest.len() ==> #[trigger] rest[i] == files[i + 1]);
        if ca_failure(platform, files, grants, findings) is None {
            assert forall|i: int| 0 <= i < files.len() implies (ca_finding(findings, #[trigger] files[i]) is Ok
                && file_granted(platform, grants, ca_finding(findings, files[i])->Ok_0)) by {
                if i > 0 {
                    assert(rest[i - 1] == files[i]);
                }
            }
        }
    }
}

/// A file is granted only by a grant to read or to write that names it, not by one above it.
pub proof fn files_are_granted_by_name(platform: Platform, grants: Seq<ResolvedGrant>, path: Seq<char>)
    ensures
        file_granted(platform, grants, path) <==> exists|i: int|
            0 <= i < grants.len() && ((#[trigger] grants[i]).mode@ == "read"@ || grants[i].mode@ == "write"@)
                && grants[i].root is Some && components(platform, grants[i].root->0@) == components(platform, path),
{
    if exists|i: int|
        0 <= i < grants.len() && ((#[trigger] grants[i]).mode@ == "read"@ || grants[i].mode@ == "write"@)
            && grants[i].root is Some && components(platform, grants[i].root->0@) == components(platform, path) {
        let i = choose|i: int|
            0 <= i < grants.len() && ((#[trigger] grants[i]).mode@ == "read"@ || grants[i].mode@ == "write"@)
                && grants[i].root is Some && components(platform, grants[i].root->0@) == components(platform, path);
        assert(names_file(platform, grants[i], path));
    }
}

/// The output of a credential helper is taken only from a helper that succeeded with nothing cut off.
pub proof fn helpers_have_to_succeed(document: Seq<u8>)
    requires
        helper_output(document) is Ok,
    ensures
        json_error(document) is None,
        json_field_flag(document, "success"@) == Some(true),
        json_field_integer(document, "exit_code"@) == Some(0i64),
        json_field_flag(document, "output_truncated"@) == Some(false),
        json_field_text(document, "stdout_base64"@) is Some,
        base64_decoded(json_field_text(document, "stdout_base64"@)->0) == Ok::<Seq<u8>, Seq<char>>(
            helper_output(document)->Ok_0,
        ),
{
}

/// A transfer is granted by one grant among many: by any that reaches its path, and by none where there is
/// none. To write takes a grant to write.
pub proof fn one_grant_is_enough(
    platform: Platform,
    first: Seq<ResolvedGrant>,
    second: Seq<ResolvedGrant>,
    one: ResolvedGrant,
    path: Seq<char>,
    write: bool,
)
    ensures
        transfer_granted(platform, first + second, path, write) <==> transfer_granted(platform, first, path, write)
            || transfer_granted(platform, second, path, write),
        transfer_granted(platform, seq![one], path, write) <==> (one.mode@ == "write"@ || one.mode@ == "read"@
            && !write) && one.root is Some && within(platform, path, one.root->0@),
        !transfer_granted(platform, Seq::<ResolvedGrant>::empty(), path, write),
{
    let both = first + second;
    if transfer_granted(platform, first, path, write) {
        let i = choose|i: int| 0 <= i < first.len() && transfers(platform, #[trigger] first[i], path, write);
        assert(both[i] == first[i]);
    }
    if transfer_granted(platform, second, path, write) {
        let i = choose|i: int| 0 <= i < second.len() && transfers(platform, #[trigger] second[i], path, write);
        assert(both[first.len() + i] == second[i]);
    }
    if transfer_granted(platform, both, path, write) {
        let i = choose|i: int| 0 <= i < both.len() && transfers(platform, #[trigger] both[i], path, write);
        if i < first.len() {
            assert(first[i] == both[i]);
        } else {
            assert(second[i - first.len()] == both[i]);
        }
    }
    assert(seq![one][0] == one);
}

/// Only a registry whose credentials are Docker's reads a configuration of Docker, and it reads the one
/// that is stated.
pub proof fn docker_reads_the_stated_file(auth: RegistryAuthConfig)
    ensures
        !(auth is Docker) ==> docker_config(auth) is None,
        auth is Docker ==> optional_view(auth->config_path) == docker_config(auth),
{
}

/// A certificate is found as the host found it: the first finding for its path counts, and findings for
/// other paths do not.
pub proof fn certificates_are_found_by_their_path(list: Seq<CaFile>, file: CaFile, path: Seq<char>)
    ensures
        file.path@ == path && file.canonical is Ok ==> ca_finding(seq![file] + list, path) == Ok::<
            Seq<char>,
            Seq<char>,
        >(file.canonical->Ok_0@),
        file.path@ == path && file.canonical is Err ==> ca_finding(seq![file] + list, path) == Err::<
            Seq<char>,
            Seq<char>,
        >(file.canonical->Err_0@),
        file.path@ != path ==> ca_finding(seq![file] + list, path) == ca_finding(list, path),
        ca_finding(Seq::<CaFile>::empty(), path) is Err,
{
    assert((seq![file] + list).skip(1) =~= list);
    assert((seq![file] + list)[0] == file);
}

} // verus!
