//! Requests about integrations and release bundles, and the credentials they refer to.

use crate::config::Platform;
use crate::effects::CredentialReference;
use crate::error::{is_config_error, RuntimeError};
use crate::paths::{join_path, joined_path};
use crate::text::optional_view;
use vstd::prelude::*;
use vstd::string::*;

verus! {

/// A request about an integration.
#[derive(Debug)]
pub enum IntegrationRequest {
    ImportOpenApi { name: String, credential_reference: Option<String> },
    ConnectNative { name: String, credential_reference: Option<String> },
    Disconnect { name: String },
}

/// A request about a release bundle.
#[derive(Debug)]
pub enum BundleOperation {
    Verify { path: String },
    Build {
        source: String,
        destination: String,
        name: String,
        version: String,
        publisher: String,
        created_at: String,
        source_revision: Option<String>,
        signing_key_reference: String,
    },
    Install { path: String, prefix: String },
    KeyInfo { signing_key_reference: String },
}

/// The credential that a request about an integration refers to.
pub open spec fn integration_reference(request: IntegrationRequest) -> Option<Seq<char>> {
    match request {
        IntegrationRequest::ImportOpenApi { credential_reference, .. } => optional_view(credential_reference),
        IntegrationRequest::ConnectNative { credential_reference, .. } => optional_view(credential_reference),
        IntegrationRequest::Disconnect { .. } => None,
    }
}

/// The credential that a request about a bundle refers to: its signing key.
pub open spec fn bundle_reference(request: BundleOperation) -> Option<Seq<char>> {
    match request {
        BundleOperation::Build { signing_key_reference, .. } => Some(signing_key_reference@),
        BundleOperation::KeyInfo { signing_key_reference } => Some(signing_key_reference@),
        _ => None,
    }
}

/// The references are the one that there is, without a hash of its value.
pub open spec fn refers_to(list: Seq<CredentialReference>, reference: Option<Seq<char>>) -> bool {
    match reference {
        Some(text) => list.len() == 1 && list[0].reference@ == text && !list[0].hashed,
        None => list.len() == 0,
    }
}

fn single_reference(reference: Option<&String>) -> (list: Vec<CredentialReference>)
    ensures
        refers_to(
            list@,
            match reference {
                Some(text) => Some(text@),
                None => None,
            },
        ),
{
    match reference {
        Some(text) => vec![CredentialReference { reference: text.clone(), hashed: false }],
        None => Vec::new(),
    }
}

/// The credentials that a request about an integration refers to.
pub fn integration_credentials(request: &IntegrationRequest) -> (list: Vec<CredentialReference>)
    ensures
        refers_to(list@, integration_reference(*request)),
{
    match request {
        IntegrationRequest::ImportOpenApi { credential_reference: Some(text), .. } => single_reference(Some(text)),
        IntegrationRequest::ConnectNative { credential_reference: Some(text), .. } => single_reference(Some(text)),
        _ => single_reference(None),
    }
}

/// The credentials that a request about a bundle refers to.
pub fn bundle_credentials(request: &BundleOperation) -> (list: Vec<CredentialReference>)
    ensures
        refers_to(list@, bundle_reference(*request)),
{
    match request {
        BundleOperation::Build { signing_key_reference, .. } => single_reference(Some(signing_key_reference)),
        BundleOperation::KeyInfo { signing_key_reference } => single_reference(Some(signing_key_reference)),
        _ => single_reference(None),
    }
}

/// A path of an extension, seen from the workspace.
pub fn extension_path(platform: Platform, workspace: &str, path: &str) -> (absolute: String)
    ensures
        absolute@ == joined_path(platform, workspace@, path@),
{
    join_path(platform, workspace, path)
}

/// `seen` is the request with its paths seen from the workspace, and nothing else changed.
pub open spec fn seen_from(
    platform: Platform,
    seen: BundleOperation,
    request: BundleOperation,
    workspace: Seq<char>,
) -> bool {
    match request {
        BundleOperation::Verify { path } => seen matches BundleOperation::Verify { path: p } && p@ == joined_path(
            platform,
            workspace,
            path@,
        ),
        BundleOperation::Build {
            source,
            destination,
            name,
            version,
            publisher,
            created_at,
            source_revision,
            signing_key_reference,
        } => seen matches BundleOperation::Build {
            source: from,
            destination: to,
            name: n,
            version: v,
            publisher: p,
            created_at: c,
            source_revision: r,
            signing_key_reference: k,
        } && from@ == joined_path(
            platform,
            workspace,
            source@,
        ) && to@ == joined_path(platform, workspace, destination@) && n == name && v
            == version && p == publisher && c == created_at && r == source_revision && k == signing_key_reference,
        BundleOperation::Install { path, prefix } => seen matches BundleOperation::Install { path: p, prefix: x } && p@
            == joined_path(platform, workspace, path@) && x@ == joined_path(platform, workspace, prefix@),
        BundleOperation::KeyInfo { .. } => seen == request,
    }
}

/// A request about a bundle with its paths seen from the workspace.
pub fn bundle_request(platform: Platform, workspace: &str, request: BundleOperation) -> (seen: BundleOperation)
    ensures
        seen_from(platform, seen, request, workspace@),
{
    match request {
        BundleOperation::Verify { path } => BundleOperation::Verify { path: extension_path(
            platform,
            workspace,
            path.as_str(),
        ) },
        BundleOperation::Build {
            source,
            destination,
            name,
            version,
            publisher,
            created_at,
            source_revision,
            signing_key_reference,
        } => BundleOperation::Build {
            source: extension_path(platform, workspace, source.as_str()),
            destination: extension_path(platform, workspace, destination.as_str()),
            name,
            version,
            publisher,
            created_at,
            source_revision,
            signing_key_reference,
        },
        BundleOperation::Install { path, prefix } => BundleOperation::Install {
            path: extension_path(platform, workspace, path.as_str()),
            prefix: extension_path(platform, workspace, prefix.as_str()),
        },
        BundleOperation::KeyInfo { signing_key_reference } => BundleOperation::KeyInfo { signing_key_reference },
    }
}

/// Requires a tool to belong to a connected integration.
pub fn require_integration_tool(found: bool, tool: &str) -> (result: Result<(), RuntimeError>)
    ensures
        if found {
            result is Ok
        } else {
            is_config_error(result, "integration tool not found: "@ + tool@)
        },
{
    if found {
        return Ok(());
    }
    let text = crate::text::concat2("integration tool not found: ", tool);
    Err(RuntimeError::Config(text))
}

/// A request carries the reference that it was given and no other credential, never hashed.
pub proof fn requests_carry_their_reference(
    list: Seq<CredentialReference>,
    integration: IntegrationRequest,
    bundle: BundleOperation,
    reference: Option<Seq<char>>,
)
    ensures
        refers_to(list, reference) && reference is Some ==> list.len() == 1 && list[0].reference@ == reference->0
            && !list[0].hashed,
        refers_to(list, reference) && reference is None ==> list.len() == 0,
        integration matches IntegrationRequest::ImportOpenApi { credential_reference, .. } ==> integration_reference(
            integration,
        ) == optional_view(credential_reference),
        integration matches IntegrationRequest::ConnectNative { credential_reference, .. } ==> integration_reference(
            integration,
        ) == optional_view(credential_reference),
        integration is Disconnect ==> integration_reference(integration) is None,
        bundle matches BundleOperation::Build { signing_key_reference, .. } ==> bundle_reference(bundle) == Some(
            signing_key_reference@,
        ),
        bundle matches BundleOperation::KeyInfo { signing_key_reference } ==> bundle_reference(bundle) == Some(
            signing_key_reference@,
        ),
        bundle is Verify || bundle is Install ==> bundle_reference(bundle) is None,
{
}

/// A bundle request is carried out as it was made, its paths taken from the workspace.
pub proof fn bundles_are_seen_from_the_workspace(
    platform: Platform,
    seen: BundleOperation,
    request: BundleOperation,
    workspace: Seq<char>,
)
    requires
        seen_from(platform, seen, request, workspace),
    ensures
        request matches BundleOperation::Verify { path } ==> seen is Verify && seen->Verify_path@ == joined_path(
            platform,
            workspace,
            path@,
        ),
        request matches BundleOperation::Install { path, prefix } ==> seen is Install && seen->Install_path@
            == joined_path(platform, workspace, path@) && seen->Install_prefix@ == joined_path(
            platform,
            workspace,
            prefix@,
        ),
        request is Build ==> {
            &&& seen is Build
            &&& seen->Build_source@ == joined_path(platform, workspace, request->Build_source@)
            &&& seen->Build_destination@ == joined_path(platform, workspace, request->Build_destination@)
            &&& seen->Build_name == request->Build_name && seen->Build_version == request->Build_version
            &&& seen->Build_publisher == request->Build_publisher
            &&& seen->Build_created_at == request->Build_created_at
            &&& seen->Build_source_revision == request->Build_source_revision
            &&& seen->Build_signing_key_reference == request->Build_signing_key_reference
        },
        request is KeyInfo ==> seen == request,
{
}

} // verus!
