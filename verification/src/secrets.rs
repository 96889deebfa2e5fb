//! Secrets from the environment and the vault for credentials.

use crate::config::Platform;
use crate::encoding::{
    base64_decode, base64_decoded, hex_bytes, hex_decode, hex_encode, hex_text, hex_texts_differ, is_hex, sha256,
    sha256_digest,
};
use crate::error::{config_error, config_error3, is_config_error, RuntimeError};
use crate::json::{json_pair, json_pointer_text, pair_document};
use crate::paths::{
    components, holdable, names_share_their_parent, parent_path, path_parent, prefix, prefix_length, same_path,
    separates, separators_of,
};
use crate::text::{concat2, contains_text, parts_are_contained};
use vstd::prelude::*;
use vstd::string::*;

verus! {

/// Bytes of a secret.
pub const SECRET_BYTES: usize = 32;

/// What a secret is written as: hexadecimal digits, else base64.
pub open spec fn decoded_secret(text: Seq<char>) -> Option<Seq<u8>> {
    if is_hex(text) {
        Some(hex_bytes(text))
    } else {
        match base64_decoded(text) {
            Ok(bytes) => Some(bytes),
            Err(_) => None,
        }
    }
}

/// Why a variable holds no secret, if so.
pub open spec fn secret_refusal(variable: Seq<char>, value: Option<Seq<char>>) -> Option<Seq<char>> {
    match value {
        None => Some("environment variable "@ + variable + " is unset"@),
        Some(text) => match decoded_secret(text) {
            None => Some("environment variable "@ + variable + " must be hex or base64"@),
            Some(bytes) => if bytes.len() != SECRET_BYTES {
                Some("environment variable "@ + variable + " must decode to exactly 32 bytes"@)
            } else {
                None
            },
        },
    }
}

/// The secret that a variable of the environment holds: 32 bytes, as hexadecimal digits or base64.
pub fn explicit_secret(variable: &str, value: &Option<String>) -> (result: Result<Vec<u8>, RuntimeError>)
    ensures
        match secret_refusal(variable@, crate::text::optional_view(*value)) {
            Some(text) => is_config_error(result, text),
            None => result matches Ok(bytes) && Some(bytes@) == decoded_secret(value->0@) && bytes@.len() == 32,
        },
{
    let text = match value {
        Some(text) => text,
        None => {
            return config_error3("environment variable ", variable, " is unset");
        },
    };
    let bytes = match hex_decode(text.as_str()) {
        Some(bytes) => bytes,
        None => match base64_decode(text.as_str()) {
            Ok(bytes) => bytes,
            Err(_) => {
                return config_error3("environment variable ", variable, " must be hex or base64");
            },
        },
    };
    if bytes.len() != SECRET_BYTES {
        return config_error3("environment variable ", variable, " must decode to exactly 32 bytes");
    }
    Ok(bytes)
}

/// How the private home checks the directory of the vault.
#[derive(Clone, Copy, Debug, PartialEq, Eq, Structural)]
pub enum VaultCheck {
    /// There is no private home.
    Unchecked,
    /// The directory is the private home itself.
    Home,
    /// The directory has to lie within the private home.
    Directory,
}

/// How the directory of the vault is checked.
pub fn vault_check(platform: Platform, directory: &str, home: &Option<String>) -> (check: VaultCheck)
    ensures
        check == match *home {
            None => VaultCheck::Unchecked,
            Some(path) => if components(platform, directory@) == components(platform, path@) {
                VaultCheck::Home
            } else {
                VaultCheck::Directory
            },
        },
{
    match home {
        None => VaultCheck::Unchecked,
        Some(path) => {
            if same_path(platform, directory, path.as_str()) {
                VaultCheck::Home
            } else {
                VaultCheck::Directory
            }
        },
    }
}

/// The document that the scope of a directory's vault is made of.
pub open spec fn vault_identity(canonical: Seq<char>) -> Option<Seq<u8>> {
    json_pair("colossus-runtime-oauth-vault-v1"@, canonical)
}

/// The document of a directory's vault names that directory.
pub open spec fn names_directory(canonical: Seq<char>) -> bool {
    vault_identity(canonical) matches Some(identity) && json_pointer_text(identity, "/1"@) == Some(canonical)
}

/// The scope that the vault of a directory belongs to.
pub open spec fn vault_scope(canonical: Seq<char>) -> Option<Seq<char>> {
    match vault_identity(canonical) {
        Some(identity) => Some("runtime-oauth-"@ + hex_text(sha256(identity))),
        None => None,
    }
}

/// The scope of the vault for credentials: it belongs to the canonical directory of the runtime's
/// state, whatever the file there is called. `prepared` says whether that directory is there and
/// within its authority.
pub fn oauth_vault_scope(prepared: bool, canonical: &Option<String>) -> (result: Result<String, RuntimeError>)
    ensures
        match *canonical {
            Some(path) => if prepared {
                result matches Ok(scope) && vault_scope(path@) == Some(scope@) && names_directory(path@)
            } else {
                is_config_error(result, "protected OAuth credential vault is unavailable"@)
            },
            None => is_config_error(result, "protected OAuth credential vault is unavailable"@),
        },
{
    if prepared {
        if let Some(path) = canonical {
            if let Some(identity) = pair_document("colossus-runtime-oauth-vault-v1", path.as_str()) {
                let digest = sha256_digest(identity.as_slice());
                let text = hex_encode(digest.as_slice());
                return Ok(concat2("runtime-oauth-", text.as_str()));
            }
        }
    }
    config_error("protected OAuth credential vault is unavailable")
}

/// What the host found of the directory of the runtime's state.
#[derive(Debug)]
pub struct VaultFindings {
    /// Whether it is a directory that is there already.
    pub is_directory: bool,
    /// Whether the private home, where the directory is that, is still in order.
    pub home_valid: bool,
    /// Whether the directory, where it is another, is still within the private home.
    pub directory_valid: bool,
    /// Its canonical path, where it was bound and still owns that.
    pub canonical: Option<String>,
}

/// The directory and the scope that the vault for credentials is bound to; none where it is not
/// available. The directory is the one of the runtime's state, and a private home only has to accept it.
pub open spec fn bound_vault(
    platform: Platform,
    home: Option<String>,
    storage_path: Seq<char>,
    found: VaultFindings,
) -> Option<(Seq<char>, Seq<char>)> {
    match parent_path(platform, storage_path) {
        None => None,
        Some(directory) => {
            let accepted = match home {
                None => true,
                Some(path) => if components(platform, directory) == components(platform, path@) {
                    found.home_valid
                } else {
                    found.directory_valid
                },
            };
            match found.canonical {
                Some(canonical) if found.is_directory && accepted => match vault_scope(canonical@) {
                    Some(scope) => Some((directory, scope)),
                    None => None,
                },
                _ => None,
            }
        },
    }
}

/// The directory and the scope that the vault for credentials is bound to.
pub fn platform_oauth_vault_binding(
    platform: Platform,
    home: &Option<String>,
    storage_path: &str,
    found: &VaultFindings,
) -> (result: Result<(String, String), RuntimeError>)
    ensures
        match bound_vault(platform, *home, storage_path@, *found) {
            Some((directory, scope)) => result matches Ok(bound) && bound.0@ == directory && bound.1@ == scope,
            None => is_config_error(result, "protected OAuth credential vault is unavailable"@),
        },
        result is Ok ==> names_directory(found.canonical->0@),
{
    let directory = match path_parent(platform, storage_path) {
        Some(directory) => directory,
        None => {
            return config_error("protected OAuth credential vault is unavailable");
        },
    };
    let accepted = match vault_check(platform, directory.as_str(), home) {
        VaultCheck::Unchecked => true,
        VaultCheck::Home => found.home_valid,
        VaultCheck::Directory => found.directory_valid,
    };
    match oauth_vault_scope(found.is_directory && accepted, &found.canonical) {
        Ok(scope) => Ok((directory, scope)),
        Err(error) => Err(error),
    }
}

/// One vault belongs to the directory of the state, whatever the file there is called: files of one
/// directory are bound to the same directory and scope, by one home, and by a home and none.
pub proof fn files_of_a_directory_share_a_vault(
    platform: Platform,
    front: Seq<char>,
    first: Seq<char>,
    second: Seq<char>,
    home: Option<String>,
    other: Option<String>,
    found: VaultFindings,
)
    requires
        prefix_length(platform, front) < front.len(),
        separates(separators_of(platform, front), front.last()),
        holdable(first, separators_of(platform, front)),
        holdable(second, separators_of(platform, front)),
        prefix(platform, front + first) == prefix(platform, front),
        prefix(platform, front + second) == prefix(platform, front),
    ensures
        bound_vault(platform, home, front + first, found) == bound_vault(platform, home, front + second, found),
        bound_vault(platform, home, front + first, found) is Some && bound_vault(
            platform,
            other,
            front + second,
            found,
        ) is Some ==> bound_vault(platform, home, front + first, found) == bound_vault(
            platform,
            other,
            front + second,
            found,
        ),
{
    names_share_their_parent(platform, front, first, second);
}

/// Vaults of two directories, which each name their own, have different documents, and their scopes are
/// the same only where SHA-256 digests those two documents alike: another directory cannot take over a
/// vault by having its scope.
pub proof fn directories_have_scopes_of_their_own(first: Seq<char>, second: Seq<char>)
    requires
        names_directory(first),
        names_directory(second),
        first != second,
    ensures
        vault_identity(first) != vault_identity(second),
        vault_scope(first) == vault_scope(second) ==> sha256(vault_identity(first)->0) == sha256(
            vault_identity(second)->0,
        ),
{
    if vault_scope(first) == vault_scope(second) {
        let a = hex_text(sha256(vault_identity(first)->0));
        let b = hex_text(sha256(vault_identity(second)->0));
        let label = "runtime-oauth-"@;
        assert((label + a).skip(label.len() as int) =~= a);
        assert((label + b).skip(label.len() as int) =~= b);
        hex_texts_differ(sha256(vault_identity(first)->0), sha256(vault_identity(second)->0));
    }
}

/// A vault is bound only to a directory that is there already: none is created for it.
pub proof fn missing_directories_bind_no_vault(
    platform: Platform,
    home: Option<String>,
    storage_path: Seq<char>,
    found: VaultFindings,
)
    requires
        !found.is_directory,
    ensures
        bound_vault(platform, home, storage_path, found) is None,
{
}

/// A secret is taken exactly where its variable is set to the hexadecimal or Base64 text of thirty-two
/// bytes; a refusal names the variable.
pub proof fn secrets_have_their_length(variable: Seq<char>, value: Option<Seq<char>>)
    ensures
        secret_refusal(variable, value) is None <==> value is Some && decoded_secret(value->0) is Some
            && decoded_secret(value->0)->0.len() == 32,
        secret_refusal(variable, value) matches Some(text) ==> contains_text(text, variable),
        value matches Some(text) ==> is_hex(text) ==> decoded_secret(text) == Some(hex_bytes(text)),
        value matches Some(text) ==> !is_hex(text) ==> (decoded_secret(text) is Some <==> base64_decoded(text) is Ok),
{
    parts_are_contained("environment variable "@, variable, " is unset"@);
    parts_are_contained("environment variable "@, variable, " must be hex or base64"@);
    parts_are_contained("environment variable "@, variable, " must decode to exactly 32 bytes"@);
}

/// A vault is bound in the directory that holds the state, where that directory was found valid: as the
/// home where it is the home, and as a directory of its own otherwise.
pub proof fn vaults_stand_beside_the_state(
    platform: Platform,
    home: Option<String>,
    storage_path: Seq<char>,
    found: VaultFindings,
)
    requires
        bound_vault(platform, home, storage_path, found) is Some,
    ensures
        ({
            let (directory, scope) = bound_vault(platform, home, storage_path, found)->0;
            &&& parent_path(platform, storage_path) == Some(directory)
            &&& found.is_directory
            &&& found.canonical is Some && vault_scope(found.canonical->0@) == Some(scope)
            &&& home matches Some(path) ==> if components(platform, directory) == components(platform, path@) {
                found.home_valid
            } else {
                found.directory_valid
            }
        }),
{
}

/// The identity of a vault is that of its directory under the name of the vaults of this runtime.
pub proof fn vaults_are_identified_by_directory(canonical: Seq<char>)
    ensures
        vault_identity(canonical) == json_pair("colossus-runtime-oauth-vault-v1"@, canonical),
{
}

} // verus!
