//! Effects that a user asks for directly: files, processes, pages and the offline echo.

use crate::config::{Platform, SandboxConfig};
use crate::effects::ActorType;
use crate::encoding::{base64_encode, base64_encoded, decodes_to, utf8_failure, utf8_text, MAX_BASE64_INPUT};
use crate::entries::Entry;
use crate::error::{is_config_error, RuntimeError};
use crate::generic_effects::accept_image_executable;
use crate::names::is_oci_path;
use crate::paths::{join_path, joined_path};
use crate::text::{concat2, same_text};
use vstd::prelude::*;
use vstd::string::*;
use vstd::utf8::*;

verus! {

/// What is handed to the executor of a direct effect.
#[derive(Debug)]
pub enum DirectContent {
    /// A message to be given back.
    Message(String),
    /// A file to be read as bytes.
    File(String),
    /// The text of a file to be written.
    Text(String),
    /// The bytes of a file to be written, in base64.
    Encoded(String),
    /// A process to be started.
    Process(ProcessCall),
    /// A page to be fetched with any media type.
    Page,
}

/// A process with its arguments, started without a shell.
#[derive(Debug)]
pub struct ProcessCall {
    pub cwd: String,
    pub args: Vec<String>,
    pub environment: Vec<Entry<String>>,
}

/// A direct effect as it is put to the gateway.
#[derive(Debug)]
pub struct DirectRequest {
    pub actor: ActorType,
    pub actor_id: String,
    pub action: String,
    pub resource: String,
    pub capabilities: Vec<String>,
    pub content: DirectContent,
}

/// A user of the terminal asks for this action on this resource, and claims no more than the action.
pub open spec fn asked_by_user(request: DirectRequest, action: Seq<char>, resource: Seq<char>) -> bool {
    &&& request.actor == ActorType::User
    &&& request.actor_id@ == "terminal-user"@
    &&& request.action@ == action
    &&& request.resource@ == resource
    &&& request.capabilities@.len() == 1
    &&& request.capabilities@[0]@ == action
}

fn user_request(action: &str, resource: String, content: DirectContent) -> (request: DirectRequest)
    ensures
        asked_by_user(request, action@, resource@),
        request.content == content,
{
    DirectRequest {
        actor: ActorType::User,
        actor_id: "terminal-user".to_owned(),
        action: action.to_owned(),
        resource,
        capabilities: vec![action.to_owned()],
        content,
    }
}

/// The offline echo of a message: the system asks for it, and claims nothing.
pub fn plan_echo(message: &str) -> (request: DirectRequest)
    ensures
        request.actor == ActorType::System,
        request.actor_id@ == "offline-echo"@,
        request.action@ == "provider.echo"@,
        request.resource@ == "provider:echo"@,
        request.capabilities@.len() == 0,
        request.content matches DirectContent::Message(text) && text@ == message@,
{
    DirectRequest {
        actor: ActorType::System,
        actor_id: "offline-echo".to_owned(),
        action: "provider.echo".to_owned(),
        resource: "provider:echo".to_owned(),
        capabilities: Vec::new(),
        content: DirectContent::Message(message.to_owned()),
    }
}

/// Reading a file as bytes, under `filesystem.read` or under the action for inputs of runs.
pub fn plan_read(platform: Platform, workspace: &str, path: &str, action: &str) -> (request: DirectRequest)
    ensures
        asked_by_user(request, action@, joined_path(platform, workspace@, path@)),
        request.content matches DirectContent::File(file) && file@ == joined_path(platform, workspace@, path@),
{
    let file = join_path(platform, workspace, path);
    user_request(action, file.clone(), DirectContent::File(file))
}

/// Writing a text to a file.
pub fn plan_write_text(platform: Platform, workspace: &str, path: &str, text: &str) -> (request: DirectRequest)
    ensures
        asked_by_user(request, "filesystem.write"@, joined_path(platform, workspace@, path@)),
        request.content matches DirectContent::Text(content) && content@ == text@,
{
    user_request("filesystem.write", join_path(platform, workspace, path), DirectContent::Text(text.to_owned()))
}

/// Writing bytes to a file: they travel in base64, which decodes to them.
pub fn plan_write_bytes(platform: Platform, workspace: &str, path: &str, bytes: &[u8]) -> (request: DirectRequest)
    requires
        bytes@.len() <= MAX_BASE64_INPUT,
    ensures
        asked_by_user(request, "filesystem.write"@, joined_path(platform, workspace@, path@)),
        request.content matches DirectContent::Encoded(content) && content@ == base64_encoded(bytes@) && decodes_to(
            content@,
            bytes@,
        ),
{
    user_request("filesystem.write", join_path(platform, workspace, path), DirectContent::Encoded(base64_encode(bytes)))
}

/// Fetching one page.
pub fn plan_http_get(url: &str) -> (request: DirectRequest)
    ensures
        asked_by_user(request, "network.http"@, url@),
        request.content == DirectContent::Page,
{
    user_request("network.http", url.to_owned(), DirectContent::Page)
}

/// The executable that a process runs: in an image the path as it stands, else the canonical one.
pub open spec fn process_executable(
    sandbox: SandboxConfig,
    executable: Seq<char>,
    canonical: Result<String, RuntimeError>,
) -> Option<Seq<char>> {
    if sandbox.backend@ == "oci"@ {
        if is_oci_path(executable) {
            Some(executable)
        } else {
            None
        }
    } else {
        match canonical {
            Ok(path) => Some(path@),
            Err(_) => None,
        }
    }
}

/// Starting a process: `canonical` and `cwd` are what the host found for its executable and its
/// directory.
pub fn plan_process(
    sandbox: &SandboxConfig,
    executable: &str,
    canonical: Result<String, RuntimeError>,
    cwd: Result<String, RuntimeError>,
    args: Vec<String>,
    environment: Vec<Entry<String>>,
) -> (result: Result<DirectRequest, RuntimeError>)
    ensures
        match process_executable(*sandbox, executable@, canonical) {
            None => if sandbox.backend@ == "oci"@ {
                is_config_error(result, "OCI executable must be an exact normalized absolute image path"@)
            } else {
                result == Err::<DirectRequest, RuntimeError>(canonical->Err_0)
            },
            Some(path) => match cwd {
                Err(error) => result == Err::<DirectRequest, RuntimeError>(error),
                Ok(directory) => result matches Ok(request) && asked_by_user(request, "process.spawn"@, path)
                    && request.content == DirectContent::Process(ProcessCall { cwd: directory, args, environment }),
            },
        },
{
    let path = if same_text(sandbox.backend.as_str(), "oci") {
        accept_image_executable(executable)?;
        executable.to_owned()
    } else {
        match canonical {
            Ok(path) => path,
            Err(error) => {
                return Err(error);
            },
        }
    };
    match cwd {
        Err(error) => Err(error),
        Ok(cwd) => Ok(
            user_request("process.spawn", path, DirectContent::Process(ProcessCall { cwd, args, environment })),
        ),
    }
}

/// The text of a file that was read.
pub fn file_text(bytes: &[u8]) -> (result: Result<String, RuntimeError>)
    ensures
        if valid_utf8(bytes@) {
            result matches Ok(text) && encode_utf8(text@) == bytes@
        } else {
            is_config_error(result, "file is not valid UTF-8: "@ + utf8_failure(bytes@))
        },
{
    match utf8_text(bytes) {
        Ok(text) => Ok(text),
        Err(text) => Err(RuntimeError::Config(concat2("file is not valid UTF-8: ", text.as_str()))),
    }
}

/// The source under which a workflow of the workspace is registered.
pub fn workflow_source(platform: Platform, workspace: &str, path: &str) -> (source: String)
    ensures
        source@ == "repo:"@ + joined_path(platform, workspace@, path@),
{
    let file = join_path(platform, workspace, path);
    concat2("repo:", file.as_str())
}

/// What a user asks for is asked in the user's name, for one action upon one resource, with the
/// capability of that action alone.
pub proof fn users_ask_in_their_own_name(request: DirectRequest, action: Seq<char>, resource: Seq<char>)
    requires
        asked_by_user(request, action, resource),
    ensures
        request.actor is User,
        request.action@ == action,
        request.resource@ == resource,
        request.capabilities@.len() == 1 && request.capabilities@[0]@ == request.action@,
{
}

/// A process runs the executable that was asked for: by the path written where it runs in a container,
/// which has to be normalized, and by its real path otherwise.
pub proof fn processes_run_the_asked_executable(
    sandbox: SandboxConfig,
    executable: Seq<char>,
    canonical: Result<String, RuntimeError>,
)
    ensures
        sandbox.backend@ == "oci"@ ==> (process_executable(sandbox, executable, canonical) is Some <==> is_oci_path(
            executable,
        )),
        sandbox.backend@ == "oci"@ && is_oci_path(executable) ==> process_executable(sandbox, executable, canonical)
            == Some(executable),
        sandbox.backend@ != "oci"@ ==> (process_executable(sandbox, executable, canonical) is Some
            <==> canonical is Ok),
        sandbox.backend@ != "oci"@ && canonical is Ok ==> process_executable(sandbox, executable, canonical) == Some(
            canonical->Ok_0@,
        ),
{
}

} // verus!
