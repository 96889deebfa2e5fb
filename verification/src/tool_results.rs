//! What the effects behind tools hand back, and how it is read.

use crate::encoding::{base64_decode, base64_decoded, lossy_text, lossy_utf8, utf8_text};
use crate::json::{
    failure, field_flag, field_integer, field_text, json_error, json_field_flag, json_field_integer, json_field_text,
    json_pointer_length, json_pointer_text, pointer_length, pointer_text,
};
use crate::text::{concat2, concat3, decimal, decimal_text, views};
use crate::tools::{failed, refuses, Refusal, ToolError};
use vstd::prelude::*;
use vstd::string::*;
use vstd::utf8::*;

verus! {

/// The adapter behind a tool.
#[derive(Clone, Copy, Debug, PartialEq, Eq, Structural)]
pub enum Adapter {
    Work,
    Memory,
    Skill,
    Integration,
    PackProcess,
    Mcp,
    Process,
    Search,
}

/// The failure of a tool whose adapter is not there.
pub open spec fn unavailable(adapter: Adapter) -> Seq<char> {
    match adapter {
        Adapter::Work => "work adapter is unavailable"@,
        Adapter::Memory => "memory adapter is unavailable"@,
        Adapter::Skill => "skill adapter is unavailable"@,
        Adapter::Integration => "integration adapter is unavailable"@,
        Adapter::PackProcess => "pack process adapter is unavailable"@,
        Adapter::Mcp => "MCP adapter is unavailable"@,
        Adapter::Process => "process adapter is unavailable"@,
        Adapter::Search => "search provider is unavailable"@,
    }
}

/// Requires the adapter of a tool to be there.
pub fn require_adapter(adapter: Adapter, available: bool) -> (result: Result<(), ToolError>)
    ensures
        if available {
            result is Ok
        } else {
            refuses(result, Refusal::Failed(unavailable(adapter)))
        },
{
    if available {
        return Ok(());
    }
    match adapter {
        Adapter::Work => failed("work adapter is unavailable"),
        Adapter::Memory => failed("memory adapter is unavailable"),
        Adapter::Skill => failed("skill adapter is unavailable"),
        Adapter::Integration => failed("integration adapter is unavailable"),
        Adapter::PackProcess => failed("pack process adapter is unavailable"),
        Adapter::Mcp => failed("MCP adapter is unavailable"),
        Adapter::Process => failed("process adapter is unavailable"),
        Adapter::Search => failed("search provider is unavailable"),
    }
}

/// A result that is handed to the model as it is.
#[derive(Clone, Copy, Debug, PartialEq, Eq, Structural)]
pub enum ResultKind {
    Work,
    Memory,
    Skill,
    Integration,
    Repository,
    Mutation,
    Patch,
    /// Contents of a file: any text.
    File,
    /// Contents of a page: any text.
    Page,
}

/// Most bytes of a result that is shown to the model.
pub const RESULT_LIMIT: usize = 0x10_0000;

/// Most bytes of a result of a skill that is shown to the model.
pub const SKILL_RESULT_LIMIT: usize = 0x4_0000;

/// Most bytes of a result of this kind that are shown to the model.
pub open spec fn limit_of(kind: ResultKind) -> usize {
    if kind is Skill {
        SKILL_RESULT_LIMIT
    } else {
        RESULT_LIMIT
    }
}

/// The failure of a result that is no text.
pub open spec fn not_text(kind: ResultKind) -> Seq<char> {
    match kind {
        ResultKind::Work => "work result returned non-UTF-8"@,
        ResultKind::Memory => "memory result returned non-UTF-8"@,
        ResultKind::Skill => "skill resource returned non-UTF-8"@,
        ResultKind::Integration => "integration result returned non-UTF-8"@,
        ResultKind::Repository => "repository result returned non-UTF-8"@,
        ResultKind::Mutation => "filesystem mutation returned non-UTF-8"@,
        ResultKind::Patch => "patch result returned non-UTF-8"@,
        ResultKind::File => "filesystem.read returned non-UTF-8"@,
        ResultKind::Page => "network.http returned non-UTF-8"@,
    }
}

/// What stands before the reason in the failure of a result that is no JSON; absent where any text
/// is taken.
pub open spec fn not_json(kind: ResultKind) -> Option<Seq<char>> {
    match kind {
        ResultKind::Work => Some("invalid work result: "@),
        ResultKind::Memory => Some("invalid memory result: "@),
        ResultKind::Skill => Some("invalid skill result: "@),
        ResultKind::Integration => Some("invalid integration result: "@),
        ResultKind::Repository => Some("invalid repository result: "@),
        ResultKind::Mutation => Some("invalid mutation result: "@),
        ResultKind::Patch => Some("invalid patch result: "@),
        ResultKind::File => None,
        ResultKind::Page => None,
    }
}

/// Why a result is refused, if so.
pub open spec fn result_refusal(kind: ResultKind, bytes: Seq<u8>) -> Option<Refusal> {
    if !valid_utf8(bytes) {
        Some(Refusal::Failed(not_text(kind)))
    } else {
        match (not_json(kind), json_error(bytes)) {
            (Some(prefix), Some(reason)) => Some(Refusal::Failed(prefix + reason)),
            _ => None,
        }
    }
}

/// A text and the most bytes of it that are shown to the model.
#[derive(Debug)]
pub struct ShownText {
    pub text: String,
    pub limit: usize,
}

fn text_failure(kind: ResultKind) -> (result: Result<ShownText, ToolError>)
    ensures
        refuses(result, Refusal::Failed(not_text(kind))),
{
    match kind {
        ResultKind::Work => failed("work result returned non-UTF-8"),
        ResultKind::Memory => failed("memory result returned non-UTF-8"),
        ResultKind::Skill => failed("skill resource returned non-UTF-8"),
        ResultKind::Integration => failed("integration result returned non-UTF-8"),
        ResultKind::Repository => failed("repository result returned non-UTF-8"),
        ResultKind::Mutation => failed("filesystem mutation returned non-UTF-8"),
        ResultKind::Patch => failed("patch result returned non-UTF-8"),
        ResultKind::File => failed("filesystem.read returned non-UTF-8"),
        ResultKind::Page => failed("network.http returned non-UTF-8"),
    }
}

fn json_prefix(kind: ResultKind) -> (prefix: Option<&'static str>)
    ensures
        match prefix {
            Some(text) => not_json(kind) == Some(text@),
            None => not_json(kind) is None,
        },
{
    match kind {
        ResultKind::Work => Some("invalid work result: "),
        ResultKind::Memory => Some("invalid memory result: "),
        ResultKind::Skill => Some("invalid skill result: "),
        ResultKind::Integration => Some("invalid integration result: "),
        ResultKind::Repository => Some("invalid repository result: "),
        ResultKind::Mutation => Some("invalid mutation result: "),
        ResultKind::Patch => Some("invalid patch result: "),
        ResultKind::File => None,
        ResultKind::Page => None,
    }
}

/// The text of a result, unchanged, with the most bytes of it that are shown. Structured results have
/// to be JSON.
pub fn result_text(kind: ResultKind, bytes: &[u8]) -> (result: Result<ShownText, ToolError>)
    ensures
        match result_refusal(kind, bytes@) {
            Some(refusal) => refuses(result, refusal),
            None => result matches Ok(shown) && encode_utf8(shown.text@) == bytes@ && shown.limit == limit_of(kind),
        },
{
    match utf8_text(bytes) {
        Err(_) => text_failure(kind),
        Ok(text) => {
            if let Some(prefix) = json_prefix(kind) {
                if let Some(reason) = failure(bytes) {
                    let message = concat2(prefix, reason.as_str());
                    return failed(message.as_str());
                }
            }
            let limit: usize = if let ResultKind::Skill = kind {
                SKILL_RESULT_LIMIT
            } else {
                RESULT_LIMIT
            };
            Ok(ShownText { text, limit })
        },
    }
}

/// How the failures of a process document are worded.
pub ghost struct Wording {
    pub absent: Seq<char>,
    pub invalid: Seq<char>,
}

/// Why the output of a field is refused, if so: it has to be there, in base64.
pub open spec fn output_refusal(document: Seq<u8>, field: Seq<char>, wording: Wording) -> Option<Refusal> {
    match json_field_text(document, field) {
        None => Some(Refusal::Failed(wording.absent + field + " is absent"@)),
        Some(encoded) => match base64_decoded(encoded) {
            Err(reason) => Some(Refusal::Failed(wording.invalid + reason)),
            Ok(_) => None,
        },
    }
}

/// The output of a field, as text.
pub open spec fn output_text(document: Seq<u8>, field: Seq<char>) -> Seq<char> {
    lossy_utf8(base64_decoded(json_field_text(document, field)->0)->Ok_0)
}

fn decode_output(document: &[u8], field: &str, absent: &str, invalid: &str) -> (result: Result<String, ToolError>)
    ensures
        match output_refusal(document@, field@, (Wording { absent: absent@, invalid: invalid@ })) {
            Some(refusal) => refuses(result, refusal),
            None => result matches Ok(text) && text@ == output_text(document@, field@),
        },
{
    match field_text(document, field) {
        None => {
            let text = concat3(absent, field, " is absent");
            failed(text.as_str())
        },
        Some(encoded) => match base64_decode(encoded.as_str()) {
            Err(reason) => {
                let text = concat2(invalid, reason.as_str());
                failed(text.as_str())
            },
            Ok(bytes) => Ok(lossy_text(bytes.as_slice())),
        },
    }
}

/// The exit code that a document states, where it fits.
pub open spec fn stated_exit_code(document: Seq<u8>) -> Option<i32> {
    match json_field_integer(document, "exit_code"@) {
        Some(code) => if i32::MIN <= code <= i32::MAX {
            Some(code as i32)
        } else {
            None
        },
        None => None,
    }
}

fn read_exit_code(document: &[u8]) -> (code: Option<i32>)
    ensures
        code == stated_exit_code(document@),
{
    match field_integer(document, "exit_code") {
        Some(code) => if -0x8000_0000 <= code && code <= 0x7fff_ffff {
            Some(code as i32)
        } else {
            None
        },
        None => None,
    }
}

/// Most observed origins that are handed to the model.
pub const MAX_OBSERVED_ORIGINS: usize = 64;

/// The texts among the first items of the array of observed origins, at most 64.
pub open spec fn observed_texts(document: Seq<u8>, count: nat) -> Seq<Seq<char>>
    decreases count,
{
    if count == 0 {
        Seq::empty()
    } else {
        let before = observed_texts(document, (count - 1) as nat);
        match json_pointer_text(document, "/observed_origins/"@ + decimal((count - 1) as nat)) {
            Some(text) => if before.len() < MAX_OBSERVED_ORIGINS {
                before.push(text)
            } else {
                before
            },
            None => before,
        }
    }
}

/// The observed origins that a document states.
pub open spec fn observed(document: Seq<u8>) -> Seq<Seq<char>> {
    match json_pointer_length(document, "/observed_origins"@) {
        Some(count) => observed_texts(document, count),
        None => Seq::empty(),
    }
}

/// Once there are 64 of them, further items add nothing.
proof fn observed_texts_stop(document: Seq<u8>, count: nat, more: nat)
    requires
        observed_texts(document, count).len() >= MAX_OBSERVED_ORIGINS,
        count <= more,
    ensures
        observed_texts(document, more) == observed_texts(document, count),
    decreases more,
{
    if count < more {
        observed_texts_stop(document, count, (more - 1) as nat);
    }
}

fn read_observed(document: &[u8]) -> (list: Vec<String>)
    ensures
        views(list@) == observed(document@),
{
    let mut list: Vec<String> = Vec::new();
    if let Some(count) = pointer_length(document, "/observed_origins") {
        let mut i: usize = 0;
        while i < count && list.len() < MAX_OBSERVED_ORIGINS
            invariant
                i <= count,
                list@.len() <= MAX_OBSERVED_ORIGINS,
                views(list@) == observed_texts(document@, i as nat),
            decreases count - i,
        {
            let number = decimal_text(i as u64);
            let pointer = concat2("/observed_origins/", number.as_str());
            let ghost before = list@;
            if let Some(text) = pointer_text(document, pointer.as_str()) {
                list.push(text);
                proof {
                    assert(views(list@) =~= views(before).push(text@));
                }
            }
            i = i + 1;
        }
        proof {
            if i < count {
                observed_texts_stop(document@, i as nat, count as nat);
            }
        }
    } else {
        proof {
            assert(views(list@) =~= Seq::<Seq<char>>::empty());
        }
    }
    list
}

/// What a finished process handed back.
#[derive(Debug)]
pub struct ProcessOutput {
    pub stdout: String,
    pub stderr: String,
    /// -1 where none is stated.
    pub exit_code: i32,
    pub truncated: bool,
    /// Origins that the process was seen to reach, the first 64.
    pub observed_origins: Vec<String>,
}

/// How the failures of a process are worded.
pub open spec fn process_wording() -> Wording {
    Wording { absent: "process result field "@, invalid: "invalid process output: "@ }
}

/// Why the document of a process is refused, if so.
pub open spec fn process_refusal(document: Seq<u8>) -> Option<Refusal> {
    match json_error(document) {
        Some(reason) => Some(Refusal::Failed("invalid process result: "@ + reason)),
        None => match output_refusal(document, "stdout_base64"@, process_wording()) {
            Some(refusal) => Some(refusal),
            None => output_refusal(document, "stderr_base64"@, process_wording()),
        },
    }
}

/// Reads the document that a process handed back.
pub fn process_output(document: &[u8]) -> (result: Result<ProcessOutput, ToolError>)
    ensures
        match process_refusal(document@) {
            Some(refusal) => refuses(result, refusal),
            None => result matches Ok(output) && {
                &&& output.stdout@ == output_text(document@, "stdout_base64"@)
                &&& output.stderr@ == output_text(document@, "stderr_base64"@)
                &&& output.exit_code == match stated_exit_code(document@) {
                    Some(code) => code as int,
                    None => -1,
                }
                &&& output.truncated == (json_field_flag(document@, "output_truncated"@) == Some(true))
                &&& views(output.observed_origins@) == observed(document@)
            },
        },
{
    if let Some(reason) = failure(document) {
        let text = concat2("invalid process result: ", reason.as_str());
        return failed(text.as_str());
    }
    let stdout = decode_output(document, "stdout_base64", "process result field ", "invalid process output: ")?;
    let stderr = decode_output(document, "stderr_base64", "process result field ", "invalid process output: ")?;
    let exit_code: i32 = match read_exit_code(document) {
        Some(code) => code,
        None => -1,
    };
    let truncated = match field_flag(document, "output_truncated") {
        Some(flag) => flag,
        None => false,
    };
    let observed_origins = read_observed(document);
    Ok(ProcessOutput { stdout, stderr, exit_code, truncated, observed_origins })
}

/// What a finished tool of a pack handed back.
#[derive(Debug)]
pub struct PackOutput {
    pub stdout: String,
    pub stderr: String,
    pub exit_code: i32,
    pub truncated: bool,
}

/// How the failures of a tool of a pack are worded.
pub open spec fn pack_wording() -> Wording {
    Wording { absent: "pack process result field "@, invalid: "invalid pack output: "@ }
}

/// Why the document of a tool of a pack is refused, if so.
pub open spec fn pack_refusal(document: Seq<u8>) -> Option<Refusal> {
    match json_error(document) {
        Some(reason) => Some(Refusal::Failed("invalid pack process result: "@ + reason)),
        None => if stated_exit_code(document) is None {
            Some(Refusal::Failed("pack process exit_code is absent"@))
        } else {
            match output_refusal(document, "stdout_base64"@, pack_wording()) {
                Some(refusal) => Some(refusal),
                None => output_refusal(document, "stderr_base64"@, pack_wording()),
            }
        },
    }
}

/// Reads the document that a tool of a pack handed back. Here an exit code has to be stated.
pub fn pack_output(document: &[u8]) -> (result: Result<PackOutput, ToolError>)
    ensures
        match pack_refusal(document@) {
            Some(refusal) => refuses(result, refusal),
            None => result matches Ok(output) && {
                &&& output.stdout@ == output_text(document@, "stdout_base64"@)
                &&& output.stderr@ == output_text(document@, "stderr_base64"@)
                &&& stated_exit_code(document@) == Some(output.exit_code)
                &&& output.truncated == (json_field_flag(document@, "truncated"@) == Some(true))
            },
        },
{
    if let Some(reason) = failure(document) {
        let text = concat2("invalid pack process result: ", reason.as_str());
        return failed(text.as_str());
    }
    match read_exit_code(document) {
        None => failed("pack process exit_code is absent"),
        Some(exit_code) => {
            let stdout = decode_output(
                document,
                "stdout_base64",
                "pack process result field ",
                "invalid pack output: ",
            )?;
            let stderr = decode_output(
                document,
                "stderr_base64",
                "pack process result field ",
                "invalid pack output: ",
            )?;
            let truncated = match field_flag(document, "truncated") {
                Some(flag) => flag,
                None => false,
            };
            Ok(PackOutput { stdout, stderr, exit_code, truncated })
        },
    }
}

/// A result is shown exactly where it is text and, of the kinds that are documents, valid JSON; files
/// and pages may be any text.
pub proof fn readable_results_are_shown(kind: ResultKind, bytes: Seq<u8>)
    ensures
        kind is File || kind is Page ==> (result_refusal(kind, bytes) is None <==> valid_utf8(bytes)),
        !(kind is File) && !(kind is Page) ==> (result_refusal(kind, bytes) is None <==> valid_utf8(bytes)
            && json_error(bytes) is None),
{
}

/// A skill's result is bounded at a quarter of a mebibyte and every other at a whole one.
pub proof fn results_are_bounded(kind: ResultKind)
    ensures
        kind is Skill ==> limit_of(kind) == 262_144,
        !(kind is Skill) ==> limit_of(kind) == 1_048_576,
{
}

/// The output of a process is read exactly where the document is valid and both streams are encoded in
/// it; a pack's process has to state its exit code too.
pub proof fn complete_outputs_are_read(document: Seq<u8>)
    ensures
        ({
            let streams = json_field_text(document, "stdout_base64"@) is Some && base64_decoded(
                json_field_text(document, "stdout_base64"@)->0,
            ) is Ok && json_field_text(document, "stderr_base64"@) is Some && base64_decoded(
                json_field_text(document, "stderr_base64"@)->0,
            ) is Ok;
            &&& process_refusal(document) is None <==> json_error(document) is None && streams
            &&& pack_refusal(document) is None <==> json_error(document) is None && streams && stated_exit_code(
                document,
            ) is Some
        }),
{
}

/// The two streams are read from fields of their own, and each is what its field encodes.
pub proof fn streams_are_read_from_their_fields(document: Seq<u8>, field: Seq<char>, encoded: Seq<char>, bytes: Seq<u8>)
    requires
        json_field_text(document, field) == Some(encoded),
        base64_decoded(encoded) == Ok::<Seq<u8>, Seq<char>>(bytes),
    ensures
        output_text(document, field) == lossy_utf8(bytes),
{
}

/// An exit code is the one that the document states, where a process can have it.
pub proof fn exit_codes_are_the_stated_ones(document: Seq<u8>)
    ensures
        stated_exit_code(document) matches Some(code) ==> json_field_integer(document, "exit_code"@) is Some && code
            == json_field_integer(document, "exit_code"@)->0,
        json_field_integer(document, "exit_code"@) is None ==> stated_exit_code(document) is None,
        json_field_integer(document, "exit_code"@) matches Some(code) ==> -2_147_483_648 <= code <= 2_147_483_647
            ==> stated_exit_code(document) is Some,
{
}

/// Observed origins are those of the document in their order, the first sixty-four of them.
pub proof fn observed_origins_are_bounded(document: Seq<u8>, count: nat)
    ensures
        observed_texts(document, count).len() <= 64,
        observed_texts(document, count).len() <= count,
        count <= 64 && (forall|i: nat|
            i < count ==> #[trigger] json_pointer_text(document, "/observed_origins/"@ + decimal(i)) is Some) ==> {
            &&& observed_texts(document, count).len() == count
            &&& forall|i: nat|
                i < count ==> observed_texts(document, count)[i as int] == #[trigger] json_pointer_text(
                    document,
                    "/observed_origins/"@ + decimal(i),
                )->0
        },
    decreases count,
{
    if count > 0 {
        let last = (count - 1) as nat;
        observed_origins_are_bounded(document, last);
        let before = observed_texts(document, last);
        let all = observed_texts(document, count);
        if count <= 64 && (forall|i: nat|
            i < count ==> #[trigger] json_pointer_text(document, "/observed_origins/"@ + decimal(i)) is Some) {
            assert(json_pointer_text(document, "/observed_origins/"@ + decimal(last)) is Some);
            assert forall|i: nat| i < count implies all[i as int] == #[trigger] json_pointer_text(
                document,
                "/observed_origins/"@ + decimal(i),
            )->0 by {
                if i < last {
                    assert(all[i as int] == before[i as int]);
                }
            }
        }
    }
}

/// A missing adapter is named: no two are told in the same words.
pub proof fn missing_adapters_are_named(first: Adapter, second: Adapter)
    requires
        first != second,
    ensures
        unavailable(first) != unavailable(second),
{
    reveal_strlit("work adapter is unavailable");
    reveal_strlit("memory adapter is unavailable");
    reveal_strlit("skill adapter is unavailable");
    reveal_strlit("integration adapter is unavailable");
    reveal_strlit("pack process adapter is unavailable");
    reveal_strlit("MCP adapter is unavailable");
    reveal_strlit("process adapter is unavailable");
    reveal_strlit("search provider is unavailable");
    assert("work adapter is unavailable"@[0] == 'w');
    assert("memory adapter is unavailable"@[0] == 'm');
    assert("skill adapter is unavailable"@[0] == 's' && "skill adapter is unavailable"@[1] == 'k');
    assert("integration adapter is unavailable"@[0] == 'i');
    assert("pack process adapter is unavailable"@[0] == 'p' && "pack process adapter is unavailable"@[1] == 'a');
    assert("MCP adapter is unavailable"@[0] == 'M');
    assert("process adapter is unavailable"@[0] == 'p' && "process adapter is unavailable"@[1] == 'r');
    assert("search provider is unavailable"@[0] == 's' && "search provider is unavailable"@[1] == 'e');
}

/// The origins that a process reached are read from its document, each text of the list in its order, and a
/// document without the list names none.
pub proof fn origins_are_read_from_the_document(document: Seq<u8>)
    ensures
        json_pointer_length(document, "/observed_origins"@) is None ==> observed(document).len() == 0,
        json_pointer_length(document, "/observed_origins"@) == Some(1nat) && json_pointer_text(
            document,
            "/observed_origins/"@ + decimal(0),
        ) is Some ==> observed(document) == seq![json_pointer_text(document, "/observed_origins/"@ + decimal(0))->0],
        json_pointer_length(document, "/observed_origins"@) matches Some(count) ==> observed(document)
            == observed_texts(document, count),
{
    reveal_with_fuel(observed_texts, 2);
}

} // verus!
