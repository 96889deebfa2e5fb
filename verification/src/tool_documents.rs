//! The documents that tools hand to the model.

use crate::agent_tools::{ToolHit, ToolSearch};
use crate::entries::{distinct_keys, Entry};
use crate::error::{config_error, is_config_error, RuntimeError};
use crate::filesystem_tools::{item_name, nameless, Findings, ShownItem};
use crate::json::{
    failure, gives_back, is_json, item_document, json_error, json_item, json_object, json_pointer_keys,
    json_with_items, member, member_views, object_document, pointer_keys, pointer_text, roomy_member, sound_member,
    with_items, FieldView, JsonField,
};
use crate::mcp_search::{accept_search_output, MAX_SEARCH_OUTPUT, McpSearchHit, SearchReport};
use crate::text::{
    characters, clone_optional, clone_texts, concat2, concat3, decimal, decimal_text, optional_view, pieces, split,
    text_of, views,
};
use crate::tool_results::{PackOutput, ProcessOutput, RESULT_LIMIT, ShownText};
use crate::tools::{failed, refuses, Refusal, ToolError};
use vstd::prelude::*;
use vstd::string::*;
use vstd::utf8::*;

verus! {

/// What a call of a tool came to.
#[derive(Debug)]
pub struct ToolResult {
    pub call_id: String,
    pub name: String,
    pub output: String,
    /// Most bytes of the output that are shown, where it is bounded.
    pub limit: Option<usize>,
    pub exit_code: i32,
}

/// The result is that of a call, with this output.
pub open spec fn answers_call(
    result: ToolResult,
    call_id: Seq<char>,
    name: Seq<char>,
    output: Seq<char>,
    limit: Option<usize>,
    exit_code: int,
) -> bool {
    &&& result.call_id@ == call_id
    &&& result.name@ == name
    &&& result.output@ == output
    &&& result.limit == limit
    &&& result.exit_code == exit_code
}

/// The outcome is the result of a call whose output is an object.
pub open spec fn shows_object(
    result: Result<ToolResult, ToolError>,
    call_id: Seq<char>,
    name: Seq<char>,
    members: Seq<(Seq<char>, FieldView)>,
    limit: Option<usize>,
    exit_code: int,
) -> bool {
    result matches Ok(value) && json_object(members) == Some(value.output@) && answers_call(
        value,
        call_id,
        name,
        value.output@,
        limit,
        exit_code,
    )
}

/// The result of a tool that ran no process of its own: its text as it is, and the exit code 0.
pub fn plain_result(call_id: &str, name: &str, shown: ShownText) -> (result: ToolResult)
    ensures
        answers_call(result, call_id@, name@, shown.text@, Some(shown.limit), 0),
{
    ToolResult {
        call_id: call_id.to_owned(),
        name: name.to_owned(),
        output: shown.text,
        limit: Some(shown.limit),
        exit_code: 0,
    }
}

fn show_object(
    call_id: &str,
    name: &str,
    members: Vec<Entry<JsonField>>,
    limit: Option<usize>,
    exit_code: i32,
) -> (result: Result<
    ToolResult,
    ToolError,
>)
    requires
        distinct_keys(members@),
        forall|i: int| 0 <= i < members@.len() ==> sound_member((#[trigger] members@[i]).value@),
    ensures
        shows_object(result, call_id@, name@, member_views(members@), limit, exit_code as int),
        (forall|i: int| 0 <= i < members@.len() ==> roomy_member((#[trigger] members@[i]).value@, 0)) ==> forall|i: int|
            0 <= i < members@.len() ==> gives_back(
                encode_utf8(result->Ok_0.output@),
                ((#[trigger] members@[i]).key@, members@[i].value@),
            ),
{
    match object_document(members) {
        Some(output) => Ok(
            ToolResult { call_id: call_id.to_owned(), name: name.to_owned(), output, limit, exit_code },
        ),
        None => {
            proof {
                assert(false);
            }
            failed("")
        },
    }
}

/// The number of bytes of a character.
pub open spec fn width(c: char) -> nat {
    if (c as u32) < 0x80 {
        1
    } else if (c as u32) < 0x800 {
        2
    } else if (c as u32) < 0x1_0000 {
        3
    } else {
        4
    }
}

fn width_of(c: char) -> (bytes: usize)
    ensures
        bytes == width(c),
{
    let code: u32 = c as u32;
    if code < 0x80 {
        1
    } else if code < 0x800 {
        2
    } else if code < 0x1_0000 {
        3
    } else {
        4
    }
}

/// The number of first characters that have exactly so many bytes, where there are such.
pub open spec fn characters_in(text: Seq<char>, bytes: nat) -> Option<nat>
    decreases text.len(),
{
    if bytes == 0 {
        Some(0)
    } else if text.len() == 0 || width(text[0]) > bytes {
        None
    } else {
        match characters_in(text.skip(1), (bytes - width(text[0])) as nat) {
            Some(count) => Some(count + 1),
            None => None,
        }
    }
}

fn count_characters(text: &Vec<char>, bytes: usize) -> (count: Option<usize>)
    ensures
        match count {
            Some(number) => characters_in(text@, bytes as nat) == Some(number as nat) && number <= text@.len(),
            None => characters_in(text@, bytes as nat) is None,
        },
{
    let mut left: usize = bytes;
    let mut i: usize = 0;
    proof {
        assert(text@.skip(0) =~= text@);
    }
    while left > 0
        invariant
            i <= text@.len(),
            match characters_in(text@.skip(i as int), left as nat) {
                Some(count) => characters_in(text@, bytes as nat) == Some(count + i as nat),
                None => characters_in(text@, bytes as nat) is None,
            },
        decreases left,
    {
        if i >= text.len() {
            return None;
        }
        proof {
            assert(text@.skip(i as int)[0] == text@[i as int]);
            assert(text@.skip(i as int).skip(1) =~= text@.skip(i + 1));
        }
        let step = width_of(text[i]);
        if step > left {
            return None;
        }
        left = left - step;
        i = i + 1;
    }
    Some(i)
}

/// The lines of a text: what stands before each line feed, without the carriage return directly before
/// it, and what stands behind the last one.
pub open spec fn lines_of(text: Seq<char>) -> Seq<Seq<char>> {
    let list = pieces(text, '\n');
    Seq::new(
        list.len(),
        |i: int|
            if i + 1 < list.len() && list[i].len() > 0 && list[i].last() == '\r' {
                list[i].drop_last()
            } else {
                list[i]
            },
    )
}

fn line_list(text: &str) -> (list: Vec<String>)
    ensures
        views(list@) == lines_of(text@),
{
    let parts = split(text, '\n');
    let ghost all = pieces(text@, '\n');
    let mut list: Vec<String> = Vec::new();
    let mut i: usize = 0;
    while i < parts.len()
        invariant
            i <= parts@.len(),
            all == views(parts@),
            all == pieces(text@, '\n'),
            views(list@) == lines_of(text@).take(i as int),
        decreases parts@.len() - i,
    {
        let ghost before = views(list@);
        let part = characters(parts[i].as_str());
        let length: usize = part.len();
        let line = if i + 1 < parts.len() && length > 0 && part[length - 1] == '\r' {
            text_of(&part, 0, length - 1)
        } else {
            parts[i].clone()
        };
        proof {
            assert(all[i as int] == parts@[i as int]@);
            assert(line@ =~= lines_of(text@)[i as int]);
        }
        list.push(line);
        proof {
            assert(views(list@) =~= before.push(line@));
            assert(lines_of(text@).take(i + 1) =~= lines_of(text@).take(i as int).push(lines_of(text@)[i as int]));
        }
        i = i + 1;
    }
    proof {
        assert(lines_of(text@).take(i as int) =~= lines_of(text@));
    }
    list
}

/// The status of a line: its first two bytes, else the line.
pub open spec fn line_status(line: Seq<char>) -> Seq<char> {
    match characters_in(line, 2) {
        Some(count) => line.take(count as int),
        None => line,
    }
}

/// The path of a line: what follows its first three bytes.
pub open spec fn line_path(line: Seq<char>) -> Seq<char> {
    match characters_in(line, 3) {
        Some(count) => line.skip(count as int),
        None => Seq::empty(),
    }
}

/// The members of an entry of `git status`.
pub open spec fn status_members(line: Seq<char>) -> Seq<(Seq<char>, FieldView)> {
    seq![("status"@, FieldView::Text(line_status(line))), ("path"@, FieldView::Text(line_path(line)))]
}

/// The entries of `git status`: one for each line that is not empty.
pub open spec fn status_entries(lines: Seq<Seq<char>>) -> Seq<Seq<char>>
    decreases lines.len(),
{
    if lines.len() == 0 {
        Seq::empty()
    } else {
        let before = status_entries(lines.drop_last());
        if lines.last().len() == 0 {
            before
        } else {
            before.push(json_object(status_members(lines.last()))->0)
        }
    }
}

/// The entry of a line of `git status`.
fn status_entry(line: &str) -> (text: Option<String>)
    ensures
        text is Some,
        json_object(status_members(line@)) == Some(text->0@),
        is_json(text->0@),
{
    let list = characters(line);
    let status = match count_characters(&list, 2) {
        Some(count) => text_of(&list, 0, count),
        None => line.to_owned(),
    };
    let path = match count_characters(&list, 3) {
        Some(count) => text_of(&list, count, list.len()),
        None => String::new(),
    };
    proof {
        assert(status@ =~= line_status(line@));
        assert(path@ =~= line_path(line@));
        reveal_strlit("status");
        reveal_strlit("path");
        assert("status"@.len() != "path"@.len());
    }
    let members = vec![member("status", JsonField::Text(status)), member("path", JsonField::Text(path))];
    proof {
        assert(member_views(members@) =~= status_members(line@));
    }
    object_document(members)
}

fn status_list(stdout: &str) -> (list: Vec<String>)
    ensures
        views(list@) == status_entries(lines_of(stdout@)),
        forall|i: int| 0 <= i < list@.len() ==> is_json((#[trigger] list@[i])@),
{
    let lines = line_list(stdout);
    let ghost all = lines_of(stdout@);
    let mut list: Vec<String> = Vec::new();
    let mut i: usize = 0;
    proof {
        assert(views(list@) =~= status_entries(all.take(0)));
    }
    while i < lines.len()
        invariant
            i <= lines@.len(),
            all == views(lines@),
            views(list@) == status_entries(all.take(i as int)),
            forall|j: int| 0 <= j < list@.len() ==> is_json((#[trigger] list@[j])@),
        decreases lines@.len() - i,
    {
        proof {
            assert(all.take(i + 1).drop_last() =~= all.take(i as int));
            assert(all.take(i + 1).last() == lines@[i as int]@);
        }
        if !lines[i].as_str().is_empty() {
            let ghost before = views(list@);
            if let Some(text) = status_entry(lines[i].as_str()) {
                list.push(text);
                proof {
                    assert(views(list@) =~= before.push(text@));
                }
            }
        }
        i = i + 1;
    }
    proof {
        assert(all.take(i as int) =~= all);
    }
    list
}

/// The members of what `git status` shows.
pub open spec fn git_status_members(process: ProcessOutput) -> Seq<(Seq<char>, FieldView)> {
    seq![
        ("entries"@, FieldView::Documents(status_entries(lines_of(process.stdout@)))),
        ("raw"@, FieldView::Text(process.stdout@)),
        ("stderr"@, FieldView::Text(process.stderr@)),
        ("exit_code"@, FieldView::Integer(process.exit_code as i64)),
        ("truncated"@, FieldView::Flag(process.truncated)),
    ]
}

/// The keys of what a process shows differ.
proof fn process_keys_differ()
    ensures
        "entries"@ != "raw"@,
        "entries"@ != "stderr"@,
        "entries"@ != "exit_code"@,
        "entries"@ != "truncated"@,
        "raw"@ != "stderr"@,
        "raw"@ != "exit_code"@,
        "raw"@ != "truncated"@,
        "stderr"@ != "exit_code"@,
        "stderr"@ != "truncated"@,
        "exit_code"@ != "truncated"@,
        "stdout"@ != "stderr"@,
        "stdout"@ != "exit_code"@,
        "stdout"@ != "truncated"@,
        "diff"@ != "stderr"@,
        "diff"@ != "exit_code"@,
        "diff"@ != "truncated"@,
        "output"@ != "stderr"@,
        "output"@ != "exit_code"@,
        "output"@ != "truncated"@,
{
    reveal_strlit("entries");
    reveal_strlit("raw");
    reveal_strlit("stderr");
    reveal_strlit("stdout");
    reveal_strlit("exit_code");
    reveal_strlit("truncated");
    reveal_strlit("diff");
    reveal_strlit("output");
    assert("entries"@.len() == 7 && "raw"@.len() == 3 && "stderr"@.len() == 6 && "stdout"@.len() == 6);
    assert("exit_code"@.len() == 9 && "truncated"@.len() == 9 && "diff"@.len() == 4 && "output"@.len() == 6);
    assert("exit_code"@[0] != "truncated"@[0]);
    assert("stdout"@[3] != "stderr"@[3]);
    assert("output"@[0] != "stderr"@[0]);
}

/// What `git status` shows: an entry for each line, and the process as it ended.
pub fn git_status_result(call_id: &str, process: &ProcessOutput) -> (result: Result<ToolResult, ToolError>)
    ensures
        shows_object(
            result,
            call_id@,
            "git.status"@,
            git_status_members(*process),
            None,
            process.exit_code as int,
        ),
{
    let entries = status_list(process.stdout.as_str());
    let members = vec![
        member("entries", JsonField::Documents(entries)),
        member("raw", JsonField::Text(process.stdout.clone())),
        member("stderr", JsonField::Text(process.stderr.clone())),
        member("exit_code", JsonField::Integer(process.exit_code as i64)),
        member("truncated", JsonField::Flag(process.truncated)),
    ];
    proof {
        process_keys_differ();
        assert(member_views(members@) =~= git_status_members(*process));
        assert(distinct_keys(members@));
        assert forall|i: int| 0 <= i < members@.len() implies sound_member((#[trigger] members@[i]).value@) by {
            if i == 0 {
                assert forall|j: int| 0 <= j < views(entries@).len() implies is_json(#[trigger] views(entries@)[j]) by {
                    assert(views(entries@)[j] == entries@[j]@);
                }
            }
        }
    }
    show_object(call_id, "git.status", members, None, process.exit_code)
}

/// The members of what `git diff` and `git show` show, their output under its own key.
pub open spec fn git_text_members(key: Seq<char>, process: ProcessOutput) -> Seq<(Seq<char>, FieldView)> {
    seq![
        (key, FieldView::Text(process.stdout@)),
        ("stderr"@, FieldView::Text(process.stderr@)),
        ("exit_code"@, FieldView::Integer(process.exit_code as i64)),
        ("truncated"@, FieldView::Flag(process.truncated)),
    ]
}

fn git_text_result(call_id: &str, name: &str, key: &str, process: &ProcessOutput) -> (result: Result<
    ToolResult,
    ToolError,
>)
    requires
        key@ == "diff"@ || key@ == "output"@,
    ensures
        shows_object(
            result,
            call_id@,
            name@,
            git_text_members(key@, *process),
            None,
            process.exit_code as int,
        ),
        forall|i: int|
            0 <= i < 4 ==> gives_back(
                encode_utf8(result->Ok_0.output@),
                #[trigger] git_text_members(key@, *process)[i],
            ),
{
    let members = vec![
        member(key, JsonField::Text(process.stdout.clone())),
        member("stderr", JsonField::Text(process.stderr.clone())),
        member("exit_code", JsonField::Integer(process.exit_code as i64)),
        member("truncated", JsonField::Flag(process.truncated)),
    ];
    proof {
        process_keys_differ();
        assert(member_views(members@) =~= git_text_members(key@, *process));
        assert(distinct_keys(members@));
        assert(forall|i: int|
            0 <= i < 4 ==> (#[trigger] git_text_members(key@, *process)[i]) == (members@[i].key@, members@[i].value@));
    }
    show_object(call_id, name, members, None, process.exit_code)
}

/// What `git diff` shows.
pub fn git_diff_result(call_id: &str, process: &ProcessOutput) -> (result: Result<ToolResult, ToolError>)
    ensures
        shows_object(
            result,
            call_id@,
            "git.diff"@,
            git_text_members("diff"@, *process),
            None,
            process.exit_code as int,
        ),
        forall|i: int|
            0 <= i < 4 ==> gives_back(
                encode_utf8(result->Ok_0.output@),
                #[trigger] git_text_members("diff"@, *process)[i],
            ),
{
    git_text_result(call_id, "git.diff", "diff", process)
}

/// What `git show` shows.
pub fn git_show_result(call_id: &str, process: &ProcessOutput) -> (result: Result<ToolResult, ToolError>)
    ensures
        shows_object(
            result,
            call_id@,
            "git.show"@,
            git_text_members("output"@, *process),
            None,
            process.exit_code as int,
        ),
        forall|i: int|
            0 <= i < 4 ==> gives_back(
                encode_utf8(result->Ok_0.output@),
                #[trigger] git_text_members("output"@, *process)[i],
            ),
{
    git_text_result(call_id, "git.show", "output", process)
}

/// How a shell was called.
#[derive(Debug)]
pub enum ShellInvocation {
    Command(String),
    Argv(Vec<String>),
}

/// The members that tell how a shell was called.
pub open spec fn invocation_members(invocation: ShellInvocation) -> Seq<(Seq<char>, FieldView)> {
    match invocation {
        ShellInvocation::Command(command) => seq![("command"@, FieldView::Text(command@))],
        ShellInvocation::Argv(argv) => seq![("argv"@, FieldView::Texts(views(argv@)))],
    }
}

fn invocation_document(invocation: &ShellInvocation) -> (text: Option<String>)
    ensures
        text is Some,
        json_object(invocation_members(*invocation)) == Some(text->0@),
        is_json(text->0@),
{
    let members = match invocation {
        ShellInvocation::Command(command) => vec![member("command", JsonField::Text(command.clone()))],
        ShellInvocation::Argv(argv) => vec![member("argv", JsonField::Texts(clone_texts(argv)))],
    };
    proof {
        assert(member_views(members@) =~= invocation_members(*invocation));
    }
    object_document(members)
}

/// The members of what a shell shows.
pub open spec fn shell_members(
    process: ProcessOutput,
    invocation: ShellInvocation,
    executable: Seq<char>,
    args: Seq<Seq<char>>,
    cwd: Seq<char>,
) -> Seq<(Seq<char>, FieldView)> {
    seq![
        ("invocation"@, FieldView::Document(json_object(invocation_members(invocation))->0)),
        ("resolved_argv"@, FieldView::Texts(seq![executable] + args)),
        ("exit_code"@, FieldView::Integer(process.exit_code as i64)),
        ("stdout"@, FieldView::Text(process.stdout@)),
        ("stderr"@, FieldView::Text(process.stderr@)),
        ("cwd"@, FieldView::Text(cwd)),
        ("truncated"@, FieldView::Flag(process.truncated)),
        ("observed_origins"@, FieldView::Texts(views(process.observed_origins@))),
    ]
}

proof fn shell_keys_differ(list: Seq<Entry<JsonField>>)
    requires
        list.len() == 8,
        list[0].key@ == "invocation"@,
        list[1].key@ == "resolved_argv"@,
        list[2].key@ == "exit_code"@,
        list[3].key@ == "stdout"@,
        list[4].key@ == "stderr"@,
        list[5].key@ == "cwd"@,
        list[6].key@ == "truncated"@,
        list[7].key@ == "observed_origins"@,
    ensures
        distinct_keys(list),
{
    process_keys_differ();
    reveal_strlit("invocation");
    reveal_strlit("resolved_argv");
    reveal_strlit("exit_code");
    reveal_strlit("stdout");
    reveal_strlit("stderr");
    reveal_strlit("cwd");
    reveal_strlit("truncated");
    reveal_strlit("observed_origins");
    assert("invocation"@.len() == 10 && "resolved_argv"@.len() == 13 && "exit_code"@.len() == 9);
    assert("stdout"@.len() == 6 && "stderr"@.len() == 6 && "cwd"@.len() == 3 && "truncated"@.len() == 9);
    assert("observed_origins"@.len() == 16);
}

/// What `shell.run` shows: how it was called, the arguments that were run, the directory as it is
/// displayed, and the process as it ended.
pub fn shell_result(
    call_id: &str,
    process: &ProcessOutput,
    invocation: &ShellInvocation,
    executable: &str,
    args: &Vec<String>,
    cwd: &str,
) -> (result: Result<ToolResult, ToolError>)
    ensures
        shows_object(
            result,
            call_id@,
            "shell.run"@,
            shell_members(*process, *invocation, executable@, views(args@), cwd@),
            None,
            process.exit_code as int,
        ),
{
    let called = match invocation_document(invocation) {
        Some(text) => text,
        None => String::new(),
    };
    let mut argv: Vec<String> = Vec::new();
    argv.push(executable.to_owned());
    crate::config::extend_texts(&mut argv, args);
    proof {
        assert(views(argv@) =~= seq![executable@] + views(args@));
    }
    let members = vec![
        member("invocation", JsonField::Document(called)),
        member("resolved_argv", JsonField::Texts(argv)),
        member("exit_code", JsonField::Integer(process.exit_code as i64)),
        member("stdout", JsonField::Text(process.stdout.clone())),
        member("stderr", JsonField::Text(process.stderr.clone())),
        member("cwd", JsonField::Text(cwd.to_owned())),
        member("truncated", JsonField::Flag(process.truncated)),
        member("observed_origins", JsonField::Texts(clone_texts(&process.observed_origins))),
    ];
    proof {
        shell_keys_differ(members@);
        assert(member_views(members@) =~= shell_members(*process, *invocation, executable@, views(args@), cwd@));
    }
    show_object(call_id, "shell.run", members, None, process.exit_code)
}

/// The key under which an item holds its name.
pub open spec fn name_key(kind: Findings) -> Seq<char> {
    match kind {
        Findings::Entries => "name"@,
        Findings::Matches => "path"@,
    }
}

/// Where an item stands in the document.
pub open spec fn item_pointer(kind: Findings, index: nat) -> Seq<char> {
    match kind {
        Findings::Entries => "/entries/"@ + decimal(index),
        Findings::Matches => "/matches/"@ + decimal(index),
    }
}

/// Every shown item has a name in the document.
pub open spec fn all_named(document: Seq<u8>, kind: Findings, items: Seq<ShownItem>) -> bool {
    forall|i: int| 0 <= i < items.len() ==> item_name(document, kind, (#[trigger] items[i]).index as nat) is Some
}

/// The shown items of a document, each with the path under which it is shown.
pub open spec fn shown_array(document: Seq<u8>, kind: Findings, items: Seq<ShownItem>) -> Seq<Seq<char>> {
    items.map_values(
        |item: ShownItem| json_item(document, item_pointer(kind, item.index as nat), "path"@, item.path@)->0,
    )
}

/// Why shown items cannot be written, if so.
pub open spec fn array_refusal(document: Seq<u8>, kind: Findings, items: Seq<ShownItem>) -> Option<Refusal> {
    match json_error(document) {
        Some(reason) => Some(Refusal::Failed(reason)),
        None => if all_named(document, kind, items) {
            None
        } else {
            Some(Refusal::Failed(nameless(kind)))
        },
    }
}

proof fn pointers_agree(kind: Findings, index: nat)
    ensures
        kind is Entries ==> item_pointer(kind, index) + "/"@ + name_key(kind) == "/entries/"@ + decimal(index)
            + "/name"@,
        kind is Matches ==> item_pointer(kind, index) + "/"@ + name_key(kind) == "/matches/"@ + decimal(index)
            + "/path"@,
        name_key(kind).len() == 4,
        forall|i: int| 0 <= i < 4 ==> crate::text::is_lower(#[trigger] name_key(kind)[i]),
{
    reveal_strlit("/");
    reveal_strlit("name");
    reveal_strlit("path");
    reveal_strlit("/name");
    reveal_strlit("/path");
    assert("/"@ + "name"@ =~= "/name"@);
    assert("/"@ + "path"@ =~= "/path"@);
    assert(item_pointer(kind, index) + "/"@ + name_key(kind) =~= item_pointer(kind, index) + ("/"@ + name_key(kind)));
    assert("name"@[0] == 'n' && "name"@[1] == 'a' && "name"@[2] == 'm' && "name"@[3] == 'e');
    assert("path"@[0] == 'p' && "path"@[1] == 'a' && "path"@[2] == 't' && "path"@[3] == 'h');
}

fn write_items(document: &[u8], kind: Findings, items: &Vec<ShownItem>) -> (result: Result<Vec<String>, ToolError>)
    ensures
        match array_refusal(document@, kind, items@) {
            Some(refusal) => refuses(result, refusal),
            None => result matches Ok(list) && views(list@) == shown_array(document@, kind, items@) && forall|i: int|
                0 <= i < list@.len() ==> is_json((#[trigger] list@[i])@),
        },
{
    if let Some(reason) = failure(document) {
        return failed(reason.as_str());
    }
    let mut list: Vec<String> = Vec::new();
    let mut i: usize = 0;
    proof {
        assert(views(list@) =~= shown_array(document@, kind, items@.take(0)));
    }
    while i < items.len()
        invariant
            i <= items@.len(),
            json_error(document@) is None,
            views(list@) == shown_array(document@, kind, items@.take(i as int)),
            forall|j: int| 0 <= j < list@.len() ==> is_json((#[trigger] list@[j])@),
            forall|j: int| 0 <= j < i ==> item_name(document@, kind, (#[trigger] items@[j]).index as nat) is Some,
        decreases items@.len() - i,
    {
        let number = decimal_text(items[i].index as u64);
        let (place, named, known) = match kind {
            Findings::Entries => (
                concat2("/entries/", number.as_str()),
                concat3("/entries/", number.as_str(), "/name"),
                "name",
            ),
            Findings::Matches => (
                concat2("/matches/", number.as_str()),
                concat3("/matches/", number.as_str(), "/path"),
                "path",
            ),
        };
        proof {
            pointers_agree(kind, items@[i as int].index as nat);
        }
        if pointer_text(document, named.as_str()).is_none() {
            proof {
                assert(item_name(document@, kind, items@[i as int].index as nat) is None);
            }
            return match kind {
                Findings::Entries => failed("filesystem.list entry name is absent"),
                Findings::Matches => failed("search match path is absent"),
            };
        }
        let ghost before = views(list@);
        match item_document(document, place.as_str(), known, "path", items[i].path.as_str()) {
            Some(text) => {
                list.push(text);
            },
            None => {
                proof {
                    assert(false);
                }
            },
        }
        proof {
            assert(items@.take(i + 1) =~= items@.take(i as int).push(items@[i as int]));
            assert(views(list@) =~= before.push(list@.last()@));
            assert(views(list@) =~= shown_array(document@, kind, items@.take(i + 1)));
        }
        i = i + 1;
    }
    proof {
        assert(items@.take(i as int) =~= items@);
    }
    Ok(list)
}

/// The members of what `filesystem.list` shows.
pub open spec fn list_members(root: Seq<char>, entries: Seq<Seq<char>>) -> Seq<(Seq<char>, FieldView)> {
    seq![("root"@, FieldView::Text(root)), ("entries"@, FieldView::Documents(entries))]
}

/// What `filesystem.list` shows: the directory as it is displayed, and its entries, each with the path
/// under which it is shown. `root` is how the directory is displayed, or why it is not.
pub fn list_result(
    call_id: &str,
    document: &[u8],
    items: &Vec<ShownItem>,
    root: Result<String, ToolError>,
) -> (result: Result<
    ToolResult,
    ToolError,
>)
    ensures
        match array_refusal(document@, Findings::Entries, items@) {
            Some(refusal) => refuses(result, refusal),
            None => match root {
                Err(error) => refuses(result, Refusal::Forward(error)),
                Ok(shown) => shows_object(
                    result,
                    call_id@,
                    "filesystem.list"@,
                    list_members(shown@, shown_array(document@, Findings::Entries, items@)),
                    None,
                    0,
                ),
            },
        },
{
    let entries = match write_items(document, Findings::Entries, items) {
        Ok(list) => list,
        Err(error) => {
            return Err(error);
        },
    };
    let root = match root {
        Ok(text) => text,
        Err(error) => {
            return Err(error);
        },
    };
    let members = vec![member("root", JsonField::Text(root)), member("entries", JsonField::Documents(entries))];
    proof {
        reveal_strlit("root");
        reveal_strlit("entries");
        assert("root"@.len() == 4 && "entries"@.len() == 7);
        assert(distinct_keys(members@));
        assert(member_views(members@) =~= list_members(root@, views(entries@)));
        assert forall|i: int| 0 <= i < members@.len() implies sound_member((#[trigger] members@[i]).value@) by {
            if i == 1 {
                assert forall|k: int| 0 <= k < views(entries@).len() implies is_json(#[trigger] views(entries@)[k]) by {
                    assert(is_json(entries@[k]@));
                }
            }
        }
    }
    show_object(call_id, "filesystem.list", members, None, 0)
}

/// What `filesystem.search` shows: the document as it was found, each match with the path under which
/// it is shown.
pub fn search_result(call_id: &str, document: &[u8], items: &Vec<ShownItem>) -> (result: Result<ToolResult, ToolError>)
    ensures
        match array_refusal(document@, Findings::Matches, items@) {
            Some(refusal) => refuses(result, refusal),
            None => if json_pointer_keys(document@, ""@) is None {
                refuses(result, Refusal::Failed("filesystem.search returned invalid JSON"@))
            } else {
                result matches Ok(value) && json_with_items(
                    document@,
                    "matches"@,
                    shown_array(document@, Findings::Matches, items@),
                ) == Some(value.output@) && answers_call(
                    value,
                    call_id@,
                    "filesystem.search"@,
                    value.output@,
                    None,
                    0,
                )
            },
        },
{
    let matches = match write_items(document, Findings::Matches, items) {
        Ok(list) => list,
        Err(error) => {
            return Err(error);
        },
    };
    if pointer_keys(document, "").is_none() {
        return failed("filesystem.search returned invalid JSON");
    }
    match with_items(document, "matches", &matches) {
        Some(output) => Ok(
            ToolResult {
                call_id: call_id.to_owned(),
                name: "filesystem.search".to_owned(),
                output,
                limit: None,
                exit_code: 0,
            },
        ),
        None => failed("filesystem.search returned invalid JSON"),
    }
}

/// The members of a tool that a search found.
pub open spec fn hit_members(hit: ToolHit) -> Seq<(Seq<char>, FieldView)> {
    seq![
        ("name"@, FieldView::Text(hit.name@)),
        ("description"@, FieldView::Text(hit.description@)),
        ("effect_action"@, FieldView::Optional(optional_view(hit.effect_action))),
        ("capability"@, FieldView::Optional(optional_view(hit.capability))),
        ("score"@, FieldView::Natural(hit.score)),
    ]
}

/// The members of an MCP tool that a search found.
pub open spec fn mcp_hit_members(hit: McpSearchHit) -> Seq<(Seq<char>, FieldView)> {
    seq![
        ("server"@, FieldView::Text(hit.server@)),
        ("name"@, FieldView::Text(hit.name@)),
        ("title"@, FieldView::Optional(optional_view(hit.title))),
        ("description"@, FieldView::Optional(optional_view(hit.description))),
        ("score"@, FieldView::Natural(hit.score as u64)),
    ]
}

proof fn hit_keys_differ()
    ensures
        "name"@.len() == 4,
        "description"@.len() == 11,
        "effect_action"@.len() == 13,
        "capability"@.len() == 10,
        "score"@.len() == 5,
        "server"@.len() == 6,
        "title"@.len() == 5,
        "title"@ != "score"@,
{
    reveal_strlit("name");
    reveal_strlit("description");
    reveal_strlit("effect_action");
    reveal_strlit("capability");
    reveal_strlit("score");
    reveal_strlit("server");
    reveal_strlit("title");
    assert("title"@[0] != "score"@[0]);
}

fn hit_document(hit: &ToolHit) -> (text: Option<String>)
    ensures
        text is Some,
        json_object(hit_members(*hit)) == Some(text->0@),
        is_json(text->0@),
{
    let members = vec![
        member("name", JsonField::Text(hit.name.clone())),
        member("description", JsonField::Text(hit.description.clone())),
        member("effect_action", JsonField::Optional(clone_optional(&hit.effect_action))),
        member("capability", JsonField::Optional(clone_optional(&hit.capability))),
        member("score", JsonField::Natural(hit.score)),
    ];
    proof {
        hit_keys_differ();
        assert(distinct_keys(members@));
        assert(member_views(members@) =~= hit_members(*hit));
    }
    object_document(members)
}

fn mcp_hit_document(hit: &McpSearchHit) -> (text: Option<String>)
    ensures
        text is Some,
        json_object(mcp_hit_members(*hit)) == Some(text->0@),
        is_json(text->0@),
{
    let members = vec![
        member("server", JsonField::Text(hit.server.clone())),
        member("name", JsonField::Text(hit.name.clone())),
        member("title", JsonField::Optional(clone_optional(&hit.title))),
        member("description", JsonField::Optional(clone_optional(&hit.description))),
        member("score", JsonField::Natural(hit.score as u64)),
    ];
    proof {
        hit_keys_differ();
        assert(distinct_keys(members@));
        assert(member_views(members@) =~= mcp_hit_members(*hit));
    }
    object_document(members)
}

/// Found tools, each as its object.
pub open spec fn hit_documents(hits: Seq<ToolHit>) -> Seq<Seq<char>> {
    hits.map_values(|hit: ToolHit| json_object(hit_members(hit))->0)
}

/// Found MCP tools, each as its object.
pub open spec fn mcp_hit_documents(hits: Seq<McpSearchHit>) -> Seq<Seq<char>> {
    hits.map_values(|hit: McpSearchHit| json_object(mcp_hit_members(hit))->0)
}

/// Most bytes of the results of a search for tools that are shown.
pub const TOOL_SEARCH_LIMIT: usize = 0x4_0000;

/// The members of what a search for tools shows.
pub open spec fn tool_search_members(found: ToolSearch) -> Seq<(Seq<char>, FieldView)> {
    seq![
        ("query"@, FieldView::Text(found.query@)),
        ("tools"@, FieldView::Documents(hit_documents(found.tools@))),
        ("truncated"@, FieldView::Flag(found.truncated)),
    ]
}

proof fn search_keys_differ()
    ensures
        "query"@.len() == 5,
        "tools"@.len() == 5,
        "query"@ != "tools"@,
        "truncated"@.len() == 9,
        "unavailable_servers"@.len() == 19,
        "unavailable_server_count"@.len() == 24,
{
    reveal_strlit("query");
    reveal_strlit("tools");
    reveal_strlit("truncated");
    reveal_strlit("unavailable_servers");
    reveal_strlit("unavailable_server_count");
    assert("query"@[0] != "tools"@[0]);
}

/// What a search for tools shows.
pub fn tool_search_result(call_id: &str, name: &str, found: &ToolSearch) -> (result: Result<ToolResult, ToolError>)
    ensures
        shows_object(result, call_id@, name@, tool_search_members(*found), Some(TOOL_SEARCH_LIMIT), 0),
{
    let mut tools: Vec<String> = Vec::new();
    let mut i: usize = 0;
    proof {
        assert(views(tools@) =~= hit_documents(found.tools@).take(0));
    }
    while i < found.tools.len()
        invariant
            i <= found.tools@.len(),
            views(tools@) == hit_documents(found.tools@).take(i as int),
            forall|j: int| 0 <= j < tools@.len() ==> is_json((#[trigger] tools@[j])@),
        decreases found.tools@.len() - i,
    {
        let ghost before = views(tools@);
        if let Some(text) = hit_document(&found.tools[i]) {
            tools.push(text);
            proof {
                let all = hit_documents(found.tools@);
                assert(all[i as int] == text@);
                assert(views(tools@) =~= before.push(text@));
                assert(all.take(i + 1) =~= all.take(i as int).push(all[i as int]));
            }
        }
        i = i + 1;
    }
    let members = vec![
        member("query", JsonField::Text(found.query.clone())),
        member("tools", JsonField::Documents(tools)),
        member("truncated", JsonField::Flag(found.truncated)),
    ];
    proof {
        assert(hit_documents(found.tools@).take(i as int) =~= hit_documents(found.tools@));
        search_keys_differ();
        assert(distinct_keys(members@));
        assert(member_views(members@) =~= tool_search_members(*found));
        assert forall|j: int| 0 <= j < members@.len() implies sound_member((#[trigger] members@[j]).value@) by {
            if j == 1 {
                assert forall|k: int| 0 <= k < views(tools@).len() implies is_json(#[trigger] views(tools@)[k]) by {
                    assert(views(tools@)[k] == tools@[k]@);
                }
            }
        }
    }
    show_object(call_id, name, members, Some(TOOL_SEARCH_LIMIT), 0)
}

/// The members of what a search for MCP tools shows.
pub open spec fn mcp_search_members(query: Seq<char>, report: SearchReport) -> Seq<(Seq<char>, FieldView)> {
    seq![
        ("query"@, FieldView::Text(query)),
        ("tools"@, FieldView::Documents(mcp_hit_documents(report.tools@))),
        ("truncated"@, FieldView::Flag(report.truncated)),
        ("unavailable_servers"@, FieldView::Texts(views(report.unavailable@))),
        ("unavailable_server_count"@, FieldView::Natural(report.unavailable_count as u64)),
    ]
}

/// What a search for MCP tools shows, where that stays within its bound.
pub fn mcp_search_output(query: &str, report: &SearchReport) -> (result: Result<String, RuntimeError>)
    ensures
        json_object(mcp_search_members(query@, *report)) is Some,
        if encode_utf8(json_object(mcp_search_members(query@, *report))->0).len() > MAX_SEARCH_OUTPUT {
            is_config_error(result, "MCP search output exceeded its bound"@)
        } else {
            result matches Ok(text) && json_object(mcp_search_members(query@, *report)) == Some(text@)
        },
{
    let mut tools: Vec<String> = Vec::new();
    let mut i: usize = 0;
    proof {
        assert(views(tools@) =~= mcp_hit_documents(report.tools@).take(0));
    }
    while i < report.tools.len()
        invariant
            i <= report.tools@.len(),
            views(tools@) == mcp_hit_documents(report.tools@).take(i as int),
            forall|j: int| 0 <= j < tools@.len() ==> is_json((#[trigger] tools@[j])@),
        decreases report.tools@.len() - i,
    {
        let ghost before = views(tools@);
        if let Some(text) = mcp_hit_document(&report.tools[i]) {
            tools.push(text);
            proof {
                let all = mcp_hit_documents(report.tools@);
                assert(all[i as int] == text@);
                assert(views(tools@) =~= before.push(text@));
                assert(all.take(i + 1) =~= all.take(i as int).push(all[i as int]));
            }
        }
        i = i + 1;
    }
    let members = vec![
        member("query", JsonField::Text(query.to_owned())),
        member("tools", JsonField::Documents(tools)),
        member("truncated", JsonField::Flag(report.truncated)),
        member("unavailable_servers", JsonField::Texts(clone_texts(&report.unavailable))),
        member("unavailable_server_count", JsonField::Natural(report.unavailable_count as u64)),
    ];
    proof {
        assert(mcp_hit_documents(report.tools@).take(i as int) =~= mcp_hit_documents(report.tools@));
        search_keys_differ();
        assert(distinct_keys(members@));
        assert(member_views(members@) =~= mcp_search_members(query@, *report));
        assert forall|j: int| 0 <= j < members@.len() implies sound_member((#[trigger] members@[j]).value@) by {
            if j == 1 {
                assert forall|k: int| 0 <= k < views(tools@).len() implies is_json(#[trigger] views(tools@)[k]) by {
                    assert(views(tools@)[k] == tools@[k]@);
                }
            }
        }
    }
    match object_document(members) {
        Some(text) => match accept_search_output(text.as_str().as_bytes().len()) {
            Ok(()) => Ok(text),
            Err(error) => Err(error),
        },
        None => {
            proof {
                assert(false);
            }
            config_error("")
        },
    }
}

/// The members of what a tool of a pack shows.
pub open spec fn pack_members(pack: Seq<char>, tool: Seq<char>, output: PackOutput) -> Seq<(Seq<char>, FieldView)> {
    seq![
        ("pack"@, FieldView::Text(pack)),
        ("tool"@, FieldView::Text(tool)),
        ("stdout"@, FieldView::Text(output.stdout@)),
        ("stderr"@, FieldView::Text(output.stderr@)),
        ("exit_code"@, FieldView::Integer(output.exit_code as i64)),
        ("truncated"@, FieldView::Flag(output.truncated)),
    ]
}

/// What a tool of a pack shows, with the exit code of its process.
pub fn pack_result(call_id: &str, name: &str, pack: &str, tool: &str, output: &PackOutput) -> (result: Result<
    ToolResult,
    ToolError,
>)
    ensures
        shows_object(
            result,
            call_id@,
            name@,
            pack_members(pack@, tool@, *output),
            Some(RESULT_LIMIT),
            output.exit_code as int,
        ),
        forall|i: int|
            0 <= i < 6 ==> gives_back(
                encode_utf8(result->Ok_0.output@),
                #[trigger] pack_members(pack@, tool@, *output)[i],
            ),
{
    let members = vec![
        member("pack", JsonField::Text(pack.to_owned())),
        member("tool", JsonField::Text(tool.to_owned())),
        member("stdout", JsonField::Text(output.stdout.clone())),
        member("stderr", JsonField::Text(output.stderr.clone())),
        member("exit_code", JsonField::Integer(output.exit_code as i64)),
        member("truncated", JsonField::Flag(output.truncated)),
    ];
    proof {
        process_keys_differ();
        reveal_strlit("pack");
        reveal_strlit("tool");
        reveal_strlit("stdout");
        reveal_strlit("stderr");
        reveal_strlit("exit_code");
        reveal_strlit("truncated");
        assert("pack"@.len() == 4 && "tool"@.len() == 4 && "pack"@[0] != "tool"@[0]);
        assert("stdout"@.len() == 6 && "stderr"@.len() == 6 && "exit_code"@.len() == 9 && "truncated"@.len() == 9);
        assert(distinct_keys(members@));
        assert(member_views(members@) =~= pack_members(pack@, tool@, *output));
        assert(forall|i: int|
            0 <= i < 6 ==> (#[trigger] pack_members(pack@, tool@, *output)[i]) == (
                members@[i].key@,
                members@[i].value@,
            ));
    }
    show_object(call_id, name, members, Some(RESULT_LIMIT), output.exit_code)
}

/// An answer bears the call and the name it answers, its output, its limit and its exit code.
pub proof fn answers_bear_their_call(
    result: ToolResult,
    call_id: Seq<char>,
    name: Seq<char>,
    output: Seq<char>,
    limit: Option<usize>,
    exit_code: int,
)
    requires
        answers_call(result, call_id, name, output, limit, exit_code),
    ensures
        result.call_id@ == call_id,
        result.name@ == name,
        result.output@ == output,
        result.limit == limit,
        result.exit_code == exit_code,
{
}

/// The answer of a git tool shows both streams, the exit code and whether anything was cut off.
pub proof fn git_answers_show_the_process(key: Seq<char>, process: ProcessOutput)
    ensures
        git_text_members(key, process).contains((key, FieldView::Text(process.stdout@))),
        git_text_members(key, process).contains(("stderr"@, FieldView::Text(process.stderr@))),
        git_text_members(key, process).contains(("exit_code"@, FieldView::Integer(process.exit_code as i64))),
        git_text_members(key, process).contains(("truncated"@, FieldView::Flag(process.truncated))),
        git_status_members(process).contains(("raw"@, FieldView::Text(process.stdout@))),
        git_status_members(process).contains(("stderr"@, FieldView::Text(process.stderr@))),
        git_status_members(process).contains(("exit_code"@, FieldView::Integer(process.exit_code as i64))),
        git_status_members(process).contains(("truncated"@, FieldView::Flag(process.truncated))),
        git_status_members(process)[0].0 == "entries"@,
{
    let text = git_text_members(key, process);
    assert(text[0] == (key, FieldView::Text(process.stdout@)));
    assert(text[1] == ("stderr"@, FieldView::Text(process.stderr@)));
    assert(text[2] == ("exit_code"@, FieldView::Integer(process.exit_code as i64)));
    assert(text[3] == ("truncated"@, FieldView::Flag(process.truncated)));
    let status = git_status_members(process);
    assert(status[1] == ("raw"@, FieldView::Text(process.stdout@)));
    assert(status[2] == ("stderr"@, FieldView::Text(process.stderr@)));
    assert(status[3] == ("exit_code"@, FieldView::Integer(process.exit_code as i64)));
    assert(status[4] == ("truncated"@, FieldView::Flag(process.truncated)));
}

/// Every line of a status that says anything is an entry of its answer, and there is no other.
pub proof fn status_lines_are_entries(lines: Seq<Seq<char>>, line: Seq<char>)
    ensures
        line.len() == 0 ==> status_entries(lines.push(line)) == status_entries(lines),
        line.len() > 0 ==> status_entries(lines.push(line)) == status_entries(lines).push(
            json_object(status_members(line))->0,
        ),
        status_entries(Seq::empty()).len() == 0,
{
    assert(lines.push(line).drop_last() == lines);
}

/// A line of two plain letters, a space and a path is the state of that path.
pub proof fn states_stand_before_their_path(state: Seq<char>, path: Seq<char>)
    requires
        state.len() == 2,
        (state[0] as u32) < 0x80,
        (state[1] as u32) < 0x80,
    ensures
        line_status(state + " "@ + path) == state,
        line_path(state + " "@ + path) == path,
{
    reveal_strlit(" ");
    let line = state + " "@ + path;
    reveal_with_fuel(characters_in, 4);
    assert(line.skip(1)[0] == state[1]);
    assert(line.skip(1).skip(1)[0] == ' ');
    assert(characters_in(line, 2) == Some(2nat));
    assert(characters_in(line, 3) == Some(3nat));
    assert(line.take(2) == state);
    assert(line.skip(3) == path);
}

/// The answer of a shell shows what was asked for and what was run: the command or the words, the
/// executable before its arguments, the directory, both streams and the exit code.
pub proof fn shell_answers_show_what_was_run(
    process: ProcessOutput,
    invocation: ShellInvocation,
    executable: Seq<char>,
    args: Seq<Seq<char>>,
    cwd: Seq<char>,
)
    ensures
        ({
            let members = shell_members(process, invocation, executable, args, cwd);
            &&& members.contains(("resolved_argv"@, FieldView::Texts(seq![executable] + args)))
            &&& members.contains(("exit_code"@, FieldView::Integer(process.exit_code as i64)))
            &&& members.contains(("stdout"@, FieldView::Text(process.stdout@)))
            &&& members.contains(("stderr"@, FieldView::Text(process.stderr@)))
            &&& members.contains(("cwd"@, FieldView::Text(cwd)))
            &&& members.contains(("truncated"@, FieldView::Flag(process.truncated)))
            &&& members.contains(("observed_origins"@, FieldView::Texts(views(process.observed_origins@))))
        }),
        invocation matches ShellInvocation::Command(command) ==> invocation_members(invocation) == seq![
            ("command"@, FieldView::Text(command@)),
        ],
        invocation matches ShellInvocation::Argv(argv) ==> invocation_members(invocation) == seq![
            ("argv"@, FieldView::Texts(views(argv@))),
        ],
{
    let members = shell_members(process, invocation, executable, args, cwd);
    assert(members[1] == ("resolved_argv"@, FieldView::Texts(seq![executable] + args)));
    assert(members[2] == ("exit_code"@, FieldView::Integer(process.exit_code as i64)));
    assert(members[3] == ("stdout"@, FieldView::Text(process.stdout@)));
    assert(members[4] == ("stderr"@, FieldView::Text(process.stderr@)));
    assert(members[5] == ("cwd"@, FieldView::Text(cwd)));
    assert(members[6] == ("truncated"@, FieldView::Flag(process.truncated)));
    assert(members[7] == ("observed_origins"@, FieldView::Texts(views(process.observed_origins@))));
}

/// The answer of a search shows its query, its hits and whether there were more; a search of servers
/// names those that did not answer and counts them.
pub proof fn search_answers_show_their_hits(found: ToolSearch, query: Seq<char>, report: SearchReport)
    ensures
        tool_search_members(found).contains(("query"@, FieldView::Text(found.query@))),
        tool_search_members(found).contains(("truncated"@, FieldView::Flag(found.truncated))),
        hit_documents(found.tools@).len() == found.tools@.len(),
        mcp_search_members(query, report).contains(("query"@, FieldView::Text(query))),
        mcp_search_members(query, report).contains(("truncated"@, FieldView::Flag(report.truncated))),
        mcp_search_members(query, report).contains(
            ("unavailable_servers"@, FieldView::Texts(views(report.unavailable@))),
        ),
        mcp_search_members(query, report).contains(
            ("unavailable_server_count"@, FieldView::Natural(report.unavailable_count as u64)),
        ),
        mcp_hit_documents(report.tools@).len() == report.tools@.len(),
{
    let tools = tool_search_members(found);
    assert(tools[0] == ("query"@, FieldView::Text(found.query@)));
    assert(tools[2] == ("truncated"@, FieldView::Flag(found.truncated)));
    let servers = mcp_search_members(query, report);
    assert(servers[0] == ("query"@, FieldView::Text(query)));
    assert(servers[2] == ("truncated"@, FieldView::Flag(report.truncated)));
    assert(servers[3] == ("unavailable_servers"@, FieldView::Texts(views(report.unavailable@))));
    assert(servers[4] == ("unavailable_server_count"@, FieldView::Natural(report.unavailable_count as u64)));
}

/// A hit is shown with its own name, description and score.
pub proof fn shown_hits_are_the_found_ones(hit: ToolHit, server_hit: McpSearchHit)
    ensures
        hit_members(hit).contains(("name"@, FieldView::Text(hit.name@))),
        hit_members(hit).contains(("description"@, FieldView::Text(hit.description@))),
        hit_members(hit).contains(("score"@, FieldView::Natural(hit.score))),
        hit_members(hit).contains(("effect_action"@, FieldView::Optional(optional_view(hit.effect_action)))),
        hit_members(hit).contains(("capability"@, FieldView::Optional(optional_view(hit.capability)))),
        mcp_hit_members(server_hit).contains(("server"@, FieldView::Text(server_hit.server@))),
        mcp_hit_members(server_hit).contains(("name"@, FieldView::Text(server_hit.name@))),
        mcp_hit_members(server_hit).contains(("title"@, FieldView::Optional(optional_view(server_hit.title)))),
        mcp_hit_members(server_hit).contains(
            ("description"@, FieldView::Optional(optional_view(server_hit.description))),
        ),
        mcp_hit_members(server_hit).contains(("score"@, FieldView::Natural(server_hit.score as u64))),
{
    let shown = hit_members(hit);
    assert(shown[0] == ("name"@, FieldView::Text(hit.name@)));
    assert(shown[1] == ("description"@, FieldView::Text(hit.description@)));
    assert(shown[2] == ("effect_action"@, FieldView::Optional(optional_view(hit.effect_action))));
    assert(shown[3] == ("capability"@, FieldView::Optional(optional_view(hit.capability))));
    assert(shown[4] == ("score"@, FieldView::Natural(hit.score)));
    let server = mcp_hit_members(server_hit);
    assert(server[0] == ("server"@, FieldView::Text(server_hit.server@)));
    assert(server[1] == ("name"@, FieldView::Text(server_hit.name@)));
    assert(server[2] == ("title"@, FieldView::Optional(optional_view(server_hit.title))));
    assert(server[3] == ("description"@, FieldView::Optional(optional_view(server_hit.description))));
    assert(server[4] == ("score"@, FieldView::Natural(server_hit.score as u64)));
}

/// The answer of a pack's tool names the pack and the tool and shows both streams and the exit code.
pub proof fn pack_answers_name_their_pack(pack: Seq<char>, tool: Seq<char>, output: PackOutput)
    ensures
        ({
            let members = pack_members(pack, tool, output);
            &&& members.len() == 6
            &&& members[0] == ("pack"@, FieldView::Text(pack))
            &&& members[1] == ("tool"@, FieldView::Text(tool))
            &&& members[2] == ("stdout"@, FieldView::Text(output.stdout@))
            &&& members[3] == ("stderr"@, FieldView::Text(output.stderr@))
            &&& members[4] == ("exit_code"@, FieldView::Integer(output.exit_code as i64))
            &&& members[5] == ("truncated"@, FieldView::Flag(output.truncated))
        }),
{
}

/// What an object shows is the written object itself, under the call and the name that asked for it.
pub proof fn objects_are_shown_as_written(
    result: Result<ToolResult, ToolError>,
    call_id: Seq<char>,
    name: Seq<char>,
    members: Seq<(Seq<char>, FieldView)>,
    limit: Option<usize>,
    exit_code: int,
)
    requires
        shows_object(result, call_id, name, members, limit, exit_code),
    ensures
        result is Ok,
        Some(result->Ok_0.output@) == json_object(members),
        result->Ok_0.call_id@ == call_id,
        result->Ok_0.name@ == name,
        result->Ok_0.limit == limit,
        result->Ok_0.exit_code == exit_code,
{
}

/// A listing and a search show each item of the document that was chosen, in the order of the choice, with
/// its path; they are refused where an item has no name.
pub proof fn chosen_items_are_shown(document: Seq<u8>, items: Seq<ShownItem>, root: Seq<char>, at: int)
    requires
        0 <= at < items.len(),
    ensures
        ({
            let entries = shown_array(document, Findings::Entries, items);
            let matches = shown_array(document, Findings::Matches, items);
            &&& entries.len() == items.len()
            &&& matches.len() == items.len()
            &&& Some(entries[at]) == json_item(
                document,
                "/entries/"@ + decimal(items[at].index as nat),
                "path"@,
                items[at].path@,
            ) || json_item(document, "/entries/"@ + decimal(items[at].index as nat), "path"@, items[at].path@) is None
            &&& Some(matches[at]) == json_item(
                document,
                "/matches/"@ + decimal(items[at].index as nat),
                "path"@,
                items[at].path@,
            ) || json_item(document, "/matches/"@ + decimal(items[at].index as nat), "path"@, items[at].path@) is None
        }),
        list_members(root, shown_array(document, Findings::Entries, items)) == seq![
            ("root"@, FieldView::Text(root)),
            ("entries"@, FieldView::Documents(shown_array(document, Findings::Entries, items))),
        ],
        json_error(document) is Some ==> array_refusal(document, Findings::Entries, items) is Some && array_refusal(
            document,
            Findings::Matches,
            items,
        ) is Some,
        item_name(document, Findings::Entries, items[at].index as nat) is None ==> array_refusal(
            document,
            Findings::Entries,
            items,
        ) is Some,
        item_name(document, Findings::Matches, items[at].index as nat) is None ==> array_refusal(
            document,
            Findings::Matches,
            items,
        ) is Some,
        json_error(document) is None && (forall|i: int|
            0 <= i < items.len() ==> item_name(document, Findings::Entries, (#[trigger] items[i]).index as nat)
                is Some) ==> array_refusal(document, Findings::Entries, items) is None,
        json_error(document) is None && (forall|i: int|
            0 <= i < items.len() ==> item_name(document, Findings::Matches, (#[trigger] items[i]).index as nat)
                is Some) ==> array_refusal(document, Findings::Matches, items) is None,
{
}

} // verus!
