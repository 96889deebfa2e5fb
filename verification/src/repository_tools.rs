//! Tools that read and patch the repository.

use crate::config::Platform;
use crate::effects::{asks_for, effect_plan, EffectPlan};
use crate::executables::{fitting, git_executable, is_git, only_fitting, Executable};
use crate::process_tools::{chosen, runs, ProcessPlan, ProcessSpec};
use crate::text::{characters, pieces, same_text, split, text_of, views};
use crate::tool_results::{require_adapter, unavailable, Adapter};
use crate::tools::{
    first, forwarded, given, optional_refusal, refuses, required_refusal, Refusal, TextArgument, ToolError,
};
use vstd::prelude::*;
use vstd::string::*;
use vstd::utf8::*;

verus! {

/// Most bytes of output that git may hand back.
pub const GIT_OUTPUT_BYTES: u64 = 0x1_0000;

/// The only granted git.
pub open spec fn granted_git(platform: Platform, executables: Seq<Executable>) -> Result<Seq<char>, Refusal> {
    only_fitting(
        fitting(executables, |executable: Executable| is_git(platform, executable)),
        "Git tools require one explicitly configured git executable"@,
        "multiple git executables are configured; keep one exact identity"@,
    )
}

/// What git runs with, apart from its arguments: in the workspace, with no environment of its own,
/// and a bounded output.
pub open spec fn git_spec(spec: ProcessSpec) -> bool {
    spec.environment@.len() == 0 && spec.timeout_ms is None && spec.max_output_bytes == Some(GIT_OUTPUT_BYTES)
}

/// A call of git is planned with these arguments, or refused where no git is granted or no process
/// can be run.
pub open spec fn git_outcome(
    result: Result<ProcessPlan, ToolError>,
    action: Seq<char>,
    workspace: Seq<char>,
    args: Seq<Seq<char>>,
    git: Result<Seq<char>, Refusal>,
    available: bool,
) -> bool {
    match git {
        Err(refusal) => refuses(result, refusal),
        Ok(executable) => if available {
            result matches Ok(planned) && runs(planned, action, executable, workspace, args) && git_spec(planned.spec)
        } else {
            refuses(result, Refusal::Failed(unavailable(Adapter::Process)))
        },
    }
}

fn plan_git(
    platform: Platform,
    action: &str,
    workspace: &str,
    args: Vec<String>,
    executables: &Vec<Executable>,
    unrestricted: &Option<Result<String, ToolError>>,
    available: bool,
) -> (result: Result<ProcessPlan, ToolError>)
    ensures
        git_outcome(
            result,
            action@,
            workspace@,
            views(args@),
            chosen(*unrestricted, granted_git(platform, executables@)),
            available,
        ),
{
    let executable = match unrestricted {
        Some(Ok(path)) => path.clone(),
        Some(Err(error)) => {
            return Err(error.clone());
        },
        None => git_executable(platform, executables)?,
    };
    require_adapter(Adapter::Process, available)?;
    Ok(
        ProcessPlan {
            plan: effect_plan(action, executable.as_str()),
            spec: ProcessSpec {
                cwd: workspace.to_owned(),
                args,
                environment: Vec::new(),
                timeout_ms: None,
                max_output_bytes: Some(GIT_OUTPUT_BYTES),
            },
        },
    )
}

/// Plans a call of `git status`. `unrestricted` is the git that the host finds where the run has
/// unrestricted access.
pub fn plan_git_status(
    platform: Platform,
    workspace: &str,
    executables: &Vec<Executable>,
    unrestricted: &Option<Result<String, ToolError>>,
    available: bool,
) -> (result: Result<ProcessPlan, ToolError>)
    ensures
        git_outcome(
            result,
            "git.status"@,
            workspace@,
            seq!["status"@, "--porcelain=v1"@],
            chosen(*unrestricted, granted_git(platform, executables@)),
            available,
        ),
{
    let args: Vec<String> = vec!["status".to_owned(), "--porcelain=v1".to_owned()];
    proof {
        assert(views(args@) =~= seq!["status"@, "--porcelain=v1"@]);
    }
    plan_git(platform, "git.status", workspace, args, executables, unrestricted, available)
}

/// The arguments of `git diff`.
pub open spec fn diff_arguments(paths: Option<Vec<String>>, safe: Seq<String>) -> Seq<Seq<char>> {
    let base = seq!["diff"@, "--no-ext-diff"@, "--no-textconv"@];
    match paths {
        Some(list) => if list@.len() > 0 {
            base.push("--"@) + views(safe)
        } else {
            base
        },
        None => base,
    }
}

/// Why a call of `git diff` is refused for its arguments, if so.
pub open spec fn diff_refusal(
    paths: Result<Option<Vec<String>>, ToolError>,
    safe: Result<Vec<String>, ToolError>,
) -> Option<Refusal> {
    match paths {
        Err(error) => Some(Refusal::Forward(error)),
        Ok(Some(list)) => if list@.len() > 0 {
            forwarded(safe)
        } else {
            None
        },
        Ok(None) => None,
    }
}

/// Plans a call of `git diff`. `safe` are the paths as they may be handed to git, or why one may not.
pub fn plan_git_diff(
    platform: Platform,
    paths: &Result<Option<Vec<String>>, ToolError>,
    safe: &Result<Vec<String>, ToolError>,
    workspace: &str,
    executables: &Vec<Executable>,
    unrestricted: &Option<Result<String, ToolError>>,
    available: bool,
) -> (result: Result<ProcessPlan, ToolError>)
    ensures
        match diff_refusal(*paths, *safe) {
            Some(refusal) => refuses(result, refusal),
            None => git_outcome(
                result,
                "git.diff"@,
                workspace@,
                diff_arguments(paths->Ok_0, safe->Ok_0@),
                chosen(*unrestricted, granted_git(platform, executables@)),
                available,
            ),
        },
{
    let mut args: Vec<String> = vec!["diff".to_owned(), "--no-ext-diff".to_owned(), "--no-textconv".to_owned()];
    proof {
        assert(views(args@) =~= seq!["diff"@, "--no-ext-diff"@, "--no-textconv"@]);
    }
    match paths {
        Err(error) => {
            return Err(error.clone());
        },
        Ok(Some(list)) => {
            if list.len() > 0 {
                match safe {
                    Err(error) => {
                        return Err(error.clone());
                    },
                    Ok(allowed) => {
                        let ghost base = views(args@);
                        args.push("--".to_owned());
                        proof {
                            assert(views(args@) =~= base.push("--"@));
                            assert(views(args@) =~= base.push("--"@) + views(allowed@.take(0)));
                        }
                        let mut i: usize = 0;
                        while i < allowed.len()
                            invariant
                                i <= allowed@.len(),
                                views(args@) == base.push("--"@) + views(allowed@.take(i as int)),
                            decreases allowed@.len() - i,
                        {
                            let ghost before = views(args@);
                            args.push(allowed[i].clone());
                            proof {
                                assert(views(args@) =~= before.push(allowed@[i as int]@));
                                assert(views(allowed@.take(i + 1)) =~= views(allowed@.take(i as int)).push(
                                    allowed@[i as int]@,
                                ));
                                assert(views(args@) =~= base.push("--"@) + views(allowed@.take(i + 1)));
                            }
                            i = i + 1;
                        }
                        proof {
                            assert(allowed@.take(i as int) =~= allowed@);
                        }
                    },
                }
            }
        },
        Ok(None) => {},
    }
    plan_git(platform, "git.diff", workspace, args, executables, unrestricted, available)
}

/// The revision that `git show` is asked for.
pub open spec fn requested_revision(rev: TextArgument) -> Seq<char> {
    match given(rev) {
        Some(text) => text@,
        None => "HEAD"@,
    }
}

/// The arguments of `git show`.
pub open spec fn show_arguments(rev: TextArgument, path: TextArgument, safe: Result<String, ToolError>) -> Seq<
    Seq<char>,
> {
    let base = seq![
        "show"@,
        "--no-ext-diff"@,
        "--no-textconv"@,
        "--stat"@,
        "--patch"@,
        requested_revision(rev),
    ];
    match (given(path), safe) {
        (Some(_), Ok(text)) => base.push("--"@).push(text@),
        _ => base,
    }
}

/// Why a call of `git show` is refused for its arguments, if so.
pub open spec fn show_refusal(
    rev: TextArgument,
    revision: Result<(), ToolError>,
    path: TextArgument,
    safe: Result<String, ToolError>,
) -> Option<Refusal> {
    first(
        optional_refusal(rev),
        first(
            forwarded(revision),
            first(
                optional_refusal(path),
                if given(path) is Some {
                    forwarded(safe)
                } else {
                    None
                },
            ),
        ),
    )
}

/// Plans a call of `git show`. `revision` refuses a revision that may not be handed to git, and `safe`
/// is the path as it may be, or why it may not.
pub fn plan_git_show(
    platform: Platform,
    rev: &TextArgument,
    revision: &Result<(), ToolError>,
    path: &TextArgument,
    safe: &Result<String, ToolError>,
    workspace: &str,
    executables: &Vec<Executable>,
    unrestricted: &Option<Result<String, ToolError>>,
    available: bool,
) -> (result: Result<ProcessPlan, ToolError>)
    ensures
        match show_refusal(*rev, *revision, *path, *safe) {
            Some(refusal) => refuses(result, refusal),
            None => git_outcome(
                result,
                "git.show"@,
                workspace@,
                show_arguments(*rev, *path, *safe),
                chosen(*unrestricted, granted_git(platform, executables@)),
                available,
            ),
        },
{
    let requested = match rev.optional()? {
        Some(text) => text,
        None => "HEAD".to_owned(),
    };
    if let Err(error) = revision {
        return Err(error.clone());
    }
    let mut args: Vec<String> = vec![
        "show".to_owned(),
        "--no-ext-diff".to_owned(),
        "--no-textconv".to_owned(),
        "--stat".to_owned(),
        "--patch".to_owned(),
        requested,
    ];
    let ghost base = seq![
        "show"@,
        "--no-ext-diff"@,
        "--no-textconv"@,
        "--stat"@,
        "--patch"@,
        requested_revision(*rev),
    ];
    proof {
        assert(views(args@) =~= base);
    }
    if let Some(_) = path.optional()? {
        match safe {
            Err(error) => {
                return Err(error.clone());
            },
            Ok(text) => {
                args.push("--".to_owned());
                args.push(text.clone());
                proof {
                    assert(views(args@) =~= base.push("--"@).push(text@));
                }
            },
        }
    }
    plan_git(platform, "git.show", workspace, args, executables, unrestricted, available)
}

/// The first bytes of a text, where they end between two characters.
pub open spec fn before_byte(text: Seq<char>, index: int) -> Option<Seq<char>> {
    let bytes = encode_utf8(text);
    if is_char_boundary(bytes, index) {
        Some(decode_utf8(bytes.subrange(0, index)))
    } else {
        None
    }
}

/// A text from a byte on, where that begins a character or ends the text.
pub open spec fn from_byte(text: Seq<char>, index: int) -> Option<Seq<char>> {
    let bytes = encode_utf8(text);
    if is_char_boundary(bytes, index) {
        Some(decode_utf8(bytes.subrange(index, bytes.len() as int)))
    } else {
        None
    }
}

/// The text of a line whose ending has been cut off, without a carriage return before the ending.
pub open spec fn without_return(line: Seq<char>) -> Seq<char> {
    if line.len() > 0 && line.last() == '\r' {
        line.drop_last()
    } else {
        line
    }
}

/// The lines of a text: each without its line feed and a carriage return before that; what follows
/// the last line feed is a line of its own.
pub open spec fn text_lines(text: Seq<char>) -> Seq<Seq<char>> {
    let list = pieces(text, '\n');
    list.drop_last().map_values(|line: Seq<char>| without_return(line)).push(list.last())
}

/// What `git status` says of a line: its state in the first two bytes and its path after the third.
pub open spec fn status_of(line: Seq<char>) -> (Seq<char>, Seq<char>) {
    (
        match before_byte(line, 2) {
            Some(state) => state,
            None => line,
        },
        match from_byte(line, 3) {
            Some(path) => path,
            None => Seq::empty(),
        },
    )
}

/// What `git status` says of each line that is not empty.
pub open spec fn statuses(lines: Seq<Seq<char>>) -> Seq<(Seq<char>, Seq<char>)>
    decreases lines.len(),
{
    if lines.len() == 0 {
        Seq::empty()
    } else {
        let before = statuses(lines.drop_last());
        if lines.last().len() > 0 {
            before.push(status_of(lines.last()))
        } else {
            before
        }
    }
}

/// The state of a file in the repository.
#[derive(Debug)]
pub struct StatusEntry {
    pub status: String,
    pub path: String,
}

/// Entries as characters.
pub open spec fn entry_views(list: Seq<StatusEntry>) -> Seq<(Seq<char>, Seq<char>)> {
    list.map_values(|entry: StatusEntry| (entry.status@, entry.path@))
}

fn status_entry(line: &str) -> (entry: StatusEntry)
    ensures
        (entry.status@, entry.path@) == status_of(line@),
{
    broadcast use encode_utf8_decode_utf8;

    let status = if line.is_char_boundary(2) {
        let (state, _) = line.split_at(2);
        state.to_owned()
    } else {
        line.to_owned()
    };
    let path = if line.is_char_boundary(3) {
        let (_, rest) = line.split_at(3);
        rest.to_owned()
    } else {
        String::new()
    };
    StatusEntry { status, path }
}

fn line_of(piece: &str) -> (line: String)
    ensures
        line@ == without_return(piece@),
{
    let chars = characters(piece);
    let length = chars.len();
    if length > 0 && chars[length - 1] == '\r' {
        let line = text_of(&chars, 0, length - 1);
        proof {
            assert(line@ =~= piece@.drop_last());
        }
        line
    } else {
        piece.to_owned()
    }
}

/// What `git status --porcelain=v1` says, line by line.
pub fn status_entries(stdout: &str) -> (list: Vec<StatusEntry>)
    ensures
        entry_views(list@) == statuses(text_lines(stdout@)),
{
    let parts = split(stdout, '\n');
    let ghost lines = text_lines(stdout@);
    let mut list: Vec<StatusEntry> = Vec::new();
    let mut i: usize = 0;
    proof {
        assert(entry_views(list@) =~= statuses(lines.take(0)));
    }
    while i < parts.len()
        invariant
            i <= parts@.len(),
            parts@.len() > 0,
            views(parts@) == pieces(stdout@, '\n'),
            lines == text_lines(stdout@),
            lines.len() == parts@.len(),
            entry_views(list@) == statuses(lines.take(i as int)),
        decreases parts@.len() - i,
    {
        proof {
            assert(views(parts@)[i as int] == parts@[i as int]@);
            assert(lines.take(i + 1).drop_last() =~= lines.take(i as int));
            assert(lines.take(i + 1).last() == lines[i as int]);
        }
        let line = if i + 1 < parts.len() {
            line_of(parts[i].as_str())
        } else {
            parts[i].clone()
        };
        assert(line@ == lines[i as int]);
        if !line.as_str().is_empty() {
            let ghost before = list@;
            list.push(status_entry(line.as_str()));
            proof {
                assert(entry_views(list@) =~= entry_views(before).push(status_of(line@)));
            }
        }
        i = i + 1;
    }
    proof {
        assert(lines.take(i as int) =~= lines);
    }
    list
}

/// A question about the repository.
#[derive(Debug)]
pub enum RepositoryOperation {
    FileMap { path: String, max_files: usize },
    SymbolSearch { pattern: String, path: String, max_results: usize },
    References { symbol: String, path: String, max_results: usize },
    FileSummary { path: String, max_lines: usize },
}

/// The arguments of a question about the repository.
#[derive(Debug)]
pub struct RepositoryArguments {
    pub path: TextArgument,
    pub pattern: TextArgument,
    pub symbol: TextArgument,
    pub max_files: Result<Option<u64>, ToolError>,
    pub max_results: Result<Option<u64>, ToolError>,
    pub max_lines: Result<Option<u64>, ToolError>,
}

/// A limit that was given, else its default; another one where it does not fit the machine.
pub open spec fn limit(reading: Result<Option<u64>, ToolError>, default: u64, largest: usize) -> usize {
    let asked = match reading {
        Ok(Some(value)) => value,
        _ => default,
    };
    if asked <= usize::MAX {
        asked as usize
    } else {
        largest
    }
}

/// The path that was given, else the workspace itself.
pub open spec fn requested_path(path: TextArgument) -> Seq<char> {
    match given(path) {
        Some(text) => text@,
        None => "."@,
    }
}

/// Why a question about the repository is refused, if so.
pub open spec fn repository_refusal(name: Seq<char>, arguments: RepositoryArguments) -> Option<Refusal> {
    if name == "repo.map"@ {
        first(optional_refusal(arguments.path), forwarded(arguments.max_files))
    } else if name == "repo.symbol_search"@ {
        first(
            required_refusal(arguments.pattern),
            first(optional_refusal(arguments.path), forwarded(arguments.max_results)),
        )
    } else if name == "repo.references"@ {
        first(
            required_refusal(arguments.symbol),
            first(optional_refusal(arguments.path), forwarded(arguments.max_results)),
        )
    } else if name == "repo.file_summary"@ {
        first(required_refusal(arguments.path), forwarded(arguments.max_lines))
    } else {
        Some(Refusal::Unknown(name))
    }
}

/// The question is the one that the tool stands for.
pub open spec fn asks(operation: RepositoryOperation, name: Seq<char>, arguments: RepositoryArguments) -> bool {
    match operation {
        RepositoryOperation::FileMap { path, max_files } => name == "repo.map"@ && path@ == requested_path(
            arguments.path,
        ) && max_files == limit(arguments.max_files, 200, 1_000),
        RepositoryOperation::SymbolSearch { pattern, path, max_results } => name == "repo.symbol_search"@
            && given(arguments.pattern) == Some(pattern) && path@ == requested_path(arguments.path) && max_results
            == limit(arguments.max_results, 100, 500),
        RepositoryOperation::References { symbol, path, max_results } => name == "repo.references"@
            && given(arguments.symbol) == Some(symbol) && path@ == requested_path(arguments.path) && max_results
            == limit(arguments.max_results, 100, 500),
        RepositoryOperation::FileSummary { path, max_lines } => name == "repo.file_summary"@ && given(arguments.path)
            == Some(path) && max_lines == limit(arguments.max_lines, 120, 500),
    }
}

fn read_limit(reading: &Result<Option<u64>, ToolError>, default: u64, largest: usize) -> (result: Result<
    usize,
    ToolError,
>)
    ensures
        match *reading {
            Err(error) => result == Err::<usize, ToolError>(error),
            Ok(_) => result == Ok::<usize, ToolError>(limit(*reading, default, largest)),
        },
{
    let asked: u64 = match reading {
        Err(error) => {
            return Err(error.clone());
        },
        Ok(Some(value)) => *value,
        Ok(None) => default,
    };
    if asked <= usize::MAX as u64 {
        Ok(asked as usize)
    } else {
        Ok(largest)
    }
}

/// The path that a tool is asked for: the workspace itself where none is given.
pub fn asked_path(path: &TextArgument) -> (result: Result<String, ToolError>)
    ensures
        match optional_refusal(*path) {
            Some(refusal) => refuses(result, refusal),
            None => result matches Ok(text) && text@ == requested_path(*path),
        },
{
    match path.optional()? {
        Some(text) => Ok(text),
        None => Ok(".".to_owned()),
    }
}

/// The question that a tool of the repository asks.
pub fn plan_repository(name: &str, arguments: &RepositoryArguments) -> (result: Result<RepositoryOperation, ToolError>)
    ensures
        match repository_refusal(name@, *arguments) {
            Some(refusal) => refuses(result, refusal),
            None => result matches Ok(operation) && asks(operation, name@, *arguments),
        },
{
    proof {
        tool_names_differ();
    }
    if same_text(name, "repo.map") {
        let path = asked_path(&arguments.path)?;
        let max_files: usize = read_limit(&arguments.max_files, 200, 1_000)?;
        Ok(RepositoryOperation::FileMap { path, max_files })
    } else if same_text(name, "repo.symbol_search") {
        let pattern = arguments.pattern.required()?;
        let path = asked_path(&arguments.path)?;
        let max_results: usize = read_limit(&arguments.max_results, 100, 500)?;
        Ok(RepositoryOperation::SymbolSearch { pattern, path, max_results })
    } else if same_text(name, "repo.references") {
        let symbol = arguments.symbol.required()?;
        let path = asked_path(&arguments.path)?;
        let max_results: usize = read_limit(&arguments.max_results, 100, 500)?;
        Ok(RepositoryOperation::References { symbol, path, max_results })
    } else if same_text(name, "repo.file_summary") {
        let path = arguments.path.required()?;
        let max_lines: usize = read_limit(&arguments.max_lines, 120, 500)?;
        Ok(RepositoryOperation::FileSummary { path, max_lines })
    } else {
        Err(ToolError::Unknown(name.to_owned()))
    }
}

/// A planned replacement in one file.
#[derive(Debug)]
pub struct PatchPlan {
    pub plan: EffectPlan,
    pub display_path: String,
    pub old: String,
    pub new: String,
    pub replace_all: bool,
}

/// The arguments of a patch: the path, where it lies in the workspace and how it is shown, and what
/// is replaced.
#[derive(Debug)]
pub struct PatchArguments {
    pub path: TextArgument,
    pub resolved: Result<String, ToolError>,
    pub displayed: Result<String, ToolError>,
    pub old: TextArgument,
    pub new: TextArgument,
    pub replace_all: Result<Option<bool>, ToolError>,
}

/// Why a patch is refused, if so.
pub open spec fn patch_refusal(name: Seq<char>, arguments: PatchArguments) -> Option<Refusal> {
    first(
        required_refusal(arguments.path),
        first(
            forwarded(arguments.resolved),
            first(
                forwarded(arguments.displayed),
                first(
                    if name == "patch.reverse"@ {
                        first(required_refusal(arguments.new), required_refusal(arguments.old))
                    } else {
                        first(required_refusal(arguments.old), required_refusal(arguments.new))
                    },
                    forwarded(arguments.replace_all),
                ),
            ),
        ),
    )
}

/// What a patch replaces and what stands there afterwards.
pub open spec fn replacement(name: Seq<char>, arguments: PatchArguments) -> (Option<String>, Option<String>) {
    if name == "patch.reverse"@ {
        (given(arguments.new), given(arguments.old))
    } else {
        (given(arguments.old), given(arguments.new))
    }
}

/// Plans a patch: its preview, its application, or its reversal, which swaps what is replaced and
/// what stands there afterwards.
pub fn plan_patch(name: &str, arguments: &PatchArguments) -> (result: Result<PatchPlan, ToolError>)
    ensures
        match patch_refusal(name@, *arguments) {
            Some(refusal) => refuses(result, refusal),
            None => result matches Ok(planned) && {
                &&& asks_for(planned.plan, name@, arguments.resolved->Ok_0@)
                &&& planned.display_path == arguments.displayed->Ok_0
                &&& (Some(planned.old), Some(planned.new)) == replacement(name@, *arguments)
                &&& planned.replace_all == (arguments.replace_all->Ok_0 == Some(true))
            },
        },
{
    let _ = arguments.path.required()?;
    let resolved = match &arguments.resolved {
        Ok(path) => path.clone(),
        Err(error) => {
            return Err(error.clone());
        },
    };
    let display_path = match &arguments.displayed {
        Ok(path) => path.clone(),
        Err(error) => {
            return Err(error.clone());
        },
    };
    let old: String;
    let new: String;
    if same_text(name, "patch.reverse") {
        old = arguments.new.required()?;
        new = arguments.old.required()?;
    } else {
        old = arguments.old.required()?;
        new = arguments.new.required()?;
    }
    let replace_all = match &arguments.replace_all {
        Ok(Some(flag)) => *flag,
        Ok(None) => false,
        Err(error) => {
            return Err(error.clone());
        },
    };
    Ok(PatchPlan { plan: effect_plan(name, resolved.as_str()), display_path, old, new, replace_all })
}

proof fn tool_names_differ()
    ensures
        "repo.map"@ != "repo.symbol_search"@,
        "repo.map"@ != "repo.references"@,
        "repo.map"@ != "repo.file_summary"@,
        "repo.symbol_search"@ != "repo.references"@,
        "repo.symbol_search"@ != "repo.file_summary"@,
        "repo.references"@ != "repo.file_summary"@,
{
    reveal_strlit("repo.map");
    reveal_strlit("repo.symbol_search");
    reveal_strlit("repo.references");
    reveal_strlit("repo.file_summary");
    assert("repo.map"@.len() == 8);
    assert("repo.symbol_search"@.len() == 18);
    assert("repo.references"@.len() == 15);
    assert("repo.file_summary"@.len() == 17);
}

/// Reversing a patch undoes applying it: what was put there is replaced by what stood there.
pub proof fn a_reversal_swaps_the_texts(arguments: PatchArguments)
    ensures
        replacement("patch.reverse"@, arguments).0 == replacement("patch.apply"@, arguments).1,
        replacement("patch.reverse"@, arguments).1 == replacement("patch.apply"@, arguments).0,
{
    reveal_strlit("patch.apply");
    reveal_strlit("patch.reverse");
    assert("patch.apply"@.len() == 11);
    assert("patch.reverse"@.len() == 13);
}

/// A plan of `git show` shows exactly the revision that was given, as its sixth argument, and the head
/// of the branch only where none was given; a path that was given follows the separator.
pub proof fn shown_revisions_are_the_given_ones(
    result: Result<ProcessPlan, ToolError>,
    rev: TextArgument,
    path: TextArgument,
    safe: Result<String, ToolError>,
    workspace: Seq<char>,
    git: Result<Seq<char>, Refusal>,
    available: bool,
)
    requires
        git_outcome(result, "git.show"@, workspace, show_arguments(rev, path, safe), git, available),
        result is Ok,
    ensures
        result->Ok_0.spec.args@.len() >= 6,
        result->Ok_0.spec.args@[0]@ == "show"@,
        rev matches TextArgument::Present(text) ==> result->Ok_0.spec.args@[5]@ == text@,
        !(rev is Present) ==> result->Ok_0.spec.args@[5]@ == "HEAD"@,
        path is Present && safe is Ok ==> result->Ok_0.spec.args@.len() == 8 && result->Ok_0.spec.args@[6]@ == "--"@
            && result->Ok_0.spec.args@[7]@ == safe->Ok_0@,
        !(path is Present) ==> result->Ok_0.spec.args@.len() == 6,
        result->Ok_0.spec.cwd@ == workspace,
{
    let args = show_arguments(rev, path, safe);
    let planned = views(result->Ok_0.spec.args@);
    assert(planned == args);
    assert(planned.len() == result->Ok_0.spec.args@.len());
    assert(forall|i: int| 0 <= i < planned.len() ==> #[trigger] planned[i] == result->Ok_0.spec.args@[i]@);
    assert(planned[0] == "show"@);
    assert(planned[5] == requested_revision(rev));
    if path is Present && safe is Ok {
        assert(planned[6] == "--"@ && planned[7] == safe->Ok_0@);
    }
}

/// Different revisions are shown by different processes.
pub proof fn revisions_tell_plans_apart(
    first: TextArgument,
    second: TextArgument,
    path: TextArgument,
    safe: Result<String, ToolError>,
)
    requires
        first is Present,
        second is Present,
        first->Present_0@ != second->Present_0@,
    ensures
        show_arguments(first, path, safe) != show_arguments(second, path, safe),
        show_refusal(first, Ok(()), path, safe) == show_refusal(second, Ok(()), path, safe),
{
    assert(show_arguments(first, path, safe)[5] == first->Present_0@);
    assert(show_arguments(second, path, safe)[5] == second->Present_0@);
}

/// A git tool is planned exactly where git was found and processes can be run: with that executable, in
/// the workspace, with no variables of its own and the arguments given, and its output is bounded.
pub proof fn git_runs_in_the_workspace(
    result: Result<ProcessPlan, ToolError>,
    action: Seq<char>,
    workspace: Seq<char>,
    args: Seq<Seq<char>>,
    git: Result<Seq<char>, Refusal>,
    available: bool,
)
    requires
        git_outcome(result, action, workspace, args, git, available),
    ensures
        result is Ok <==> git is Ok && available,
        result matches Ok(planned) ==> {
            &&& planned.plan.action@ == action
            &&& planned.plan.resource@ == git->Ok_0
            &&& planned.spec.cwd@ == workspace
            &&& views(planned.spec.args@) == args
            &&& planned.spec.environment@.len() == 0
            &&& planned.spec.timeout_ms is None
            &&& planned.spec.max_output_bytes == Some(65_536u64)
        },
{
}

/// A diff is restricted to the paths that were given, each as it was made safe and in its order; without
/// any it is of the whole workspace.
pub proof fn diffs_are_of_the_given_paths(
    paths: Option<Vec<String>>,
    safe: Seq<String>,
    readable: Result<Vec<String>, ToolError>,
    at: int,
)
    ensures
        diff_arguments(paths, safe).len() >= 3,
        diff_arguments(paths, safe)[0] == "diff"@,
        paths is None || paths->0@.len() == 0 ==> diff_arguments(paths, safe).len() == 3,
        paths is Some && paths->0@.len() > 0 ==> diff_arguments(paths, safe).len() == safe.len() + 4
            && diff_arguments(paths, safe)[3] == "--"@,
        paths is Some && paths->0@.len() > 0 && 0 <= at < safe.len() ==> diff_arguments(paths, safe)[at + 4]
            == safe[at]@,
        readable is Ok ==> diff_refusal(Ok(paths), readable) is None,
{
}

/// A repository question is about the path that was given, the whole workspace where none was, and
/// asks for as many answers as were asked for.
pub proof fn questions_keep_their_arguments(
    operation: RepositoryOperation,
    name: Seq<char>,
    arguments: RepositoryArguments,
)
    requires
        asks(operation, name, arguments),
    ensures
        operation is FileMap <==> name == "repo.map"@,
        operation is SymbolSearch <==> name == "repo.symbol_search"@,
        operation is References <==> name == "repo.references"@,
        operation is FileSummary <==> name == "repo.file_summary"@,
        operation matches RepositoryOperation::FileMap { path, max_files } ==> {
            &&& arguments.path matches TextArgument::Present(text) ==> path@ == text@
            &&& !(arguments.path is Present) ==> path@ == "."@
            &&& arguments.max_files matches Ok(Some(asked)) ==> asked <= usize::MAX ==> max_files == asked
            &&& arguments.max_files matches Ok(None) ==> max_files == 200
        },
        operation matches RepositoryOperation::SymbolSearch { pattern, path, max_results } ==> {
            &&& arguments.pattern == TextArgument::Present(pattern)
            &&& arguments.path matches TextArgument::Present(text) ==> path@ == text@
            &&& !(arguments.path is Present) ==> path@ == "."@
            &&& arguments.max_results matches Ok(Some(asked)) ==> asked <= usize::MAX ==> max_results == asked
            &&& arguments.max_results matches Ok(None) ==> max_results == 100
        },
        operation matches RepositoryOperation::References { symbol, path, max_results } ==> {
            &&& arguments.symbol == TextArgument::Present(symbol)
            &&& arguments.path matches TextArgument::Present(text) ==> path@ == text@
            &&& !(arguments.path is Present) ==> path@ == "."@
            &&& arguments.max_results matches Ok(Some(asked)) ==> asked <= usize::MAX ==> max_results == asked
            &&& arguments.max_results matches Ok(None) ==> max_results == 100
        },
        operation matches RepositoryOperation::FileSummary { path, max_lines } ==> {
            &&& arguments.path == TextArgument::Present(path)
            &&& arguments.max_lines matches Ok(Some(asked)) ==> asked <= usize::MAX ==> max_lines == asked
            &&& arguments.max_lines matches Ok(None) ==> max_lines == 120
        },
{
    reveal_strlit("repo.map");
    reveal_strlit("repo.symbol_search");
    reveal_strlit("repo.references");
    reveal_strlit("repo.file_summary");
    assert("repo.map"@.len() == 8);
    assert("repo.symbol_search"@.len() == 18);
    assert("repo.references"@.len() == 15);
    assert("repo.file_summary"@.len() == 17);
}

/// The four questions are refused only for want of what they need, and no other name is answered.
pub proof fn only_four_questions_are_asked(name: Seq<char>, arguments: RepositoryArguments)
    ensures
        arguments.path is Present && arguments.pattern is Present && arguments.symbol is Present
            && arguments.max_files is Ok && arguments.max_results is Ok && arguments.max_lines is Ok ==> (
        repository_refusal(name, arguments) is None <==> seq![
            "repo.map"@,
            "repo.symbol_search"@,
            "repo.references"@,
            "repo.file_summary"@,
        ].contains(name)),
        arguments.path is Absent && arguments.max_files is Ok ==> repository_refusal("repo.map"@, arguments) is None,
        !seq!["repo.map"@, "repo.symbol_search"@, "repo.references"@, "repo.file_summary"@].contains(name)
            ==> repository_refusal(name, arguments) == Some(Refusal::Unknown(name)),
{
    let names = seq!["repo.map"@, "repo.symbol_search"@, "repo.references"@, "repo.file_summary"@];
    assert(names[0] == "repo.map"@ && names[1] == "repo.symbol_search"@ && names[2] == "repo.references"@
        && names[3] == "repo.file_summary"@);
}

/// A patch replaces the old text by the new one as they were given, but for a reversal, which does the
/// opposite; both have to be given.
pub proof fn patches_replace_the_given_texts(name: Seq<char>, arguments: PatchArguments)
    requires
        patch_refusal(name, arguments) is None,
    ensures
        arguments.path is Present && arguments.old is Present && arguments.new is Present,
        arguments.resolved is Ok && arguments.displayed is Ok && arguments.replace_all is Ok,
        name != "patch.reverse"@ ==> replacement(name, arguments) == (
            Some(arguments.old->Present_0),
            Some(arguments.new->Present_0),
        ),
        name == "patch.reverse"@ ==> replacement(name, arguments) == (
            Some(arguments.new->Present_0),
            Some(arguments.old->Present_0),
        ),
{
}

/// Every line of a status that says anything is an entry, and there is no other.
pub proof fn every_line_is_an_entry(lines: Seq<Seq<char>>, more: Seq<Seq<char>>, line: Seq<char>)
    ensures
        statuses(lines + more) == statuses(lines) + statuses(more),
        line.len() > 0 ==> statuses(seq![line]) == seq![status_of(line)],
        line.len() == 0 ==> statuses(seq![line]).len() == 0,
    decreases more.len(),
{
    assert(seq![line].drop_last() == Seq::<Seq<char>>::empty());
    assert(statuses(Seq::<Seq<char>>::empty()) == Seq::<(Seq<char>, Seq<char>)>::empty());
    if more.len() == 0 {
        assert(lines + more == lines);
        assert(statuses(lines) + statuses(more) == statuses(lines));
    } else {
        every_line_is_an_entry(lines, more.drop_last(), line);
        assert((lines + more).drop_last() == lines + more.drop_last());
        if more.last().len() > 0 {
            assert((statuses(lines) + statuses(more.drop_last())).push(status_of(more.last())) == statuses(lines) + (
            statuses(more.drop_last()).push(status_of(more.last()))));
        }
    }
}

/// The one granted git is run, wherever it stands among the executables: none and two are refused, and
/// executables that are no git change nothing.
pub proof fn the_one_granted_git_is_run(platform: Platform, list: Seq<Executable>, one: Executable, other: Executable)
    ensures
        !is_git(platform, one) ==> granted_git(platform, list.push(one)) == granted_git(platform, list),
        granted_git(platform, Seq::<Executable>::empty()) is Err,
        is_git(platform, one) ==> granted_git(platform, seq![one]) == Ok::<Seq<char>, Refusal>(one.path@),
        is_git(platform, one) && is_git(platform, other) ==> granted_git(platform, list.push(one).push(other)) is Err,
{
    let fits = |executable: Executable| is_git(platform, executable);
    reveal_with_fuel(fitting, 3);
    assert(list.push(one).drop_last() =~= list);
    assert(list.push(one).push(other).drop_last() =~= list.push(one));
    assert(seq![one].drop_last() =~= Seq::<Executable>::empty());
    assert(fits(one) == is_git(platform, one));
    assert(fits(other) == is_git(platform, other));
}

/// A line ends where the next one begins; the return before its end is no part of it, and nothing else is
/// taken from it.
pub proof fn returns_are_no_part_of_a_line(line: Seq<char>, text: Seq<char>, at: int)
    requires
        0 <= at < pieces(text, '\n').len(),
    ensures
        without_return(line.push('\r')) == line,
        line.len() == 0 || line.last() != '\r' ==> without_return(line) == line,
        text_lines(text).len() == pieces(text, '\n').len(),
        at == pieces(text, '\n').len() - 1 ==> text_lines(text)[at] == pieces(text, '\n')[at],
        at < pieces(text, '\n').len() - 1 ==> text_lines(text)[at] == pieces(text, '\n')[at] || text_lines(
            text,
        )[at].push('\r') == pieces(text, '\n')[at],
        at < pieces(text, '\n').len() - 1 && (pieces(text, '\n')[at].len() == 0 || pieces(text, '\n')[at].last()
            != '\r') ==> text_lines(text)[at] == pieces(text, '\n')[at],
{
    assert(line.push('\r').drop_last() =~= line);
    let piece = pieces(text, '\n')[at];
    if piece.len() > 0 && piece.last() == '\r' {
        assert(piece.drop_last().push('\r') =~= piece);
    }
}

} // verus!
