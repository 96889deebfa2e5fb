//! Tools that run processes: the shell and the tools of packs.

use crate::config::Platform;
use crate::effects::{asks_for, effect_plan, CredentialReference, EffectPlan};
use crate::entries::{clone_entries, lookup, text_entries, value_of, Entry};
use crate::executables::{fitting, only_fitting, resolve_executable, resolved_executable, shell_executable, Executable};
use crate::ordered::{ascending, insert_ascending};
use crate::pack_extensions::PackProcessDeclaration;
use crate::pack_process::{
    has_reference, has_value, invocation, references_agree, request_failure, states, PackToolEffectInput,
};
use crate::paths::{absolute, is_absolute, starts_with_path, within};
use crate::text::{concat2, views};
use crate::tool_results::{require_adapter, unavailable, Adapter};
use crate::tools::{denied, failed, given, invalid, optional_refusal, refuses, Refusal, TextArgument, ToolError};
use vstd::prelude::*;
use vstd::string::*;

verus! {

/// What a call of the shell asks to run.
#[derive(Debug)]
pub enum ShellSelection {
    /// One command line for a shell.
    Command { executable: String, command: String },
    /// An executable with its arguments.
    Arguments { executable: String, args: Vec<String> },
}

/// The executable as it is found under unrestricted access, else the one that is granted.
pub open spec fn chosen(
    unrestricted: Option<Result<String, ToolError>>,
    granted: Result<Seq<char>, Refusal>,
) -> Result<Seq<char>, Refusal> {
    match unrestricted {
        Some(Ok(path)) => Ok(path@),
        Some(Err(error)) => Err(Refusal::Forward(error)),
        None => granted,
    }
}

/// The only granted shell.
pub open spec fn granted_shell(executables: Seq<Executable>) -> Result<Seq<char>, Refusal> {
    only_fitting(
        fitting(executables, |executable: Executable| executable.shell),
        "command mode requires workspace-development or one explicit shell executable"@,
        "multiple shell executables are configured; keep one exact shell identity"@,
    )
}

/// What a call of the shell runs, or how it is refused.
pub open spec fn selected(
    platform: Platform,
    tool: Seq<char>,
    command: TextArgument,
    argv: Result<Option<Vec<String>>, ToolError>,
    profiles: Result<(), ToolError>,
    executables: Seq<Executable>,
    unrestricted: Option<Result<String, ToolError>>,
) -> Result<(Seq<char>, Option<Seq<char>>, Seq<Seq<char>>), Refusal> {
    match (optional_refusal(command), argv) {
        (Some(refusal), _) => Err(refusal),
        (None, Err(error)) => Err(Refusal::Forward(error)),
        (None, Ok(list)) => match (given(command), list) {
            (Some(line), None) => match chosen(unrestricted, granted_shell(executables)) {
                Ok(path) => Ok((path, Some(line@), Seq::empty())),
                Err(refusal) => Err(refusal),
            },
            (None, Some(words)) => if words@.len() == 0 {
                Err(Refusal::Invalid(tool, "argv must not be empty"@))
            } else {
                match profiles {
                    Err(error) => Err(Refusal::Forward(error)),
                    Ok(_) => match chosen(unrestricted, resolved_executable(platform, executables, words@[0]@)) {
                        Ok(path) => Ok((path, None, views(words@.skip(1)))),
                        Err(refusal) => Err(refusal),
                    },
                }
            },
            _ => Err(Refusal::Invalid(tool, "exactly one of command or argv is required"@)),
        },
    }
}

/// A selection is exactly this executable, command line and arguments.
pub open spec fn is_selection(
    selection: ShellSelection,
    expected: (Seq<char>, Option<Seq<char>>, Seq<Seq<char>>),
) -> bool {
    match (selection, expected.1) {
        (ShellSelection::Command { executable, command }, Some(line)) => executable@ == expected.0 && command@ == line,
        (ShellSelection::Arguments { executable, args }, None) => executable@ == expected.0 && views(args@)
            == expected.2,
        _ => false,
    }
}

/// What a call of the shell runs. `profiles` refuses a shell among the arguments that would read its
/// startup profiles; `unrestricted` is what the host finds where the run has unrestricted access.
pub fn select_shell(
    platform: Platform,
    tool: &str,
    command: &TextArgument,
    argv: &Result<Option<Vec<String>>, ToolError>,
    profiles: &Result<(), ToolError>,
    executables: &Vec<Executable>,
    unrestricted: &Option<Result<String, ToolError>>,
) -> (result: Result<ShellSelection, ToolError>)
    ensures
        match selected(platform, tool@, *command, *argv, *profiles, executables@, *unrestricted) {
            Ok(expected) => result matches Ok(selection) && is_selection(selection, expected),
            Err(refusal) => refuses(result, refusal),
        },
{
    let line = command.optional()?;
    let words = match argv {
        Ok(list) => list,
        Err(error) => {
            return Err(error.clone());
        },
    };
    match (line, words) {
        (Some(command), None) => {
            let executable = match unrestricted {
                Some(Ok(path)) => path.clone(),
                Some(Err(error)) => {
                    return Err(error.clone());
                },
                None => shell_executable(executables)?,
            };
            Ok(ShellSelection::Command { executable, command })
        },
        (None, Some(words)) => {
            if words.len() == 0 {
                return invalid(tool, "argv must not be empty");
            }
            if let Err(error) = profiles {
                return Err(error.clone());
            }
            let executable = match unrestricted {
                Some(Ok(path)) => path.clone(),
                Some(Err(error)) => {
                    return Err(error.clone());
                },
                None => resolve_executable(platform, executables, words[0].as_str())?,
            };
            let mut args: Vec<String> = Vec::new();
            let mut i: usize = 1;
            while i < words.len()
                invariant
                    1 <= i <= words@.len(),
                    args@ == words@.subrange(1, i as int),
                decreases words@.len() - i,
            {
                args.push(words[i].clone());
                proof {
                    assert(words@.subrange(1, i + 1) =~= words@.subrange(1, i as int).push(words@[i as int]));
                }
                i = i + 1;
            }
            proof {
                assert(words@.skip(1) =~= words@.subrange(1, i as int));
            }
            Ok(ShellSelection::Arguments { executable, args })
        },
        _ => invalid(tool, "exactly one of command or argv is required"),
    }
}

/// How the working directory of a process is looked up.
#[derive(Debug)]
pub enum DirectoryLookup {
    /// Anywhere on the host.
    Unrestricted(String),
    /// By its canonical form, which has to lie in a selected plugin.
    Canonical(String),
    /// Within the workspace.
    Workspace(String),
}

/// The requested working directory: the workspace itself where none is given.
pub open spec fn requested_directory(cwd: TextArgument) -> Seq<char> {
    match given(cwd) {
        Some(path) => path@,
        None => "."@,
    }
}

/// How the working directory of a process is to be looked up.
pub fn directory_lookup(
    platform: Platform,
    cwd: &TextArgument,
    unrestricted: bool,
) -> (result: Result<DirectoryLookup, ToolError>)
    ensures
        match optional_refusal(*cwd) {
            Some(refusal) => refuses(result, refusal),
            None => result matches Ok(lookup) && match lookup {
                DirectoryLookup::Unrestricted(path) => unrestricted && path@ == requested_directory(*cwd),
                DirectoryLookup::Canonical(path) => !unrestricted && absolute(
                    platform,
                    path@,
                ) && path@ == requested_directory(
                    *cwd,
                ),
                DirectoryLookup::Workspace(path) => !unrestricted && !absolute(
                    platform,
                    path@,
                ) && path@ == requested_directory(
                    *cwd,
                ),
            },
        },
{
    let path = match cwd.optional()? {
        Some(path) => path,
        None => ".".to_owned(),
    };
    if unrestricted {
        Ok(DirectoryLookup::Unrestricted(path))
    } else if is_absolute(platform, path.as_str()) {
        Ok(DirectoryLookup::Canonical(path))
    } else {
        Ok(DirectoryLookup::Workspace(path))
    }
}

/// A path lies in one of the roots.
pub open spec fn within_any(platform: Platform, path: Seq<char>, roots: Seq<String>) -> bool {
    exists|i: int| 0 <= i < roots.len() && within(platform, path, (#[trigger] roots[i])@)
}

fn is_within_any(platform: Platform, path: &str, roots: &Vec<String>) -> (yes: bool)
    ensures
        yes == within_any(platform, path@, roots@),
{
    let mut i: usize = 0;
    while i < roots.len()
        invariant
            i <= roots@.len(),
            forall|j: int| 0 <= j < i ==> !within(platform, path@, (#[trigger] roots@[j])@),
        decreases roots@.len() - i,
    {
        if starts_with_path(platform, path, roots[i].as_str()) {
            return true;
        }
        i = i + 1;
    }
    false
}

/// The working directory of a process that was looked up by its canonical form: it has to lie in a
/// selected plugin.
pub fn settle_canonical_directory(
    platform: Platform,
    found: &Result<String, String>,
    plugin_roots: &Vec<String>,
) -> (result: Result<
    String,
    ToolError,
>)
    ensures
        match *found {
            Err(reason) => refuses(result, Refusal::Failed("cannot resolve process cwd: "@ + reason@)),
            Ok(path) => if within_any(platform, path@, plugin_roots@) {
                result == Ok::<String, ToolError>(path)
            } else {
                refuses(result, Refusal::Denied("shell cwd is not within a selected Agent Plugin"@))
            },
        },
{
    match found {
        Err(reason) => {
            let text = concat2("cannot resolve process cwd: ", reason.as_str());
            failed(text.as_str())
        },
        Ok(path) => {
            if is_within_any(platform, path.as_str(), plugin_roots) {
                Ok(path.clone())
            } else {
                denied("shell cwd is not within a selected Agent Plugin")
            }
        },
    }
}

/// The environment that a call of the shell asks for. Unless access is unrestricted, `reserved`
/// refuses the variables that the runtime sets itself.
pub fn shell_environment(
    environment: &Result<Vec<Entry<String>>, ToolError>,
    unrestricted: bool,
    reserved: &Result<(), ToolError>,
) -> (result: Result<Vec<Entry<String>>, ToolError>)
    ensures
        match (*environment, *reserved) {
            (Err(error), _) => refuses(result, Refusal::Forward(error)),
            (Ok(list), Err(error)) => if unrestricted {
                result matches Ok(copy) && copy@ == list@
            } else {
                refuses(result, Refusal::Forward(error))
            },
            (Ok(list), Ok(_)) => result matches Ok(copy) && copy@ == list@,
        },
{
    match environment {
        Err(error) => Err(error.clone()),
        Ok(list) => {
            if !unrestricted {
                if let Err(error) = reserved {
                    return Err(error.clone());
                }
            }
            Ok(clone_entries(list))
        },
    }
}

/// What a process is run with.
#[derive(Debug)]
pub struct ProcessSpec {
    pub cwd: String,
    pub args: Vec<String>,
    pub environment: Vec<Entry<String>>,
    pub timeout_ms: Option<u64>,
    pub max_output_bytes: Option<u64>,
}

/// A process and the request to run it.
#[derive(Debug)]
pub struct ProcessPlan {
    pub plan: EffectPlan,
    pub spec: ProcessSpec,
}

/// A process is planned with exactly these parts.
pub open spec fn runs(
    planned: ProcessPlan,
    action: Seq<char>,
    executable: Seq<char>,
    cwd: Seq<char>,
    args: Seq<Seq<char>>,
) -> bool {
    &&& asks_for(planned.plan, action, executable)
    &&& planned.spec.cwd@ == cwd
    &&& views(planned.spec.args@) == args
}

/// Plans the process of a call of the shell.
pub fn plan_shell(
    executable: &str,
    cwd: String,
    args: Vec<String>,
    environment: Vec<Entry<String>>,
    timeout_ms: &Result<Option<u64>, ToolError>,
    max_output_bytes: &Result<Option<u64>, ToolError>,
    available: bool,
) -> (result: Result<ProcessPlan, ToolError>)
    ensures
        match (*timeout_ms, *max_output_bytes) {
            (Err(error), _) => refuses(result, Refusal::Forward(error)),
            (Ok(_), Err(error)) => refuses(result, Refusal::Forward(error)),
            (Ok(timeout), Ok(limit)) => if available {
                result matches Ok(planned) && {
                    &&& runs(planned, "shell.run"@, executable@, cwd@, views(args@))
                    &&& planned.spec.environment == environment
                    &&& planned.spec.timeout_ms == timeout
                    &&& planned.spec.max_output_bytes == limit
                }
            } else {
                refuses(result, Refusal::Failed(unavailable(Adapter::Process)))
            },
        },
{
    let timeout_ms: Option<u64> = match timeout_ms {
        Ok(value) => *value,
        Err(error) => {
            return Err(error.clone());
        },
    };
    let max_output_bytes: Option<u64> = match max_output_bytes {
        Ok(value) => *value,
        Err(error) => {
            return Err(error.clone());
        },
    };
    require_adapter(Adapter::Process, available)?;
    Ok(
        ProcessPlan {
            plan: effect_plan("shell.run", executable),
            spec: ProcessSpec { cwd, args, environment, timeout_ms, max_output_bytes },
        },
    )
}

/// The command line that was run: the executable and its arguments.
pub fn resolved_argv(executable: &str, args: &Vec<String>) -> (argv: Vec<String>)
    ensures
        views(argv@) == seq![executable@] + views(args@),
{
    let mut argv: Vec<String> = vec![executable.to_owned()];
    proof {
        assert(views(argv@) =~= seq![executable@] + views(args@.take(0)));
    }
    let mut i: usize = 0;
    while i < args.len()
        invariant
            i <= args@.len(),
            views(argv@) == seq![executable@] + views(args@.take(i as int)),
        decreases args@.len() - i,
    {
        let ghost before = argv@;
        argv.push(args[i].clone());
        proof {
            assert(args@.take(i + 1) =~= args@.take(i as int).push(args@[i as int]));
            assert(views(args@.take(i + 1)) =~= views(args@.take(i as int)).push(args@[i as int]@));
            assert(views(argv@) =~= views(before).push(args@[i as int]@));
            assert(views(argv@) =~= seq![executable@] + views(args@.take(i + 1)));
        }
        i = i + 1;
    }
    proof {
        assert(args@.take(i as int) =~= args@);
    }
    argv
}

/// The working directory as the model sees it: whole under unrestricted access and within a selected
/// plugin, else `relative` to the workspace.
pub fn displayed_directory(
    platform: Platform,
    cwd: &str,
    unrestricted: bool,
    plugin_roots: &Vec<String>,
    relative: &Result<String, ToolError>,
) -> (result: Result<String, ToolError>)
    ensures
        if unrestricted || within_any(platform, cwd@, plugin_roots@) {
            result matches Ok(text) && text@ == cwd@
        } else {
            result == *relative
        },
{
    if unrestricted || is_within_any(platform, cwd, plugin_roots) {
        return Ok(cwd.to_owned());
    }
    match relative {
        Ok(path) => Ok(path.clone()),
        Err(error) => Err(error.clone()),
    }
}

/// A planned call of a tool of a pack.
#[derive(Debug)]
pub struct PackCall {
    pub plan: EffectPlan,
    pub input: PackToolEffectInput,
    pub credentials: Vec<CredentialReference>,
}

/// The references as characters.
pub open spec fn reference_texts(list: Seq<CredentialReference>) -> Seq<Seq<char>> {
    list.map_values(|item: CredentialReference| item.reference@)
}

/// The credentials that an environment refers to, in order and each once.
pub fn environment_credentials(environment: &Vec<Entry<String>>) -> (list: Vec<CredentialReference>)
    ensures
        ascending(reference_texts(list@)),
        references_agree(environment@, list@),
{
    let mut texts: Vec<String> = Vec::new();
    let mut i: usize = 0;
    while i < environment.len()
        invariant
            i <= environment@.len(),
            ascending(views(texts@)),
            forall|x: Seq<char>|
                #[trigger] views(texts@).contains(x) <==> has_value(environment@.take(i as int), x),
        decreases environment@.len() - i,
    {
        let ghost before = views(texts@);
        insert_ascending(&mut texts, environment[i].value.clone());
        proof {
            let now = environment@.take(i + 1);
            let earlier = environment@.take(i as int);
            assert(now =~= earlier.push(environment@[i as int]));
            assert forall|x: Seq<char>| #[trigger] views(texts@).contains(x) <==> has_value(now, x) by {
                if before.contains(x) {
                    let j = choose|j: int| 0 <= j < earlier.len() && (#[trigger] earlier[j]).value@ == x;
                    assert(now[j].value@ == x);
                }
                if x == environment@[i as int].value@ {
                    assert(now[i as int].value@ == x);
                }
                if has_value(now, x) {
                    let j = choose|j: int| 0 <= j < now.len() && (#[trigger] now[j]).value@ == x;
                    if j < i {
                        assert(earlier[j].value@ == x);
                    }
                }
            }
        }
        i = i + 1;
    }
    proof {
        assert(environment@.take(i as int) =~= environment@);
    }
    let mut list: Vec<CredentialReference> = Vec::new();
    let mut k: usize = 0;
    while k < texts.len()
        invariant
            k <= texts@.len(),
            list@.len() == k,
            forall|j: int| 0 <= j < k ==> (#[trigger] list@[j]).reference@ == texts@[j]@ && !list@[j].hashed,
        decreases texts@.len() - k,
    {
        list.push(CredentialReference { reference: texts[k].clone(), hashed: false });
        k = k + 1;
    }
    proof {
        assert(reference_texts(list@) =~= views(texts@));
        assert forall|j: int| 0 <= j < environment@.len() implies has_reference(
            list@,
            (#[trigger] environment@[j]).value@,
        ) by {
            let x = environment@[j].value@;
            assert(has_value(environment@, x));
            assert(views(texts@).contains(x));
            let m = choose|m: int| 0 <= m < views(texts@).len() && views(texts@)[m] == x;
            assert(list@[m].reference@ == x);
        }
        assert forall|j: int| 0 <= j < list@.len() implies has_value(
            environment@,
            (#[trigger] list@[j]).reference@,
        ) && !list@[j].hashed by {
            assert(views(texts@)[j] == list@[j].reference@);
            assert(views(texts@).contains(list@[j].reference@));
        }
    }
    list
}

/// Plans a call of a tool of a pack: nothing where no active pack declares it. The call takes no
/// arguments of its own.
pub fn plan_pack_tool(
    available: bool,
    declarations: &Vec<Entry<PackProcessDeclaration>>,
    tool: &str,
    without_arguments: bool,
) -> (result: Result<Option<PackCall>, ToolError>)
    ensures
        if !available {
            refuses(result, Refusal::Failed(unavailable(Adapter::PackProcess)))
        } else {
            match value_of(declarations@, tool@) {
                None => result == Ok::<Option<PackCall>, ToolError>(None),
                Some(declaration) => if !without_arguments {
                    refuses(result, Refusal::Invalid(tool@, "verified pack tool accepts no dynamic arguments"@))
                } else {
                    result matches Ok(Some(call)) && {
                        &&& asks_for(call.plan, declaration.action@, declaration.executable@)
                        &&& states(call.input, declaration)
                        &&& text_entries(call.input.environment@) == text_entries(declaration.environment@)
                        &&& ascending(reference_texts(call.credentials@))
                        &&& references_agree(declaration.environment@, call.credentials@)
                    }
                },
            }
        },
{
    require_adapter(Adapter::PackProcess, available)?;
    match (lookup(declarations, tool), invocation(declarations, tool)) {
        (Some(declaration), Some(input)) => {
            if !without_arguments {
                return invalid(tool, "verified pack tool accepts no dynamic arguments");
            }
            Ok(
                Some(
                    PackCall {
                        plan: effect_plan(declaration.action.as_str(), declaration.executable.as_str()),
                        input,
                        credentials: environment_credentials(&declaration.environment),
                    },
                ),
            )
        },
        _ => Ok(None),
    }
}

/// What is planned for a tool of a pack is accepted by the executor of packs, as long as the tool
/// stays declared.
pub proof fn planned_calls_are_accepted(
    declarations: Seq<Entry<PackProcessDeclaration>>,
    tool: Seq<char>,
    call: PackCall,
)
    requires
        value_of(declarations, tool) matches Some(declaration) && declaration.tool@ == tool && asks_for(
            call.plan,
            declaration.action@,
            declaration.executable@,
        ) && states(call.input, declaration) && references_agree(declaration.environment@, call.credentials@),
    ensures
        request_failure(declarations, call.plan.action@, call.plan.resource@, call.input, call.credentials@) is None,
{
}

/// A path that is unrestricted is taken as it is, and otherwise the granted one is.
pub proof fn unrestricted_executables_are_taken(
    unrestricted: Option<Result<String, ToolError>>,
    granted: Result<Seq<char>, Refusal>,
)
    ensures
        unrestricted matches Some(Ok(path)) ==> chosen(unrestricted, granted) == Ok::<Seq<char>, Refusal>(path@),
        unrestricted matches Some(Err(error)) ==> chosen(unrestricted, granted) == Err::<Seq<char>, Refusal>(
            Refusal::Forward(error),
        ),
        unrestricted is None ==> chosen(unrestricted, granted) == granted,
{
}

/// A command line is handed whole to one shell, and words are run as they are, the first naming the
/// executable and the others following in their order; exactly one of the two has to be given.
pub proof fn commands_are_run_as_given(
    platform: Platform,
    tool: Seq<char>,
    command: TextArgument,
    argv: Result<Option<Vec<String>>, ToolError>,
    profiles: Result<(), ToolError>,
    executables: Seq<Executable>,
    unrestricted: Option<Result<String, ToolError>>,
)
    requires
        selected(platform, tool, command, argv, profiles, executables, unrestricted) is Ok,
    ensures
        ({
            let expected = selected(platform, tool, command, argv, profiles, executables, unrestricted)->Ok_0;
            &&& argv is Ok
            &&& command is Present <==> argv->Ok_0 is None
            &&& command matches TextArgument::Present(line) ==> {
                &&& expected.1 == Some(line@)
                &&& Ok::<Seq<char>, Refusal>(expected.0) == chosen(unrestricted, granted_shell(executables))
            }
            &&& argv matches Ok(Some(words)) ==> {
                &&& words@.len() > 0
                &&& profiles is Ok
                &&& expected.1 is None
                &&& expected.2.len() == words@.len() - 1
                &&& forall|i: int| 0 < i < words@.len() ==> expected.2[i - 1] == (#[trigger] words@[i])@
                &&& Ok::<Seq<char>, Refusal>(expected.0) == chosen(
                    unrestricted,
                    resolved_executable(platform, executables, words@[0]@),
                )
            }
        }),
{
    if let Ok(Some(words)) = argv {
        let rest = words@.skip(1);
        let expected = selected(platform, tool, command, argv, profiles, executables, unrestricted)->Ok_0;
        if !(command is Present) && words@.len() > 0 {
            assert(expected.2 == views(rest));
            assert forall|i: int| 0 < i < words@.len() implies expected.2[i - 1] == (#[trigger] words@[i])@ by {
                assert(rest[i - 1] == words@[i]);
            }
        }
    }
}

/// A selection is run as it was selected: the same executable with the same line or the same words.
pub proof fn selections_are_run_as_selected(
    selection: ShellSelection,
    expected: (Seq<char>, Option<Seq<char>>, Seq<Seq<char>>),
)
    requires
        is_selection(selection, expected),
    ensures
        selection is Command <==> expected.1 is Some,
        selection matches ShellSelection::Command { executable, command } ==> executable@ == expected.0 && command@
            == expected.1->0,
        selection matches ShellSelection::Arguments { executable, args } ==> executable@ == expected.0 && views(args@)
            == expected.2,
{
}

/// A process runs in the directory that was asked for, and in the workspace where none was.
pub proof fn processes_run_where_asked(cwd: TextArgument)
    ensures
        cwd matches TextArgument::Present(path) ==> requested_directory(cwd) == path@,
        !(cwd is Present) ==> requested_directory(cwd) == "."@,
{
}

/// A planned process is the one asked for: its action, its executable, its directory and its arguments.
pub proof fn planned_processes_are_the_asked_ones(
    planned: ProcessPlan,
    action: Seq<char>,
    executable: Seq<char>,
    cwd: Seq<char>,
    args: Seq<Seq<char>>,
    at: int,
)
    requires
        runs(planned, action, executable, cwd, args),
    ensures
        planned.plan.action@ == action,
        planned.plan.resource@ == executable,
        planned.spec.cwd@ == cwd,
        planned.spec.args@.len() == args.len(),
        0 <= at < args.len() ==> planned.spec.args@[at]@ == args[at],
{
    if 0 <= at < args.len() {
        assert(views(planned.spec.args@)[at] == args[at]);
    }
}

/// A path is within the roots exactly where it is within one of them, so a further root only adds.
pub proof fn roots_only_add(platform: Platform, path: Seq<char>, roots: Seq<String>, root: String)
    ensures
        within_any(platform, path, roots.push(root)) <==> within_any(platform, path, roots) || within(
            platform,
            path,
            root@,
        ),
        !within_any(platform, path, Seq::empty()),
{
    let all = roots.push(root);
    if within_any(platform, path, roots) {
        let i = choose|i: int| 0 <= i < roots.len() && within(platform, path, (#[trigger] roots[i])@);
        assert(all[i] == roots[i]);
    }
    if within(platform, path, root@) {
        assert(all[roots.len() as int] == root);
    }
    if within_any(platform, path, all) {
        let i = choose|i: int| 0 <= i < all.len() && within(platform, path, (#[trigger] all[i])@);
        if i < roots.len() {
            assert(all[i] == roots[i]);
        }
    }
}

} // verus!
