//! The executables that tools may run.

use crate::config::Platform;
use crate::path_order::{holds_path, insert_path, path_ascending, path_precedes};
use crate::paths::{
    components, file_name, file_stem, path_file_name, path_file_stem, same_path, starts_with_path, within,
};
use crate::text::{concat3, contains_char, lowercase, lowered, same_text, views};
use crate::tools::{denied, invalid, refuses, Refusal, ToolError};
use vstd::prelude::*;
use vstd::string::*;

verus! {

/// An executable that the sandbox grants.
#[derive(Debug)]
pub struct Executable {
    pub path: String,
    /// Whether it is a shell.
    pub shell: bool,
}

/// The executables that fit a request, in order.
pub open spec fn fitting(list: Seq<Executable>, fits: spec_fn(Executable) -> bool) -> Seq<Executable>
    decreases list.len(),
{
    if list.len() == 0 {
        list
    } else if fits(list.last()) {
        fitting(list.drop_last(), fits).push(list.last())
    } else {
        fitting(list.drop_last(), fits)
    }
}

/// The one that fits, or how the request is denied where none fits or more than one does.
pub open spec fn only_fitting(list: Seq<Executable>, absent: Seq<char>, ambiguous: Seq<char>) -> Result<
    Seq<char>,
    Refusal,
> {
    if list.len() == 0 {
        Err(Refusal::Denied(absent))
    } else if list.len() == 1 {
        Ok(list[0].path@)
    } else {
        Err(Refusal::Denied(ambiguous))
    }
}

/// The outcome is exactly this path or refusal.
pub open spec fn selects(result: Result<String, ToolError>, expected: Result<Seq<char>, Refusal>) -> bool {
    match expected {
        Ok(path) => result matches Ok(found) && found@ == path,
        Err(refusal) => refuses(result, refusal),
    }
}

/// An executable is the one that a request names: by its path or by its file name.
pub open spec fn named(platform: Platform, executable: Executable, requested: Seq<char>) -> bool {
    components(
        platform,
        executable.path@,
    ) == components(platform, requested) || file_name(platform, executable.path@) == Some(requested)
}

/// An executable is git.
pub open spec fn is_git(platform: Platform, executable: Executable) -> bool {
    file_stem(platform, executable.path@) matches Some(stem) && lowered(stem) == "git"@
}

/// The executable that a request names.
pub open spec fn resolved_executable(
    platform: Platform,
    list: Seq<Executable>,
    requested: Seq<char>,
) -> Result<Seq<char>, Refusal> {
    if requested.len() == 0 || requested.contains('\0') {
        Err(Refusal::Invalid("shell.run"@, "argv[0] must name one configured executable"@))
    } else {
        only_fitting(
            fitting(list, |executable: Executable| named(platform, executable, requested)),
            "executable "@ + requested + " is not explicitly configured"@,
            "executable name "@ + requested + " is ambiguous; use its configured absolute path"@,
        )
    }
}

fn is_named(platform: Platform, executable: &Executable, requested: &str) -> (yes: bool)
    ensures
        yes == named(platform, *executable, requested@),
{
    if same_path(platform, executable.path.as_str(), requested) {
        return true;
    }
    match path_file_name(platform, executable.path.as_str()) {
        Some(name) => same_text(name.as_str(), requested),
        None => false,
    }
}

/// The executable that a request names: the only granted one of its path or file name.
pub fn resolve_executable(
    platform: Platform,
    list: &Vec<Executable>,
    requested: &str,
) -> (result: Result<String, ToolError>)
    ensures
        selects(result, resolved_executable(platform, list@, requested@)),
{
    if requested.is_empty() || contains_char(requested, '\0') {
        return invalid("shell.run", "argv[0] must name one configured executable");
    }
    let ghost fits = |executable: Executable| named(platform, executable, requested@);
    let mut found: Option<String> = None;
    let mut count: u8 = 0;
    let mut i: usize = 0;
    while i < list.len()
        invariant
            i <= list@.len(),
            fits == (|executable: Executable| named(platform, executable, requested@)),
            counted(found, count, fitting(list@.take(i as int), fits)),
        decreases list@.len() - i,
    {
        proof {
            assert(list@.take(i + 1).drop_last() =~= list@.take(i as int));
            assert(list@.take(i + 1).last() == list@[i as int]);
        }
        if is_named(platform, &list[i], requested) {
            if count == 0 {
                found = Some(list[i].path.clone());
                count = 1;
            } else {
                count = 2;
            }
        }
        i = i + 1;
    }
    proof {
        assert(list@.take(i as int) =~= list@);
    }
    match found {
        Some(path) if count == 1 => Ok(path),
        _ => if count == 0 {
            let text = concat3("executable ", requested, " is not explicitly configured");
            denied(text.as_str())
        } else {
            let text = concat3(
                "executable name ",
                requested,
                " is ambiguous; use its configured absolute path",
            );
            denied(text.as_str())
        },
    }
}

/// What was found so far: none, the only one, or more than one.
spec fn counted(found: Option<String>, count: u8, list: Seq<Executable>) -> bool {
    if list.len() == 0 {
        count == 0 && found is None
    } else if list.len() == 1 {
        count == 1 && (found matches Some(path) && path@ == list[0].path@)
    } else {
        count == 2 && found is Some
    }
}

/// The only granted git.
pub fn git_executable(platform: Platform, list: &Vec<Executable>) -> (result: Result<String, ToolError>)
    ensures
        selects(
            result,
            only_fitting(
                fitting(list@, |executable: Executable| is_git(platform, executable)),
                "Git tools require one explicitly configured git executable"@,
                "multiple git executables are configured; keep one exact identity"@,
            ),
        ),
{
    let ghost fits = |executable: Executable| is_git(platform, executable);
    let mut found: Option<String> = None;
    let mut count: u8 = 0;
    let mut i: usize = 0;
    while i < list.len()
        invariant
            i <= list@.len(),
            fits == (|executable: Executable| is_git(platform, executable)),
            counted(found, count, fitting(list@.take(i as int), fits)),
        decreases list@.len() - i,
    {
        proof {
            assert(list@.take(i + 1).drop_last() =~= list@.take(i as int));
            assert(list@.take(i + 1).last() == list@[i as int]);
        }
        let fit = match path_file_stem(platform, list[i].path.as_str()) {
            Some(stem) => {
                let folded = lowercase(stem.as_str());
                same_text(folded.as_str(), "git")
            },
            None => false,
        };
        if fit {
            if count == 0 {
                found = Some(list[i].path.clone());
                count = 1;
            } else {
                count = 2;
            }
        }
        i = i + 1;
    }
    proof {
        assert(list@.take(i as int) =~= list@);
    }
    match found {
        Some(path) if count == 1 => Ok(path),
        _ => if count == 0 {
            denied("Git tools require one explicitly configured git executable")
        } else {
            denied("multiple git executables are configured; keep one exact identity")
        },
    }
}

/// The only granted shell.
pub fn shell_executable(list: &Vec<Executable>) -> (result: Result<String, ToolError>)
    ensures
        selects(
            result,
            only_fitting(
                fitting(list@, |executable: Executable| executable.shell),
                "command mode requires workspace-development or one explicit shell executable"@,
                "multiple shell executables are configured; keep one exact shell identity"@,
            ),
        ),
{
    let ghost fits = |executable: Executable| executable.shell;
    let mut found: Option<String> = None;
    let mut count: u8 = 0;
    let mut i: usize = 0;
    while i < list.len()
        invariant
            i <= list@.len(),
            fits == (|executable: Executable| executable.shell),
            counted(found, count, fitting(list@.take(i as int), fits)),
        decreases list@.len() - i,
    {
        proof {
            assert(list@.take(i + 1).drop_last() =~= list@.take(i as int));
            assert(list@.take(i + 1).last() == list@[i as int]);
        }
        if list[i].shell {
            if count == 0 {
                found = Some(list[i].path.clone());
                count = 1;
            } else {
                count = 2;
            }
        }
        i = i + 1;
    }
    proof {
        assert(list@.take(i as int) =~= list@);
    }
    match found {
        Some(path) if count == 1 => Ok(path),
        _ => if count == 0 {
            denied("command mode requires workspace-development or one explicit shell executable")
        } else {
            denied("multiple shell executables are configured; keep one exact shell identity")
        },
    }
}

/// Most directories of a sanitized search path.
pub const MAX_SEARCH_ROOTS: usize = 64;

/// A directory belongs to a sanitized search path: one of the host's that does not lie in the
/// workspace, or that of a granted executable.
pub open spec fn search_root(
    platform: Platform,
    path: Seq<char>,
    host: Seq<String>,
    executables: Seq<String>,
    workspace: Seq<char>,
) -> bool {
    (views(host).contains(path) && !within(platform, path, workspace)) || views(executables).contains(path)
}

/// The directories of a sanitized search path, in the order of paths, none twice, the first 64.
/// `host` are the canonical directories of the host's own path, and `executable_parents` those of the
/// granted executables.
pub fn sanitized_command_roots(
    platform: Platform,
    host: &Vec<String>,
    executable_parents: &Vec<String>,
    workspace: &str,
) -> (roots: Vec<
    String,
>)
    ensures
        path_ascending(platform, views(roots@)),
        roots@.len() <= MAX_SEARCH_ROOTS,
        forall|i: int|
            0 <= i < roots@.len() ==> search_root(
                platform,
                (#[trigger] roots@[i])@,
                host@,
                executable_parents@,
                workspace@,
            ),
        forall|path: Seq<char>|
            search_root(
                platform,
                path,
                host@,
                executable_parents@,
                workspace@,
            ) ==> #[trigger] holds_path(platform, views(roots@), path)
                || (roots@.len() == MAX_SEARCH_ROOTS && path_precedes(platform, roots@.last()@, path)),
{
    let mut all: Vec<String> = Vec::new();
    let mut i: usize = 0;
    while i < host.len()
        invariant
            i <= host@.len(),
            path_ascending(platform, views(all@)),
            forall|path: Seq<char>|
                #[trigger] views(all@).contains(path) ==> search_root(
                    platform,
                    path,
                    host@,
                    executable_parents@,
                    workspace@,
                ),
            forall|j: int|
                0 <= j < i && !within(
                    platform,
                    (#[trigger] host@[j])@,
                    workspace@,
                ) ==> holds_path(platform, views(all@), host@[j]@),
        decreases host@.len() - i,
    {
        if !starts_with_path(platform, host[i].as_str(), workspace) {
            proof {
                assert(views(host@)[i as int] == host@[i as int]@);
            }
            insert_path(platform, &mut all, host[i].clone());
        }
        i = i + 1;
    }
    let mut k: usize = 0;
    while k < executable_parents.len()
        invariant
            k <= executable_parents@.len(),
            path_ascending(platform, views(all@)),
            forall|path: Seq<char>|
                #[trigger] views(all@).contains(path) ==> search_root(
                    platform,
                    path,
                    host@,
                    executable_parents@,
                    workspace@,
                ),
            forall|j: int|
                0 <= j < host@.len() && !within(platform, (#[trigger] host@[j])@, workspace@) ==> holds_path(
                    platform,
                    views(all@),
                    host@[j]@,
                ),
            forall|j: int| 0 <= j < k ==> holds_path(platform, views(all@), (#[trigger] executable_parents@[j])@),
        decreases executable_parents@.len() - k,
    {
        proof {
            assert(views(executable_parents@)[k as int] == executable_parents@[k as int]@);
        }
        insert_path(platform, &mut all, executable_parents[k].clone());
        k = k + 1;
    }
    let ghost whole = views(all@);
    proof {
        assert forall|path: Seq<char>| search_root(
            platform,
            path,
            host@,
            executable_parents@,
            workspace@,
        ) implies holds_path(
            platform,
            whole,
            path,
        ) by {
            if views(host@).contains(path) && !within(platform, path, workspace@) {
                let j = choose|j: int| 0 <= j < views(host@).len() && views(host@)[j] == path;
                assert(host@[j]@ == path);
            } else {
                let j = choose|j: int|
                    0 <= j < views(executable_parents@).len() && views(executable_parents@)[j] == path;
                assert(executable_parents@[j]@ == path);
            }
        }
    }
    let mut roots: Vec<String> = Vec::new();
    let mut m: usize = 0;
    while m < all.len() && m < MAX_SEARCH_ROOTS
        invariant
            m <= all@.len(),
            m <= MAX_SEARCH_ROOTS,
            roots@ == all@.take(m as int),
            whole == views(all@),
        decreases all@.len() - m,
    {
        roots.push(all[m].clone());
        proof {
            assert(all@.take(m + 1) =~= all@.take(m as int).push(all@[m as int]));
        }
        m = m + 1;
    }
    proof {
        let kept = views(roots@);
        assert(kept =~= whole.take(m as int));
        assert(path_ascending(platform, kept)) by {
            assert forall|a: int, b: int| 0 <= a < b < kept.len() implies path_precedes(
                platform,
                #[trigger] kept[a],
                #[trigger] kept[b],
            ) by {
                assert(path_precedes(platform, whole[a], whole[b]));
            }
        }
        assert forall|j: int| 0 <= j < roots@.len() implies search_root(
            platform,
            (#[trigger] roots@[j])@,
            host@,
            executable_parents@,
            workspace@,
        ) by {
            assert(whole[j] == roots@[j]@);
            assert(whole.contains(whole[j]));
        }
        assert forall|path: Seq<char>| search_root(
            platform,
            path,
            host@,
            executable_parents@,
            workspace@,
        ) implies #[trigger] holds_path(platform, kept, path) || (roots@.len() == MAX_SEARCH_ROOTS && path_precedes(
            platform,
            roots@.last()@,
            path,
        )) by {
            assert(holds_path(platform, whole, path));
            held_or_later(platform, whole, m as int, path);
        }
    }
    roots
}

/// A held path is among the first ones, or comes after the last of them.
proof fn held_or_later(platform: Platform, whole: Seq<Seq<char>>, end: int, path: Seq<char>)
    requires
        path_ascending(platform, whole),
        holds_path(platform, whole, path),
        0 <= end <= whole.len(),
    ensures
        holds_path(
            platform,
            whole.take(end),
            path,
        ) || (0 < end < whole.len() && path_precedes(platform, whole[end - 1], path)) || end == 0,
{
    let i = choose|i: int| 0 <= i < whole.len() && components(
        platform,
        #[trigger] whole[i],
    ) == components(platform, path);
    if i < end {
        assert(components(platform, whole.take(end)[i]) == components(platform, path));
    } else if end > 0 {
        assert(path_precedes(platform, whole[end - 1], whole[i]));
    }
}

/// One executable that fits is chosen by its path; none and several are refused.
pub proof fn only_one_executable_is_chosen(list: Seq<Executable>, absent: Seq<char>, ambiguous: Seq<char>)
    ensures
        only_fitting(list, absent, ambiguous) is Ok <==> list.len() == 1,
        list.len() == 1 ==> only_fitting(list, absent, ambiguous) == Ok::<Seq<char>, Refusal>(list[0].path@),
        list.len() == 0 ==> only_fitting(list, absent, ambiguous) == Err::<Seq<char>, Refusal>(
            Refusal::Denied(absent),
        ),
        list.len() > 1 ==> only_fitting(list, absent, ambiguous) == Err::<Seq<char>, Refusal>(
            Refusal::Denied(ambiguous),
        ),
{
}

/// Every executable that fits is found, in its order, and no other.
pub proof fn all_that_fit_are_found(first: Seq<Executable>, second: Seq<Executable>, fits: spec_fn(Executable) -> bool, one: Executable)
    ensures
        fitting(first + second, fits) == fitting(first, fits) + fitting(second, fits),
        fits(one) ==> fitting(seq![one], fits) == seq![one],
        !fits(one) ==> fitting(seq![one], fits).len() == 0,
    decreases second.len(),
{
    assert(seq![one].drop_last() == Seq::<Executable>::empty());
    assert(fitting(Seq::<Executable>::empty(), fits) == Seq::<Executable>::empty());
    if second.len() == 0 {
        assert(first + second == first);
        assert(fitting(first, fits) + fitting(second, fits) == fitting(first, fits));
    } else {
        all_that_fit_are_found(first, second.drop_last(), fits, one);
        assert((first + second).drop_last() == first + second.drop_last());
        assert((first + second).last() == second.last());
        if fits(second.last()) {
            assert((fitting(first, fits) + fitting(second.drop_last(), fits)).push(second.last()) == fitting(
                first,
                fits,
            ) + fitting(second.drop_last(), fits).push(second.last()));
        }
    }
}

/// An executable is named by its path or by its file name.
pub proof fn executables_are_named_by_path_or_file(platform: Platform, executable: Executable, requested: Seq<char>)
    ensures
        named(platform, executable, executable.path@),
        file_name(platform, executable.path@) matches Some(name) ==> named(platform, executable, name),
        named(platform, executable, requested) ==> components(platform, requested) == components(
            platform,
            executable.path@,
        ) || file_name(platform, executable.path@) == Some(requested),
{
}

/// A configured executable that alone bears the name asked for is the one that is run; an empty name
/// runs nothing.
pub proof fn the_named_executable_is_run(platform: Platform, one: Executable, requested: Seq<char>)
    requires
        named(platform, one, requested),
        requested.len() > 0,
        !requested.contains('\0'),
    ensures
        resolved_executable(platform, seq![one], requested) == Ok::<Seq<char>, Refusal>(one.path@),
        resolved_executable(platform, seq![one, one], requested) is Err,
        resolved_executable(platform, Seq::empty(), requested) is Err,
        resolved_executable(platform, seq![one], Seq::empty()) is Err,
{
    let fits = |executable: Executable| named(platform, executable, requested);
    all_that_fit_are_found(seq![one], seq![one], fits, one);
    assert(seq![one] + seq![one] == seq![one, one]);
    assert(fitting(seq![one, one], fits).len() == 2);
    assert(fitting(Seq::<Executable>::empty(), fits).len() == 0);
}

/// A selection is the path expected, and where none is expected it is refused.
pub proof fn selections_are_the_expected_paths(
    result: Result<String, ToolError>,
    expected: Result<Seq<char>, Refusal>,
)
    requires
        selects(result, expected),
    ensures
        expected is Ok ==> result is Ok && result->Ok_0@ == expected->Ok_0,
        expected is Err ==> result is Err,
{
}

/// Git is known by its file name without an ending, in any case of letters.
pub proof fn git_is_known_by_name(platform: Platform, executable: Executable)
    ensures
        is_git(platform, executable) <==> file_stem(platform, executable.path@) is Some && lowered(
            file_stem(platform, executable.path@)->0,
        ) == "git"@,
{
}

/// Commands are searched for outside the workspace, and below it only where an executable was granted
/// there.
pub proof fn searches_leave_the_workspace_out(
    platform: Platform,
    path: Seq<char>,
    host: Seq<String>,
    executables: Seq<String>,
    workspace: Seq<char>,
)
    ensures
        search_root(platform, path, host, executables, workspace) && within(platform, path, workspace) ==> views(
            executables,
        ).contains(path),
        views(executables).contains(path) ==> search_root(platform, path, host, executables, workspace),
        views(host).contains(path) && !within(platform, path, workspace) ==> search_root(
            platform,
            path,
            host,
            executables,
            workspace,
        ),
{
}

} // verus!
