//! The sandbox preset for development in a workspace.

use crate::config::{grant, grant_views, FilesystemGrant, GrantView, Platform, PolicyConfig, RuntimeConfig};
use crate::error::{config_error, config_error3, is_config_error, RuntimeError};
use crate::ordered::{placement, precedes, precedes_irreflexive, precedes_transitive, Placement};
use crate::path_order::{holds_path, insert_path, path_ascending, path_precedes};
use crate::paths::{absolute, components, is_absolute, join_path, joined_path, starts_with_path, within};
use crate::text::{concat2, optional_view, same_text, views};
use vstd::prelude::*;
use vstd::string::*;

verus! {

/// Most directories on the search path of a development sandbox.
pub const MAX_COMMAND_ROOTS: usize = 64;

/// Grants derived for development in a workspace.
#[derive(Debug)]
pub struct DevelopmentSandbox {
    /// Filesystem grants.
    pub filesystem: Vec<FilesystemGrant>,
    /// Executables.
    pub executables: Vec<String>,
    /// Paths that no grant reaches.
    pub protected_filesystem: Vec<String>,
    /// Shell.
    pub shell: Option<String>,
    /// Search path.
    pub path: String,
}

/// Whether a configuration asks for the preset.
#[derive(Clone, Copy, Debug, PartialEq, Eq, Structural)]
pub enum DevelopmentChoice {
    /// It does not.
    Unused,
    /// It does, and the host is to look up the shell and the search path.
    Derive,
}

/// A backend that keeps paths out of a grant on this platform.
pub open spec fn protects_paths(backend: Seq<char>, platform: Platform) -> bool {
    if backend == "native"@ {
        platform == Platform::Linux || platform == Platform::Macos
    } else if backend == "windows_job"@ {
        platform == Platform::Windows
    } else {
        backend == "oci"@
    }
}

/// Whether a backend keeps paths out of a grant on this platform.
pub fn backend_protects_paths(backend: &str, platform: Platform) -> (yes: bool)
    ensures
        yes == protects_paths(backend@, platform),
{
    if same_text(backend, "native") {
        platform == Platform::Linux || platform == Platform::Macos
    } else if same_text(backend, "windows_job") {
        platform == Platform::Windows
    } else {
        same_text(backend, "oci")
    }
}

/// Decides whether the preset applies: never beside OPA, nor without isolation, nor where protected
/// paths cannot be kept out.
pub fn development_choice(
    config: &RuntimeConfig,
    platform: Platform,
) -> (result: Result<DevelopmentChoice, RuntimeError>)
    ensures
        if config.sandbox.profile@ != "workspace-development"@ {
            result == Ok::<DevelopmentChoice, RuntimeError>(DevelopmentChoice::Unused)
        } else if config.policy is Opa {
            is_config_error(
                result,
                "sandbox.profile workspace-development is unavailable with policy.kind opa; OPA must return explicit workspace and executable obligations"@,
            )
        } else if config.sandbox.backend@ == "broker"@ || config.sandbox.backend@ == "external"@
            || config.sandbox.backend@ == "danger_full_access"@ {
            is_config_error(result, "workspace-development requires an isolating sandbox backend"@)
        } else if !protects_paths(config.sandbox.backend@, platform) {
            is_config_error(
                result,
                "sandbox backend "@ + config.sandbox.backend@
                    + " cannot enforce workspace-development protected-path exclusions on this platform"@,
            )
        } else {
            result == Ok::<DevelopmentChoice, RuntimeError>(DevelopmentChoice::Derive)
        },
{
    if !same_text(config.sandbox.profile.as_str(), "workspace-development") {
        return Ok(DevelopmentChoice::Unused);
    }
    match &config.policy {
        PolicyConfig::Opa { .. } => {
            return config_error(
                "sandbox.profile workspace-development is unavailable with policy.kind opa; OPA must return explicit workspace and executable obligations",
            );
        },
        PolicyConfig::BuiltIn { .. } => {},
    }
    let backend = config.sandbox.backend.as_str();
    if same_text(backend, "broker") || same_text(backend, "external") || same_text(backend, "danger_full_access") {
        return config_error("workspace-development requires an isolating sandbox backend");
    }
    if !backend_protects_paths(backend, platform) {
        return config_error3(
            "sandbox backend ",
            backend,
            " cannot enforce workspace-development protected-path exclusions on this platform",
        );
    }
    Ok(DevelopmentChoice::Derive)
}

/// The entries of a search path that are absolute; the others are not looked at.
pub open spec fn absolute_entries(platform: Platform, entries: Seq<Seq<char>>) -> Seq<Seq<char>>
    decreases entries.len(),
{
    if entries.len() == 0 {
        Seq::empty()
    } else {
        let before = absolute_entries(platform, entries.drop_last());
        if absolute(platform, entries.last()) {
            before.push(entries.last())
        } else {
            before
        }
    }
}

/// The entries of a search path that are absolute, in their order.
pub fn searched_directories(platform: Platform, entries: &Vec<String>) -> (list: Vec<String>)
    ensures
        views(list@) == absolute_entries(platform, views(entries@)),
{
    let ghost all = views(entries@);
    let mut list: Vec<String> = Vec::new();
    let mut i: usize = 0;
    proof {
        assert(views(list@) =~= absolute_entries(platform, all.take(0)));
    }
    while i < entries.len()
        invariant
            i <= entries@.len(),
            all == views(entries@),
            views(list@) == absolute_entries(platform, all.take(i as int)),
        decreases entries@.len() - i,
    {
        let ghost before = views(list@);
        proof {
            assert(all.take(i + 1).drop_last() =~= all.take(i as int));
            assert(all.take(i + 1).last() == entries@[i as int]@);
        }
        if is_absolute(platform, entries[i].as_str()) {
            list.push(entries[i].clone());
            proof {
                assert(views(list@) =~= before.push(entries@[i as int]@));
            }
        }
        i = i + 1;
    }
    proof {
        assert(all.take(i as int) =~= all);
    }
    list
}

/// The places where a program is looked for, one in each directory.
pub fn program_candidates(platform: Platform, directories: &Vec<String>, name: &str) -> (list: Vec<String>)
    ensures
        list@.len() == directories@.len(),
        forall|i: int| 0 <= i < list@.len() ==> (#[trigger] list@[i])@ == joined_path(
            platform,
            directories@[i]@,
            name@,
        ),
{
    let mut list: Vec<String> = Vec::new();
    let mut i: usize = 0;
    while i < directories.len()
        invariant
            i <= directories@.len(),
            list@.len() == i,
            forall|j: int| 0 <= j < i ==> (#[trigger] list@[j])@ == joined_path(platform, directories@[j]@, name@),
        decreases directories@.len() - i,
    {
        list.push(join_path(platform, directories[i].as_str(), name));
        i = i + 1;
    }
    list
}

/// What the host found at a place.
#[derive(Debug)]
pub struct FoundProgram {
    /// The canonical path, where there is one.
    pub canonical: Option<String>,
    pub is_file: bool,
}

/// The first file that was found.
pub open spec fn first_found(found: Seq<FoundProgram>) -> Option<Seq<char>>
    decreases found.len(),
{
    if found.len() == 0 {
        None
    } else {
        match found[0].canonical {
            Some(path) if found[0].is_file => Some(path@),
            _ => first_found(found.skip(1)),
        }
    }
}

/// The first file that was found.
pub fn first_program(found: &Vec<FoundProgram>) -> (path: Option<String>)
    ensures
        optional_view(path) == first_found(found@),
{
    let mut i: usize = 0;
    proof {
        assert(found@.skip(0) =~= found@);
    }
    while i < found.len()
        invariant
            i <= found@.len(),
            first_found(found@) == first_found(found@.skip(i as int)),
        decreases found@.len() - i,
    {
        proof {
            assert(found@.skip(i as int)[0] == found@[i as int]);
            assert(found@.skip(i as int).skip(1) =~= found@.skip(i + 1));
        }
        if let Some(path) = &found[i].canonical {
            if found[i].is_file {
                return Some(path.clone());
            }
        }
        i = i + 1;
    }
    None
}

/// A directory of the search path that lies outside the workspace.
pub open spec fn usable_root(
    platform: Platform,
    directories: Seq<Seq<char>>,
    workspace: Seq<char>,
    path: Seq<char>,
) -> bool {
    exists|i: int|
        0 <= i < directories.len() && !within(
            platform,
            #[trigger] directories[i],
            workspace,
        ) && components(platform, directories[i])
            == components(platform, path)
}

/// The directories outside the workspace, ordered, each once, and the first of them up to `limit`.
pub open spec fn are_command_roots(
    platform: Platform,
    roots: Seq<Seq<char>>,
    directories: Seq<Seq<char>>,
    workspace: Seq<char>,
    limit: nat,
) -> bool {
    exists|all: Seq<Seq<char>>|
        #![trigger path_ascending(platform, all)]
        path_ascending(platform, all) && (forall|x: Seq<char>|
            #[trigger] holds_path(
                platform,
                all,
                x,
            ) <==> usable_root(platform, directories, workspace, x)) && roots == if all.len()
            <= limit {
            all
        } else {
            all.take(limit as int)
        }
}

/// The command roots among canonical directories: those outside the workspace, ordered, each once, at
/// most 64.
pub fn command_roots(platform: Platform, directories: &Vec<String>, workspace: &str) -> (roots: Vec<String>)
    ensures
        are_command_roots(platform, views(roots@), views(directories@), workspace@, MAX_COMMAND_ROOTS as nat),
{
    let ghost texts = views(directories@);
    let mut roots: Vec<String> = Vec::new();
    let mut i: usize = 0;
    while i < directories.len()
        invariant
            i <= directories@.len(),
            texts == views(directories@),
            path_ascending(platform, views(roots@)),
            forall|x: Seq<char>|
                #[trigger] holds_path(
                    platform,
                    views(roots@),
                    x,
                ) <==> usable_root(platform, texts.take(i as int), workspace@, x),
        decreases directories@.len() - i,
    {
        let ghost short = texts.take(i as int);
        let ghost long = texts.take(i + 1);
        let ghost before = views(roots@);
        proof {
            assert(texts[i as int] == directories@[i as int]@);
            assert(long[i as int] == texts[i as int]);
        }
        let inside = starts_with_path(platform, directories[i].as_str(), workspace);
        if !inside {
            insert_path(platform, &mut roots, directories[i].clone());
        }
        proof {
            assert forall|x: Seq<char>| #[trigger] holds_path(platform, views(roots@), x) <==> usable_root(platform, long, workspace@, x) by {
                if usable_root(platform, short, workspace@, x) {
                    let k = choose|k: int|
                        0 <= k < short.len() && !within(
                            platform,
                            #[trigger] short[k],
                            workspace@,
                        ) && components(platform, short[k])
                            == components(platform, x);
                    assert(long[k] == short[k]);
                }
                if usable_root(platform, long, workspace@, x) {
                    let k = choose|k: int|
                        0 <= k < long.len() && !within(
                            platform,
                            #[trigger] long[k],
                            workspace@,
                        ) && components(platform, long[k])
                            == components(platform, x);
                    if k < i {
                        assert(short[k] == long[k]);
                        assert(usable_root(platform, short, workspace@, x));
                    }
                }
                assert(holds_path(platform, before, x) == usable_root(platform, short, workspace@, x));
            }
        }
        i = i + 1;
    }
    proof {
        assert(texts.take(i as int) =~= texts);
    }
    let ghost all = views(roots@);
    if roots.len() > MAX_COMMAND_ROOTS {
        roots.truncate(MAX_COMMAND_ROOTS);
        proof {
            assert(views(roots@) =~= all.take(MAX_COMMAND_ROOTS as int));
        }
    }
    proof {
        assert(path_ascending(platform, all));
    }
    roots
}

/// The grant `left` stands before `right`: by root, then by mode.
pub open spec fn grant_precedes(left: GrantView, right: GrantView) -> bool {
    precedes(left.root, right.root) || (left.root == right.root && precedes(left.mode, right.mode))
}

/// Each grant stands before all later ones: the list is ordered and holds no grant twice.
pub open spec fn grants_ascending(list: Seq<GrantView>) -> bool {
    forall|i: int, j: int| 0 <= i < j < list.len() ==> grant_precedes(#[trigger] list[i], #[trigger] list[j])
}

proof fn grant_transitive(a: GrantView, b: GrantView, c: GrantView)
    requires
        grant_precedes(a, b),
        grant_precedes(b, c),
    ensures
        grant_precedes(a, c),
{
    if precedes(a.root, b.root) && precedes(b.root, c.root) {
        precedes_transitive(a.root, b.root, c.root);
    }
    if precedes(a.mode, b.mode) && precedes(b.mode, c.mode) {
        precedes_transitive(a.mode, b.mode, c.mode);
    }
}

fn grant_placement(left: &FilesystemGrant, right: &FilesystemGrant) -> (result: Placement)
    ensures
        result is Before ==> grant_precedes(left@, right@),
        result is Same ==> left@ == right@,
        result is After ==> grant_precedes(right@, left@),
{
    match placement(left.root.as_str(), right.root.as_str()) {
        Placement::Before => Placement::Before,
        Placement::After => Placement::After,
        Placement::Same => placement(left.mode.as_str(), right.mode.as_str()),
    }
}

/// Puts a grant into an ascending list, unless it is there already.
pub fn insert_grant(list: &mut Vec<FilesystemGrant>, item: FilesystemGrant)
    requires
        grants_ascending(grant_views(old(list)@)),
    ensures
        grants_ascending(grant_views(final(list)@)),
        forall|x: GrantView|
            #[trigger] grant_views(final(list)@).contains(x) <==> grant_views(old(list)@).contains(x) || x == item@,
{
    let ghost before = grant_views(list@);
    let mut at: usize = 0;
    while at < list.len()
        invariant
            at <= list@.len(),
            before == grant_views(list@),
            grants_ascending(before),
            list@ == old(list)@,
            forall|j: int| 0 <= j < at ==> grant_precedes(#[trigger] before[j], item@),
        ensures
            at <= list@.len(),
            at < list@.len() ==> grant_precedes(item@, before[at as int]),
        decreases list@.len() - at,
    {
        match grant_placement(&list[at], &item) {
            Placement::Before => {
                at = at + 1;
            },
            Placement::Same => {
                proof {
                    assert(before[at as int] == item@);
                }
                return ;
            },
            Placement::After => {
                proof {
                    assert(before[at as int] == list@[at as int]@);
                }
                break ;
            },
        }
    }
    let ghost shown = item@;
    list.insert(at, item);
    proof {
        let after = grant_views(list@);
        assert(after =~= before.insert(at as int, shown));
        assert forall|i: int, j: int| 0 <= i < j < after.len() implies grant_precedes(#[trigger] after[i], #[trigger] after[j]) by {
            if i < at && j == at {
            } else if i == at {
                if j > at + 1 {
                    grant_transitive(shown, before[at as int], before[j - 1]);
                }
            } else if j < at {
                assert(grant_precedes(before[i], before[j]));
            } else if i < at {
                assert(grant_precedes(before[i], before[j - 1]));
            } else {
                assert(grant_precedes(before[i - 1], before[j - 1]));
            }
        }
        assert forall|x: GrantView| #[trigger] after.contains(x) <==> before.contains(x) || x == shown by {
            if before.contains(x) {
                let k = choose|k: int| 0 <= k < before.len() && before[k] == x;
                if k < at {
                    assert(after[k] == x);
                } else {
                    assert(after[k + 1] == x);
                }
            }
            if x == shown {
                assert(after[at as int] == x);
            }
            if after.contains(x) {
                let k = choose|k: int| 0 <= k < after.len() && after[k] == x;
                if k < at {
                    assert(before[k] == x);
                } else if k > at {
                    assert(before[k - 1] == x);
                }
            }
        }
    }
}

fn insert_all(list: &mut Vec<FilesystemGrant>, roots: &Vec<String>, mode: &str)
    requires
        grants_ascending(grant_views(old(list)@)),
    ensures
        grants_ascending(grant_views(final(list)@)),
        forall|x: GrantView|
            #[trigger] grant_views(final(list)@).contains(x) <==> grant_views(old(list)@).contains(x) || (x.mode == mode@
                && views(roots@).contains(x.root)),
{
    let ghost texts = views(roots@);
    let mut i: usize = 0;
    while i < roots.len()
        invariant
            i <= roots@.len(),
            texts == views(roots@),
            grants_ascending(grant_views(list@)),
            forall|x: GrantView|
                #[trigger] grant_views(list@).contains(x) <==> grant_views(old(list)@).contains(x) || (x.mode == mode@
                    && texts.take(i as int).contains(x.root)),
        decreases roots@.len() - i,
    {
        let ghost before = grant_views(list@);
        insert_grant(list, grant(roots[i].as_str(), mode));
        proof {
            let short = texts.take(i as int);
            let long = texts.take(i + 1);
            assert forall|x: GrantView| #[trigger] grant_views(list@).contains(x) <==> grant_views(old(list)@).contains(x)
                || (x.mode == mode@ && long.contains(x.root)) by {
                if short.contains(x.root) {
                    let k = choose|k: int| 0 <= k < short.len() && short[k] == x.root;
                    assert(long[k] == x.root);
                }
                if x.root == roots@[i as int]@ {
                    assert(long[i as int] == x.root);
                }
                if long.contains(x.root) {
                    let k = choose|k: int| 0 <= k < long.len() && long[k] == x.root;
                    if k < i {
                        assert(short[k] == x.root);
                    }
                }
            }
        }
        i = i + 1;
    }
    proof {
        assert(texts.take(i as int) =~= texts);
    }
}

/// What the host looked up for the preset.
#[derive(Debug)]
pub struct HostDevelopment {
    /// The shell, by its canonical path.
    pub shell: Option<String>,
    /// Command roots, as selected.
    pub command_roots: Vec<String>,
    /// Canonical directories of shared libraries.
    pub runtime_roots: Vec<String>,
    /// The first git of the command roots, by its canonical path.
    pub git: Option<String>,
    /// The control directory of the workspace, by its canonical path.
    pub control: String,
    /// The command roots as one search path, or why they cannot be one.
    pub path: Result<String, String>,
}

/// A grant of the preset: the workspace may be written, command and library directories read, the
/// shell and git executed.
pub open spec fn is_development_grant(grant: GrantView, workspace: Seq<char>, host: HostDevelopment) -> bool {
    ||| grant == (GrantView { root: workspace, mode: "write"@ })
    ||| grant.mode == "read"@ && (views(host.command_roots@).contains(grant.root) || views(
        host.runtime_roots@,
    ).contains(grant.root))
    ||| host.shell matches Some(shell) && grant == (GrantView { root: shell@, mode: "execute"@ })
    ||| host.git matches Some(git) && grant == (GrantView { root: git@, mode: "execute"@ })
}

/// Derives the grants of the preset. `host` holds what was looked up.
pub fn derive_development_sandbox(platform: Platform, workspace: &str, host: &HostDevelopment) -> (result: Result<
    DevelopmentSandbox,
    RuntimeError,
>)
    ensures
        match (host.shell, host.path) {
            (None, _) => is_config_error(result, "no trusted platform shell is available"@),
            (Some(_), Err(text)) => is_config_error(result, "invalid development PATH: "@ + text@),
            (Some(shell), Ok(path)) => result matches Ok(derived) && {
                &&& grants_ascending(grant_views(derived.filesystem@))
                &&& forall|x: GrantView|
                    #[trigger] grant_views(derived.filesystem@).contains(x) <==> is_development_grant(
                        x,
                        workspace@,
                        *host,
                    )
                &&& path_ascending(platform, views(derived.executables@))
                &&& forall|x: Seq<char>|
                    #[trigger] holds_path(
                        platform,
                        views(derived.executables@),
                        x,
                    ) <==> components(platform, x) == components(platform, shell@) || (
                    host.git matches Some(git) && components(platform, x) == components(platform, git@))
                &&& views(derived.protected_filesystem@) == seq![host.control@]
                &&& derived.shell == Some(shell)
                &&& derived.path == path
            },
        },
{
    let shell = match &host.shell {
        Some(shell) => shell,
        None => {
            return config_error("no trusted platform shell is available");
        },
    };
    let path = match &host.path {
        Ok(path) => path.clone(),
        Err(text) => {
            return Err(RuntimeError::Config(crate::text::concat2("invalid development PATH: ", text.as_str())));
        },
    };
    let mut filesystem: Vec<FilesystemGrant> = Vec::new();
    insert_grant(&mut filesystem, grant(workspace, "write"));
    insert_all(&mut filesystem, &host.command_roots, "read");
    insert_all(&mut filesystem, &host.runtime_roots, "read");
    insert_grant(&mut filesystem, grant(shell.as_str(), "execute"));
    let mut executables: Vec<String> = Vec::new();
    insert_path(platform, &mut executables, shell.clone());
    if let Some(git) = &host.git {
        insert_grant(&mut filesystem, grant(git.as_str(), "execute"));
        insert_path(platform, &mut executables, git.clone());
    }
    let mut protected_filesystem: Vec<String> = Vec::new();
    protected_filesystem.push(host.control.clone());
    proof {
        assert(views(protected_filesystem@) =~= seq![host.control@]);
    }
    Ok(DevelopmentSandbox { filesystem, executables, protected_filesystem, shell: Some(shell.clone()), path })
}

/// The preset where it does not apply: nothing.
pub fn no_development_sandbox() -> (derived: DevelopmentSandbox)
    ensures
        derived.filesystem@.len() == 0,
        derived.executables@.len() == 0,
        derived.protected_filesystem@.len() == 0,
        derived.shell is None,
        derived.path@.len() == 0,
{
    DevelopmentSandbox {
        filesystem: Vec::new(),
        executables: Vec::new(),
        protected_filesystem: Vec::new(),
        shell: None,
        path: String::new(),
    }
}

/// The environment variables of a development sandbox.
pub fn development_environment_names() -> (names: Vec<String>)
    ensures
        views(names@) == seq!["HOME"@, "PATH"@, "TEMP"@, "TMP"@, "TMPDIR"@],
{
    let mut names: Vec<String> = Vec::new();
    names.push("HOME".to_owned());
    names.push("PATH".to_owned());
    names.push("TEMP".to_owned());
    names.push("TMP".to_owned());
    names.push("TMPDIR".to_owned());
    proof {
        assert(views(names@) =~= seq!["HOME"@, "PATH"@, "TEMP"@, "TMP"@, "TMPDIR"@]);
    }
    names
}

/// No grant of the preset writes anything but the workspace.
pub proof fn only_the_workspace_is_writable(workspace: Seq<char>, host: HostDevelopment, grant: GrantView)
    requires
        is_development_grant(grant, workspace, host),
        grant.mode == "write"@,
    ensures
        grant.root == workspace,
{
    reveal_strlit("write");
    reveal_strlit("read");
    reveal_strlit("execute");
    assert("write"@.len() == 5 && "read"@.len() == 4 && "execute"@.len() == 7);
}

/// The shells that a platform may have, best first. `system_root` is the system directory of Windows.
pub open spec fn shell_paths(platform: Platform, system_root: Seq<char>) -> Seq<Seq<char>> {
    match platform {
        Platform::Macos => seq!["/bin/zsh"@, "/bin/sh"@],
        Platform::Linux => seq!["/bin/bash"@, "/bin/sh"@],
        Platform::Windows => seq![
            joined_path(platform, system_root, "System32\\WindowsPowerShell\\v1.0\\powershell.exe"@),
            joined_path(platform, system_root, "System32\\cmd.exe"@),
        ],
        Platform::Other => Seq::empty(),
    }
}

/// The shells that a platform may have, best first.
pub fn platform_shells(platform: Platform, system_root: &Option<String>) -> (result: Result<Vec<String>, RuntimeError>)
    ensures
        match (platform, *system_root) {
            (Platform::Other, _) => is_config_error(
                result,
                "workspace-development has no supported platform shell"@,
            ),
            (Platform::Windows, None) => is_config_error(result, "Windows system root is unavailable"@),
            (_, Some(root)) => result matches Ok(list) && views(list@) == shell_paths(platform, root@),
            (_, None) => result matches Ok(list) && views(list@) == shell_paths(platform, Seq::empty()),
        },
{
    match platform {
        Platform::Macos => {
            let list: Vec<String> = vec!["/bin/zsh".to_owned(), "/bin/sh".to_owned()];
            proof {
                assert(views(list@) =~= seq!["/bin/zsh"@, "/bin/sh"@]);
            }
            Ok(list)
        },
        Platform::Linux => {
            let list: Vec<String> = vec!["/bin/bash".to_owned(), "/bin/sh".to_owned()];
            proof {
                assert(views(list@) =~= seq!["/bin/bash"@, "/bin/sh"@]);
            }
            Ok(list)
        },
        Platform::Windows => match system_root {
            None => config_error("Windows system root is unavailable"),
            Some(root) => {
                let list: Vec<String> = vec![
                    join_path(platform, root.as_str(), "System32\\WindowsPowerShell\\v1.0\\powershell.exe"),
                    join_path(platform, root.as_str(), "System32\\cmd.exe"),
                ];
                proof {
                    assert(views(list@) =~= shell_paths(platform, root@));
                }
                Ok(list)
            },
        },
        Platform::Other => config_error("workspace-development has no supported platform shell"),
    }
}

/// The directories of commands that a platform has.
pub open spec fn command_paths(platform: Platform, system_root: Option<Seq<char>>) -> Seq<Seq<char>> {
    match platform {
        Platform::Macos => seq!["/bin"@, "/sbin"@, "/usr/bin"@, "/usr/sbin"@],
        Platform::Linux => seq!["/bin"@, "/sbin"@, "/usr/bin"@, "/usr/sbin"@],
        Platform::Windows => match system_root {
            Some(root) => seq![joined_path(platform, root, "System32"@)],
            None => Seq::empty(),
        },
        Platform::Other => Seq::empty(),
    }
}

/// The directories of commands that a platform has.
pub fn platform_command_roots(platform: Platform, system_root: &Option<String>) -> (list: Vec<String>)
    ensures
        views(list@) == command_paths(platform, optional_view(*system_root)),
{
    let list: Vec<String> = match platform {
        Platform::Macos => vec![
            "/bin".to_owned(),
            "/sbin".to_owned(),
            "/usr/bin".to_owned(),
            "/usr/sbin".to_owned(),
        ],
        Platform::Linux => vec![
            "/bin".to_owned(),
            "/sbin".to_owned(),
            "/usr/bin".to_owned(),
            "/usr/sbin".to_owned(),
        ],
        Platform::Windows => match system_root {
            Some(root) => vec![join_path(platform, root.as_str(), "System32")],
            None => Vec::new(),
        },
        Platform::Other => Vec::new(),
    };
    proof {
        assert(views(list@) =~= command_paths(platform, optional_view(*system_root)));
    }
    list
}

/// The directories of shared libraries that a platform has.
pub open spec fn library_paths(platform: Platform) -> Seq<Seq<char>> {
    match platform {
        Platform::Macos => seq!["/System/Library"@, "/usr/lib"@, "/Library/Apple/usr/lib"@],
        Platform::Linux => seq!["/lib"@, "/lib64"@, "/usr/lib"@, "/usr/lib64"@],
        _ => Seq::empty(),
    }
}

/// The directories of shared libraries that a platform has.
pub fn platform_runtime_roots(platform: Platform) -> (list: Vec<String>)
    ensures
        views(list@) == library_paths(platform),
{
    let list: Vec<String> = match platform {
        Platform::Macos => vec![
            "/System/Library".to_owned(),
            "/usr/lib".to_owned(),
            "/Library/Apple/usr/lib".to_owned(),
        ],
        Platform::Linux => vec![
            "/lib".to_owned(),
            "/lib64".to_owned(),
            "/usr/lib".to_owned(),
            "/usr/lib64".to_owned(),
        ],
        _ => Vec::new(),
    };
    proof {
        assert(views(list@) =~= library_paths(platform));
    }
    list
}

/// Protected paths are kept apart natively on Linux and macOS, by job objects on Windows, and in
/// containers everywhere; nothing else keeps them apart.
pub proof fn three_backends_protect_paths(backend: Seq<char>, platform: Platform)
    ensures
        protects_paths("native"@, Platform::Linux) && protects_paths("native"@, Platform::Macos),
        !protects_paths("native"@, Platform::Windows) && !protects_paths("native"@, Platform::Other),
        protects_paths("windows_job"@, platform) <==> platform is Windows,
        protects_paths("oci"@, platform),
        protects_paths(backend, platform) ==> backend == "native"@ || backend == "windows_job"@ || backend == "oci"@,
{
    reveal_strlit("native");
    reveal_strlit("windows_job");
    reveal_strlit("oci");
    assert("native"@.len() == 6 && "windows_job"@.len() == 11 && "oci"@.len() == 3);
}

/// Every absolute entry is searched, in its order, and no relative one is.
pub proof fn absolute_entries_are_searched(platform: Platform, entries: Seq<Seq<char>>, entry: Seq<char>)
    ensures
        absolute(platform, entry) ==> absolute_entries(platform, entries.push(entry)) == absolute_entries(
            platform,
            entries,
        ).push(entry),
        !absolute(platform, entry) ==> absolute_entries(platform, entries.push(entry)) == absolute_entries(
            platform,
            entries,
        ),
        absolute_entries(platform, Seq::empty()).len() == 0,
{
    assert(entries.push(entry).drop_last() == entries);
}

/// The first file that exists is the program; a directory of its name is passed over.
pub proof fn the_first_file_is_the_program(found: Seq<FoundProgram>, at: int)
    requires
        0 <= at < found.len(),
        found[at].is_file,
        found[at].canonical is Some,
        forall|i: int| 0 <= i < at ==> !(#[trigger] found[i]).is_file || found[i].canonical is None,
    ensures
        first_found(found) == Some(found[at].canonical->0@),
    decreases found.len(),
{
    if at > 0 {
        let rest = found.skip(1);
        assert forall|i: int| 0 <= i < at - 1 implies !(#[trigger] rest[i]).is_file || rest[i].canonical is None by {
            assert(rest[i] == found[i + 1]);
        }
        assert(rest[at - 1] == found[at]);
        the_first_file_is_the_program(rest, at - 1);
        assert(!found[0].is_file || found[0].canonical is None);
    }
}

/// Development may write the workspace, read the directories of commands and libraries, and run the
/// shell and git; it may do nothing else.
pub proof fn development_grants_are_what_builds_need(workspace: Seq<char>, host: HostDevelopment, grant: GrantView)
    ensures
        is_development_grant(GrantView { root: workspace, mode: "write"@ }, workspace, host),
        host.shell matches Some(shell) ==> is_development_grant(
            GrantView { root: shell@, mode: "execute"@ },
            workspace,
            host,
        ),
        host.git matches Some(git) ==> is_development_grant(
            GrantView { root: git@, mode: "execute"@ },
            workspace,
            host,
        ),
        views(host.command_roots@).contains(grant.root) && grant.mode == "read"@ ==> is_development_grant(
            grant,
            workspace,
            host,
        ),
        views(host.runtime_roots@).contains(grant.root) && grant.mode == "read"@ ==> is_development_grant(
            grant,
            workspace,
            host,
        ),
        is_development_grant(grant, workspace, host) && grant.mode == "write"@ ==> grant.root == workspace,
        is_development_grant(grant, workspace, host) && grant.mode == "execute"@ ==> (host.shell is Some
            && grant.root == host.shell->0@) || (host.git is Some && grant.root == host.git->0@),
{
    reveal_strlit("write");
    reveal_strlit("read");
    reveal_strlit("execute");
    assert("write"@.len() == 5 && "read"@.len() == 4 && "execute"@.len() == 7);
}

/// A directory is a root for commands where it is listed and stands outside the workspace.
pub proof fn command_roots_stand_outside_the_workspace(
    platform: Platform,
    directories: Seq<Seq<char>>,
    workspace: Seq<char>,
    at: int,
)
    requires
        0 <= at < directories.len(),
    ensures
        !within(platform, directories[at], workspace) ==> usable_root(
            platform,
            directories,
            workspace,
            directories[at],
        ),
        !usable_root(platform, Seq::empty(), workspace, directories[at]),
{
}

/// Every supported platform has a shell, and Unix ones fall back to the plain one.
pub proof fn platforms_have_a_shell(system_root: Seq<char>, root: Seq<char>)
    ensures
        shell_paths(Platform::Macos, system_root) == seq!["/bin/zsh"@, "/bin/sh"@],
        shell_paths(Platform::Linux, system_root) == seq!["/bin/bash"@, "/bin/sh"@],
        shell_paths(Platform::Windows, system_root).len() == 2,
        shell_paths(Platform::Other, system_root).len() == 0,
        command_paths(Platform::Linux, None).contains("/usr/bin"@) && command_paths(Platform::Linux, None).contains(
            "/bin"@,
        ),
        command_paths(Platform::Macos, None).contains("/usr/bin"@) && command_paths(Platform::Macos, None).contains(
            "/bin"@,
        ),
        command_paths(Platform::Windows, Some(root)) == seq![joined_path(Platform::Windows, root, "System32"@)],
        library_paths(Platform::Linux).contains("/usr/lib"@) && library_paths(Platform::Macos).contains("/usr/lib"@),
        library_paths(Platform::Windows).len() == 0,
{
    let linux = command_paths(Platform::Linux, None);
    assert(linux[0] == "/bin"@ && linux[2] == "/usr/bin"@);
    let macos = command_paths(Platform::Macos, None);
    assert(macos[0] == "/bin"@ && macos[2] == "/usr/bin"@);
    assert(library_paths(Platform::Linux)[2] == "/usr/lib"@);
    assert(library_paths(Platform::Macos)[1] == "/usr/lib"@);
}

/// Grants are ordered by root and then by mode, so no grant stands twice.
pub proof fn ordered_grants_differ(list: Seq<GrantView>, i: int, j: int)
    requires
        grants_ascending(list),
        0 <= i < j < list.len(),
    ensures
        list[i] != list[j],
        list[i].root == list[j].root ==> precedes(list[i].mode, list[j].mode),
{
    precedes_irreflexive(list[i].root);
    precedes_irreflexive(list[i].mode);
    assert(grant_precedes(list[i], list[j]));
}

/// The command roots are directories of the search path outside the workspace, each once, in order and no
/// more than allowed; where there is room for more, none is left out.
pub proof fn command_roots_are_usable(
    platform: Platform,
    roots: Seq<Seq<char>>,
    directories: Seq<Seq<char>>,
    workspace: Seq<char>,
    limit: nat,
    at: int,
    directory: int,
)
    requires
        are_command_roots(platform, roots, directories, workspace, limit),
        0 <= at < roots.len(),
        0 <= directory < directories.len(),
    ensures
        roots.len() <= limit,
        path_ascending(platform, roots),
        exists|i: int|
            0 <= i < directories.len() && !within(platform, #[trigger] directories[i], workspace) && components(
                platform,
                directories[i],
            ) == components(platform, roots[at]),
        roots.len() < limit && !within(platform, directories[directory], workspace) ==> exists|i: int|
            0 <= i < roots.len() && components(platform, #[trigger] roots[i]) == components(
                platform,
                directories[directory],
            ),
{
    let all = choose|all: Seq<Seq<char>>|
        #![trigger path_ascending(platform, all)]
        path_ascending(platform, all) && (forall|x: Seq<char>|
            #[trigger] holds_path(platform, all, x) <==> usable_root(platform, directories, workspace, x)) && roots
            == if all.len() <= limit {
            all
        } else {
            all.take(limit as int)
        };
    assert(roots[at] == all[at]);
    assert(holds_path(platform, all, all[at]));
    assert(usable_root(platform, directories, workspace, roots[at]));
    assert forall|i: int, j: int| 0 <= i < j < roots.len() implies path_precedes(
        platform,
        #[trigger] roots[i],
        #[trigger] roots[j],
    ) by {
        assert(roots[i] == all[i] && roots[j] == all[j]);
    }
    if roots.len() < limit && !within(platform, directories[directory], workspace) {
        assert(usable_root(platform, directories, workspace, directories[directory]));
        assert(holds_path(platform, all, directories[directory]));
    }
}

/// Shells are looked for in the order of preference of the platform, at fixed places; the places of
/// Windows stand below its system root.
pub proof fn shells_are_looked_for_in_order(system_root: Seq<char>)
    ensures
        shell_paths(Platform::Linux, system_root) == seq!["/bin/bash"@, "/bin/sh"@],
        shell_paths(Platform::Macos, system_root) == seq!["/bin/zsh"@, "/bin/sh"@],
        shell_paths(Platform::Other, system_root).len() == 0,
        shell_paths(Platform::Windows, system_root).len() == 2,
        shell_paths(Platform::Windows, system_root)[0] == joined_path(
            Platform::Windows,
            system_root,
            "System32\\WindowsPowerShell\\v1.0\\powershell.exe"@,
        ),
        shell_paths(Platform::Windows, system_root)[1] == joined_path(
            Platform::Windows,
            system_root,
            "System32\\cmd.exe"@,
        ),
{
}

} // verus!
