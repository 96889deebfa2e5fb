use colossus_runtime::config::Platform;
use colossus_runtime::executables::{
    git_executable, resolve_executable, sanitized_command_roots, shell_executable, Executable,
};
use colossus_runtime::filesystem_tools::{
    found_items, plan_filesystem, show_items, FilesystemArguments, FilesystemPlan, Findings,
};
use colossus_runtime::network_tools::{
    plan_extension, plan_network, ExtensionArguments, ExtensionPlan, NetworkArguments, NetworkPlan, PluginOperation,
};
use colossus_runtime::process_tools::{
    directory_lookup, displayed_directory, environment_credentials, plan_shell, resolved_argv, select_shell,
    settle_canonical_directory, shell_environment, DirectoryLookup, ShellSelection,
};
use colossus_runtime::repository_tools::{
    plan_git_diff, plan_git_show, plan_git_status, plan_patch, plan_repository, status_entries, PatchArguments,
    RepositoryArguments, RepositoryOperation,
};
use colossus_runtime::entries::Entry;
use colossus_runtime::tool_results::{
    pack_output, process_output, require_adapter, result_text, Adapter, ResultKind,
};
use colossus_runtime::tools::{current_session, tool_family, ExecutionContext, TextArgument, ToolError, ToolFamily};

fn present(text: &str) -> TextArgument {
    TextArgument::Present(text.into())
}

fn absent() -> TextArgument {
    TextArgument::Absent(ToolError::Failed("required".into()))
}

fn executable(path: &str, shell: bool) -> Executable {
    Executable { path: path.into(), shell }
}

fn message<T>(result: Result<T, ToolError>) -> String {
    match result {
        Ok(_) => panic!("a refusal is expected"),
        Err(ToolError::Denied(text)) => format!("denied: {text}"),
        Err(ToolError::Failed(text)) => format!("failed: {text}"),
        Err(ToolError::Unknown(text)) => format!("unknown: {text}"),
        Err(ToolError::InvalidArguments { tool, message }) => format!("invalid {tool}: {message}"),
    }
}

#[test]
fn tools_belong_to_one_family() {
    assert_eq!(tool_family("echo"), ToolFamily::Filesystem);
    assert_eq!(tool_family("patch.reverse"), ToolFamily::Repository);
    assert_eq!(tool_family("shell.run"), ToolFamily::Process);
    assert_eq!(tool_family("goal.update"), ToolFamily::Work);
    assert_eq!(tool_family("mcp.call"), ToolFamily::Extensions);
    assert_eq!(tool_family("docs.fetch"), ToolFamily::Network);
    assert_eq!(tool_family("crm.lookup"), ToolFamily::Integration);
}

#[test]
fn durable_tools_need_a_session() {
    let mut context = ExecutionContext {
        correlation_id: "c".into(),
        session_id: None,
        run_id: None,
        subagent_id: None,
        goal_id: None,
        draft_plan_id: None,
        draft_plan_revision: None,
        offered_tools: Vec::new(),
        skill_ids: Vec::new(),
    };
    assert_eq!(message(current_session(&context)), "denied: durable state tools require a session");
    context.session_id = Some("session-1".into());
    assert_eq!(current_session(&context).expect("session"), "session-1");
}

#[test]
fn executables_are_named_by_path_or_file_name() {
    let list = vec![executable(
        "/usr/bin/git",
        false,
    ), executable("/opt/tools/rg", false), executable("/alt/rg", false)];
    assert_eq!(resolve_executable(Platform::Linux, &list, "git").expect("name"), "/usr/bin/git");
    assert_eq!(resolve_executable(Platform::Linux, &list, "/usr/bin//git").expect("path"), "/usr/bin/git");
    assert_eq!(
        message(resolve_executable(Platform::Linux, &list, "rg")),
        "denied: executable name rg is ambiguous; use its configured absolute path"
    );
    assert_eq!(message(resolve_executable(
        Platform::Linux,
        &list,
        "cargo",
    )), "denied: executable cargo is not explicitly configured");
    assert_eq!(
        message(resolve_executable(Platform::Linux, &list, "")),
        "invalid shell.run: argv[0] must name one configured executable"
    );
    assert_eq!(
        message(resolve_executable(Platform::Linux, &list, "a\0b")),
        "invalid shell.run: argv[0] must name one configured executable"
    );
}

#[test]
fn git_and_shell_have_one_identity() {
    let one = vec![executable("/usr/bin/GIT.exe", false), executable("/bin/sh", true)];
    assert_eq!(git_executable(Platform::Linux, &one).expect("git"), "/usr/bin/GIT.exe");
    assert_eq!(shell_executable(&one).expect("shell"), "/bin/sh");
    let none = Vec::new();
    assert_eq!(
        message(git_executable(Platform::Linux, &none)),
        "denied: Git tools require one explicitly configured git executable"
    );
    assert_eq!(
        message(shell_executable(&none)),
        "denied: command mode requires workspace-development or one explicit shell executable"
    );
    let two = vec![
        executable("/usr/bin/git", false),
        executable("/opt/git", false),
        executable("/bin/sh", true),
        executable("/bin/bash", true),
    ];
    assert_eq!(
        message(git_executable(Platform::Linux, &two)),
        "denied: multiple git executables are configured; keep one exact identity"
    );
    assert_eq!(
        message(shell_executable(&two)),
        "denied: multiple shell executables are configured; keep one exact shell identity"
    );
}

#[test]
fn command_roots_leave_the_workspace_out() {
    let roots = sanitized_command_roots(
        Platform::Linux,
        &vec!["/usr/bin".into(), "/workspace/bin".into(), "/bin".into(), "/usr/bin".into()],
        &vec!["/workspace/tools".into(), "/bin".into()],
        "/workspace",
    );
    assert_eq!(roots, vec!["/bin", "/usr/bin", "/workspace/tools"]);
    let many: Vec<String> = (0..100).map(|index| format!("/root{index:03}")).collect();
    let bounded = sanitized_command_roots(Platform::Linux, &many, &Vec::new(), "/workspace");
    assert_eq!(bounded.len(), 64);
    assert_eq!(bounded[63], "/root063");
}

#[test]
fn shell_calls_take_a_command_or_arguments() {
    let list = vec![executable("/bin/sh", true), executable("/usr/bin/git", false)];
    let argv = |words: &[&str]| Ok(Some(words.iter().map(|word| (*word).to_owned()).collect::<Vec<String>>()));
    let both = select_shell(Platform::Linux, "shell.run", &present("ls"), &argv(&["git"]), &Ok(()), &list, &None);
    assert_eq!(message(both), "invalid shell.run: exactly one of command or argv is required");
    let neither = select_shell(Platform::Linux, "shell.run", &absent(), &Ok(None), &Ok(()), &list, &None);
    assert_eq!(message(neither), "invalid shell.run: exactly one of command or argv is required");
    let empty = select_shell(Platform::Linux, "shell.run", &absent(), &argv(&[]), &Ok(()), &list, &None);
    assert_eq!(message(empty), "invalid shell.run: argv must not be empty");
    let profiles = Err(ToolError::Denied("profiles".into()));
    let profiled = select_shell(
        Platform::Linux,
        "shell.run",
        &absent(),
        &argv(&["/bin/sh", "-l"]),
        &profiles,
        &list,
        &None,
    );
    assert_eq!(message(profiled), "denied: profiles");
    let Ok(ShellSelection::Arguments { executable, args }) =
        select_shell(Platform::Linux, "shell.run", &absent(), &argv(&["git", "log", "-1"]), &Ok(()), &list, &None)
    else {
        panic!("arguments are selected");
    };
    assert_eq!((executable.as_str(), args), ("/usr/bin/git", vec!["log".to_owned(), "-1".to_owned()]));
    let Ok(ShellSelection::Command { executable, command }) =
        select_shell(Platform::Linux, "shell.run", &present("ls -l"), &Ok(None), &Ok(()), &list, &None)
    else {
        panic!("a command is selected");
    };
    assert_eq!((executable.as_str(), command.as_str()), ("/bin/sh", "ls -l"));
    let ambient = Some(Ok("/anywhere/zsh".to_owned()));
    assert!(matches!(
        select_shell(Platform::Linux, "shell.run", &present("ls"), &Ok(None), &Ok(()), &Vec::new(), &ambient),
        Ok(ShellSelection::Command { executable, .. }) if executable == "/anywhere/zsh"
    ));
}

#[test]
fn working_directories_stay_where_they_may() {
    assert!(matches!(directory_lookup(
        Platform::Linux,
        &absent(),
        false,
    ), Ok(DirectoryLookup::Workspace(path)) if path == "."));
    assert!(matches!(directory_lookup(
        Platform::Linux,
        &present("/plug"),
        false,
    ), Ok(DirectoryLookup::Canonical(path)) if path == "/plug"));
    assert!(matches!(directory_lookup(
        Platform::Linux,
        &present("x"),
        true,
    ), Ok(DirectoryLookup::Unrestricted(path)) if path == "x"));
    let roots = vec!["/plugins/a".to_owned()];
    assert_eq!(settle_canonical_directory(
        Platform::Linux,
        &Ok("/plugins/a/sub".into()),
        &roots,
    ).expect("inside"), "/plugins/a/sub");
    assert_eq!(
        message(settle_canonical_directory(Platform::Linux, &Ok("/plugins/ab".into()), &roots)),
        "denied: shell cwd is not within a selected Agent Plugin"
    );
    assert_eq!(
        message(settle_canonical_directory(Platform::Linux, &Err("missing".into()), &roots)),
        "failed: cannot resolve process cwd: missing"
    );
    let relative = Ok("sub".to_owned());
    assert_eq!(displayed_directory(
        Platform::Linux,
        "/plugins/a/sub",
        false,
        &roots,
        &relative,
    ).expect("plugin"), "/plugins/a/sub");
    assert_eq!(displayed_directory(
        Platform::Linux,
        "/workspace/sub",
        false,
        &roots,
        &relative,
    ).expect("workspace"), "sub");
    assert_eq!(displayed_directory(
        Platform::Linux,
        "/workspace/sub",
        true,
        &roots,
        &relative,
    ).expect("ambient"), "/workspace/sub");
}

#[test]
fn shell_plans_hold_what_was_asked() {
    let environment = vec![Entry { key: "A".to_owned(), value: "1".to_owned() }];
    let reserved = Err(ToolError::Denied("PATH is reserved".into()));
    assert_eq!(message(shell_environment(&Ok(Vec::new()), false, &reserved)), "denied: PATH is reserved");
    assert!(shell_environment(&Ok(Vec::new()), true, &reserved).is_ok());
    let planned = plan_shell(
        "/bin/sh",
        "/workspace".into(),
        vec!["-c".into(), "ls".into()],
        environment,
        &Ok(Some(5)),
        &Ok(None),
        true,
    )
    .expect("planned");
    assert_eq!(planned.plan.action, "shell.run");
    assert_eq!(planned.plan.resource, "/bin/sh");
    assert_eq!(planned.plan.capability, "shell.run");
    assert_eq!(planned.spec.timeout_ms, Some(5));
    assert_eq!(planned.spec.max_output_bytes, None);
    assert_eq!(resolved_argv("/bin/sh", &planned.spec.args), vec!["/bin/sh", "-c", "ls"]);
    assert_eq!(
        message(plan_shell("/bin/sh", "/".into(), Vec::new(), Vec::new(), &Ok(None), &Ok(None), false)),
        "failed: process adapter is unavailable"
    );
}

#[test]
fn credentials_are_named_once_and_in_order() {
    let list = environment_credentials(&vec![
        Entry { key: "B".to_owned(), value: "env:Z".to_owned() },
        Entry { key: "A".to_owned(), value: "env:A".to_owned() },
        Entry { key: "C".to_owned(), value: "env:Z".to_owned() },
    ]);
    let names: Vec<String> = list.into_iter().map(|item| item.reference).collect();
    assert_eq!(names, vec!["env:A", "env:Z"]);
}

#[test]
fn git_calls_have_fixed_arguments() {
    let list = vec![executable("/usr/bin/git", false)];
    let status = plan_git_status(Platform::Linux, "/workspace", &list, &None, true).expect("status");
    assert_eq!(status.spec.args, vec!["status", "--porcelain=v1"]);
    assert_eq!(status.spec.cwd, "/workspace");
    assert_eq!(status.spec.max_output_bytes, Some(65_536));
    assert_eq!(status.plan.action, "git.status");
    let paths = Ok(Some(vec!["a.rs".to_owned()]));
    let diff = plan_git_diff(
        Platform::Linux,
        &paths,
        &Ok(vec!["a.rs".into()]),
        "/workspace",
        &list,
        &None,
        true,
    ).expect("diff");
    assert_eq!(diff.spec.args, vec!["diff", "--no-ext-diff", "--no-textconv", "--", "a.rs"]);
    let whole = plan_git_diff(
        Platform::Linux,
        &Ok(None),
        &Ok(Vec::new()),
        "/workspace",
        &list,
        &None,
        true,
    ).expect("whole diff");
    assert_eq!(whole.spec.args.len(), 3);
    let unsafe_path = Err(ToolError::Denied("unsafe path".into()));
    assert_eq!(message(plan_git_diff(
        Platform::Linux,
        &paths,
        &unsafe_path,
        "/w",
        &list,
        &None,
        true,
    )), "denied: unsafe path");
    let show = plan_git_show(
        Platform::Linux,
        &absent(),
        &Ok(()),
        &present("a.rs"),
        &Ok("a.rs".into()),
        "/workspace",
        &list,
        &None,
        true,
    )
    .expect("show");
    assert_eq!(
        show.spec.args,
        vec!["show", "--no-ext-diff", "--no-textconv", "--stat", "--patch", "HEAD", "--", "a.rs"]
    );
    let revision = Err(ToolError::Denied("unsafe revision".into()));
    assert_eq!(
        message(plan_git_show(
            Platform::Linux,
            &present("-x"),
            &revision,
            &absent(),
            &Ok(String::new()),
            "/w",
            &list,
            &None,
            true,
        )),
        "denied: unsafe revision"
    );
    assert_eq!(message(plan_git_status(
        Platform::Linux,
        "/w",
        &list,
        &None,
        false,
    )), "failed: process adapter is unavailable");
}

#[test]
fn git_status_is_read_by_bytes() {
    let list = status_entries(" M src/lib.rs\r\n?? ü.txt\n\nX\nü a\n");
    let pairs: Vec<(String, String)> = list.into_iter().map(|item| (item.status, item.path)).collect();
    assert_eq!(
        pairs,
        vec![
            (" M".to_owned(), "src/lib.rs".to_owned()),
            ("??".to_owned(), "ü.txt".to_owned()),
            ("X".to_owned(), String::new()),
            ("ü".to_owned(), "a".to_owned()),
        ]
    );
    assert_eq!(status_entries("M  tail\r")[0].path, "tail\r", "a bare carriage return stays");
    assert!(status_entries("").is_empty());
}

#[test]
fn repository_questions_have_their_limits() {
    let arguments = RepositoryArguments {
        path: absent(),
        pattern: present("fn main"),
        symbol: absent(),
        max_files: Ok(None),
        max_results: Ok(Some(7)),
        max_lines: Ok(None),
    };
    assert!(matches!(
        plan_repository("repo.map", &arguments),
        Ok(RepositoryOperation::FileMap { path, max_files: 200 }) if path == "."
    ));
    assert!(matches!(
        plan_repository("repo.symbol_search", &arguments),
        Ok(RepositoryOperation::SymbolSearch { pattern, max_results: 7, .. }) if pattern == "fn main"
    ));
    assert_eq!(message(plan_repository("repo.references", &arguments)), "failed: required");
    assert_eq!(message(plan_repository("repo.file_summary", &arguments)), "failed: required");
    assert_eq!(message(plan_repository("repo.other", &arguments)), "unknown: repo.other");
}

#[test]
fn reversed_patches_swap_their_texts() {
    let arguments = PatchArguments {
        path: present("a.rs"),
        resolved: Ok("/workspace/a.rs".into()),
        displayed: Ok("a.rs".into()),
        old: present("before"),
        new: present("after"),
        replace_all: Ok(None),
    };
    let applied = plan_patch("patch.apply", &arguments).expect("apply");
    assert_eq!((applied.old.as_str(), applied.new.as_str()), ("before", "after"));
    assert_eq!(applied.plan.action, "patch.apply");
    assert_eq!(applied.plan.resource, "/workspace/a.rs");
    assert!(!applied.replace_all);
    let reversed = plan_patch("patch.reverse", &arguments).expect("reverse");
    assert_eq!((reversed.old.as_str(), reversed.new.as_str()), ("after", "before"));
}

fn files() -> FilesystemArguments {
    FilesystemArguments {
        text: present("hello"),
        path: present("a.txt"),
        resolved: Ok("/workspace/a.txt".into()),
        displayed: Ok("a.txt".into()),
        pattern: present("needle"),
        glob: absent(),
        regex: Ok(None),
        case_sensitive: Ok(Some(false)),
        max_matches: Ok(None),
        content: present("body"),
        mode: present("create"),
        old: present("x"),
        new: present("y"),
        replace_all: Ok(Some(true)),
    }
}

#[test]
fn filesystem_tools_ask_for_one_effect() {
    let arguments = files();
    assert!(matches!(
        plan_filesystem("echo", &arguments),
        Ok(FilesystemPlan::Echo(shown)) if shown.text == "hello" && shown.limit == 32_768
    ));
    assert!(matches!(
        plan_filesystem("filesystem.read", &arguments),
        Ok(FilesystemPlan::Read(plan)) if plan.action == "filesystem.read" && plan.resource == "/workspace/a.txt"
    ));
    assert!(matches!(plan_filesystem("filesystem.list", &arguments), Ok(FilesystemPlan::List(_))));
    let Ok(FilesystemPlan::Search { pattern, glob, regex, case_sensitive, max_matches, .. }) =
        plan_filesystem("filesystem.search", &arguments)
    else {
        panic!("a search is planned");
    };
    assert_eq!((pattern.as_str(), glob, regex, case_sensitive, max_matches), ("needle", None, true, false, 100));
    assert!(matches!(
        plan_filesystem("filesystem.write", &arguments),
        Ok(FilesystemPlan::Write { plan, text, mode, .. })
            if plan.action == "filesystem.write" && text == "body" && mode == "create"
    ));
    assert!(matches!(
        plan_filesystem("filesystem.replace", &arguments),
        Ok(FilesystemPlan::Replace { plan, old, new, replace_all: true, .. })
            if plan.action == "filesystem.write" && old == "x" && new == "y"
    ));
    assert_eq!(message(plan_filesystem("filesystem.other", &arguments)), "unknown: filesystem.other");
    let mut outside = files();
    outside.resolved = Err(ToolError::Denied("outside".into()));
    assert_eq!(message(plan_filesystem("filesystem.read", &outside)), "denied: outside");
    outside.path = absent();
    assert_eq!(message(plan_filesystem("filesystem.read", &outside)), "failed: required");
}

#[test]
fn listings_hide_the_state_of_the_runtime() {
    let document = br#"{"entries":[{"name":".git"},{"name":"src"},{"name":".colossus"},{"kind":"file"}]}"#;
    let items = found_items(Platform::Linux, document, Findings::Entries, "/workspace", false).expect("items");
    assert_eq!(items.len(), 2);
    assert_eq!(items[0].index, 1);
    assert_eq!(items[0].resource.as_deref(), Some("/workspace/src"));
    let displayed = vec![Ok("src".to_owned()), Ok(String::new())];
    assert_eq!(
        message(show_items(Findings::Entries, &items, &displayed)),
        "failed: filesystem.list entry name is absent"
    );
    assert_eq!(found_items(
        Platform::Linux,
        document,
        Findings::Entries,
        "/workspace",
        true,
    ).expect("ambient").len(), 4);
    assert_eq!(
        message(found_items(Platform::Linux, b"{}", Findings::Entries, "/w", false)),
        "failed: filesystem.list returned invalid JSON"
    );
    assert!(message(found_items(
        Platform::Linux,
        b"{",
        Findings::Entries,
        "/w",
        false,
    )).starts_with("failed: EOF while parsing"));
}

#[test]
fn search_matches_are_shown_by_their_paths() {
    let document = br#"{"matches":[{"path":"src/lib.rs"},{"path":".git/config"}]}"#;
    let items = found_items(Platform::Linux, document, Findings::Matches, "/workspace", false).expect("matches");
    assert_eq!(items.len(), 2);
    let displayed = vec![Ok("src/lib.rs".to_owned()), Err(ToolError::Denied("outside".into()))];
    assert_eq!(message(show_items(Findings::Matches, &items, &displayed)), "denied: outside");
    let shown = show_items(Findings::Matches, &items, &vec![Ok("a".into()), Ok("b".into())]).expect("shown");
    assert_eq!((shown[1].index, shown[1].path.as_str()), (1, "b"));
    assert_eq!(
        message(found_items(Platform::Linux, b"[]", Findings::Matches, "/w", false)),
        "failed: filesystem.search returned invalid JSON"
    );
    let nameless = found_items(
        Platform::Linux,
        br#"{"matches":[{}]}"#,
        Findings::Matches,
        "/w",
        false,
    ).expect("nameless");
    assert_eq!(
        message(show_items(Findings::Matches, &nameless, &vec![Ok(String::new())])),
        "failed: search match path is absent"
    );
}

#[test]
fn network_tools_search_or_fetch() {
    let arguments = NetworkArguments { query: present("rust"), limit: Ok(None), url: present("https://example.test/") };
    assert!(matches!(
        plan_network("web.search", &arguments, 10, true),
        Ok(NetworkPlan::Search { query, limit: 10 }) if query == "rust"
    ));
    assert_eq!(message(plan_network("web.search", &arguments, 10, false)), "failed: search provider is unavailable");
    for name in ["network.http", "web.fetch", "docs.fetch"] {
        assert!(matches!(
            plan_network(name, &arguments, 10, true),
            Ok(NetworkPlan::Fetch { plan, method, accept })
                if plan.action == "network.http" && plan.resource == "https://example.test/" && method == "GET"
                    && accept == "*/*"
        ));
    }
    assert_eq!(message(plan_network("web.other", &arguments, 10, true)), "unknown: web.other");
}

#[test]
fn extension_tools_ask_one_question() {
    let mut arguments = ExtensionArguments {
        plugin: present("tools"),
        skill: present("tools/write"),
        path: present("guide.md"),
        server: present("splunk"),
        tool: present("search"),
        arguments: true,
    };
    assert!(matches!(plan_extension(
        "plugin.list",
        &arguments,
        false,
    ), Ok(ExtensionPlan::Plugin(PluginOperation::List))));
    assert!(matches!(
        plan_extension("plugin.inspect", &arguments, false),
        Ok(ExtensionPlan::Plugin(PluginOperation::Inspect { plugin_name })) if plugin_name == "tools"
    ));
    assert!(matches!(
        plan_extension("plugin.skill.read", &arguments, false),
        Ok(ExtensionPlan::Plugin(PluginOperation::SkillRead { skill_id })) if skill_id == "tools/write"
    ));
    assert!(matches!(
        plan_extension("plugin.resource.list", &arguments, false),
        Ok(ExtensionPlan::Plugin(PluginOperation::ListResources { .. }))
    ));
    assert!(matches!(
        plan_extension("plugin.resource.read", &arguments, false),
        Ok(ExtensionPlan::Plugin(PluginOperation::ReadResource { path, .. })) if path == "guide.md"
    ));
    assert!(matches!(plan_extension("mcp.servers", &arguments, true), Ok(ExtensionPlan::Servers)));
    assert_eq!(message(plan_extension("mcp.servers", &arguments, false)), "failed: MCP adapter is unavailable");
    assert!(matches!(
        plan_extension("mcp.tools", &arguments, true),
        Ok(ExtensionPlan::Tools { server: Some(server) }) if server == "splunk"
    ));
    assert!(matches!(
        plan_extension("mcp.call", &arguments, true),
        Ok(ExtensionPlan::Call { server, tool }) if server == "splunk" && tool == "search"
    ));
    arguments.arguments = false;
    assert_eq!(message(plan_extension("mcp.call", &arguments, true)), "invalid mcp.call: arguments must be an object");
    assert_eq!(message(plan_extension("plugin.other", &arguments, true)), "unknown: plugin.other");
}

#[test]
fn adapters_are_required_by_name() {
    assert!(require_adapter(Adapter::Work, true).is_ok());
    for (adapter, text) in [
        (Adapter::Work, "work adapter is unavailable"),
        (Adapter::Memory, "memory adapter is unavailable"),
        (Adapter::Skill, "skill adapter is unavailable"),
        (Adapter::Integration, "integration adapter is unavailable"),
        (Adapter::PackProcess, "pack process adapter is unavailable"),
        (Adapter::Mcp, "MCP adapter is unavailable"),
        (Adapter::Process, "process adapter is unavailable"),
        (Adapter::Search, "search provider is unavailable"),
    ] {
        assert_eq!(message(require_adapter(adapter, false)), format!("failed: {text}"));
    }
}

#[test]
fn results_have_to_be_text_and_json() {
    let shown = result_text(ResultKind::Work, br#"{"a": 1}"#).expect("json");
    assert_eq!((shown.text.as_str(), shown.limit), (r#"{"a": 1}"#, 1_048_576));
    assert_eq!(result_text(ResultKind::Skill, b"[]").expect("skill").limit, 262_144);
    assert_eq!(message(result_text(ResultKind::Memory, &[0xff])), "failed: memory result returned non-UTF-8");
    assert_eq!(message(result_text(ResultKind::Skill, &[0xff])), "failed: skill resource returned non-UTF-8");
    assert_eq!(
        message(result_text(ResultKind::Mutation, b"x")),
        "failed: invalid mutation result: expected value at line 1 column 1"
    );
    assert_eq!(result_text(ResultKind::File, b"not json").expect("file").text, "not json");
    assert_eq!(message(result_text(ResultKind::Page, &[0xff])), "failed: network.http returned non-UTF-8");
}

#[test]
fn process_documents_are_decoded() {
    let document = br#"{"stdout_base64":"aGk=","stderr_base64":"/w==","exit_code":3,"output_truncated":true,
        "observed_origins":["https://a",7,"https://b"]}"#;
    let output = process_output(document).expect("output");
    assert_eq!(output.stdout, "hi");
    assert_eq!(output.stderr, "\u{fffd}");
    assert_eq!(output.exit_code, 3);
    assert!(output.truncated);
    assert_eq!(output.observed_origins, vec!["https://a", "https://b"]);
    let bare = process_output(br#"{"stdout_base64":"","stderr_base64":""}"#).expect("bare");
    assert_eq!((bare.exit_code, bare.truncated, bare.observed_origins.len()), (-1, false, 0));
    assert_eq!(
        message(process_output(br#"{"stderr_base64":""}"#)),
        "failed: process result field stdout_base64 is absent"
    );
    assert!(message(process_output(br#"{"stdout_base64":"*","stderr_base64":""}"#))
        .starts_with("failed: invalid process output: Invalid"));
    assert!(message(process_output(b"x")).starts_with("failed: invalid process result: expected value"));
    let huge = br#"{"stdout_base64":"","stderr_base64":"","exit_code":4294967296}"#;
    assert_eq!(process_output(huge).expect("huge").exit_code, -1);
    let many: Vec<String> = (0..70).map(|index| format!("\"o{index}\"")).collect();
    let listed = format!(
        "{{\"stdout_base64\":\"\",\"stderr_base64\":\"\",\"observed_origins\":[{}]}}",
        many.join(",")
    );
    assert_eq!(process_output(listed.as_bytes()).expect("many").observed_origins.len(), 64);
}

#[test]
fn pack_documents_state_their_exit_code() {
    let output =
        pack_output(br#"{"stdout_base64":"aGk=","stderr_base64":"","exit_code":0,"truncated":true}"#).expect("output");
    assert_eq!((output.stdout.as_str(), output.exit_code, output.truncated), ("hi", 0, true));
    assert_eq!(
        message(pack_output(br#"{"stdout_base64":"","stderr_base64":""}"#)),
        "failed: pack process exit_code is absent"
    );
    assert_eq!(
        message(pack_output(br#"{"exit_code":0,"stdout_base64":""}"#)),
        "failed: pack process result field stderr_base64 is absent"
    );
    assert!(message(pack_output(br#"{"exit_code":0,"stdout_base64":"*"}"#)).starts_with("failed: invalid pack output: "));
    assert!(message(pack_output(b"")).starts_with("failed: invalid pack process result: "));
}
