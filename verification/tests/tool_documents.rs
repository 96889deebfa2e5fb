use colossus_runtime::agent_tools::{ToolHit, ToolSearch};
use colossus_runtime::filesystem_tools::ShownItem;
use colossus_runtime::mcp_search::{McpSearchHit, SearchReport};
use colossus_runtime::tool_documents::{
    git_diff_result, git_show_result, git_status_result, list_result, mcp_search_output, pack_result, plain_result,
    search_result, shell_result, tool_search_result, ShellInvocation,
};
use colossus_runtime::tool_results::{PackOutput, ProcessOutput, ShownText};
use colossus_runtime::tools::ToolError;
use serde_json::Value;

fn process(stdout: &str) -> ProcessOutput {
    ProcessOutput {
        stdout: stdout.into(),
        stderr: "warn \"x\"".into(),
        exit_code: 3,
        truncated: true,
        observed_origins: vec!["https://a".into()],
    }
}

fn parsed(text: &str) -> Value {
    serde_json::from_str(text).expect("JSON")
}

fn failure<T>(result: Result<T, ToolError>) -> String {
    match result {
        Err(ToolError::Failed(text)) => text,
        _ => panic!("a failure is expected"),
    }
}

#[test]
fn git_status_is_shown_by_line() {
    let result = git_status_result(
        "call-1",
        &process(" M src/lib.rs\n\n?? \u{e9}.txt\r\nA\n\u{20ac}x"),
    ).expect("status");
    assert_eq!((result.call_id.as_str(), result.name.as_str(), result.exit_code), ("call-1", "git.status", 3));
    assert_eq!(result.limit, None);
    assert_eq!(
        result.output,
        "{\"entries\":[{\"path\":\"src/lib.rs\",\"status\":\" M\"},{\"path\":\"\u{e9}.txt\",\"status\":\"??\"},\
         {\"path\":\"\",\"status\":\"A\"},{\"path\":\"x\",\"status\":\"\u{20ac}x\"}],\"exit_code\":3,\
         \"raw\":\" M src/lib.rs\\n\\n?? \u{e9}.txt\\r\\nA\\n\u{20ac}x\",\"stderr\":\"warn \\\"x\\\"\",\"truncated\":true}"
    );
}

#[test]
fn git_texts_are_shown_with_their_exit_code() {
    let diff = git_diff_result("call-2", &process("+a")).expect("diff");
    assert_eq!(
        diff.output,
        "{\"diff\":\"+a\",\"exit_code\":3,\"stderr\":\"warn \\\"x\\\"\",\"truncated\":true}"
    );
    assert_eq!((diff.name.as_str(), diff.exit_code), ("git.diff", 3));
    let show = git_show_result("call-3", &process("commit")).expect("show");
    assert_eq!(parsed(&show.output)["output"], "commit");
    assert_eq!((show.name.as_str(), show.exit_code), ("git.show", 3));
}

#[test]
fn shells_show_how_they_were_called() {
    let args = vec!["-c".to_owned(), "ls".to_owned()];
    let command = ShellInvocation::Command("ls".into());
    let result = shell_result("call-4", &process("out"), &command, "/bin/sh", &args, "src").expect("shell");
    assert_eq!(
        result.output,
        "{\"cwd\":\"src\",\"exit_code\":3,\"invocation\":{\"command\":\"ls\"},\"observed_origins\":[\"https://a\"],\
         \"resolved_argv\":[\"/bin/sh\",\"-c\",\"ls\"],\"stderr\":\"warn \\\"x\\\"\",\"stdout\":\"out\",\"truncated\":true}"
    );
    assert_eq!(result.exit_code, 3);
    let argv = ShellInvocation::Argv(vec!["git".into(), "log".into()]);
    let result = shell_result("call-4", &process(""), &argv, "/usr/bin/git", &vec!["log".into()], ".").expect("argv");
    let document = parsed(&result.output);
    assert_eq!(document["invocation"]["argv"][1], "log");
    assert_eq!(document["resolved_argv"][0], "/usr/bin/git");
}

#[test]
fn listings_are_shown_with_their_paths() {
    let document = br#"{"entries":[{"name":".git"},{"name":"src","kind":"directory"},{"kind":"file"}]}"#;
    let items = vec![ShownItem { index: 1, path: "work/src".into() }];
    let result = list_result("call-5", document, &items, Ok("work".into())).expect("list");
    assert_eq!(
        result.output,
        "{\"entries\":[{\"kind\":\"directory\",\"name\":\"src\",\"path\":\"work/src\"}],\"root\":\"work\"}"
    );
    assert_eq!((result.name.as_str(), result.exit_code), ("filesystem.list", 0));
    let nameless = vec![ShownItem { index: 2, path: "x".into() }];
    assert_eq!(
        failure(list_result("call-5", document, &nameless, Ok("work".into()))),
        "filesystem.list entry name is absent"
    );
    assert!(failure(list_result("call-5", b"{", &items, Ok("work".into()))).starts_with("EOF while parsing"));
    assert_eq!(
        failure(list_result("call-5", document, &items, Err(ToolError::Failed("outside".into())))),
        "outside"
    );
}

#[test]
fn matches_are_shown_in_their_document() {
    let document = br#"{"truncated":false,"matches":[{"path":"lib.rs","line":4}]}"#;
    let items = vec![ShownItem { index: 0, path: "src/lib.rs".into() }];
    let result = search_result("call-6", document, &items).expect("matches");
    assert_eq!(result.output, "{\"matches\":[{\"line\":4,\"path\":\"src/lib.rs\"}],\"truncated\":false}");
    assert_eq!((result.name.as_str(), result.exit_code), ("filesystem.search", 0));
    assert_eq!(failure(search_result("call-6", b"[]", &Vec::new())), "filesystem.search returned invalid JSON");
    let missing = vec![ShownItem { index: 7, path: "x".into() }];
    assert_eq!(failure(search_result("call-6", document, &missing)), "search match path is absent");
}

#[test]
fn found_tools_are_shown() {
    let found = ToolSearch {
        query: "git".into(),
        tools: vec![ToolHit {
            score: 510,
            name: "git.diff".into(),
            description: "Show a diff".into(),
            effect_action: Some("git.diff".into()),
            capability: None,
        }],
        truncated: true,
    };
    let result = tool_search_result("call-7", "tool.search", &found).expect("tools");
    assert_eq!(
        result.output,
        "{\"query\":\"git\",\"tools\":[{\"capability\":null,\"description\":\"Show a diff\",\
         \"effect_action\":\"git.diff\",\"name\":\"git.diff\",\"score\":510}],\"truncated\":true}"
    );
    assert_eq!((result.limit, result.exit_code), (Some(256 * 1024), 0));
}

fn report(description: String) -> SearchReport {
    SearchReport {
        tools: vec![McpSearchHit {
            server: "s".into(),
            name: "n".into(),
            title: None,
            description: Some(description),
            score: 7,
        }],
        truncated: false,
        unavailable: vec!["missing".into()],
        unavailable_count: 1,
    }
}

#[test]
fn found_mcp_tools_are_shown_within_a_bound() {
    assert_eq!(
        mcp_search_output("q", &report("d".into())).expect("output"),
        "{\"query\":\"q\",\"tools\":[{\"description\":\"d\",\"name\":\"n\",\"score\":7,\"server\":\"s\",\"title\":null}],\
         \"truncated\":false,\"unavailable_server_count\":1,\"unavailable_servers\":[\"missing\"]}"
    );
    let refused = mcp_search_output("q", &report("d".repeat(33 * 1024))).expect_err("too long");
    assert_eq!(refused.shown(), "configuration error: MCP search output exceeded its bound");
}

#[test]
fn packs_and_plain_tools_are_shown() {
    let output = PackOutput { stdout: "o".into(), stderr: String::new(), exit_code: -2, truncated: false };
    let result = pack_result("call-8", "pack.tool", "p", "t", &output).expect("pack");
    assert_eq!(
        result.output,
        "{\"exit_code\":-2,\"pack\":\"p\",\"stderr\":\"\",\"stdout\":\"o\",\"tool\":\"t\",\"truncated\":false}"
    );
    assert_eq!((result.exit_code, result.limit), (-2, Some(1024 * 1024)));
    let plain = plain_result("call-9", "echo", ShownText { text: "hi".into(), limit: 32_768 });
    assert_eq!((plain.output.as_str(), plain.exit_code, plain.limit), ("hi", 0, Some(32_768)));
}
