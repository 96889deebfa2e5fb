use colossus_runtime::agent_tools::{accept_answer, ask_user, search_tools, wakes_scheduler, UserPromptRequest};
use colossus_runtime::error::RuntimeError;
use colossus_runtime::mcp_search::{
    accept_search_output, mcp_search_score, merge_search, score_with_arguments, search_terms, searched_servers,
    visit_tool, McpSearchHit, McpToolSummary, ServerSearch,
};
use colossus_runtime::pack_extensions::ToolSpec;
use colossus_runtime::tools::{TextArgument, ToolError};

fn tool(name: &str, description: &str) -> McpToolSummary {
    McpToolSummary {
        server: "splunk".into(),
        name: name.into(),
        title: None,
        description: Some(description.into()),
        input_schema: r#"{"type":"object"}"#.into(),
    }
}

fn found(server: &str, names: &[(&str, u32)]) -> ServerSearch {
    ServerSearch {
        server: server.into(),
        outcome: Ok(()),
        hits: names
            .iter()
            .map(|(name, score)| McpSearchHit {
                server: server.into(),
                name: (*name).into(),
                title: None,
                description: None,
                score: *score,
            })
            .collect(),
    }
}

fn down(server: &str) -> ServerSearch {
    ServerSearch { server: server.into(), outcome: Err(RuntimeError::Mcp("down".into())), hits: Vec::new() }
}

#[test]
fn search_matches_task_words_without_requiring_payload_words_in_metadata() {
    let described = McpToolSummary {
        server: "splunk".into(),
        name: "search_events".into(),
        title: Some("Run a search".into()),
        description: Some("Search Splunk events with SPL".into()),
        input_schema: r#"{"type":"object"}"#.into(),
    };
    assert!(mcp_search_score(&described, &search_terms("Search Splunk for xyz opaque incident 123")) > 0);
    assert_eq!(mcp_search_score(&described, &search_terms("calendar meeting")), 0);
    let sparse = McpToolSummary {
        name: "run".into(),
        title: None,
        description: None,
        input_schema: r#"{"type":"object","properties":{"splunk_index":{"type":"string"}}}"#.into(),
        ..described
    };
    assert!(mcp_search_score(&sparse, &search_terms("find index")) > 0);
}

#[test]
fn search_is_bounded_and_survives_an_unavailable_server() {
    let terms = search_terms("search Splunk for opaque incident 123");
    let mut hits = Vec::new();
    visit_tool(&mut hits, tool("get_alert", "Get one named Splunk alert"), &terms, false);
    visit_tool(&mut hits, tool("search_events", "Search Splunk events using SPL"), &terms, false);
    let splunk = ServerSearch { server: "splunk".into(), outcome: Ok(()), hits };
    let report = merge_search(vec![down("missing"), splunk], false, 1).expect("search");
    assert_eq!(report.tools[0].name, "search_events");
    assert_eq!(report.tools.len(), 1);
    assert!(report.truncated);
    assert_eq!(report.unavailable, vec!["missing".to_owned()]);
    assert_eq!(report.unavailable_count, 1);
}

#[test]
fn terms_are_words_of_more_than_one_byte() {
    assert_eq!(search_terms("Find A new-Index, x_1! Ünï"), vec!["find", "new", "index", "Ünï"]);
    assert_eq!(search_terms("é"), vec!["é"], "one character of two bytes");
    assert!(search_terms(" , ").is_empty());
}

#[test]
fn scores_weigh_names_first() {
    let mut exact = tool("index", "rebuilds the index");
    exact.title = Some("Index".into());
    let terms = vec!["index".to_owned()];
    assert_eq!(score_with_arguments(&exact, &vec!["Index_Name".into()], &terms), 24 + 5 + 2 + 3);
    assert_eq!(score_with_arguments(&tool("reindex", ""), &Vec::new(), &terms), 12);
    assert_eq!(score_with_arguments(&tool("other", "index"), &Vec::new(), &terms), 2);
    assert_eq!(score_with_arguments(&tool("other", "index"), &Vec::new(), &Vec::new()), 0);
}

#[test]
fn shown_tools_are_cut() {
    let mut long = tool("long", &"d".repeat(600));
    long.title = Some("t".repeat(200));
    let hit = McpSearchHit::new(long, 7);
    assert_eq!(hit.title.map(|text| text.len()), Some(128));
    assert_eq!(hit.description.map(|text| text.len()), Some(512));
    assert_eq!(hit.score, 7);
}

#[test]
fn only_selected_servers_show_unfitting_tools() {
    let terms = search_terms("calendar");
    let mut hits = Vec::new();
    visit_tool(&mut hits, tool("get_alert", "alerts"), &terms, false);
    assert!(hits.is_empty());
    for index in 0..20 {
        visit_tool(&mut hits, tool(&format!("tool_{:02}", 19 - index), "alerts"), &terms, true);
    }
    assert_eq!(hits.len(), 11);
    assert_eq!(hits[0].name, "tool_00");
    assert_eq!(searched_servers(&Some("splunk".into()), vec!["a".into()]), vec!["splunk".to_owned()]);
    assert_eq!(searched_servers(&None, vec!["a".into()]), vec!["a".to_owned()]);
}

#[test]
fn merged_results_are_in_order() {
    let report = merge_search(
        vec![found("zeta", &[("b", 5), ("a", 5)]), found("alpha", &[("z", 5), ("y", 9)])],
        false,
        100,
    )
    .expect("merged");
    let order: Vec<(String, String)> = report.tools.into_iter().map(|hit| (hit.server, hit.name)).collect();
    assert_eq!(
        order,
        vec![
            ("alpha".to_owned(), "y".to_owned()),
            ("alpha".to_owned(), "z".to_owned()),
            ("zeta".to_owned(), "a".to_owned()),
            ("zeta".to_owned(), "b".to_owned()),
        ]
    );
    assert!(!report.truncated);
}

#[test]
fn keeping_the_best_of_each_server_loses_nothing() {
    let names: Vec<String> = (0..30).map(|index| format!("t{index:02}")).collect();
    let all = |score: u32| names.iter().map(|name| (name.as_str(), score)).collect::<Vec<(&str, u32)>>();
    for limit in [0, 1, 5, 10, 99] {
        let whole = merge_search(vec![found("b", &all(3)), found("a", &all(3)), found("c", &all(9))], false, limit)
            .expect("whole");
        let cut = merge_search(
            vec![found("b", &all(3)[..11]), found("a", &all(3)[..11]), found("c", &all(9)[..11])],
            false,
            limit,
        )
        .expect("cut");
        let shown = |hits: &[McpSearchHit]| {
            hits.iter().map(|hit| (hit.server.clone(), hit.name.clone())).collect::<Vec<(String, String)>>()
        };
        assert_eq!(shown(&whole.tools), shown(&cut.tools));
        assert_eq!((whole.truncated, cut.truncated), (true, true));
    }
}

#[test]
fn a_selected_server_fails_the_search() {
    let error = merge_search(vec![down("splunk")], true, 5).expect_err("selected server");
    assert!(matches!(error, RuntimeError::Mcp(text) if text == "down"));
    let many: Vec<ServerSearch> = (0..40).map(|index| down(&format!("server-{index}"))).collect();
    let report = merge_search(many, false, 0).expect("all unavailable");
    assert_eq!(report.unavailable.len(), 32);
    assert_eq!(report.unavailable_count, 40);
    let twelve: Vec<(String, u32)> = (0..12).map(|index| (format!("t{index:02}"), 1)).collect();
    let named: Vec<(&str, u32)> = twelve.iter().map(|(name, score)| (name.as_str(), *score)).collect();
    assert_eq!(merge_search(vec![found("s", &named)], false, 99).expect("bounded").tools.len(), 10);
    assert_eq!(merge_search(vec![found("s", &named)], false, 0).expect("at least one").tools.len(), 1);
}

#[test]
fn rendered_results_keep_their_bound() {
    assert!(accept_search_output(32 * 1024).is_ok());
    let error = accept_search_output(32 * 1024 + 1).expect_err("too long");
    assert_eq!(error.shown(), "configuration error: MCP search output exceeded its bound");
}

fn spec(name: &str, description: &str) -> ToolSpec {
    ToolSpec {
        name: name.into(),
        description: description.into(),
        input_schema: "{}".into(),
        effect_action: Some(format!("{name}.action")),
        capability: None,
        max_output_bytes: 1024,
    }
}

#[test]
fn tool_search_finds_only_offered_tools() {
    let specs = vec![
        spec("filesystem.read", "Read one file"),
        spec("filesystem.write", "Write one file"),
        spec("shell.run", "Run a process"),
    ];
    let offered = vec!["filesystem.read".to_owned(), "shell.run".to_owned()];
    let search = search_tools(&specs, &offered, "  File  ", None);
    assert_eq!(search.query, "file");
    assert_eq!(search.tools.len(), 1);
    assert_eq!(search.tools[0].name, "filesystem.read");
    assert_eq!(search.tools[0].score, 500 + 50 + 10);
    assert_eq!(search.tools[0].effect_action.as_deref(), Some("filesystem.read.action"));
    let exact = search_tools(&specs, &offered, "shell.run", None);
    assert_eq!(exact.tools[0].score, 1_000 + 500 + 50);
    assert!(search_tools(&specs, &offered, "file missing", None).tools.is_empty());
}

#[test]
fn tool_search_is_bounded() {
    let specs: Vec<ToolSpec> = (0..60).map(|index| spec(&format!("tool.{index:02}"), "any")).collect();
    let offered: Vec<String> = specs.iter().map(|item| item.name.clone()).collect();
    let default = search_tools(&specs, &offered, "tool", None);
    assert_eq!(default.tools.len(), 10);
    assert!(default.truncated);
    assert_eq!(default.tools[0].name, "tool.00");
    assert_eq!(search_tools(&specs, &offered, "tool", Some(0)).tools.len(), 1);
    assert_eq!(search_tools(&specs, &offered, "tool", Some(1_000)).tools.len(), 50);
    assert_eq!(search_tools(&specs, &offered, "", Some(50)).tools[0].score, 500, "an empty query fits every name");
}

fn request(choices: &[&str], allow_free_form: bool) -> UserPromptRequest {
    UserPromptRequest {
        question: "Which?".into(),
        choices: choices.iter().map(|choice| (*choice).into()).collect(),
        allow_free_form,
    }
}

#[test]
fn answers_keep_to_the_question() {
    let closed = request(&["yes", "no"], false);
    assert!(accept_answer(&closed, "yes", Some(0)).is_ok());
    assert!(accept_answer(&closed, "no", None).is_ok());
    for (answer, selected) in [("maybe", None), ("yes", Some(1)), ("yes", Some(2)), ("", None)] {
        assert!(matches!(
            accept_answer(&closed, answer, selected),
            Err(ToolError::Failed(text)) if text == "interactive prompt returned an invalid or out-of-contract answer"
        ));
    }
    let open = request(&["yes"], true);
    assert!(accept_answer(&open, "anything", None).is_ok());
    assert!(accept_answer(&open, &"x".repeat(65_536), None).is_ok());
    assert!(accept_answer(&open, &"x".repeat(65_537), None).is_err());
}

#[test]
fn closed_questions_need_choices() {
    let question = TextArgument::Present("Which?".into());
    assert!(matches!(
        ask_user("user.ask", &Ok(None), &Ok(Some(false)), &question),
        Err(ToolError::InvalidArguments { message, .. })
            if message == "user.ask requires choices when free-form answers are disabled"
    ));
    let asked = ask_user("user.ask", &Ok(Some(vec!["yes".into()])), &Ok(None), &question).expect("asked");
    assert_eq!(asked.question, "Which?");
    assert_eq!(asked.choices, vec!["yes".to_owned()]);
    assert!(asked.allow_free_form);
    let missing = TextArgument::Absent(ToolError::Failed("question is required".into()));
    assert!(matches!(
        ask_user("user.ask", &Ok(None), &Ok(None), &missing),
        Err(ToolError::Failed(text)) if text == "question is required"
    ));
}

#[test]
fn accepted_delegations_wake_the_scheduler() {
    assert!(wakes_scheduler("agent.delegate", 0));
    assert!(!wakes_scheduler("agent.delegate", 1));
    assert!(!wakes_scheduler("agent.list", 0));
}
