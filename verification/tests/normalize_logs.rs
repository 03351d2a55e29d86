use codex_executor::executor::CodexExecutor;
use codex_executor::model::{ActionType, NormalizedEntry, NormalizedEntryType};
use codex_executor::normalize::{
    command_text, line_session_id, normalize_text, push_line_entries, push_message_entries,
    push_record_entries, tool_name,
};

fn parse(text: &str) -> serde_json::Value {
    serde_json::from_str(text).unwrap()
}

fn is_system(entry: &NormalizedEntry) -> bool {
    matches!(entry.entry_type, NormalizedEntryType::SystemMessage)
}

#[test]
fn test_normalize_logs_basic() {
    let executor = CodexExecutor::new();
    let logs = r#"{"id":"1","msg":{"type":"task_started"}}
{"id":"1","msg":{"type":"agent_reasoning","text":"**Inspecting the directory tree**\n\nI want to check the root directory tree and I think using `ls -1` is acceptable since the guidelines don't explicitly forbid it, unlike `ls -R`, `find`, or `grep`. I could also consider using `rg --files`, but that might be too overwhelming if there are many files. Focusing on the top-level files and directories seems like a better approach. I'm particularly interested in `LICENSE`, `README.md`, and any relevant README files. So, let's start with `ls -1`."}}
{"id":"1","msg":{"type":"exec_command_begin","call_id":"call_I1o1QnQDtlLjGMg4Vd9HXJLd","command":["bash","-lc","ls -1"],"cwd":"/Users/user/dev/vk-wip"}}
{"id":"1","msg":{"type":"exec_command_end","call_id":"call_I1o1QnQDtlLjGMg4Vd9HXJLd","stdout":"AGENT.md\nCLAUDE.md\nCODE-OF-CONDUCT.md\nCargo.lock\nCargo.toml\nDockerfile\nLICENSE\nREADME.md\nbackend\nbuild-npm-package.sh\ndev_assets\ndev_assets_seed\nfrontend\nnode_modules\nnpx-cli\npackage-lock.json\npackage.json\npnpm-lock.yaml\npnpm-workspace.yaml\nrust-toolchain.toml\nrustfmt.toml\nscripts\nshared\ntest-npm-package.sh\n","stderr":"","exit_code":0}}
{"id":"1","msg":{"type":"task_complete","last_agent_message":"I can see the directory structure of your project. This appears to be a Rust project with a frontend/backend architecture, using pnpm for package management. The project includes various configuration files, documentation, and development assets."}}"#;

    let result = executor.normalize_logs(logs, "/tmp/test").unwrap();

    assert_eq!(result.entries.len(), 5);

    assert!(matches!(
        result.entries[0].entry_type,
        NormalizedEntryType::SystemMessage
    ));
    assert_eq!(result.entries[0].content, "Task started");

    assert!(matches!(
        result.entries[1].entry_type,
        NormalizedEntryType::Thinking
    ));
    assert!(result.entries[1]
        .content
        .contains("Inspecting the directory tree"));

    assert!(matches!(
        result.entries[2].entry_type,
        NormalizedEntryType::ToolUse { .. }
    ));
    if let NormalizedEntryType::ToolUse {
        tool_name,
        action_type,
    } = &result.entries[2].entry_type
    {
        assert_eq!(tool_name, "bash");
        assert!(matches!(action_type, ActionType::CommandRun { .. }));
    }
    assert_eq!(result.entries[2].content, "`bash -lc ls -1`");
}

#[test]
fn test_normalize_logs_shell_vs_bash_mapping() {
    let executor = CodexExecutor::new();

    let shell_logs = r#"{"id":"1","msg":{"type":"exec_command_begin","call_id":"call_test","command":["sh","-c","echo hello"],"cwd":"/tmp"}}"#;
    let result = executor.normalize_logs(shell_logs, "/tmp").unwrap();
    assert_eq!(result.entries.len(), 1);

    if let NormalizedEntryType::ToolUse { tool_name, .. } = &result.entries[0].entry_type {
        assert_eq!(tool_name, "shell");
    }

    let bash_logs = r#"{"id":"1","msg":{"type":"exec_command_begin","call_id":"call_test","command":["bash","-c","echo hello"],"cwd":"/tmp"}}"#;
    let result = executor.normalize_logs(bash_logs, "/tmp").unwrap();
    assert_eq!(result.entries.len(), 1);

    if let NormalizedEntryType::ToolUse { tool_name, .. } = &result.entries[0].entry_type {
        assert_eq!(tool_name, "bash");
    }
}

#[test]
fn test_normalize_logs_token_count_skipped() {
    let executor = CodexExecutor::new();
    let logs = r#"{"id":"1","msg":{"type":"task_started"}}
{"id":"1","msg":{"type":"token_count","input_tokens":1674,"cached_input_tokens":1627,"output_tokens":384,"reasoning_output_tokens":384,"total_tokens":2058}}
{"id":"1","msg":{"type":"task_complete","last_agent_message":"Done!"}}"#;

    let result = executor.normalize_logs(logs, "/tmp").unwrap();

    assert_eq!(result.entries.len(), 3);

    for entry in &result.entries {
        assert!(!entry.content.contains("token"));
    }
}

#[test]
fn test_normalize_logs_malformed_json() {
    let executor = CodexExecutor::new();
    let logs = r#"{"id":"1","msg":{"type":"task_started"}}
invalid json line here
{"id":"1","msg":{"type":"task_complete","last_agent_message":"Done!"}}"#;

    let result = executor.normalize_logs(logs, "/tmp").unwrap();

    assert_eq!(result.entries.len(), 4);

    assert!(matches!(
        result.entries[1].entry_type,
        NormalizedEntryType::SystemMessage
    ));
    assert!(result.entries[1]
        .content
        .contains("Raw output: invalid json line here"));
}

#[test]
fn new_executor_has_default_settings() {
    let executor = CodexExecutor::new();
    assert_eq!(executor.executor_type(), "Codex");
    assert_eq!(
        executor.command(),
        "npx @openai/codex exec --dangerously-bypass-approvals-and-sandbox --skip-git-repo-check"
    );
    let other = CodexExecutor::default();
    assert_eq!(other.executor_type(), "Codex");
    assert_eq!(other.command(), executor.command());
}

#[test]
fn conversation_carries_executor_type_and_no_enrichment() {
    let executor = CodexExecutor::new();
    let result = executor.normalize_logs("", "/tmp").unwrap();
    assert_eq!(result.entries.len(), 0);
    assert_eq!(result.session_id, None);
    assert_eq!(result.executor_type, "Codex");
    assert_eq!(result.prompt, None);
    assert_eq!(result.summary, None);
}

#[test]
fn task_started_gives_one_system_message() {
    let executor = CodexExecutor::new();
    let line = r#"{"msg":{"type":"task_started"}}"#;
    let result = executor.normalize_logs(line, "/tmp").unwrap();
    assert_eq!(result.entries.len(), 1);
    assert!(is_system(&result.entries[0]));
    assert_eq!(result.entries[0].content, "Task started");
    assert_eq!(result.entries[0].timestamp, None);
    assert_eq!(result.entries[0].metadata, Some(parse(line)));
}

#[test]
fn agent_reasoning_gives_thinking_entry() {
    let executor = CodexExecutor::new();
    let line = r#"{"msg":{"type":"agent_reasoning","text":"Inspecting..."}}"#;
    let result = executor.normalize_logs(line, "/tmp").unwrap();
    assert_eq!(result.entries.len(), 1);
    assert!(matches!(result.entries[0].entry_type, NormalizedEntryType::Thinking));
    assert_eq!(result.entries[0].content, "Inspecting...");
    assert_eq!(result.entries[0].metadata, Some(parse(line)));
}

#[test]
fn agent_reasoning_without_text_gives_nothing() {
    let executor = CodexExecutor::new();
    let result = executor
        .normalize_logs(r#"{"msg":{"type":"agent_reasoning","text":5}}"#, "/tmp")
        .unwrap();
    assert_eq!(result.entries.len(), 0);
    let result = executor
        .normalize_logs(r#"{"msg":{"type":"agent_reasoning"}}"#, "/tmp")
        .unwrap();
    assert_eq!(result.entries.len(), 0);
}

#[test]
fn unparseable_line_gives_one_raw_output_entry() {
    let (entries, session) = normalize_text("   not json at all \t\n");
    assert_eq!(entries.len(), 1);
    assert!(is_system(&entries[0]));
    assert_eq!(entries[0].content, "Raw output: not json at all");
    assert_eq!(entries[0].metadata, None);
    assert_eq!(session, None);
}

#[test]
fn blank_lines_give_nothing() {
    let (entries, session) = normalize_text("\n   \n\t\r\n\n");
    assert_eq!(entries.len(), 0);
    assert_eq!(session, None);
}

#[test]
fn lines_split_at_line_feeds_and_carriage_returns() {
    let (entries, _) = normalize_text("first\r\nsecond\nthird");
    assert_eq!(entries.len(), 3);
    assert_eq!(entries[0].content, "Raw output: first");
    assert_eq!(entries[1].content, "Raw output: second");
    assert_eq!(entries[2].content, "Raw output: third");
}

#[test]
fn suppressed_messages_do_not_change_the_entries() {
    let with = "{\"msg\":{\"type\":\"task_started\"}}\n{\"msg\":{\"type\":\"exec_command_end\",\"exit_code\":0}}\n{\"msg\":{\"type\":\"token_count\",\"total_tokens\":5}}\nrest";
    let without = "{\"msg\":{\"type\":\"task_started\"}}\nrest";
    let (a, _) = normalize_text(with);
    let (b, _) = normalize_text(without);
    assert_eq!(a.len(), 2);
    assert_eq!(a.len(), b.len());
    for i in 0..a.len() {
        assert_eq!(a[i].content, b[i].content);
        assert_eq!(a[i].metadata, b[i].metadata);
    }
}

#[test]
fn task_complete_with_message_gives_two_entries_in_order() {
    let line = r#"{"msg":{"type":"task_complete","last_agent_message":"Done!"}}"#;
    let (entries, _) = normalize_text(line);
    assert_eq!(entries.len(), 2);
    assert!(matches!(entries[0].entry_type, NormalizedEntryType::AssistantMessage));
    assert_eq!(entries[0].content, "Done!");
    assert_eq!(entries[0].metadata, Some(parse(line)));
    assert!(is_system(&entries[1]));
    assert_eq!(entries[1].content, "Task completed");
    assert_eq!(entries[1].metadata, Some(parse(line)));
}

#[test]
fn task_complete_without_message_gives_the_marker_alone() {
    let (entries, _) = normalize_text(r#"{"msg":{"type":"task_complete"}}"#);
    assert_eq!(entries.len(), 1);
    assert!(is_system(&entries[0]));
    assert_eq!(entries[0].content, "Task completed");
    let (entries, _) =
        normalize_text(r#"{"msg":{"type":"task_complete","last_agent_message":null}}"#);
    assert_eq!(entries.len(), 1);
    assert_eq!(entries[0].content, "Task completed");
}

#[test]
fn unknown_message_type_is_reported() {
    let line = r#"{"msg":{"type":"brand_new","x":1}}"#;
    let (entries, _) = normalize_text(line);
    assert_eq!(entries.len(), 1);
    assert!(is_system(&entries[0]));
    assert_eq!(entries[0].content, "Unknown message type: brand_new");
    assert_eq!(entries[0].metadata, Some(parse(line)));
}

#[test]
fn record_without_msg_is_unrecognized() {
    let (entries, session) = normalize_text("  {\"session_id\":\"abc\",\"other\":1}  ");
    assert_eq!(entries.len(), 1);
    assert!(is_system(&entries[0]));
    assert_eq!(
        entries[0].content,
        "Unrecognized JSON: {\"session_id\":\"abc\",\"other\":1}"
    );
    assert_eq!(
        entries[0].metadata,
        Some(parse("{\"session_id\":\"abc\",\"other\":1}"))
    );
    assert_eq!(session, Some("abc".to_string()));
}

#[test]
fn array_and_scalar_lines_are_unrecognized() {
    let (entries, _) = normalize_text("[1,2]\n42");
    assert_eq!(entries.len(), 2);
    assert_eq!(entries[0].content, "Unrecognized JSON: [1,2]");
    assert_eq!(entries[1].content, "Unrecognized JSON: 42");
}

#[test]
fn message_without_string_type_gives_nothing() {
    let (entries, _) = normalize_text("{\"msg\":{\"type\":7}}\n{\"msg\":{}}\n{\"msg\":\"text\"}");
    assert_eq!(entries.len(), 0);
}

#[test]
fn first_session_id_wins() {
    let logs = "noise\n{\"msg\":{\"type\":\"task_started\"}}\n{\"session_id\":\"first\",\"msg\":{\"type\":\"token_count\"}}\n{\"session_id\":\"second\"}";
    let executor = CodexExecutor::new();
    let result = executor.normalize_logs(logs, "/tmp").unwrap();
    assert_eq!(result.session_id, Some("first".to_string()));
    assert_eq!(result.entries.len(), 3);
}

#[test]
fn session_id_that_is_no_string_is_passed_over() {
    let (_, session) = normalize_text("{\"session_id\":12}\n{\"session_id\":\"later\"}");
    assert_eq!(session, Some("later".to_string()));
}

#[test]
fn nested_session_id_is_not_taken() {
    let (_, session) = normalize_text("{\"msg\":{\"type\":\"x\",\"session_id\":\"inner\"}}");
    assert_eq!(session, None);
}

#[test]
fn command_text_joins_strings_with_single_spaces() {
    let items = vec![parse("\"bash\""), parse("\"-lc\""), parse("\"ls -1\"")];
    assert_eq!(command_text(&items), "bash -lc ls -1");
    assert_eq!(command_text(&Vec::new()), "");
    assert_eq!(command_text(&vec![parse("\"one\"")]), "one");
}

#[test]
fn command_text_passes_over_items_that_are_no_strings() {
    let items = vec![parse("1"), parse("\"a\""), parse("null"), parse("\"b\""), parse("[]")];
    assert_eq!(command_text(&items), "a b");
    assert_eq!(command_text(&vec![parse("\"\""), parse("\"x\"")]), " x");
}

#[test]
fn tool_name_goes_by_the_first_item() {
    assert_eq!(tool_name(&vec![parse("\"bash\""), parse("\"-c\"")]), "bash");
    assert_eq!(tool_name(&vec![parse("\"sh\""), parse("\"bash\"")]), "shell");
    assert_eq!(tool_name(&vec![parse("\"Bash\"")]), "shell");
    assert_eq!(tool_name(&vec![parse("\"bash \"")]), "shell");
    assert_eq!(tool_name(&vec![parse("1"), parse("\"bash\"")]), "shell");
    assert_eq!(tool_name(&Vec::new()), "shell");
}

#[test]
fn command_entry_holds_command_and_backticks() {
    let line = r#"{"msg":{"type":"exec_command_begin","command":["sh","-c","echo hello"]}}"#;
    let (entries, _) = normalize_text(line);
    assert_eq!(entries.len(), 1);
    assert_eq!(entries[0].content, "`sh -c echo hello`");
    assert_eq!(entries[0].metadata, Some(parse(line)));
    match &entries[0].entry_type {
        NormalizedEntryType::ToolUse { tool_name, action_type } => {
            assert_eq!(tool_name, "shell");
            match action_type {
                ActionType::CommandRun { command } => assert_eq!(command, "sh -c echo hello"),
            }
        }
        _ => panic!("expected a tool entry"),
    }
}

#[test]
fn command_that_is_no_array_gives_nothing() {
    let (entries, _) =
        normalize_text(r#"{"msg":{"type":"exec_command_begin","command":"bash -c ls"}}"#);
    assert_eq!(entries.len(), 0);
    let (entries, _) = normalize_text(r#"{"msg":{"type":"exec_command_begin"}}"#);
    assert_eq!(entries.len(), 0);
}

#[test]
fn empty_command_array_gives_shell_entry() {
    let (entries, _) = normalize_text(r#"{"msg":{"type":"exec_command_begin","command":[]}}"#);
    assert_eq!(entries.len(), 1);
    assert_eq!(entries[0].content, "``");
    assert!(matches!(
        &entries[0].entry_type,
        NormalizedEntryType::ToolUse { tool_name, .. } if tool_name == "shell"
    ));
}

#[test]
fn push_message_entries_appends_after_what_is_there() {
    let record = parse(r#"{"msg":{"type":"task_started"}}"#);
    let msg = parse(r#"{"type":"task_started"}"#);
    let mut entries = Vec::new();
    push_message_entries("task_started", &msg, &record, &mut entries);
    push_message_entries("token_count", &msg, &record, &mut entries);
    push_message_entries("exec_command_end", &msg, &record, &mut entries);
    push_message_entries("task_complete", &msg, &record, &mut entries);
    assert_eq!(entries.len(), 2);
    assert_eq!(entries[0].content, "Task started");
    assert_eq!(entries[1].content, "Task completed");
    assert_eq!(entries[1].metadata, Some(record));
}

#[test]
fn push_record_entries_uses_the_line_for_unrecognized_records() {
    let record = parse("{\"a\":1}");
    let mut entries = Vec::new();
    push_record_entries(&record, "the line", &mut entries);
    assert_eq!(entries.len(), 1);
    assert_eq!(entries[0].content, "Unrecognized JSON: the line");
    assert_eq!(entries[0].metadata, Some(record));
}

#[test]
fn push_line_entries_takes_the_parser_outcome() {
    let mut entries = Vec::new();
    push_line_entries(&None, "anything", &mut entries);
    push_line_entries(
        &Some(parse(r#"{"msg":{"type":"agent_reasoning","text":"hm"}}"#)),
        "ignored",
        &mut entries,
    );
    assert_eq!(entries.len(), 2);
    assert_eq!(entries[0].content, "Raw output: anything");
    assert_eq!(entries[0].metadata, None);
    assert_eq!(entries[1].content, "hm");
}

#[test]
fn line_session_id_reads_the_top_level_string() {
    assert_eq!(line_session_id(&None), None);
    assert_eq!(line_session_id(&Some(parse("{\"session_id\":\"s1\"}"))), Some("s1".to_string()));
    assert_eq!(line_session_id(&Some(parse("{\"session_id\":null}"))), None);
    assert_eq!(line_session_id(&Some(parse("[\"session_id\"]"))), None);
}

#[test]
fn normalizing_twice_gives_the_same() {
    let logs = "{\"session_id\":\"s\",\"msg\":{\"type\":\"task_started\"}}\ngarbage\n{\"msg\":{\"type\":\"task_complete\",\"last_agent_message\":\"ok\"}}";
    let (a, sa) = normalize_text(logs);
    let (b, sb) = normalize_text(logs);
    assert_eq!(sa, sb);
    assert_eq!(a.len(), 4);
    assert_eq!(a.len(), b.len());
    for i in 0..a.len() {
        assert_eq!(a[i].content, b[i].content);
        assert_eq!(a[i].metadata, b[i].metadata);
    }
}

#[test]
fn bare_carriage_return_does_not_split_a_line() {
    let (entries, _) = normalize_text("a\rb\nc\r");
    assert_eq!(entries.len(), 2);
    assert_eq!(entries[0].content, "Raw output: a\rb");
    assert_eq!(entries[1].content, "Raw output: c");
}
