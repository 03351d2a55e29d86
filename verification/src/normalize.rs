//! The log rules: which conversation entries each line of the agent's output
//! gives, and which session identifier the output as a whole carries.

use vstd::prelude::*;
use vstd::string::*;
use crate::json::{
    JsonTree, json_as_array, json_as_str, json_clone, json_get, json_tree, opt_tree, parse_json,
    parsed_json, tree_get, tree_items_field, tree_str, tree_str_field, trees_of,
};
use crate::model::{
    ActionType, ActionView, EntryTypeView, EntryView, NormalizedEntry, NormalizedEntryType,
    entry_views, opt_text,
};
use crate::text::{lines_of, split_lines, str_eq, texts_of, trim, trimmed};

verus! {

/// An entry without a timestamp.
pub open spec fn plain_entry(
    entry_type: EntryTypeView,
    content: Seq<char>,
    metadata: Option<JsonTree>,
) -> EntryView {
    EntryView { timestamp: None, entry_type, content, metadata }
}

/// A system message without a timestamp.
pub open spec fn system_entry(content: Seq<char>, metadata: Option<JsonTree>) -> EntryView {
    plain_entry(EntryTypeView::SystemMessage, content, metadata)
}

/// The words of a command: the strings among the items, in order. Items that
/// are no strings are passed over.
pub open spec fn command_words(items: Seq<JsonTree>) -> Seq<Seq<char>>
    decreases items.len(),
{
    if items.len() == 0 {
        seq![]
    } else {
        match tree_str(items.last()) {
            Some(word) => command_words(items.drop_last()).push(word),
            None => command_words(items.drop_last()),
        }
    }
}

/// Words joined by single spaces.
pub open spec fn join_words(words: Seq<Seq<char>>) -> Seq<char>
    decreases words.len(),
{
    if words.len() == 0 {
        seq![]
    } else if words.len() == 1 {
        words[0]
    } else {
        join_words(words.drop_last()) + " "@ + words.last()
    }
}

/// The command as it is shown: its words joined by single spaces.
pub open spec fn command_text_of(items: Seq<JsonTree>) -> Seq<char> {
    join_words(command_words(items))
}

/// Whether the first item of a command is the string `bash`.
pub open spec fn starts_with_bash(items: Seq<JsonTree>) -> bool {
    items.len() > 0 && tree_str(items[0]) == Some("bash"@)
}

/// The tool that a command is counted under.
pub open spec fn tool_name_of(items: Seq<JsonTree>) -> Seq<char> {
    if starts_with_bash(items) {
        "bash"@
    } else {
        "shell"@
    }
}

/// The entry for a command that the agent began to run.
pub open spec fn command_entry(items: Seq<JsonTree>, record: JsonTree) -> EntryView {
    plain_entry(
        EntryTypeView::ToolUse {
            tool_name: tool_name_of(items),
            action_type: ActionView::CommandRun { command: command_text_of(items) },
        },
        "`"@ + command_text_of(items) + "`"@,
        Some(record),
    )
}

/// The entries for the end of a task: the agent's last message, where the
/// message holds one, and then the completion marker.
pub open spec fn completion_entries(msg: JsonTree, record: JsonTree) -> Seq<EntryView> {
    let marker = system_entry("Task completed"@, Some(record));
    match tree_str_field(msg, "last_agent_message"@) {
        Some(text) => seq![plain_entry(EntryTypeView::AssistantMessage, text, Some(record)), marker],
        None => seq![marker],
    }
}

/// The entries for a message of a given type.
pub open spec fn message_entries(kind: Seq<char>, msg: JsonTree, record: JsonTree) -> Seq<
    EntryView,
> {
    if kind == "task_started"@ {
        seq![system_entry("Task started"@, Some(record))]
    } else if kind == "agent_reasoning"@ {
        match tree_str_field(msg, "text"@) {
            Some(text) => seq![plain_entry(EntryTypeView::Thinking, text, Some(record))],
            None => seq![],
        }
    } else if kind == "exec_command_begin"@ {
        match tree_items_field(msg, "command"@) {
            Some(items) => seq![command_entry(items, record)],
            None => seq![],
        }
    } else if kind == "exec_command_end"@ {
        seq![]
    } else if kind == "task_complete"@ {
        completion_entries(msg, record)
    } else if kind == "token_count"@ {
        seq![]
    } else {
        seq![system_entry("Unknown message type: "@ + kind, Some(record))]
    }
}

/// The entries for a line that parsed as JSON. A message whose type is no
/// string gives none.
pub open spec fn record_entries(record: JsonTree, line: Seq<char>) -> Seq<EntryView> {
    match tree_get(record, "msg"@) {
        Some(msg) => match tree_str_field(msg, "type"@) {
            Some(kind) => message_entries(kind, msg, record),
            None => seq![],
        },
        None => seq![system_entry("Unrecognized JSON: "@ + line, Some(record))],
    }
}

/// The entries for a trimmed line, given what the parser made of it.
pub open spec fn line_entries(parsed: Option<JsonTree>, line: Seq<char>) -> Seq<EntryView> {
    match parsed {
        Some(record) => record_entries(record, line),
        None => seq![system_entry("Raw output: "@ + line, None)],
    }
}

/// The session identifier that a parsed line carries at its top level.
pub open spec fn line_session(parsed: Option<JsonTree>) -> Option<Seq<char>> {
    match parsed {
        Some(record) => tree_str_field(record, "session_id"@),
        None => None,
    }
}

/// The entries for a line as it stands in the output: none for a blank line.
pub open spec fn raw_line_entries(raw: Seq<char>) -> Seq<EntryView> {
    let line = trimmed(raw);
    if line.len() == 0 {
        seq![]
    } else {
        line_entries(parsed_json(line), line)
    }
}

/// The session identifier of a line as it stands in the output.
pub open spec fn raw_line_session(raw: Seq<char>) -> Option<Seq<char>> {
    let line = trimmed(raw);
    if line.len() == 0 {
        None
    } else {
        line_session(parsed_json(line))
    }
}

/// The entries for a sequence of lines: those of each line, in line order.
pub open spec fn entries_of(lines: Seq<Seq<char>>) -> Seq<EntryView>
    decreases lines.len(),
{
    if lines.len() == 0 {
        seq![]
    } else {
        entries_of(lines.drop_last()) + raw_line_entries(lines.last())
    }
}

/// The session identifier of a sequence of lines: that of the first line
/// that carries one.
pub open spec fn session_of(lines: Seq<Seq<char>>) -> Option<Seq<char>>
    decreases lines.len(),
{
    if lines.len() == 0 {
        None
    } else {
        match session_of(lines.drop_last()) {
            Some(id) => Some(id),
            None => raw_line_session(lines.last()),
        }
    }
}

fn push_entry(
    entries: &mut Vec<NormalizedEntry>,
    entry_type: NormalizedEntryType,
    content: String,
    metadata: Option<serde_json::Value>,
)
    ensures
        entry_views(final(entries)@) == entry_views(old(entries)@).push(
            plain_entry(entry_type@, content@, opt_tree(metadata)),
        ),
{
    let entry = NormalizedEntry { timestamp: None, entry_type, content, metadata };
    entries.push(entry);
}

/// The command of an `exec_command_begin` message as it is shown.
pub fn command_text(items: &Vec<serde_json::Value>) -> (r: String)
    ensures
        r@ == command_text_of(trees_of(items@)),
{
    let ghost trees = trees_of(items@);
    let mut text = String::new();
    let mut any = false;
    let mut i: usize = 0;
    while i < items.len()
        invariant
            i <= items.len(),
            trees == trees_of(items@),
            any == (command_words(trees.take(i as int)).len() > 0),
            text@ == join_words(command_words(trees.take(i as int))),
        decreases items.len() - i,
    {
        let ghost before = command_words(trees.take(i as int));
        proof {
            assert(trees.take(i + 1).drop_last() =~= trees.take(i as int));
        }
        if let Some(word) = json_as_str(&items[i]) {
            proof {
                assert(before.push(word@).drop_last() =~= before);
            }
            if any {
                text.append(" ");
            }
            text.append(word);
            any = true;
        }
        i += 1;
    }
    assert(trees.take(items.len() as int) =~= trees);
    text
}

/// The tool that a command is counted under: `bash` where its first item is
/// the string `bash`, else `shell`.
pub fn tool_name(items: &Vec<serde_json::Value>) -> (r: String)
    ensures
        r@ == tool_name_of(trees_of(items@)),
{
    if items.len() > 0 {
        if let Some(first) = json_as_str(&items[0]) {
            if str_eq(first, "bash") {
                return String::from_str("bash");
            }
        }
    }
    String::from_str("shell")
}

/// Appends the entries for a message of the given type.
pub fn push_message_entries(
    kind: &str,
    msg: &serde_json::Value,
    record: &serde_json::Value,
    entries: &mut Vec<NormalizedEntry>,
)
    ensures
        entry_views(final(entries)@) == entry_views(old(entries)@) + message_entries(
            kind@,
            json_tree(*msg),
            json_tree(*record),
        ),
{
    if str_eq(kind, "task_started") {
        push_entry(
            entries,
            NormalizedEntryType::SystemMessage,
            String::from_str("Task started"),
            Some(json_clone(record)),
        );
    } else if str_eq(kind, "agent_reasoning") {
        if let Some(member) = json_get(msg, "text") {
            if let Some(text) = json_as_str(member) {
                push_entry(
                    entries,
                    NormalizedEntryType::Thinking,
                    String::from_str(text),
                    Some(json_clone(record)),
                );
            }
        }
    } else if str_eq(kind, "exec_command_begin") {
        if let Some(member) = json_get(msg, "command") {
            if let Some(items) = json_as_array(member) {
                let command = command_text(items);
                let mut content = String::from_str("`");
                content.append(command.as_str());
                content.append("`");
                let entry_type = NormalizedEntryType::ToolUse {
                    tool_name: tool_name(items),
                    action_type: ActionType::CommandRun { command },
                };
                push_entry(entries, entry_type, content, Some(json_clone(record)));
            }
        }
    } else if str_eq(kind, "exec_command_end") {
    } else if str_eq(kind, "task_complete") {
        if let Some(member) = json_get(msg, "last_agent_message") {
            if let Some(text) = json_as_str(member) {
                push_entry(
                    entries,
                    NormalizedEntryType::AssistantMessage,
                    String::from_str(text),
                    Some(json_clone(record)),
                );
            }
        }
        push_entry(
            entries,
            NormalizedEntryType::SystemMessage,
            String::from_str("Task completed"),
            Some(json_clone(record)),
        );
    } else if str_eq(kind, "token_count") {
    } else {
        push_entry(
            entries,
            NormalizedEntryType::SystemMessage,
            String::from_str("Unknown message type: ").concat(kind),
            Some(json_clone(record)),
        );
    }
}

/// Appends the entries for a line that parsed as JSON.
pub fn push_record_entries(
    record: &serde_json::Value,
    line: &str,
    entries: &mut Vec<NormalizedEntry>,
)
    ensures
        entry_views(final(entries)@) == entry_views(old(entries)@) + record_entries(
            json_tree(*record),
            line@,
        ),
{
    match json_get(record, "msg") {
        Some(msg) => {
            if let Some(member) = json_get(msg, "type") {
                if let Some(kind) = json_as_str(member) {
                    push_message_entries(kind, msg, record, entries);
                }
            }
        },
        None => {
            push_entry(
                entries,
                NormalizedEntryType::SystemMessage,
                String::from_str("Unrecognized JSON: ").concat(line),
                Some(json_clone(record)),
            );
        },
    }
}

/// Appends the entries for a trimmed line, given what the parser made of it:
/// the record's entries, or the line as raw output where it did not parse.
pub fn push_line_entries(
    parsed: &Option<serde_json::Value>,
    line: &str,
    entries: &mut Vec<NormalizedEntry>,
)
    ensures
        entry_views(final(entries)@) == entry_views(old(entries)@) + line_entries(
            opt_tree(*parsed),
            line@,
        ),
{
    match parsed {
        Some(record) => {
            push_record_entries(record, line, entries);
        },
        None => {
            push_entry(
                entries,
                NormalizedEntryType::SystemMessage,
                String::from_str("Raw output: ").concat(line),
                None,
            );
        },
    }
}

/// The session identifier that a parsed line carries: its top-level string
/// member `session_id`.
pub fn line_session_id(parsed: &Option<serde_json::Value>) -> (r: Option<String>)
    ensures
        opt_text(r) == line_session(opt_tree(*parsed)),
{
    if let Some(record) = parsed {
        if let Some(member) = json_get(record, "session_id") {
            if let Some(id) = json_as_str(member) {
                return Some(String::from_str(id));
            }
        }
    }
    None
}

/// Normalizes the whole output of a run: the entries of its lines in line
/// order, and the first session identifier that a line carries.
pub fn normalize_text(logs: &str) -> (r: (Vec<NormalizedEntry>, Option<String>))
    ensures
        entry_views(r.0@) == entries_of(lines_of(logs@)),
        opt_text(r.1) == session_of(lines_of(logs@)),
{
    let lines = split_lines(logs);
    let ghost texts = texts_of(lines@);
    let mut entries: Vec<NormalizedEntry> = Vec::new();
    let mut session_id: Option<String> = None;
    let mut i: usize = 0;
    while i < lines.len()
        invariant
            i <= lines.len(),
            texts == texts_of(lines@),
            entry_views(entries@) == entries_of(texts.take(i as int)),
            opt_text(session_id) == session_of(texts.take(i as int)),
        decreases lines.len() - i,
    {
        proof {
            assert(texts.take(i + 1).drop_last() =~= texts.take(i as int));
        }
        let line = trim(lines[i]);
        if !line.is_empty() {
            let parsed = parse_json(line);
            if session_id.is_none() {
                session_id = line_session_id(&parsed);
            }
            push_line_entries(&parsed, line, &mut entries);
        }
        i += 1;
    }
    assert(texts.take(lines.len() as int) =~= texts);
    (entries, session_id)
}

} // verus!
