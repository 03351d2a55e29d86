//! What holds of the log rules for every output: proved from the definitions
//! that the contracts of the normalizing functions use.

use vstd::prelude::*;
use crate::json::{JsonTree, parsed_json, tree_get, tree_items_field, tree_str_field};
use crate::model::{ActionView, EntryTypeView, EntryView};
use crate::normalize::{
    command_entry, command_text_of, entries_of, message_entries, plain_entry, raw_line_entries,
    raw_line_session, record_entries, session_of, starts_with_bash, system_entry,
};
use crate::text::trimmed;

verus! {

/// The message types that are passed over in silence.
pub open spec fn is_suppressed_kind(kind: Seq<char>) -> bool {
    kind == "exec_command_end"@ || kind == "token_count"@
}

/// Whether a line, as it stands in the output, is a record whose message has
/// the given type.
pub open spec fn line_has_kind(raw: Seq<char>, kind: Seq<char>) -> bool {
    match parsed_json(trimmed(raw)) {
        Some(record) => match tree_get(record, "msg"@) {
            Some(msg) => tree_str_field(msg, "type"@) == Some(kind),
            None => false,
        },
        None => false,
    }
}

proof fn reveal_kinds()
    ensures
        "task_started"@.len() == 12,
        "agent_reasoning"@.len() == 15,
        "exec_command_begin"@.len() == 18,
        "exec_command_end"@.len() == 16,
        "task_complete"@.len() == 13,
        "token_count"@.len() == 11,
{
    reveal_strlit("task_started");
    reveal_strlit("agent_reasoning");
    reveal_strlit("exec_command_begin");
    reveal_strlit("exec_command_end");
    reveal_strlit("task_complete");
    reveal_strlit("token_count");
}

/// The entries of two runs of lines, one after the other, are the entries of
/// the first followed by those of the second.
pub proof fn entries_of_concat(first: Seq<Seq<char>>, second: Seq<Seq<char>>)
    ensures
        entries_of(first + second) == entries_of(first) + entries_of(second),
    decreases second.len(),
{
    if second.len() > 0 {
        entries_of_concat(first, second.drop_last());
        assert((first + second).drop_last() =~= first + second.drop_last());
    }
}

/// The session identifier of two runs of lines, one after the other, is that
/// of the first where it has one, else that of the second.
pub proof fn session_of_concat(first: Seq<Seq<char>>, second: Seq<Seq<char>>)
    ensures
        session_of(first + second) == match session_of(first) {
            Some(id) => Some(id),
            None => session_of(second),
        },
    decreases second.len(),
{
    if second.len() > 0 {
        session_of_concat(first, second.drop_last());
        assert((first + second).drop_last() =~= first + second.drop_last());
    }
}

/// The entries of a single line are those of the line.
pub proof fn entries_of_one(raw: Seq<char>)
    ensures
        entries_of(seq![raw]) == raw_line_entries(raw),
{
    assert(entries_of(seq![raw].drop_last()) =~= Seq::<EntryView>::empty());
}

/// The session identifier of a single line is that of the line.
pub proof fn session_of_one(raw: Seq<char>)
    ensures
        session_of(seq![raw]) == raw_line_session(raw),
{
    assert(session_of(seq![raw].drop_last()) is None);
}

/// A line that is not blank and does not parse gives exactly one entry,
/// wherever it stands: a system message that holds `Raw output: ` and the
/// trimmed line, without metadata. The lines around it give what they give
/// without it.
pub proof fn unparseable_line_is_raw_output(
    before: Seq<Seq<char>>,
    raw: Seq<char>,
    after: Seq<Seq<char>>,
)
    requires
        trimmed(raw).len() > 0,
        parsed_json(trimmed(raw)) is None,
    ensures
        entries_of(before + seq![raw] + after) == entries_of(before) + seq![
            system_entry("Raw output: "@ + trimmed(raw), None),
        ] + entries_of(after),
{
    entries_of_concat(before + seq![raw], after);
    entries_of_concat(before, seq![raw]);
    entries_of_one(raw);
}

/// A message of type `exec_command_end` or `token_count` gives no entry.
pub proof fn suppressed_kind_gives_nothing(kind: Seq<char>, msg: JsonTree, record: JsonTree)
    requires
        is_suppressed_kind(kind),
    ensures
        message_entries(kind, msg, record) == Seq::<EntryView>::empty(),
{
    reveal_kinds();
}

/// A line whose message is of type `exec_command_end` or `token_count`
/// changes nothing: with it and without it the output gives the same entries.
pub proof fn suppressed_line_changes_nothing(
    before: Seq<Seq<char>>,
    raw: Seq<char>,
    after: Seq<Seq<char>>,
    kind: Seq<char>,
)
    requires
        is_suppressed_kind(kind),
        line_has_kind(raw, kind),
    ensures
        entries_of(before + seq![raw] + after) == entries_of(before + after),
{
    let record = parsed_json(trimmed(raw)).unwrap();
    let msg = tree_get(record, "msg"@).unwrap();
    suppressed_kind_gives_nothing(kind, msg, record);
    entries_of_concat(before + seq![raw], after);
    entries_of_concat(before, seq![raw]);
    entries_of_one(raw);
    entries_of_concat(before, after);
}

/// A message of type `exec_command_begin` whose command is an array gives one
/// tool entry. Its tool is `bash` exactly where the array's first item is the
/// string `bash`, and `shell` exactly where it is not; the entry's command is
/// the array's strings joined by single spaces, and its content is that
/// command between backticks.
pub proof fn command_is_classified_by_first_word(msg: JsonTree, record: JsonTree)
    requires
        tree_items_field(msg, "command"@) is Some,
    ensures
        ({
            let items = tree_items_field(msg, "command"@).unwrap();
            let entries = message_entries("exec_command_begin"@, msg, record);
            &&& entries == seq![command_entry(items, record)]
            &&& entries[0].content == "`"@ + command_text_of(items) + "`"@
            &&& entries[0].metadata == Some(record)
            &&& entries[0].entry_type matches EntryTypeView::ToolUse { tool_name, action_type }
            &&& action_type == (ActionView::CommandRun { command: command_text_of(items) })
            &&& (tool_name == "bash"@ <==> starts_with_bash(items))
            &&& (tool_name == "shell"@ <==> !starts_with_bash(items))
        }),
{
    reveal_kinds();
    reveal_strlit("bash");
    reveal_strlit("shell");
    assert("bash"@.len() != "shell"@.len());
}

/// A message of type `task_complete` that holds a last agent message gives
/// exactly two entries, the assistant's message and then the completion
/// marker; one that holds none gives the marker alone.
pub proof fn task_complete_gives_message_then_marker(msg: JsonTree, record: JsonTree)
    ensures
        message_entries("task_complete"@, msg, record) == match tree_str_field(
            msg,
            "last_agent_message"@,
        ) {
            Some(text) => seq![
                plain_entry(EntryTypeView::AssistantMessage, text, Some(record)),
                system_entry("Task completed"@, Some(record)),
            ],
            None => seq![system_entry("Task completed"@, Some(record))],
        },
{
    reveal_kinds();
}

/// Lines of which none carries a session identifier give none.
pub proof fn no_session_without_carrier(lines: Seq<Seq<char>>)
    requires
        forall|i: int| 0 <= i < lines.len() ==> raw_line_session(#[trigger] lines[i]) is None,
    ensures
        session_of(lines) is None,
    decreases lines.len(),
{
    if lines.len() > 0 {
        no_session_without_carrier(lines.drop_last());
    }
}

/// The session identifier is that of the first line that carries one: no
/// line after it changes it.
pub proof fn first_session_id_wins(
    before: Seq<Seq<char>>,
    raw: Seq<char>,
    after: Seq<Seq<char>>,
)
    requires
        forall|i: int| 0 <= i < before.len() ==> raw_line_session(#[trigger] before[i]) is None,
        raw_line_session(raw) is Some,
    ensures
        session_of(before + seq![raw] + after) == raw_line_session(raw),
{
    no_session_without_carrier(before);
    session_of_concat(before + seq![raw], after);
    session_of_concat(before, seq![raw]);
    session_of_one(raw);
}

/// Once lines have given a session identifier, further lines leave it as it
/// is.
pub proof fn session_id_is_kept(lines: Seq<Seq<char>>, more: Seq<Seq<char>>)
    requires
        session_of(lines) is Some,
    ensures
        session_of(lines + more) == session_of(lines),
{
    session_of_concat(lines, more);
}

} // verus!
