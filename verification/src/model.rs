//! The normalized conversation: what one run of an agent said and did, in a
//! form that does not depend on which agent produced it.

use vstd::prelude::*;
use crate::json::{JsonTree, opt_tree};

verus! {

/// What a tool did.
#[derive(Debug, Clone, PartialEq)]
pub enum ActionType {
    CommandRun { command: String },
}

/// The kind of a conversation entry.
#[derive(Debug, Clone, PartialEq)]
pub enum NormalizedEntryType {
    /// Lifecycle, status or diagnostic text.
    SystemMessage,
    /// The agent's reasoning.
    Thinking,
    /// A command that the agent ran.
    ToolUse { tool_name: String, action_type: ActionType },
    /// A final message for the user.
    AssistantMessage,
}

/// One unit of conversation.
#[derive(Debug, Clone, PartialEq)]
pub struct NormalizedEntry {
    pub timestamp: Option<String>,
    pub entry_type: NormalizedEntryType,
    pub content: String,
    /// The structured record that the entry came from, if it had one.
    pub metadata: Option<serde_json::Value>,
}

/// The outcome of normalizing one run's output.
#[derive(Debug, Clone, PartialEq)]
pub struct NormalizedConversation {
    pub entries: Vec<NormalizedEntry>,
    pub session_id: Option<String>,
    pub executor_type: String,
    pub prompt: Option<String>,
    pub summary: Option<String>,
}

/// An action, over plain text.
pub enum ActionView {
    CommandRun { command: Seq<char> },
}

/// An entry's kind, over plain text.
pub enum EntryTypeView {
    SystemMessage,
    Thinking,
    ToolUse { tool_name: Seq<char>, action_type: ActionView },
    AssistantMessage,
}

/// An entry, over plain text and JSON trees.
pub struct EntryView {
    pub timestamp: Option<Seq<char>>,
    pub entry_type: EntryTypeView,
    pub content: Seq<char>,
    pub metadata: Option<JsonTree>,
}

/// A conversation, over plain text and JSON trees.
pub struct ConversationView {
    pub entries: Seq<EntryView>,
    pub session_id: Option<Seq<char>>,
    pub executor_type: Seq<char>,
    pub prompt: Option<Seq<char>>,
    pub summary: Option<Seq<char>>,
}

/// The text of an optional string.
pub open spec fn opt_text(s: Option<String>) -> Option<Seq<char>> {
    match s {
        Some(text) => Some(text@),
        None => None,
    }
}

impl View for ActionType {
    type V = ActionView;

    open spec fn view(&self) -> ActionView {
        match *self {
            ActionType::CommandRun { command } => ActionView::CommandRun { command: command@ },
        }
    }
}

impl View for NormalizedEntryType {
    type V = EntryTypeView;

    open spec fn view(&self) -> EntryTypeView {
        match *self {
            NormalizedEntryType::SystemMessage => EntryTypeView::SystemMessage,
            NormalizedEntryType::Thinking => EntryTypeView::Thinking,
            NormalizedEntryType::ToolUse { tool_name, action_type } => EntryTypeView::ToolUse {
                tool_name: tool_name@,
                action_type: action_type@,
            },
            NormalizedEntryType::AssistantMessage => EntryTypeView::AssistantMessage,
        }
    }
}

impl View for NormalizedEntry {
    type V = EntryView;

    open spec fn view(&self) -> EntryView {
        EntryView {
            timestamp: opt_text(self.timestamp),
            entry_type: self.entry_type@,
            content: self.content@,
            metadata: opt_tree(self.metadata),
        }
    }
}

/// The views of a sequence of entries, one for one.
pub open spec fn entry_views(entries: Seq<NormalizedEntry>) -> Seq<EntryView> {
    Seq::new(entries.len(), |i: int| entries[i]@)
}

impl View for NormalizedConversation {
    type V = ConversationView;

    open spec fn view(&self) -> ConversationView {
        ConversationView {
            entries: entry_views(self.entries@),
            session_id: opt_text(self.session_id),
            executor_type: self.executor_type@,
            prompt: opt_text(self.prompt),
            summary: opt_text(self.summary),
        }
    }
}

} // verus!
