//! The Codex executor: its fixed settings and the normalization of a run's
//! captured output.

use vstd::prelude::*;
use vstd::string::*;
use crate::model::{ConversationView, NormalizedConversation};
use crate::normalize::{entries_of, normalize_text, session_of};
use crate::text::lines_of;

verus! {

/// An executor that runs tasks through the Codex command-line agent.
pub struct CodexExecutor {
    executor_type: String,
    command: String,
}

/// The conversation that an executor of the given type reads from a run's
/// output.
pub open spec fn conversation_of(executor_type: Seq<char>, logs: Seq<char>) -> ConversationView {
    ConversationView {
        entries: entries_of(lines_of(logs)),
        session_id: session_of(lines_of(logs)),
        executor_type,
        prompt: None,
        summary: None,
    }
}

impl CodexExecutor {
    /// The executor's type, as it is written into each conversation.
    pub closed spec fn type_text(&self) -> Seq<char> {
        self.executor_type@
    }

    /// The command line that starts the agent.
    pub closed spec fn command_text(&self) -> Seq<char> {
        self.command@
    }

    /// An executor with the default settings.
    pub fn new() -> (r: Self)
        ensures
            r.type_text() == "Codex"@,
            r.command_text()
                == "npx @openai/codex exec --dangerously-bypass-approvals-and-sandbox --skip-git-repo-check"@,
    {
        CodexExecutor {
            executor_type: String::from_str("Codex"),
            command: String::from_str(
                "npx @openai/codex exec --dangerously-bypass-approvals-and-sandbox --skip-git-repo-check",
            ),
        }
    }

    /// The executor's type.
    pub fn executor_type(&self) -> (r: &str)
        ensures
            r@ == self.type_text(),
    {
        self.executor_type.as_str()
    }

    /// The command line that starts the agent.
    pub fn command(&self) -> (r: &str)
        ensures
            r@ == self.command_text(),
    {
        self.command.as_str()
    }

    /// Normalizes the captured output of a run. Every text is accepted: a
    /// line that is no JSON becomes a raw-output entry. The working directory
    /// has no part in the result.
    pub fn normalize_logs(&self, logs: &str, _worktree_path: &str) -> (r: Result<
        NormalizedConversation,
        String,
    >)
        ensures
            r is Ok,
            r->Ok_0@ == conversation_of(self.type_text(), logs@),
    {
        let (entries, session_id) = normalize_text(logs);
        Ok(
            NormalizedConversation {
                entries,
                session_id,
                executor_type: self.executor_type.clone(),
                prompt: None,
                summary: None,
            },
        )
    }
}

impl Default for CodexExecutor {
    fn default() -> (r: Self)
        ensures
            r.type_text() == "Codex"@,
            r.command_text()
                == "npx @openai/codex exec --dangerously-bypass-approvals-and-sandbox --skip-git-repo-check"@,
    {
        CodexExecutor::new()
    }
}

} // verus!
