//! Launching the agent: the prompt for a task, the process to start, and what
//! a failed launch reports. Starting the process is left to the caller.

use vstd::prelude::*;
use vstd::string::*;
use crate::executor::CodexExecutor;
use crate::model::opt_text;

verus! {

/// What a launch needs to know of a task.
#[derive(Debug, Clone, PartialEq)]
pub struct TaskFields {
    pub project_id: String,
    pub title: String,
    pub description: Option<String>,
}

/// A process to start: the program with its arguments, what it reads on
/// standard input, where it runs, and the environment variables forced on it.
#[derive(Debug, Clone, PartialEq)]
pub struct LaunchPlan {
    pub program: String,
    pub args: Vec<String>,
    pub stdin: String,
    pub working_dir: String,
    pub env: Vec<(String, String)>,
}

/// What is known of a launch that failed.
#[derive(Debug, Clone, PartialEq)]
pub struct SpawnContext {
    pub executor_type: String,
    pub command: String,
    pub args: Vec<String>,
    pub working_dir: String,
    pub task_id: Option<String>,
    pub task_title: Option<String>,
    pub additional_context: Option<String>,
}

/// Why a launch did not give a running process.
#[derive(Debug, Clone, PartialEq)]
pub enum ExecutorError {
    /// The task identifier names no task.
    TaskNotFound,
    /// The process could not be created.
    SpawnFailed { context: SpawnContext, cause: String },
}

/// The texts of a sequence of strings, one for one.
pub open spec fn string_texts(strings: Seq<String>) -> Seq<Seq<char>> {
    Seq::new(strings.len(), |i: int| strings[i]@)
}

/// The texts of a sequence of pairs of strings, one for one.
pub open spec fn pair_texts(pairs: Seq<(String, String)>) -> Seq<(Seq<char>, Seq<char>)> {
    Seq::new(pairs.len(), |i: int| (pairs[i].0@, pairs[i].1@))
}

/// The prompt for a task: the project, the title and, where the task has
/// one, the description.
pub open spec fn prompt_of(
    project_id: Seq<char>,
    title: Seq<char>,
    description: Option<Seq<char>>,
) -> Seq<char> {
    let head = "project_id: "@ + project_id + "\n            \nTask title: "@ + title;
    match description {
        Some(text) => head + "\nTask description: "@ + text,
        None => head,
    }
}

/// The environment forced on the agent.
pub open spec fn forced_env() -> Seq<(Seq<char>, Seq<char>)> {
    seq![("NODE_NO_WARNINGS"@, "1"@), ("RUST_LOG"@, "info"@)]
}

/// Whether a plan runs `command` through the given shell, with `stdin` on
/// standard input, in `working_dir`, under the forced environment.
pub open spec fn is_plan_for(
    plan: LaunchPlan,
    shell_cmd: Seq<char>,
    shell_arg: Seq<char>,
    command: Seq<char>,
    stdin: Seq<char>,
    working_dir: Seq<char>,
) -> bool {
    &&& plan.program@ == shell_cmd
    &&& string_texts(plan.args@) == seq![shell_arg, command]
    &&& plan.stdin@ == stdin
    &&& plan.working_dir@ == working_dir
    &&& pair_texts(plan.env@) == forced_env()
}

/// Whether a context describes the failed start of `plan` by an executor of
/// the given type.
pub open spec fn is_context_of(
    context: SpawnContext,
    executor_type: Seq<char>,
    plan: LaunchPlan,
    task_id: Option<Seq<char>>,
    task_title: Option<Seq<char>>,
    note: Seq<char>,
) -> bool {
    &&& context.executor_type@ == executor_type
    &&& context.command@ == plan.program@
    &&& string_texts(context.args@) == string_texts(plan.args@)
    &&& context.working_dir@ == plan.working_dir@
    &&& opt_text(context.task_id) == task_id
    &&& opt_text(context.task_title) == task_title
    &&& opt_text(context.additional_context) == Some(note)
}

/// Builds the prompt for a task.
pub fn task_prompt(project_id: &str, title: &str, description: Option<&str>) -> (r: String)
    ensures
        r@ == prompt_of(
            project_id@,
            title@,
            match description {
                Some(text) => Some(text@),
                None => None,
            },
        ),
{
    let head = String::from_str("project_id: ").concat(project_id).concat(
        "\n            \nTask title: ",
    ).concat(title);
    match description {
        Some(text) => head.concat("\nTask description: ").concat(text),
        None => head,
    }
}

fn copy_strings(strings: &Vec<String>) -> (r: Vec<String>)
    ensures
        string_texts(r@) == string_texts(strings@),
{
    let mut out: Vec<String> = Vec::new();
    let mut i: usize = 0;
    while i < strings.len()
        invariant
            i <= strings@.len(),
            out@.len() == i,
            forall|j: int| 0 <= j < i ==> out@[j]@ == strings@[j]@,
        decreases strings.len() - i,
    {
        out.push(strings[i].clone());
        i += 1;
    }
    out
}

fn context_of(
    executor_type: &str,
    plan: &LaunchPlan,
    task_id: Option<String>,
    task_title: Option<String>,
    note: String,
) -> (r: SpawnContext)
    ensures
        is_context_of(r, executor_type@, *plan, opt_text(task_id), opt_text(task_title), note@),
{
    SpawnContext {
        executor_type: String::from_str(executor_type),
        command: plan.program.clone(),
        args: copy_strings(&plan.args),
        working_dir: plan.working_dir.clone(),
        task_id,
        task_title,
        additional_context: Some(note),
    }
}

impl CodexExecutor {
    /// The process that runs the agent through the given shell, with the
    /// prompt on standard input.
    pub fn launch_plan(&self, shell_cmd: &str, shell_arg: &str, prompt: &str, worktree_path: &str) -> (r:
        LaunchPlan)
        ensures
            is_plan_for(r, shell_cmd@, shell_arg@, self.command_text(), prompt@, worktree_path@),
    {
        let mut args: Vec<String> = Vec::new();
        args.push(String::from_str(shell_arg));
        args.push(String::from_str(self.command()));
        let mut env: Vec<(String, String)> = Vec::new();
        env.push((String::from_str("NODE_NO_WARNINGS"), String::from_str("1")));
        env.push((String::from_str("RUST_LOG"), String::from_str("info")));
        assert(string_texts(args@) =~= seq![shell_arg@, self.command_text()]);
        assert(pair_texts(env@) =~= forced_env());
        LaunchPlan {
            program: String::from_str(shell_cmd),
            args,
            stdin: String::from_str(prompt),
            working_dir: String::from_str(worktree_path),
            env,
        }
    }

    /// The process to start for a new task, given what the task store holds
    /// under the task's identifier: `TaskNotFound` exactly where it holds
    /// nothing, else the plan that feeds the agent the task's prompt.
    pub fn plan_spawn(
        &self,
        task: &Option<TaskFields>,
        shell_cmd: &str,
        shell_arg: &str,
        worktree_path: &str,
    ) -> (r: Result<LaunchPlan, ExecutorError>)
        ensures
            match *task {
                Some(fields) => r matches Ok(plan) && is_plan_for(
                    plan,
                    shell_cmd@,
                    shell_arg@,
                    self.command_text(),
                    prompt_of(fields.project_id@, fields.title@, opt_text(fields.description)),
                    worktree_path@,
                ),
                None => r matches Err(ExecutorError::TaskNotFound),
            },
    {
        match task {
            Some(fields) => {
                let prompt = match &fields.description {
                    Some(text) => task_prompt(
                        fields.project_id.as_str(),
                        fields.title.as_str(),
                        Some(text.as_str()),
                    ),
                    None => task_prompt(fields.project_id.as_str(), fields.title.as_str(), None),
                };
                Ok(self.launch_plan(shell_cmd, shell_arg, prompt.as_str(), worktree_path))
            },
            None => Err(ExecutorError::TaskNotFound),
        }
    }

    /// The process to start for a follow-up prompt. The session identifier
    /// has no part in the plan: the agent is started as for a new task, with
    /// the caller's prompt.
    pub fn plan_followup(
        &self,
        _session_id: &str,
        prompt: &str,
        shell_cmd: &str,
        shell_arg: &str,
        worktree_path: &str,
    ) -> (r: LaunchPlan)
        ensures
            is_plan_for(r, shell_cmd@, shell_arg@, self.command_text(), prompt@, worktree_path@),
    {
        self.launch_plan(shell_cmd, shell_arg, prompt, worktree_path)
    }

    /// The error for a new task's process that could not be created: it
    /// carries the plan's command line, the task and the cause.
    pub fn spawn_failure(&self, plan: &LaunchPlan, task_id: &str, task_title: &str, cause: String) -> (r:
        ExecutorError)
        ensures
            r matches ExecutorError::SpawnFailed { context, cause: reported } && reported@
                == cause@ && is_context_of(
                context,
                self.type_text(),
                *plan,
                Some(task_id@),
                Some(task_title@),
                self.type_text() + " CLI execution for new task"@,
            ),
    {
        let note = String::from_str(self.executor_type()).concat(" CLI execution for new task");
        let context = context_of(
            self.executor_type(),
            plan,
            Some(String::from_str(task_id)),
            Some(String::from_str(task_title)),
            note,
        );
        ExecutorError::SpawnFailed { context, cause }
    }

    /// The error for a follow-up process that could not be created: it
    /// carries the plan's command line, the session and the cause, and no
    /// task.
    pub fn followup_failure(&self, plan: &LaunchPlan, session_id: &str, cause: String) -> (r:
        ExecutorError)
        ensures
            r matches ExecutorError::SpawnFailed { context, cause: reported } && reported@
                == cause@ && is_context_of(
                context,
                self.type_text(),
                *plan,
                None,
                None,
                self.type_text() + " CLI followup execution for session "@ + session_id@,
            ),
    {
        let note = String::from_str(self.executor_type()).concat(
            " CLI followup execution for session ",
        ).concat(session_id);
        let context = context_of(self.executor_type(), plan, None, None, note);
        ExecutorError::SpawnFailed { context, cause }
    }
}

} // verus!
