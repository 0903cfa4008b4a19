//! Dispatch: which action a task leads to, decided before anything runs.

use vstd::prelude::*;
use crate::segment::{timeout_secs_of, ExecutionTimeSegment};
use crate::task::{copy_text_opt, text_opt, FenrirTask, TaskView};
use crate::text::{text_equals, trim_text, trimmed};

verus! {

/// The deadline, in seconds, of a command that was never classified.
pub const DEFAULT_TIMEOUT_SECS: u64 = 60;

/// The external tools that a task can name.
#[derive(Clone, Copy, Debug, PartialEq, Eq, Structural)]
pub enum ToolKind {
    Gobuster,
    Nmap,
    Sqlmap,
    Report,
}

/// What the dispatcher does with a task.
#[derive(Debug)]
pub enum DispatchPlan {
    /// The operator has not affirmed the task: nothing runs.
    NotConfirmed,
    /// Run the command through the shell under this deadline.
    RunCommand { command: String, timeout_secs: u64 },
    /// A command task without a command.
    MissingCommand,
    /// Open the path; without an application the operator picks one.
    OpenEditor { path: String, application: Option<String> },
    /// An editor task without a path.
    MissingPath,
    /// Hand the target to the tool.
    RunTool { tool: ToolKind, target: String },
    /// A tool task without a target: reported, and skipped.
    MissingTarget { tool: ToolKind },
    /// No known action: the explanation says why.
    NoAction { explanation: String },
}

/// The model of a `DispatchPlan`.
pub enum PlanView {
    NotConfirmed,
    RunCommand { command: Seq<char>, timeout_secs: u64 },
    MissingCommand,
    OpenEditor { path: Seq<char>, application: Option<Seq<char>> },
    MissingPath,
    RunTool { tool: ToolKind, target: Seq<char> },
    MissingTarget { tool: ToolKind },
    NoAction { explanation: Seq<char> },
}

pub open spec fn plan_view(p: DispatchPlan) -> PlanView {
    match p {
        DispatchPlan::NotConfirmed => PlanView::NotConfirmed,
        DispatchPlan::RunCommand { command, timeout_secs } => PlanView::RunCommand {
            command: command@,
            timeout_secs,
        },
        DispatchPlan::MissingCommand => PlanView::MissingCommand,
        DispatchPlan::OpenEditor { path, application } => PlanView::OpenEditor {
            path: path@,
            application: text_opt(application),
        },
        DispatchPlan::MissingPath => PlanView::MissingPath,
        DispatchPlan::RunTool { tool, target } => PlanView::RunTool { tool, target: target@ },
        DispatchPlan::MissingTarget { tool } => PlanView::MissingTarget { tool },
        DispatchPlan::NoAction { explanation } => PlanView::NoAction { explanation: explanation@ },
    }
}

/// The plan runs something: a command, an editor or a tool.
pub open spec fn plan_acts(p: PlanView) -> bool {
    p is RunCommand || p is OpenEditor || p is RunTool
}

/// The tool that a task type names.
pub open spec fn tool_named(task_type: Seq<char>) -> Option<ToolKind> {
    if task_type == "gobuster"@ {
        Some(ToolKind::Gobuster)
    } else if task_type == "nmap"@ {
        Some(ToolKind::Nmap)
    } else if task_type == "sqlmap"@ {
        Some(ToolKind::Sqlmap)
    } else if task_type == "generate_report"@ {
        Some(ToolKind::Report)
    } else {
        None
    }
}

/// The deadline of a command: its segment's, or the default when unclassified.
pub open spec fn timeout_of(seg: Option<ExecutionTimeSegment>) -> u64 {
    match seg {
        Some(s) => timeout_secs_of(s),
        None => DEFAULT_TIMEOUT_SECS,
    }
}

/// The plan for a task.
pub open spec fn plan_of(t: TaskView) -> PlanView {
    if !t.is_confirmed {
        PlanView::NotConfirmed
    } else if t.task_type == "execute_command"@ {
        match t.command {
            Some(c) => PlanView::RunCommand { command: c, timeout_secs: timeout_of(t.time_segment) },
            None => PlanView::MissingCommand,
        }
    } else if t.task_type == "open_editor"@ {
        match t.target {
            Some(p) => PlanView::OpenEditor { path: p, application: t.application },
            None => PlanView::MissingPath,
        }
    } else {
        match tool_named(t.task_type) {
            Some(k) => match t.target {
                Some(x) => PlanView::RunTool { tool: k, target: x },
                None => PlanView::MissingTarget { tool: k },
            },
            None => PlanView::NoAction { explanation: t.explanation },
        }
    }
}

/// The deadline, in seconds, of a command of the given segment.
pub fn command_timeout_secs(seg: Option<ExecutionTimeSegment>) -> (r: u64)
    ensures
        r == timeout_of(seg),
{
    match seg {
        Some(s) => s.max_timeout_secs(),
        None => DEFAULT_TIMEOUT_SECS,
    }
}

/// The tool that a task type names.
pub fn tool_for(task_type: &str) -> (r: Option<ToolKind>)
    ensures
        r == tool_named(task_type@),
{
    if text_equals(task_type, "gobuster") {
        Some(ToolKind::Gobuster)
    } else if text_equals(task_type, "nmap") {
        Some(ToolKind::Nmap)
    } else if text_equals(task_type, "sqlmap") {
        Some(ToolKind::Sqlmap)
    } else if text_equals(task_type, "generate_report") {
        Some(ToolKind::Report)
    } else {
        None
    }
}

/// Decides what a task leads to; an unconfirmed task leads to nothing.
pub fn plan_dispatch(task: &FenrirTask) -> (r: DispatchPlan)
    ensures
        plan_view(r) == plan_of(task@),
{
    if !task.is_confirmed {
        return DispatchPlan::NotConfirmed;
    }
    let kind = task.task_type.as_str();
    if text_equals(kind, "execute_command") {
        match &task.command_to_run {
            Some(c) => DispatchPlan::RunCommand {
                command: c.clone(),
                timeout_secs: command_timeout_secs(task.time_segment),
            },
            None => DispatchPlan::MissingCommand,
        }
    } else if text_equals(kind, "open_editor") {
        match &task.target_path {
            Some(p) => DispatchPlan::OpenEditor {
                path: p.clone(),
                application: copy_text_opt(&task.application),
            },
            None => DispatchPlan::MissingPath,
        }
    } else {
        match tool_for(kind) {
            Some(k) => match &task.target_path {
                Some(x) => DispatchPlan::RunTool { tool: k, target: x.clone() },
                None => DispatchPlan::MissingTarget { tool: k },
            },
            None => DispatchPlan::NoAction { explanation: task.ia_explanation.clone() },
        }
    }
}

/// Nothing is dispatched for a task that the operator has not affirmed.
pub proof fn lemma_unconfirmed_never_dispatched(t: TaskView)
    ensures
        plan_acts(plan_of(t)) ==> t.is_confirmed,
        !t.is_confirmed ==> plan_of(t) == PlanView::NotConfirmed,
{
}

/// The editor that a trimmed menu choice picks; any other choice cancels.
pub open spec fn editor_of(choice: Seq<char>) -> Option<Seq<char>> {
    if choice == "1"@ {
        Some("Visual Studio Code"@)
    } else if choice == "2"@ {
        Some("TextEdit"@)
    } else if choice == "3"@ {
        Some("RustRover"@)
    } else {
        None
    }
}

/// Reads the operator's pick from the menu of default editors.
pub fn editor_choice(input: &str) -> (r: Option<String>)
    ensures
        text_opt(r) == editor_of(trimmed(input@)),
{
    let t = trim_text(input);
    let s = t.as_str();
    if text_equals(s, "1") {
        Some(String::from_str("Visual Studio Code"))
    } else if text_equals(s, "2") {
        Some(String::from_str("TextEdit"))
    } else if text_equals(s, "3") {
        Some(String::from_str("RustRover"))
    } else {
        None
    }
}

/// The shell command that opens `path` with `app`: through `open -a` on macOS,
/// by running the application with the path elsewhere.
pub open spec fn editor_command_text(app: Seq<char>, path: Seq<char>, macos: bool) -> Seq<char> {
    if macos {
        "open -a \""@ + app + "\" \""@ + path + "\""@
    } else {
        app + " \""@ + path + "\""@
    }
}

pub fn editor_command(app: &str, path: &str, macos: bool) -> (r: String)
    ensures
        r@ == editor_command_text(app@, path@, macos),
{
    if macos {
        let mut c = String::from_str("open -a \"");
        c.append(app);
        c.append("\" \"");
        c.append(path);
        c.append("\"");
        c
    } else {
        let mut c = String::from_str(app);
        c.append(" \"");
        c.append(path);
        c.append("\"");
        c
    }
}

} // verus!
