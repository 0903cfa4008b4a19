use fenrir::dispatch::{
    command_timeout_secs, editor_choice, editor_command, plan_dispatch, tool_for, DispatchPlan,
    ToolKind,
};
use fenrir::segment::ExecutionTimeSegment;
use fenrir::task::FenrirTask;

fn confirmed(kind: &str, command: Option<&str>, path: Option<&str>, app: Option<&str>) -> FenrirTask {
    let mut t = FenrirTask::new(
        kind.to_string(),
        "because".to_string(),
        command.map(|s| s.to_string()),
        path.map(|s| s.to_string()),
        app.map(|s| s.to_string()),
    );
    t.is_confirmed = true;
    t
}

#[test]
fn unconfirmed_task_is_never_dispatched() {
    let mut t = confirmed("execute_command", Some("rm -rf /tmp/x"), None, None);
    t.is_confirmed = false;
    assert!(matches!(plan_dispatch(&t), DispatchPlan::NotConfirmed));
}

#[test]
fn command_runs_under_its_segment_deadline() {
    let mut t = confirmed("execute_command", Some("ls -l"), None, None);
    t.categorize_by_time();
    match plan_dispatch(&t) {
        DispatchPlan::RunCommand { command, timeout_secs } => {
            assert_eq!(command, "ls -l");
            assert_eq!(timeout_secs, 10);
        }
        other => panic!("unexpected plan {:?}", other),
    }
    let u = confirmed("execute_command", Some("make"), None, None);
    match plan_dispatch(&u) {
        DispatchPlan::RunCommand { timeout_secs, .. } => assert_eq!(timeout_secs, 60),
        other => panic!("unexpected plan {:?}", other),
    }
}

#[test]
fn command_task_without_command_is_a_validation_error() {
    let t = confirmed("execute_command", None, None, None);
    assert!(matches!(plan_dispatch(&t), DispatchPlan::MissingCommand));
}

#[test]
fn editor_plans() {
    let t = confirmed("open_editor", None, Some("main.rs"), Some("vim"));
    match plan_dispatch(&t) {
        DispatchPlan::OpenEditor { path, application } => {
            assert_eq!(path, "main.rs");
            assert_eq!(application.as_deref(), Some("vim"));
        }
        other => panic!("unexpected plan {:?}", other),
    }
    let u = confirmed("open_editor", None, None, Some("vim"));
    assert!(matches!(plan_dispatch(&u), DispatchPlan::MissingPath));
}

#[test]
fn tool_without_target_is_reported_and_skipped() {
    let t = confirmed("gobuster", None, None, None);
    assert!(matches!(plan_dispatch(&t), DispatchPlan::MissingTarget { tool: ToolKind::Gobuster }));
    let u = confirmed("gobuster", None, Some("http://example.com"), None);
    match plan_dispatch(&u) {
        DispatchPlan::RunTool { tool, target } => {
            assert_eq!(tool, ToolKind::Gobuster);
            assert_eq!(target, "http://example.com");
        }
        other => panic!("unexpected plan {:?}", other),
    }
}

#[test]
fn unknown_task_reports_its_explanation() {
    let t = confirmed("unknown", None, None, None);
    match plan_dispatch(&t) {
        DispatchPlan::NoAction { explanation } => assert_eq!(explanation, "because"),
        other => panic!("unexpected plan {:?}", other),
    }
}

#[test]
fn tool_names() {
    assert_eq!(tool_for("nmap"), Some(ToolKind::Nmap));
    assert_eq!(tool_for("sqlmap"), Some(ToolKind::Sqlmap));
    assert_eq!(tool_for("generate_report"), Some(ToolKind::Report));
    assert_eq!(tool_for("Nmap"), None);
}

#[test]
fn timeouts_for_segments() {
    assert_eq!(command_timeout_secs(None), 60);
    assert_eq!(command_timeout_secs(Some(ExecutionTimeSegment::Long)), 300);
}

#[test]
fn editor_commands() {
    assert_eq!(editor_command("RustRover", "main.rs", true), "open -a \"RustRover\" \"main.rs\"");
    assert_eq!(editor_command("vim", "a b.txt", false), "vim \"a b.txt\"");
}

#[test]
fn editor_menu() {
    assert_eq!(editor_choice("1").as_deref(), Some("Visual Studio Code"));
    assert_eq!(editor_choice(" 2\n").as_deref(), Some("TextEdit"));
    assert_eq!(editor_choice("3").as_deref(), Some("RustRover"));
    assert_eq!(editor_choice("4"), None);
}
