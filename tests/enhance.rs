use fenrir::enhance::{
    apply_edit, enhance_task, parse_confirmation, parse_edit_choice, parse_tags, verify_task_command,
    verify_task_paths, ConfirmResponse, EditTarget, FillStatus, TaskFiller, MAX_ITERATIONS,
};
use fenrir::segment::ExecutionTimeSegment;
use fenrir::task::FenrirTask;

fn task(kind: &str, command: Option<&str>, path: Option<&str>) -> FenrirTask {
    FenrirTask::new(
        kind.to_string(),
        "why".to_string(),
        command.map(|s| s.to_string()),
        path.map(|s| s.to_string()),
        None,
    )
}

#[test]
fn invalid_answers_exhaust_the_loop_in_five_rounds() {
    let mut f = TaskFiller::new(task("execute_command", Some("ls -l"), None));
    let mut answers = 0;
    while f.is_running() {
        let r = parse_confirmation("what?");
        assert_eq!(r, ConfirmResponse::Invalid);
        f.respond(r);
        answers += 1;
        assert!(answers <= 5);
    }
    assert_eq!(answers, MAX_ITERATIONS);
    assert_eq!(f.status, FillStatus::Exhausted);
    assert!(!f.task.is_confirmed);
}

#[test]
fn affirm_confirms_and_reject_does_not() {
    let mut f = TaskFiller::new(task("execute_command", Some("ls"), None));
    f.respond(parse_confirmation(" Yes "));
    assert_eq!(f.status, FillStatus::Confirmed);
    assert!(f.task.is_confirmed);
    let mut g = TaskFiller::new(task("execute_command", Some("ls"), None));
    g.respond(parse_confirmation("N"));
    assert_eq!(g.status, FillStatus::Rejected);
    assert!(!g.task.is_confirmed);
    g.respond(ConfirmResponse::Affirm);
    assert!(!g.task.is_confirmed);
}

#[test]
fn new_filler_resets_confirmation() {
    let mut t = task("execute_command", Some("ls"), None);
    t.is_confirmed = true;
    let f = TaskFiller::new(t);
    assert!(!f.task.is_confirmed);
    assert_eq!(f.rounds, 0);
}

#[test]
fn confirmation_answers() {
    assert_eq!(parse_confirmation("y"), ConfirmResponse::Affirm);
    assert_eq!(parse_confirmation("YES\n"), ConfirmResponse::Affirm);
    assert_eq!(parse_confirmation("no"), ConfirmResponse::Reject);
    assert_eq!(parse_confirmation("  Edit "), ConfirmResponse::Edit);
    assert_eq!(parse_confirmation("yep"), ConfirmResponse::Invalid);
    assert_eq!(parse_confirmation(""), ConfirmResponse::Invalid);
}

#[test]
fn edit_command_changes_only_command_and_segment() {
    let mut f = TaskFiller::new(task("execute_command", Some("ls -l"), Some("/tmp")));
    f.task.categorize_by_time();
    assert_eq!(f.task.time_segment, Some(ExecutionTimeSegment::Quick));
    assert_eq!(parse_confirmation("edit"), ConfirmResponse::Edit);
    let choice = parse_edit_choice("3").expect("menu choice");
    assert_eq!(choice, EditTarget::Command);
    f.edit(choice, "nmap -sV 10.0.0.1\n");
    f.respond(ConfirmResponse::Edit);
    assert_eq!(f.task.command_to_run.as_deref(), Some("nmap -sV 10.0.0.1"));
    assert_eq!(f.task.time_segment, Some(ExecutionTimeSegment::Long));
    assert_eq!(f.task.task_type, "execute_command");
    assert_eq!(f.task.ia_explanation, "why");
    assert_eq!(f.task.target_path.as_deref(), Some("/tmp"));
    assert_eq!(f.task.tags, None);
    assert_eq!(f.rounds, 1);
    assert_eq!(f.status, FillStatus::Running);
    assert!(!f.task.is_confirmed);
}

#[test]
fn edit_menu_choices() {
    assert_eq!(parse_edit_choice("1"), Some(EditTarget::TaskType));
    assert_eq!(parse_edit_choice(" 2 "), Some(EditTarget::Explanation));
    assert_eq!(parse_edit_choice("4"), Some(EditTarget::TargetPath));
    assert_eq!(parse_edit_choice("5"), Some(EditTarget::Tags));
    assert_eq!(parse_edit_choice("6"), None);
    assert_eq!(parse_edit_choice("x"), None);
}

#[test]
fn edit_other_fields() {
    let mut t = task("unknown", None, None);
    apply_edit(&mut t, EditTarget::TaskType, " open_editor ");
    apply_edit(&mut t, EditTarget::Explanation, "open the notes");
    apply_edit(&mut t, EditTarget::TargetPath, "notes.md");
    assert_eq!(t.task_type, "open_editor");
    assert_eq!(t.ia_explanation, "open the notes");
    assert_eq!(t.target_path.as_deref(), Some("notes.md"));
    apply_edit(&mut t, EditTarget::Tags, "web, , recon ,");
    assert_eq!(t.tags, Some(vec!["web".to_string(), "recon".to_string()]));
    apply_edit(&mut t, EditTarget::Tags, " , ,");
    assert_eq!(t.tags, None);
}

#[test]
fn tags_parsing() {
    assert_eq!(parse_tags("a,b"), Some(vec!["a".to_string(), "b".to_string()]));
    assert_eq!(parse_tags("  x  "), Some(vec!["x".to_string()]));
    assert_eq!(parse_tags(""), None);
    assert_eq!(parse_tags(",,,"), None);
    assert_eq!(parse_tags("one two, three"), Some(vec!["one two".to_string(), "three".to_string()]));
}

#[test]
fn command_probe_fills_placeholder() {
    let e = verify_task_command(task("execute_command", None, None)).expect("probe applies");
    assert_eq!(e.command_to_run.as_deref(), Some("echo 'Command to be determined'"));
    assert_eq!(e.time_segment, Some(ExecutionTimeSegment::Quick));
    assert!(verify_task_command(task("open_editor", None, None)).is_none());
    assert!(verify_task_command(task("execute_command", Some("ls"), None)).is_none());
}

#[test]
fn path_probe_fills_placeholder() {
    let e = verify_task_paths(task("open_editor", None, None)).expect("probe applies");
    assert_eq!(e.target_path.as_deref(), Some("./file.txt"));
    assert!(verify_task_paths(task("execute_command", None, None)).is_none());
}

#[test]
fn enhancement_adopts_the_applicable_probe() {
    let a = enhance_task(task("execute_command", None, None));
    assert_eq!(a.command_to_run.as_deref(), Some("echo 'Command to be determined'"));
    let b = enhance_task(task("open_editor", None, None));
    assert_eq!(b.target_path.as_deref(), Some("./file.txt"));
    assert_eq!(b.command_to_run, None);
    let c = enhance_task(task("unknown", None, None));
    assert_eq!(c.command_to_run, None);
    assert_eq!(c.target_path, None);
    let d = enhance_task(task("open_editor", Some("x"), None));
    assert_eq!(d.target_path, None);
}

#[test]
fn filler_enhances_incomplete_task() {
    let mut f = TaskFiller::new(task("open_editor", None, None));
    assert!(f.needs_enhancement());
    f.enhance();
    assert!(!f.needs_enhancement());
    assert_eq!(f.task.target_path.as_deref(), Some("./file.txt"));
}
