use fenrir::card::{parse_task_card, read_card};
use fenrir::segment::ExecutionTimeSegment;

const LIST_REPLY: &str = "TASK_TYPE: execute_command\nEXPLANATION: The user wants to list the files in the current directory.\nCOMMAND: ls -l\nFILE: N/A\nAPP: N/A\n";

#[test]
fn list_reply_parses_to_quick_command() {
    let task = parse_task_card(LIST_REPLY).expect("valid card");
    assert_eq!(task.task_type, "execute_command");
    assert_eq!(task.ia_explanation, "The user wants to list the files in the current directory.");
    assert_eq!(task.command_to_run.as_deref(), Some("ls -l"));
    assert_eq!(task.target_path, None);
    assert_eq!(task.application, None);
    assert_eq!(task.tags, None);
    assert_eq!(task.time_segment, None);
    assert_eq!(task.retry_count, 0);
    assert!(!task.is_confirmed);
    let seg = ExecutionTimeSegment::from_command(task.command_to_run.as_deref().unwrap());
    assert_eq!(seg, ExecutionTimeSegment::Quick);
}

#[test]
fn unknown_keys_and_noise_are_ignored() {
    let reply = "Sure, here it is\nMOOD: cheerful\nTASK_TYPE: open_editor\n\nrandom line\nEXPLANATION: open it\nFILE: main.rs\nAPP: rustrover\nEXTRA: x: y";
    let task = parse_task_card(reply).expect("valid card");
    assert_eq!(task.task_type, "open_editor");
    assert_eq!(task.ia_explanation, "open it");
    assert_eq!(task.target_path.as_deref(), Some("main.rs"));
    assert_eq!(task.application.as_deref(), Some("rustrover"));
    assert_eq!(task.command_to_run, None);
}

#[test]
fn not_applicable_fields_are_absent() {
    let reply = "TASK_TYPE: unknown\nEXPLANATION: nothing to do\nCOMMAND: N/A\nFILE:   N/A  \nAPP:N/A";
    let task = parse_task_card(reply).expect("valid card");
    assert_eq!(task.command_to_run, None);
    assert_eq!(task.target_path, None);
    assert_eq!(task.application, None);
}

#[test]
fn not_applicable_mandatory_key_is_not_counted() {
    let reply = "TASK_TYPE: N/A\nEXPLANATION: something";
    assert!(parse_task_card(reply).is_err());
}

#[test]
fn reply_without_mandatory_keys_fails_with_raw_text() {
    let reply = "I cannot help with that.\nCOMMAND: ls";
    let err = parse_task_card(reply).unwrap_err();
    assert_eq!(
        err,
        "Oracle did not return a valid Task Card. Raw output: 'I cannot help with that.\nCOMMAND: ls'"
    );
}

#[test]
fn empty_reply_fails() {
    let err = parse_task_card("").unwrap_err();
    assert_eq!(err, "Oracle did not return a valid Task Card. Raw output: ''");
}

#[test]
fn one_mandatory_key_is_not_enough() {
    assert!(parse_task_card("TASK_TYPE: execute_command\nCOMMAND: ls").is_err());
    assert!(parse_task_card("EXPLANATION: just this").is_err());
    assert!(parse_task_card("TASK_TYPE: a\nTASK_TYPE: b").is_err());
}

#[test]
fn value_keeps_colons_after_the_first() {
    let reply = "TASK_TYPE: execute_command\nEXPLANATION: time\nCOMMAND: echo a:b:c";
    let task = parse_task_card(reply).unwrap();
    assert_eq!(task.command_to_run.as_deref(), Some("echo a:b:c"));
}

#[test]
fn keys_and_values_are_trimmed_and_crlf_tolerated() {
    let reply = "  TASK_TYPE  :  execute_command \r\n EXPLANATION:\tlist\r\nCOMMAND: ls -a\r\n";
    let task = parse_task_card(reply).unwrap();
    assert_eq!(task.task_type, "execute_command");
    assert_eq!(task.ia_explanation, "list");
    assert_eq!(task.command_to_run.as_deref(), Some("ls -a"));
}

#[test]
fn later_lines_override_earlier_ones() {
    let reply = "TASK_TYPE: unknown\nEXPLANATION: first\nTASK_TYPE: execute_command\nEXPLANATION: second";
    let task = parse_task_card(reply).unwrap();
    assert_eq!(task.task_type, "execute_command");
    assert_eq!(task.ia_explanation, "second");
}

#[test]
fn keys_are_case_sensitive() {
    assert!(parse_task_card("task_type: execute_command\nexplanation: x").is_err());
}

#[test]
fn read_card_collects_fields() {
    let card = read_card("COMMAND: ls\nAPP: vim\nFILE: N/A");
    assert_eq!(card.command.as_deref(), Some("ls"));
    assert_eq!(card.app.as_deref(), Some("vim"));
    assert_eq!(card.file, None);
    assert_eq!(card.task_type, None);
    assert_eq!(card.explanation, None);
}

#[test]
fn empty_explanation_fails_with_raw_text() {
    let reply = "TASK_TYPE: a\nEXPLANATION:";
    let err = parse_task_card(reply).unwrap_err();
    assert_eq!(err, format!("Oracle did not return a valid Task Card. Raw output: '{}'", reply));
    assert!(parse_task_card("TASK_TYPE: a\nEXPLANATION:   \t").is_err());
}

#[test]
fn later_empty_explanation_overrides_earlier_one() {
    assert!(parse_task_card("TASK_TYPE: a\nEXPLANATION: ok\nEXPLANATION: ").is_err());
    let t = parse_task_card("TASK_TYPE: a\nEXPLANATION: \nEXPLANATION: ok").unwrap();
    assert_eq!(t.ia_explanation, "ok");
}
