use fenrir::fallback::{analyze_query_fallback, fallback_for_lowered, match_rule, FallbackRule};
use fenrir::oracle::{oracle_prompt, oracle_step, AttemptOutcome, OracleStep, MAX_RETRIES};
use fenrir::segment::ExecutionTimeSegment;

fn expect_retry(step: OracleStep) -> u32 {
    match step {
        OracleStep::Retry(n) => n,
        _ => panic!("expected a retry"),
    }
}

#[test]
fn healthy_reply_is_done_and_classified() {
    let reply = "TASK_TYPE: execute_command\nEXPLANATION: list\nCOMMAND: ls -l\nFILE: N/A\nAPP: N/A";
    match oracle_step("list the files in the current folder", 0, AttemptOutcome::Reply(reply.to_string())) {
        OracleStep::Done(task) => {
            assert_eq!(task.command_to_run.as_deref(), Some("ls -l"));
            assert_eq!(task.target_path, None);
            assert_eq!(task.time_segment, Some(ExecutionTimeSegment::Quick));
            assert_eq!(task.retry_count, 0);
            assert!(!task.is_confirmed);
        }
        _ => panic!("expected a task"),
    }
}

#[test]
fn reply_after_one_retry_records_the_count() {
    let reply = "TASK_TYPE: execute_command\nEXPLANATION: build\nCOMMAND: cargo build";
    match oracle_step("build it", 1, AttemptOutcome::Reply(reply.to_string())) {
        OracleStep::Done(task) => {
            assert_eq!(task.retry_count, 1);
            assert_eq!(task.time_segment, Some(ExecutionTimeSegment::Medium));
        }
        _ => panic!("expected a task"),
    }
}

#[test]
fn timeouts_then_fallback_synthesises_scan() {
    let query = "scan the network";
    let mut rc = 0;
    let mut attempts = 0;
    let task = loop {
        attempts += 1;
        match oracle_step(query, rc, AttemptOutcome::TimedOut) {
            OracleStep::Retry(n) => {
                assert_eq!(n, rc + 1);
                assert!(n <= MAX_RETRIES);
                rc = n;
            }
            OracleStep::Done(task) => break task,
            OracleStep::Failed(e) => panic!("unexpected failure: {}", e),
        }
    };
    assert_eq!(attempts, 3);
    assert_eq!(task.task_type, "execute_command");
    assert_eq!(task.command_to_run.as_deref(), Some("nmap -sV localhost"));
    assert_eq!(task.retry_count, 2);
    assert!(!task.is_confirmed);
    assert!(task.ia_explanation.starts_with("[FALLBACK] "));
    assert_eq!(task.ia_explanation, "[FALLBACK] Run network scan");
    assert_eq!(task.time_segment, Some(ExecutionTimeSegment::Long));
}

#[test]
fn unparsable_reply_is_retried() {
    assert_eq!(expect_retry(oracle_step("q", 0, AttemptOutcome::Reply("no keys".to_string()))), 1);
    assert_eq!(expect_retry(oracle_step("q", 1, AttemptOutcome::ExitFailure("boom".to_string()))), 2);
    assert_eq!(expect_retry(oracle_step("q", 0, AttemptOutcome::LaunchFailure("missing".to_string()))), 1);
}

#[test]
fn unparsable_reply_surfaces_raw_text_when_exhausted() {
    match oracle_step("xyzzy", 2, AttemptOutcome::Reply("hello there".to_string())) {
        OracleStep::Failed(e) => {
            assert_eq!(
                e,
                "Request failed after 2 retries and fallback strategies could not resolve the query 'xyzzy': Oracle did not return a valid Task Card. Raw output: 'hello there'"
            );
        }
        _ => panic!("expected failure"),
    }
}

#[test]
fn exhausted_message_names_query_and_error() {
    match oracle_step("qqq", 2, AttemptOutcome::TimedOut) {
        OracleStep::Failed(e) => assert_eq!(
            e,
            "Request failed after 2 retries and fallback strategies could not resolve the query 'qqq': timeout"
        ),
        _ => panic!("expected failure"),
    }
    match oracle_step("qqq", 2, AttemptOutcome::ExitFailure("quota exceeded".to_string())) {
        OracleStep::Failed(e) => assert!(e.ends_with(": quota exceeded")),
        _ => panic!("expected failure"),
    }
}

#[test]
fn prompt_embeds_query_and_protocol() {
    let p = oracle_prompt("open main.rs");
    assert!(p.contains("NOW, THE USER'S QUERY IS:\n'open main.rs'\n"));
    assert!(p.contains("TASK_TYPE: [execute_command | open_editor | unknown]"));
    assert!(p.ends_with("GENERATE ONLY THE TASK CARD.\n"));
}

#[test]
fn fallback_rules_in_order() {
    assert_eq!(match_rule("list stuff"), Some(FallbackRule::ListFiles));
    assert_eq!(match_rule("ls and scan"), Some(FallbackRule::ListFiles));
    assert_eq!(match_rule("nmap it"), Some(FallbackRule::NetworkScan));
    assert_eq!(match_rule("try sql injection"), Some(FallbackRule::SqlInjection));
    assert_eq!(match_rule("brute force the site"), Some(FallbackRule::BruteForce));
    assert_eq!(match_rule("locate the admin page"), Some(FallbackRule::Discover));
    assert_eq!(match_rule("encontre o painel"), Some(FallbackRule::Discover));
    assert_eq!(match_rule("open main.rs"), Some(FallbackRule::OpenSource));
    assert_eq!(match_rule("compile"), Some(FallbackRule::Build));
    assert_eq!(match_rule("run with cargo"), Some(FallbackRule::RunBinary));
    assert_eq!(match_rule("help me"), Some(FallbackRule::Help));
    assert_eq!(match_rule("xyzzy"), None);
    assert_eq!(match_rule("open notes.txt"), None);
}

#[test]
fn fallback_is_case_insensitive() {
    let t = analyze_query_fallback("SCAN The Network").expect("rule");
    assert_eq!(t.command_to_run.as_deref(), Some("nmap -sV localhost"));
    assert!(fallback_for_lowered("SCAN").is_none());
}

#[test]
fn fallback_discover_has_no_command() {
    let t = analyze_query_fallback("find hidden directories").expect("rule");
    assert_eq!(t.task_type, "gobuster");
    assert_eq!(t.command_to_run, None);
    assert_eq!(t.ia_explanation, "[FALLBACK] Use gobuster tool to discover directories on a target");
    let e = analyze_query_fallback("edit lib.rs").expect("rule");
    assert_eq!(e.task_type, "open_editor");
    assert_eq!(e.target_path, None);
}

#[test]
fn fallback_commands() {
    let cmd = |q: &str| analyze_query_fallback(q).and_then(|t| t.command_to_run);
    assert_eq!(cmd("list").as_deref(), Some("ls -lah"));
    assert_eq!(cmd("sqlmap please").as_deref(), Some("sqlmap --wizard"));
    assert_eq!(cmd("gobuster").as_deref(), Some("gobuster dir -u http://localhost"));
    assert_eq!(cmd("build").as_deref(), Some("cargo build"));
    assert_eq!(cmd("cargo run").as_deref(), Some("cargo run"));
    assert_eq!(cmd("help").as_deref(), Some("--help"));
    assert!(analyze_query_fallback("").is_none());
}
