//! The deterministic keyword rules that stand in for the reasoning engine
//! once its retries are spent.

use vstd::prelude::*;
use crate::task::{new_task_view, FenrirTask, TaskView};
use crate::text::{chars_of, contains_str, has_substring, lower_of, lowercase};

verus! {

/// The fallback rules, in the order in which they are tried.
#[derive(Clone, Copy, Debug, PartialEq, Eq, Structural)]
pub enum FallbackRule {
    ListFiles,
    NetworkScan,
    SqlInjection,
    BruteForce,
    Discover,
    OpenSource,
    Build,
    RunBinary,
    Help,
}

pub open spec fn mentions_discovery(lower: Seq<char>) -> bool {
    ||| has_substring(lower, "ache"@)
    ||| has_substring(lower, "achar"@)
    ||| has_substring(lower, "encontre"@)
    ||| has_substring(lower, "encontrar"@)
    ||| has_substring(lower, "find"@)
    ||| has_substring(lower, "locate"@)
    ||| has_substring(lower, "discover"@)
}

/// The first rule that matches a lower-cased query.
pub open spec fn fallback_rule(lower: Seq<char>) -> Option<FallbackRule> {
    if has_substring(lower, "list"@) || has_substring(lower, "ls"@) {
        Some(FallbackRule::ListFiles)
    } else if has_substring(lower, "scan"@) || has_substring(lower, "nmap"@) {
        Some(FallbackRule::NetworkScan)
    } else if has_substring(lower, "sqlmap"@) || has_substring(lower, "sql injection"@) {
        Some(FallbackRule::SqlInjection)
    } else if has_substring(lower, "gobuster"@) || has_substring(lower, "brute force"@) {
        Some(FallbackRule::BruteForce)
    } else if mentions_discovery(lower) {
        Some(FallbackRule::Discover)
    } else if (has_substring(lower, "open"@) || has_substring(lower, "edit"@)) && has_substring(
        lower,
        ".rs"@,
    ) {
        Some(FallbackRule::OpenSource)
    } else if has_substring(lower, "compile"@) || has_substring(lower, "build"@) {
        Some(FallbackRule::Build)
    } else if has_substring(lower, "run"@) && has_substring(lower, "cargo"@) {
        Some(FallbackRule::RunBinary)
    } else if has_substring(lower, "help"@) || has_substring(lower, "--help"@) {
        Some(FallbackRule::Help)
    } else {
        None
    }
}

pub open spec fn rule_task_type(rule: FallbackRule) -> Seq<char> {
    match rule {
        FallbackRule::Discover => "gobuster"@,
        FallbackRule::OpenSource => "open_editor"@,
        _ => "execute_command"@,
    }
}

pub open spec fn rule_reason(rule: FallbackRule) -> Seq<char> {
    match rule {
        FallbackRule::ListFiles => "List files in the directory"@,
        FallbackRule::NetworkScan => "Run network scan"@,
        FallbackRule::SqlInjection => "Run SQLMap"@,
        FallbackRule::BruteForce => "Run directory brute force"@,
        FallbackRule::Discover => "Use gobuster tool to discover directories on a target"@,
        FallbackRule::OpenSource => "Open Rust file in editor"@,
        FallbackRule::Build => "Compile Rust project"@,
        FallbackRule::RunBinary => "Run Rust binary"@,
        FallbackRule::Help => "Show help information"@,
    }
}

pub open spec fn rule_command(rule: FallbackRule) -> Option<Seq<char>> {
    match rule {
        FallbackRule::ListFiles => Some("ls -lah"@),
        FallbackRule::NetworkScan => Some("nmap -sV localhost"@),
        FallbackRule::SqlInjection => Some("sqlmap --wizard"@),
        FallbackRule::BruteForce => Some("gobuster dir -u http://localhost"@),
        FallbackRule::Discover => None,
        FallbackRule::OpenSource => None,
        FallbackRule::Build => Some("cargo build"@),
        FallbackRule::RunBinary => Some("cargo run"@),
        FallbackRule::Help => Some("--help"@),
    }
}

/// The mark that begins the explanation of every synthesised task.
pub open spec fn fallback_mark() -> Seq<char> {
    "[FALLBACK] "@
}

/// The task that a rule synthesises: unconfirmed, no path, no application.
pub open spec fn rule_task(rule: FallbackRule) -> TaskView {
    new_task_view(
        rule_task_type(rule),
        fallback_mark() + rule_reason(rule),
        rule_command(rule),
        None,
        None,
    )
}

/// The task that the rules synthesise for a lower-cased query, if any rule matches.
pub open spec fn fallback_task(lower: Seq<char>) -> Option<TaskView> {
    match fallback_rule(lower) {
        Some(rule) => Some(rule_task(rule)),
        None => None,
    }
}

/// The first rule that matches a lower-cased query.
pub fn match_rule(lower: &str) -> (r: Option<FallbackRule>)
    ensures
        r == fallback_rule(lower@),
{
    let q = chars_of(lower);
    if contains_str(&q, "list") || contains_str(&q, "ls") {
        Some(FallbackRule::ListFiles)
    } else if contains_str(&q, "scan") || contains_str(&q, "nmap") {
        Some(FallbackRule::NetworkScan)
    } else if contains_str(&q, "sqlmap") || contains_str(&q, "sql injection") {
        Some(FallbackRule::SqlInjection)
    } else if contains_str(&q, "gobuster") || contains_str(&q, "brute force") {
        Some(FallbackRule::BruteForce)
    } else if contains_str(&q, "ache") || contains_str(&q, "achar") || contains_str(&q, "encontre")
        || contains_str(&q, "encontrar") || contains_str(&q, "find") || contains_str(&q, "locate")
        || contains_str(&q, "discover") {
        Some(FallbackRule::Discover)
    } else if (contains_str(&q, "open") || contains_str(&q, "edit")) && contains_str(&q, ".rs") {
        Some(FallbackRule::OpenSource)
    } else if contains_str(&q, "compile") || contains_str(&q, "build") {
        Some(FallbackRule::Build)
    } else if contains_str(&q, "run") && contains_str(&q, "cargo") {
        Some(FallbackRule::RunBinary)
    } else if contains_str(&q, "help") || contains_str(&q, "--help") {
        Some(FallbackRule::Help)
    } else {
        None
    }
}

/// The task that a rule synthesises.
pub fn rule_to_task(rule: FallbackRule) -> (r: FenrirTask)
    ensures
        r@ == rule_task(rule),
{
    let (task_type, reason, command): (&str, &str, Option<&str>) = match rule {
        FallbackRule::ListFiles => ("execute_command", "List files in the directory", Some("ls -lah")),
        FallbackRule::NetworkScan => ("execute_command", "Run network scan", Some("nmap -sV localhost")),
        FallbackRule::SqlInjection => ("execute_command", "Run SQLMap", Some("sqlmap --wizard")),
        FallbackRule::BruteForce => (
            "execute_command",
            "Run directory brute force",
            Some("gobuster dir -u http://localhost"),
        ),
        FallbackRule::Discover => (
            "gobuster",
            "Use gobuster tool to discover directories on a target",
            None,
        ),
        FallbackRule::OpenSource => ("open_editor", "Open Rust file in editor", None),
        FallbackRule::Build => ("execute_command", "Compile Rust project", Some("cargo build")),
        FallbackRule::RunBinary => ("execute_command", "Run Rust binary", Some("cargo run")),
        FallbackRule::Help => ("execute_command", "Show help information", Some("--help")),
    };
    let mut explanation = String::from_str("[FALLBACK] ");
    explanation.append(reason);
    let command_to_run = match command {
        Some(c) => Some(String::from_str(c)),
        None => None,
    };
    FenrirTask::new(String::from_str(task_type), explanation, command_to_run, None, None)
}

/// The fallback task for a query that is already lower-cased.
pub fn fallback_for_lowered(lower: &str) -> (r: Option<FenrirTask>)
    ensures
        match fallback_task(lower@) {
            Some(t) => r is Some && r->Some_0@ == t,
            None => r is None,
        },
{
    match match_rule(lower) {
        Some(rule) => Some(rule_to_task(rule)),
        None => None,
    }
}

/// The fallback task for a query, matched case-insensitively.
pub fn analyze_query_fallback(query: &str) -> (r: Option<FenrirTask>)
    ensures
        match fallback_task(lower_of(query@)) {
            Some(t) => r is Some && r->Some_0@ == t,
            None => r is None,
        },
{
    let lower = lowercase(query);
    fallback_for_lowered(lower.as_str())
}

/// Every synthesised task is unconfirmed, has spent no retries yet, and its
/// explanation begins with the fallback mark.
pub proof fn lemma_fallback_marked(lower: Seq<char>)
    requires
        fallback_task(lower) is Some,
    ensures
        !fallback_task(lower)->Some_0.is_confirmed,
        fallback_task(lower)->Some_0.retry_count == 0,
        fallback_task(lower)->Some_0.explanation.take(fallback_mark().len() as int) == fallback_mark(),
{
    let t = fallback_task(lower)->Some_0;
    let rule = fallback_rule(lower)->Some_0;
    assert(t.explanation.take(fallback_mark().len() as int) =~= fallback_mark());
}

} // verus!
