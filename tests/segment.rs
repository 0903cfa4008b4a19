use fenrir::segment::{classify_lowered, ExecutionTimeSegment};
use fenrir::task::FenrirTask;
use std::time::Duration;

#[test]
fn listing_with_version_flag_is_quick() {
    assert_eq!(ExecutionTimeSegment::from_command("ls --version"), ExecutionTimeSegment::Quick);
}

#[test]
fn scanner_with_version_flag_is_quick_by_precedence() {
    assert_eq!(ExecutionTimeSegment::from_command("nmap --version"), ExecutionTimeSegment::Quick);
    assert_eq!(
        ExecutionTimeSegment::from_command("nmap -sV --version localhost"),
        ExecutionTimeSegment::Quick
    );
}

#[test]
fn scanners_are_long() {
    assert_eq!(ExecutionTimeSegment::from_command("nmap -sV localhost"), ExecutionTimeSegment::Long);
    assert_eq!(ExecutionTimeSegment::from_command("sqlmap --wizard"), ExecutionTimeSegment::Long);
    assert_eq!(
        ExecutionTimeSegment::from_command("gobuster dir -u http://localhost"),
        ExecutionTimeSegment::Long
    );
    assert_eq!(ExecutionTimeSegment::from_command("ffuf -w list fuzz"), ExecutionTimeSegment::Long);
}

#[test]
fn classification_ignores_case() {
    assert_eq!(ExecutionTimeSegment::from_command("NMAP -sV localhost"), ExecutionTimeSegment::Long);
    assert_eq!(ExecutionTimeSegment::from_command("PWD"), ExecutionTimeSegment::Quick);
    assert_eq!(ExecutionTimeSegment::from_command("Echo hi"), ExecutionTimeSegment::Quick);
}

#[test]
fn other_commands_are_medium() {
    assert_eq!(ExecutionTimeSegment::from_command("cargo build"), ExecutionTimeSegment::Medium);
    assert_eq!(ExecutionTimeSegment::from_command(""), ExecutionTimeSegment::Medium);
    assert_eq!(ExecutionTimeSegment::from_command("ls"), ExecutionTimeSegment::Medium);
}

#[test]
fn classification_is_deterministic() {
    for c in ["ls -l", "nmap localhost", "make", "cat x", "tool -h"] {
        assert_eq!(ExecutionTimeSegment::from_command(c), ExecutionTimeSegment::from_command(c));
    }
}

#[test]
fn classify_lowered_does_not_fold_case() {
    assert_eq!(classify_lowered("NMAP"), ExecutionTimeSegment::Medium);
    assert_eq!(classify_lowered("nmap"), ExecutionTimeSegment::Long);
}

#[test]
fn timeouts_per_segment() {
    assert_eq!(ExecutionTimeSegment::Quick.max_timeout(), Duration::from_secs(10));
    assert_eq!(ExecutionTimeSegment::Medium.max_timeout(), Duration::from_secs(60));
    assert_eq!(ExecutionTimeSegment::Long.max_timeout(), Duration::from_secs(300));
    assert_eq!(ExecutionTimeSegment::Long.max_timeout_secs(), 300);
    assert_eq!(ExecutionTimeSegment::Medium.label(), "Medium");
}

#[test]
fn categorize_by_time_uses_the_command() {
    let mut t = FenrirTask::new(
        "execute_command".to_string(),
        "x".to_string(),
        Some("nmap -p 80 host".to_string()),
        None,
        None,
    );
    t.categorize_by_time();
    assert_eq!(t.time_segment, Some(ExecutionTimeSegment::Long));
    let mut u = FenrirTask::new("open_editor".to_string(), "y".to_string(), None, None, None);
    u.categorize_by_time();
    assert_eq!(u.time_segment, None);
}
