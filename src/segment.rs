//! Time segments: how long a shell command is expected to run, and the
//! deadline that each segment allows.

use vstd::prelude::*;
use crate::text::{chars_of, contains_str, has_prefix, has_substring, lower_of, lowercase, starts_with_str};
use std::time::Duration;

verus! {

#[derive(Clone, Copy, Debug, PartialEq, Eq, Structural)]
pub enum ExecutionTimeSegment {
    Quick,
    Medium,
    Long,
}

/// A lower-cased command that starts with a listing, print or read primitive,
/// or carries a version or help flag.
pub open spec fn quick_signal(lower: Seq<char>) -> bool {
    ||| has_prefix(lower, "ls "@)
    ||| has_prefix(lower, "pwd"@)
    ||| has_prefix(lower, "echo "@)
    ||| has_prefix(lower, "cat "@)
    ||| has_substring(lower, "--version"@)
    ||| has_substring(lower, "-h"@)
}

/// A lower-cased command that names a scanning, fuzzing or brute-force tool.
pub open spec fn long_signal(lower: Seq<char>) -> bool {
    ||| has_substring(lower, "nmap"@)
    ||| has_substring(lower, "sqlmap"@)
    ||| has_substring(lower, "gobuster"@)
    ||| has_substring(lower, "nikto"@)
    ||| has_substring(lower, "scan"@)
    ||| has_substring(lower, "fuzz"@)
}

/// The segment of a lower-cased command: quick signals take precedence over
/// long ones, and everything else is medium.
pub open spec fn segment_of(lower: Seq<char>) -> ExecutionTimeSegment {
    if quick_signal(lower) {
        ExecutionTimeSegment::Quick
    } else if long_signal(lower) {
        ExecutionTimeSegment::Long
    } else {
        ExecutionTimeSegment::Medium
    }
}

/// The segment of a command as written (case-insensitive).
pub open spec fn command_segment(command: Seq<char>) -> ExecutionTimeSegment {
    segment_of(lower_of(command))
}

pub open spec fn timeout_secs_of(seg: ExecutionTimeSegment) -> u64 {
    match seg {
        ExecutionTimeSegment::Quick => 10,
        ExecutionTimeSegment::Medium => 60,
        ExecutionTimeSegment::Long => 300,
    }
}

/// What `Duration::from_secs` returns for a number of seconds.
pub uninterp spec fn duration_from_secs(secs: u64) -> Duration;

/// Relies on `Duration::from_secs`: a duration of exactly `secs` seconds,
/// a function of `secs` alone.
#[verifier::external_body]
fn seconds(secs: u64) -> (d: Duration)
    ensures
        d == duration_from_secs(secs),
{
    Duration::from_secs(secs)
}

/// Classifies a command that is already lower-cased.
pub fn classify_lowered(lower: &str) -> (r: ExecutionTimeSegment)
    ensures
        r == segment_of(lower@),
{
    let cs = chars_of(lower);
    if starts_with_str(&cs, "ls ") || starts_with_str(&cs, "pwd") || starts_with_str(&cs, "echo ")
        || starts_with_str(&cs, "cat ") || contains_str(&cs, "--version") || contains_str(
        &cs,
        "-h",
    ) {
        return ExecutionTimeSegment::Quick;
    }
    if contains_str(&cs, "nmap") || contains_str(&cs, "sqlmap") || contains_str(&cs, "gobuster")
        || contains_str(&cs, "nikto") || contains_str(&cs, "scan") || contains_str(&cs, "fuzz") {
        return ExecutionTimeSegment::Long;
    }
    ExecutionTimeSegment::Medium
}

impl ExecutionTimeSegment {
    /// Classifies a command string, ignoring case.
    pub fn from_command(command: &str) -> (r: ExecutionTimeSegment)
        ensures
            r == command_segment(command@),
    {
        let lower = lowercase(command);
        classify_lowered(lower.as_str())
    }

    /// The longest time, in seconds, that a command of this segment may run.
    pub fn max_timeout_secs(&self) -> (r: u64)
        ensures
            r == timeout_secs_of(*self),
    {
        match self {
            ExecutionTimeSegment::Quick => 10,
            ExecutionTimeSegment::Medium => 60,
            ExecutionTimeSegment::Long => 300,
        }
    }

    /// The longest time that a command of this segment may run.
    pub fn max_timeout(&self) -> (r: Duration)
        ensures
            r == duration_from_secs(timeout_secs_of(*self)),
    {
        seconds(self.max_timeout_secs())
    }

    /// The segment's name, as the audit log writes it.
    pub fn label(&self) -> (r: &'static str)
        ensures
            r@ == segment_label(*self),
    {
        match self {
            ExecutionTimeSegment::Quick => "Quick",
            ExecutionTimeSegment::Medium => "Medium",
            ExecutionTimeSegment::Long => "Long",
        }
    }
}

pub open spec fn segment_label(seg: ExecutionTimeSegment) -> Seq<char> {
    match seg {
        ExecutionTimeSegment::Quick => "Quick"@,
        ExecutionTimeSegment::Medium => "Medium"@,
        ExecutionTimeSegment::Long => "Long"@,
    }
}

/// Segments are a function of the command: classifying it again gives the
/// same answer.
pub proof fn lemma_classification_deterministic(c1: Seq<char>, c2: Seq<char>)
    requires
        c1 == c2,
    ensures
        command_segment(c1) == command_segment(c2),
{
}

/// Classification ignores case: two commands with the same lower-case form
/// get the same segment.
pub proof fn lemma_classification_ignores_case(c1: Seq<char>, c2: Seq<char>)
    requires
        lower_of(c1) == lower_of(c2),
    ensures
        command_segment(c1) == command_segment(c2),
{
}

/// Quick signals win over long ones: a command with a version or help flag is
/// quick even when it names a scanning tool, and a command that names such a
/// tool and has no quick signal is long.
pub proof fn lemma_segment_precedence(lower: Seq<char>)
    ensures
        quick_signal(lower) ==> segment_of(lower) == ExecutionTimeSegment::Quick,
        !quick_signal(lower) && long_signal(lower) ==> segment_of(lower) == ExecutionTimeSegment::Long,
        !quick_signal(lower) && !long_signal(lower) ==> segment_of(lower) == ExecutionTimeSegment::Medium,
{
}

} // verus!
