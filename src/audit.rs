//! The audit log's record: one self-delimited entry per task.

use vstd::prelude::*;
use crate::segment::{segment_label, ExecutionTimeSegment};
use crate::task::FenrirTask;
use crate::text::{decimal_of, decimal_text};

verus! {

/// The file that audit records are appended to.
pub const LOG_FILE: &'static str = "fenrir_tasks.log";

pub open spec fn segment_label_of(seg: Option<ExecutionTimeSegment>) -> Seq<char> {
    match seg {
        Some(s) => segment_label(s),
        None => "Unclassified"@,
    }
}

/// A record: the timestamp, the segment label, the retry count, then the dump
/// of the task's fields.
pub open spec fn audit_record_of(
    timestamp: Seq<char>,
    seg: Option<ExecutionTimeSegment>,
    retries: u32,
    dump: Seq<char>,
) -> Seq<char> {
    "\n--- [ "@ + timestamp + " ] (Segment: "@ + segment_label_of(seg) + ", Retries: "@
        + decimal_of(retries as nat) + ") ---\n"@ + dump + "\n"@
}

/// The label of a segment, or `Unclassified`.
pub fn segment_label_text(seg: Option<ExecutionTimeSegment>) -> (r: &'static str)
    ensures
        r@ == segment_label_of(seg),
{
    match seg {
        Some(s) => s.label(),
        None => "Unclassified",
    }
}

/// The record for `task`, stamped `timestamp`, with `dump` as its field dump.
pub fn audit_record(timestamp: &str, task: &FenrirTask, dump: &str) -> (r: String)
    ensures
        r@ == audit_record_of(timestamp@, task.time_segment, task.retry_count, dump@),
{
    let mut e = String::from_str("\n--- [ ");
    e.append(timestamp);
    e.append(" ] (Segment: ");
    e.append(segment_label_text(task.time_segment));
    e.append(", Retries: ");
    let count = decimal_text(task.retry_count);
    e.append(count.as_str());
    e.append(") ---\n");
    e.append(dump);
    e.append("\n");
    e
}

} // verus!
