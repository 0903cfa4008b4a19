//! Filling in and confirming a task: the verification probes that propose
//! missing fields, the operator's confirm/reject/edit answers, the edits, and
//! the bounded loop that ties them together.

use vstd::prelude::*;
use vstd::string::StrSliceExecFns;
use crate::task::{categorized, list_opt, FenrirTask, TaskView};
use crate::text::{
    chars_of, lower_of, lowercase, piece_bounds, pieces, text_equals, trim_range, trim_text,
    trimmed,
};

verus! {

/// How many rounds of confirmation the loop allows.
pub const MAX_ITERATIONS: u32 = 5;

/// The command that the command probe proposes.
pub const PLACEHOLDER_COMMAND: &'static str = "echo 'Command to be determined'";

/// The path that the path probe proposes.
pub const PLACEHOLDER_PATH: &'static str = "./file.txt";

/// The command probe: a command task without a command gets the placeholder
/// command (and its segment); any other task is left to the other probe.
pub open spec fn command_probe(t: TaskView) -> Option<TaskView> {
    if t.task_type == "execute_command"@ && t.command is None {
        Some(categorized(TaskView { command: Some(PLACEHOLDER_COMMAND@), ..t }))
    } else {
        None
    }
}

/// The path probe: an editor task without a path gets the placeholder path.
pub open spec fn path_probe(t: TaskView) -> Option<TaskView> {
    if t.task_type == "open_editor"@ && t.target is None {
        Some(TaskView { target: Some(PLACEHOLDER_PATH@), ..t })
    } else {
        None
    }
}

/// A task lacking both command and path adopts the first probe result that is
/// not empty; any other task is left as it is.
pub open spec fn enhanced(t: TaskView) -> TaskView {
    if t.command is None && t.target is None {
        match command_probe(t) {
            Some(e) => e,
            None => match path_probe(t) {
                Some(e) => e,
                None => t,
            },
        }
    } else {
        t
    }
}

/// Checks whether a task needs a command, and proposes one.
pub fn verify_task_command(task: FenrirTask) -> (r: Option<FenrirTask>)
    ensures
        match command_probe(task@) {
            Some(e) => r is Some && r->Some_0@ == e,
            None => r is None,
        },
{
    if !text_equals(task.task_type.as_str(), "execute_command") || task.command_to_run.is_some() {
        return None;
    }
    let mut enhanced = task;
    enhanced.command_to_run = Some(String::from_str(PLACEHOLDER_COMMAND));
    enhanced.categorize_by_time();
    Some(enhanced)
}

/// Checks whether a task needs a path, and proposes one.
pub fn verify_task_paths(task: FenrirTask) -> (r: Option<FenrirTask>)
    ensures
        match path_probe(task@) {
            Some(e) => r is Some && r->Some_0@ == e,
            None => r is None,
        },
{
    if !text_equals(task.task_type.as_str(), "open_editor") || task.target_path.is_some() {
        return None;
    }
    let mut enhanced = task;
    enhanced.target_path = Some(String::from_str(PLACEHOLDER_PATH));
    Some(enhanced)
}

/// Runs both probes on a task that lacks command and path, and adopts the
/// first result that is not empty, as a whole.
pub fn enhance_task(task: FenrirTask) -> (r: FenrirTask)
    ensures
        r@ == enhanced(task@),
{
    if task.command_to_run.is_some() || task.target_path.is_some() {
        return task;
    }
    let by_command = verify_task_command(task.duplicate());
    if let Some(e) = by_command {
        return e;
    }
    let by_path = verify_task_paths(task.duplicate());
    match by_path {
        Some(e) => e,
        None => task,
    }
}

/// The operator's answer to a proposed task.
#[derive(Clone, Copy, Debug, PartialEq, Eq, Structural)]
pub enum ConfirmResponse {
    Affirm,
    Reject,
    Edit,
    Invalid,
}

/// The answer that a normalised (trimmed, lower-cased) line stands for.
pub open spec fn confirmation_of(s: Seq<char>) -> ConfirmResponse {
    if s == "y"@ || s == "yes"@ {
        ConfirmResponse::Affirm
    } else if s == "n"@ || s == "no"@ {
        ConfirmResponse::Reject
    } else if s == "edit"@ {
        ConfirmResponse::Edit
    } else {
        ConfirmResponse::Invalid
    }
}

/// The answer that a normalised line stands for.
pub fn confirmation_for_normalized(s: &str) -> (r: ConfirmResponse)
    ensures
        r == confirmation_of(s@),
{
    if text_equals(s, "y") || text_equals(s, "yes") {
        ConfirmResponse::Affirm
    } else if text_equals(s, "n") || text_equals(s, "no") {
        ConfirmResponse::Reject
    } else if text_equals(s, "edit") {
        ConfirmResponse::Edit
    } else {
        ConfirmResponse::Invalid
    }
}

/// Normalises a line of operator input (trimmed, then lower-cased) into an answer.
pub fn parse_confirmation(input: &str) -> (r: ConfirmResponse)
    ensures
        r == confirmation_of(lower_of(trimmed(input@))),
{
    let t = trim_text(input);
    let lower = lowercase(t.as_str());
    confirmation_for_normalized(lower.as_str())
}

/// The field that an edit replaces.
#[derive(Clone, Copy, Debug, PartialEq, Eq, Structural)]
pub enum EditTarget {
    TaskType,
    Explanation,
    Command,
    TargetPath,
    Tags,
}

/// The edit that a trimmed menu choice selects; any other choice ends editing.
pub open spec fn edit_choice_of(s: Seq<char>) -> Option<EditTarget> {
    if s == "1"@ {
        Some(EditTarget::TaskType)
    } else if s == "2"@ {
        Some(EditTarget::Explanation)
    } else if s == "3"@ {
        Some(EditTarget::Command)
    } else if s == "4"@ {
        Some(EditTarget::TargetPath)
    } else if s == "5"@ {
        Some(EditTarget::Tags)
    } else {
        None
    }
}

/// Reads a menu choice from a line of operator input.
pub fn parse_edit_choice(input: &str) -> (r: Option<EditTarget>)
    ensures
        r == edit_choice_of(trimmed(input@)),
{
    let t = trim_text(input);
    let s = t.as_str();
    if text_equals(s, "1") {
        Some(EditTarget::TaskType)
    } else if text_equals(s, "2") {
        Some(EditTarget::Explanation)
    } else if text_equals(s, "3") {
        Some(EditTarget::Command)
    } else if text_equals(s, "4") {
        Some(EditTarget::TargetPath)
    } else if text_equals(s, "5") {
        Some(EditTarget::Tags)
    } else {
        None
    }
}

/// The trimmed, non-empty entries among comma-separated pieces, in order.
pub open spec fn kept_tags(parts: Seq<Seq<char>>) -> Seq<Seq<char>>
    decreases parts.len(),
{
    if parts.len() == 0 {
        Seq::empty()
    } else {
        let init = kept_tags(parts.drop_last());
        let t = trimmed(parts.last());
        if t.len() > 0 {
            init.push(t)
        } else {
            init
        }
    }
}

/// The tags that a comma-separated input gives: absent when no entry is left.
pub open spec fn tags_of(input: Seq<char>) -> Option<Seq<Seq<char>>> {
    let t = kept_tags(pieces(input, ','));
    if t.len() == 0 {
        None
    } else {
        Some(t)
    }
}

/// Splits a comma-separated input into trimmed, non-empty tags; `None` when
/// none is left.
pub fn parse_tags(input: &str) -> (r: Option<Vec<String>>)
    ensures
        list_opt(r) == tags_of(input@),
{
    let cs = chars_of(input);
    let bounds = piece_bounds(&cs, ',');
    let ghost parts = pieces(input@, ',');
    let mut out: Vec<String> = Vec::new();
    let mut k: usize = 0;
    while k < bounds.len()
        invariant
            cs@ == input@,
            parts == pieces(cs@, ','),
            bounds@.len() == parts.len(),
            forall|j: int| 0 <= j < bounds@.len() ==> #[trigger] bounds@[j].0 <= bounds@[j].1 <= cs@.len(),
            forall|j: int|
                0 <= j < bounds@.len() ==> cs@.subrange(bounds@[j].0 as int, bounds@[j].1 as int)
                    == #[trigger] parts[j],
            k <= bounds@.len(),
            out.deep_view() == kept_tags(parts.take(k as int)),
        decreases bounds.len() - k,
    {
        let (lo, hi) = bounds[k];
        assert(bounds@[k as int].0 <= bounds@[k as int].1 <= cs@.len());
        let (a, b) = trim_range(&cs, lo, hi);
        assert(parts.take(k + 1).drop_last() =~= parts.take(k as int));
        assert(parts.take(k + 1).last() == parts[k as int]);
        if a < b {
            let ghost before = out.deep_view();
            out.push(String::from_str(input.substring_char(a, b)));
            assert(out.deep_view() =~= before.push(cs@.subrange(a as int, b as int)));
        }
        k = k + 1;
    }
    assert(parts.take(bounds@.len() as int) =~= parts);
    if out.len() == 0 {
        None
    } else {
        Some(out)
    }
}

/// `t` after replacing one field with the operator's input (trimmed); a new
/// command re-derives the segment.
pub open spec fn edited(t: TaskView, target: EditTarget, input: Seq<char>) -> TaskView {
    let v = trimmed(input);
    match target {
        EditTarget::TaskType => TaskView { task_type: v, ..t },
        EditTarget::Explanation => TaskView { explanation: v, ..t },
        EditTarget::Command => categorized(TaskView { command: Some(v), ..t }),
        EditTarget::TargetPath => TaskView { target: Some(v), ..t },
        EditTarget::Tags => TaskView { tags: tags_of(v), ..t },
    }
}

/// Replaces the chosen field of `task` with the operator's input.
pub fn apply_edit(task: &mut FenrirTask, target: EditTarget, input: &str)
    ensures
        final(task)@ == edited(old(task)@, target, input@),
{
    let v = trim_text(input);
    match target {
        EditTarget::TaskType => {
            task.task_type = v;
        },
        EditTarget::Explanation => {
            task.ia_explanation = v;
        },
        EditTarget::Command => {
            task.command_to_run = Some(v);
            task.categorize_by_time();
        },
        EditTarget::TargetPath => {
            task.target_path = Some(v);
        },
        EditTarget::Tags => {
            task.tags = parse_tags(v.as_str());
        },
    }
}

/// Where the confirmation loop stands.
#[derive(Clone, Copy, Debug, PartialEq, Eq, Structural)]
pub enum FillStatus {
    /// Waiting for the next answer.
    Running,
    /// The operator affirmed the task.
    Confirmed,
    /// The operator rejected the task.
    Rejected,
    /// The rounds ran out without an affirm or reject.
    Exhausted,
}

/// The loop's position after an answer given in round `rounds + 1`.
pub open spec fn fill_next(rounds: u32, status: FillStatus, r: ConfirmResponse) -> (u32, FillStatus) {
    if status != FillStatus::Running {
        (rounds, status)
    } else {
        match r {
            ConfirmResponse::Affirm => (rounds, FillStatus::Confirmed),
            ConfirmResponse::Reject => (rounds, FillStatus::Rejected),
            _ => if rounds + 1 >= MAX_ITERATIONS {
                ((rounds + 1) as u32, FillStatus::Exhausted)
            } else {
                ((rounds + 1) as u32, FillStatus::Running)
            },
        }
    }
}

/// The loop's position after a sequence of answers.
pub open spec fn fill_run(rounds: u32, status: FillStatus, rs: Seq<ConfirmResponse>) -> (u32, FillStatus)
    decreases rs.len(),
{
    if rs.len() == 0 {
        (rounds, status)
    } else {
        let (n, s) = fill_next(rounds, status, rs[0]);
        fill_run(n, s, rs.drop_first())
    }
}

/// How many answers of `rs` the loop takes before it stops.
pub open spec fn answers_taken(rounds: u32, status: FillStatus, rs: Seq<ConfirmResponse>) -> nat
    decreases rs.len(),
{
    if rs.len() == 0 || status != FillStatus::Running {
        0
    } else {
        let (n, s) = fill_next(rounds, status, rs[0]);
        1 + answers_taken(n, s, rs.drop_first())
    }
}

/// The confirmation loop over one task.
pub struct TaskFiller {
    pub task: FenrirTask,
    /// Rounds spent without an affirm or reject.
    pub rounds: u32,
    pub status: FillStatus,
}

impl TaskFiller {
    /// The loop's invariant: a running loop has rounds left, and the task is
    /// confirmed exactly when the operator affirmed it.
    pub open spec fn wf(&self) -> bool {
        &&& self.rounds <= MAX_ITERATIONS
        &&& self.status == FillStatus::Running ==> self.rounds < MAX_ITERATIONS
        &&& self.task.is_confirmed <==> self.status == FillStatus::Confirmed
    }

    /// Starts the loop on a task, which stays unconfirmed until affirmed.
    pub fn new(task: FenrirTask) -> (r: TaskFiller)
        ensures
            r.wf(),
            r.task@ == (TaskView { is_confirmed: false, ..task@ }),
            r.rounds == 0,
            r.status == FillStatus::Running,
    {
        let mut task = task;
        task.is_confirmed = false;
        TaskFiller { task, rounds: 0, status: FillStatus::Running }
    }

    pub fn is_running(&self) -> (r: bool)
        ensures
            r == (self.status == FillStatus::Running),
    {
        self.status == FillStatus::Running
    }

    /// The task lacks both a command and a path.
    pub fn needs_enhancement(&self) -> (r: bool)
        ensures
            r == (self.task@.command is None && self.task@.target is None),
    {
        self.task.command_to_run.is_none() && self.task.target_path.is_none()
    }

    /// Replaces the task, as a whole, with what the probes propose.
    pub fn enhance(&mut self)
        requires
            old(self).wf(),
            old(self).status == FillStatus::Running,
        ensures
            final(self).wf(),
            final(self).task@ == enhanced(old(self).task@),
            final(self).rounds == old(self).rounds,
            final(self).status == old(self).status,
    {
        let t = self.task.duplicate();
        self.task = enhance_task(t);
    }

    /// Replaces one field of the task with the operator's input.
    pub fn edit(&mut self, target: EditTarget, input: &str)
        requires
            old(self).wf(),
            old(self).status == FillStatus::Running,
        ensures
            final(self).wf(),
            final(self).task@ == edited(old(self).task@, target, input@),
            final(self).rounds == old(self).rounds,
            final(self).status == old(self).status,
    {
        apply_edit(&mut self.task, target, input);
    }

    /// Takes the operator's answer for this round: affirm confirms the task,
    /// reject ends the loop, anything else spends the round.
    pub fn respond(&mut self, response: ConfirmResponse)
        requires
            old(self).wf(),
        ensures
            final(self).wf(),
            (final(self).rounds, final(self).status) == fill_next(
                old(self).rounds,
                old(self).status,
                response,
            ),
            final(self).task@ == (TaskView {
                is_confirmed: old(self).task.is_confirmed || (old(self).status
                    == FillStatus::Running && response == ConfirmResponse::Affirm),
                ..old(self).task@
            }),
    {
        if self.status != FillStatus::Running {
            return;
        }
        match response {
            ConfirmResponse::Affirm => {
                self.task.is_confirmed = true;
                self.status = FillStatus::Confirmed;
            },
            ConfirmResponse::Reject => {
                self.status = FillStatus::Rejected;
            },
            _ => {
                self.rounds = self.rounds + 1;
                if self.rounds >= MAX_ITERATIONS {
                    self.status = FillStatus::Exhausted;
                }
            },
        }
    }
}

/// The loop stops within `MAX_ITERATIONS` rounds whatever the operator
/// answers, also when every answer is invalid: it takes at most
/// `MAX_ITERATIONS - rounds` answers, and after that many it has stopped.
pub proof fn lemma_fill_terminates(rounds: u32, status: FillStatus, rs: Seq<ConfirmResponse>)
    requires
        rounds <= MAX_ITERATIONS,
        status == FillStatus::Running ==> rounds < MAX_ITERATIONS,
    ensures
        answers_taken(rounds, status, rs) <= MAX_ITERATIONS - rounds,
        fill_run(rounds, status, rs).0 <= MAX_ITERATIONS,
        rs.len() >= MAX_ITERATIONS - rounds ==> fill_run(rounds, status, rs).1 != FillStatus::Running,
        status != FillStatus::Running ==> fill_run(rounds, status, rs).1 == status,
    decreases rs.len(),
{
    if rs.len() > 0 {
        let (n, s) = fill_next(rounds, status, rs[0]);
        lemma_fill_terminates(n, s, rs.drop_first());
    }
}

/// Only an affirmative answer confirms: a running loop that receives any other
/// answer leaves the task unconfirmed.
pub proof fn lemma_confirm_only_on_affirm(rounds: u32, r: ConfirmResponse)
    ensures
        fill_next(rounds, FillStatus::Running, r).1 == FillStatus::Confirmed <==> r
            == ConfirmResponse::Affirm,
{
}

} // verus!
