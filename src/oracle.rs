//! The decisions around the reasoning engine: the prompt sent to it, and the
//! bounded retry/fallback state machine that turns each attempt's outcome
//! into the next step.

use vstd::prelude::*;
use crate::card::{card_of, card_task, parse_task_card, protocol_error, protocol_error_text, reply_parses};
use crate::fallback::{analyze_query_fallback, fallback_mark, fallback_rule, fallback_task, rule_task, FallbackRule};
use crate::segment::command_segment;
use crate::task::{categorized, FenrirTask, TaskView};
use crate::text::{decimal_of, decimal_text, lower_of};

verus! {

/// How many times a failed attempt is retried before the fallback rules run.
pub const MAX_RETRIES: u32 = 2;

/// How long, in seconds, one attempt may take.
pub const ORACLE_TIMEOUT_SECS: u64 = 60;

/// How long, in milliseconds, to wait before a retry.
pub const RETRY_BACKOFF_MILLIS: u64 = 500;

pub const PROMPT_HEAD: &'static str = "
You are an Oracle for a Rust CLI named Fenrir.
Your ONLY function is to translate the user's natural language into a TASK CARD in Markdown format.
DO NOT respond with explanations. DO NOT chat. ONLY THE TASK CARD.
Use \"N/A\" for non-applicable fields.

The Task Card format is:
TASK_TYPE: [execute_command | open_editor | unknown]
EXPLANATION: [What you understood the user wants, in English.]
COMMAND: [The full shell command. (N/A if not 'execute_command')]
FILE: [The target file or folder. (N/A if not 'open_editor')]
APP: [The application to open with. (N/A if not 'open_editor')]

--- Standard Examples ---
Query: \"list the files in the current folder\"
Task Card:
TASK_TYPE: execute_command
EXPLANATION: The user wants to list the files in the current directory.
COMMAND: ls -l
FILE: N/A
APP: N/A

Query: \"open main.rs in rustrover\"
Task Card:
TASK_TYPE: open_editor
EXPLANATION: The user wants to open the file 'main.rs' in 'rustrover'.
COMMAND: N/A
FILE: main.rs
APP: rustrover

--- Tool Examples (SecOps) ---
Query: \"scan the ports of localhost\"
Task Card:
TASK_TYPE: execute_command
EXPLANATION: The user wants to run a version scan (sV) with Nmap on 'localhost'.
COMMAND: nmap -sV localhost
FILE: N/A
APP: N/A

Query: \"start the metasploit console\"
Task Card:
TASK_TYPE: execute_command
EXPLANATION: The user wants to start the Metasploit console.
COMMAND: msfconsole
FILE: N/A
APP: N/A

NOW, THE USER'S QUERY IS:
'";

pub const PROMPT_TAIL: &'static str = "'

GENERATE ONLY THE TASK CARD.
";

/// The prompt for a query: the protocol, worked examples, then the query itself.
pub fn oracle_prompt(query: &str) -> (r: String)
    ensures
        r@ == PROMPT_HEAD@ + query@ + PROMPT_TAIL@,
{
    let mut p = String::from_str(PROMPT_HEAD);
    p.append(query);
    p.append(PROMPT_TAIL);
    p
}

/// What one invocation of the reasoning engine came to.
pub enum AttemptOutcome {
    /// The process exited with status zero; its standard output.
    Reply(String),
    /// The process exited with a failure status; its standard error.
    ExitFailure(String),
    /// The process could not be started or read; the reason.
    LaunchFailure(String),
    /// The deadline passed before the process finished.
    TimedOut,
}

/// What to do after an attempt.
pub enum OracleStep {
    /// A task was obtained, from the reply or from the fallback rules.
    Done(FenrirTask),
    /// Wait the backoff, then invoke again with this retry count.
    Retry(u32),
    /// Retries and fallback rules are exhausted: the message to report.
    Failed(String),
}

/// The model of an `OracleStep`.
pub enum StepView {
    Done(TaskView),
    Retry(u32),
    Failed(Seq<char>),
}

pub open spec fn step_view(s: OracleStep) -> StepView {
    match s {
        OracleStep::Done(t) => StepView::Done(t@),
        OracleStep::Retry(n) => StepView::Retry(n),
        OracleStep::Failed(e) => StepView::Failed(e@),
    }
}

/// The attempt produced a reply that parses as a card.
pub open spec fn attempt_succeeded(o: AttemptOutcome) -> bool {
    match o {
        AttemptOutcome::Reply(text) => reply_parses(text@),
        _ => false,
    }
}

/// The reason an attempt that did not succeed gives for its failure.
pub open spec fn attempt_error(o: AttemptOutcome) -> Seq<char> {
    match o {
        AttemptOutcome::Reply(text) => protocol_error_text(text@),
        AttemptOutcome::ExitFailure(stderr) => stderr@,
        AttemptOutcome::LaunchFailure(reason) => reason@,
        AttemptOutcome::TimedOut => "timeout"@,
    }
}

/// The message when neither the engine nor the fallback rules gave a task.
pub open spec fn exhausted_text(query: Seq<char>, retries: u32, error: Seq<char>) -> Seq<char> {
    "Request failed after "@ + decimal_of(retries as nat)
        + " retries and fallback strategies could not resolve the query '"@ + query + "': "@
        + error
}

/// `t` as emitted after `retries` retries: its segment derived, its retry count set.
pub open spec fn emitted(t: TaskView, retries: u32) -> TaskView {
    TaskView { retry_count: retries, ..categorized(t) }
}

/// The step after an attempt with retry count `rc`.
pub open spec fn step_spec(query: Seq<char>, rc: u32, o: AttemptOutcome) -> StepView {
    if attempt_succeeded(o) {
        StepView::Done(emitted(card_task(card_of(o->Reply_0@)), rc))
    } else if rc < MAX_RETRIES {
        StepView::Retry((rc + 1) as u32)
    } else {
        match fallback_task(lower_of(query)) {
            Some(t) => StepView::Done(emitted(t, rc)),
            None => StepView::Failed(exhausted_text(query, rc, attempt_error(o))),
        }
    }
}

/// The fallback rules are consulted on this step.
pub open spec fn uses_fallback(rc: u32, o: AttemptOutcome) -> bool {
    !attempt_succeeded(o) && rc >= MAX_RETRIES
}

fn attempt_error_text(outcome: AttemptOutcome) -> (r: String)
    ensures
        r@ == attempt_error(outcome),
{
    match outcome {
        AttemptOutcome::Reply(text) => protocol_error(text.as_str()),
        AttemptOutcome::ExitFailure(stderr) => stderr,
        AttemptOutcome::LaunchFailure(reason) => reason,
        AttemptOutcome::TimedOut => String::from_str("timeout"),
    }
}

/// Decides what follows an attempt made with retry count `retry_count`:
/// a parsed reply is done; a failure is retried while retries remain; after
/// that the fallback rules decide between a synthesised task and failure.
pub fn oracle_step(query: &str, retry_count: u32, outcome: AttemptOutcome) -> (r: OracleStep)
    requires
        retry_count <= MAX_RETRIES,
    ensures
        step_view(r) == step_spec(query@, retry_count, outcome),
{
    let ghost o = outcome;
    if let AttemptOutcome::Reply(text) = &outcome {
        if let Ok(mut task) = parse_task_card(text.as_str()) {
            task.categorize_by_time();
            task.retry_count = retry_count;
            return OracleStep::Done(task);
        }
    }
    if retry_count < MAX_RETRIES {
        return OracleStep::Retry(retry_count + 1);
    }
    match analyze_query_fallback(query) {
        Some(mut task) => {
            task.categorize_by_time();
            task.retry_count = retry_count;
            OracleStep::Done(task)
        },
        None => {
            let mut e = String::from_str("Request failed after ");
            let count = decimal_text(retry_count);
            e.append(count.as_str());
            e.append(" retries and fallback strategies could not resolve the query '");
            e.append(query);
            e.append("': ");
            let reason = attempt_error_text(outcome);
            e.append(reason.as_str());
            OracleStep::Failed(e)
        },
    }
}

/// Where a run of attempts stands: the last step taken (`Retry` while more
/// outcomes are awaited), how many attempts were made and how many times the
/// fallback rules were consulted.
pub struct RunView {
    pub last: StepView,
    pub attempts: nat,
    pub fallbacks: nat,
}

/// Feeds attempt outcomes to the state machine, starting at retry count `rc`,
/// until it stops or the outcomes run out.
pub open spec fn run_from(query: Seq<char>, rc: u32, outcomes: Seq<AttemptOutcome>) -> RunView
    decreases outcomes.len(),
{
    if outcomes.len() == 0 {
        RunView { last: StepView::Retry(rc), attempts: 0, fallbacks: 0 }
    } else {
        let o = outcomes[0];
        match step_spec(query, rc, o) {
            StepView::Retry(n) => {
                let rest = run_from(query, n, outcomes.drop_first());
                RunView { attempts: rest.attempts + 1, ..rest }
            },
            s => RunView {
                last: s,
                attempts: 1,
                fallbacks: if uses_fallback(rc, o) {
                    1
                } else {
                    0
                },
            },
        }
    }
}

/// One step: a retry raises the count by one and never past the maximum, and
/// the fallback rules are consulted exactly on a failure at the maximum.
pub proof fn lemma_step_bounds(query: Seq<char>, rc: u32, o: AttemptOutcome)
    requires
        rc <= MAX_RETRIES,
    ensures
        step_spec(query, rc, o) is Retry ==> step_spec(query, rc, o)->Retry_0 == rc + 1
            && step_spec(query, rc, o)->Retry_0 <= MAX_RETRIES,
        uses_fallback(rc, o) <==> (!attempt_succeeded(o) && rc == MAX_RETRIES),
        uses_fallback(rc, o) ==> !(step_spec(query, rc, o) is Retry),
{
}

/// Any run of attempts from retry count `rc`: the retry count never passes the
/// maximum, at most `MAX_RETRIES - rc + 1` attempts are made, the fallback
/// rules are consulted at most once, and when every attempt fails the run
/// ends after those attempts with exactly one consultation of the fallback.
pub proof fn lemma_retries_bounded(query: Seq<char>, rc: u32, outcomes: Seq<AttemptOutcome>)
    requires
        rc <= MAX_RETRIES,
    ensures
        run_from(query, rc, outcomes).last is Retry ==> run_from(query, rc, outcomes).last->Retry_0
            <= MAX_RETRIES,
        run_from(query, rc, outcomes).attempts <= MAX_RETRIES - rc + 1,
        run_from(query, rc, outcomes).fallbacks <= 1,
        outcomes.len() > MAX_RETRIES - rc && (forall|i: int|
            0 <= i < outcomes.len() ==> !attempt_succeeded(#[trigger] outcomes[i])) ==> {
            &&& run_from(query, rc, outcomes).fallbacks == 1
            &&& !(run_from(query, rc, outcomes).last is Retry)
            &&& run_from(query, rc, outcomes).attempts == MAX_RETRIES - rc + 1
        },
    decreases outcomes.len(),
{
    if outcomes.len() > 0 {
        let o = outcomes[0];
        lemma_step_bounds(query, rc, o);
        if let StepView::Retry(n) = step_spec(query, rc, o) {
            let rest = outcomes.drop_first();
            lemma_retries_bounded(query, n, rest);
            if forall|i: int| 0 <= i < outcomes.len() ==> !attempt_succeeded(#[trigger] outcomes[i]) {
                assert forall|i: int| 0 <= i < rest.len() implies !attempt_succeeded(
                    #[trigger] rest[i],
                ) by {
                    assert(rest[i] == outcomes[i + 1]);
                }
            }
        }
    }
}

/// A first attempt whose reply parses ends the run at once: one invocation,
/// no fallback, and the task is the reply's card with its segment derived and
/// no retries spent.
pub proof fn lemma_first_reply_done(query: Seq<char>, outcomes: Seq<AttemptOutcome>)
    requires
        outcomes.len() > 0,
        attempt_succeeded(outcomes[0]),
    ensures
        run_from(query, 0, outcomes).attempts == 1,
        run_from(query, 0, outcomes).fallbacks == 0,
        run_from(query, 0, outcomes).last == StepView::Done(
            emitted(card_task(card_of(outcomes[0]->Reply_0@)), 0),
        ),
{
}

/// When every attempt times out on a query that the scan rule matches, the
/// run ends after `MAX_RETRIES + 1` attempts with the synthesised scan task:
/// command `nmap -sV localhost` with its segment, `MAX_RETRIES` retries spent,
/// unconfirmed, its explanation marked as a fallback result.
pub proof fn lemma_timeouts_then_fallback(query: Seq<char>, outcomes: Seq<AttemptOutcome>)
    requires
        outcomes.len() == MAX_RETRIES + 1,
        forall|i: int| 0 <= i < outcomes.len() ==> #[trigger] outcomes[i] is TimedOut,
        fallback_rule(lower_of(query)) == Some(FallbackRule::NetworkScan),
    ensures
        run_from(query, 0, outcomes).attempts == MAX_RETRIES + 1,
        run_from(query, 0, outcomes).fallbacks == 1,
        run_from(query, 0, outcomes).last == StepView::Done(
            emitted(rule_task(FallbackRule::NetworkScan), MAX_RETRIES),
        ),
        ({
            let t = emitted(rule_task(FallbackRule::NetworkScan), MAX_RETRIES);
            &&& t.task_type == "execute_command"@
            &&& t.command == Some("nmap -sV localhost"@)
            &&& t.time_segment == Some(command_segment("nmap -sV localhost"@))
            &&& t.retry_count == MAX_RETRIES
            &&& !t.is_confirmed
            &&& t.explanation.take(fallback_mark().len() as int) == fallback_mark()
        }),
{
    let o1 = outcomes.drop_first();
    let o2 = o1.drop_first();
    assert(outcomes[0] is TimedOut);
    assert(o1[0] == outcomes[1]);
    assert(o2[0] == outcomes[2]);
    assert(o2.drop_first().len() == 0);
    assert(run_from(query, 2, o2).attempts == 1);
    assert(run_from(query, 1, o1).attempts == 2);
    let t = emitted(rule_task(FallbackRule::NetworkScan), MAX_RETRIES);
    assert(t.explanation.take(fallback_mark().len() as int) =~= fallback_mark());
}

} // verus!
