//! The task-card protocol: newline-separated `KEY: value` lines exchanged
//! with the reasoning engine.

use vstd::prelude::*;
use vstd::string::StrSliceExecFns;
use crate::task::{new_task_view, text_opt, FenrirTask, TaskView};
use crate::text::{chars_of, pieces, range_equals, trim_range, trimmed};

verus! {

/// The fields that the card's recognised keys set; absent until a line sets them.
pub struct CardView {
    pub task_type: Option<Seq<char>>,
    pub explanation: Option<Seq<char>>,
    pub command: Option<Seq<char>>,
    pub file: Option<Seq<char>>,
    pub app: Option<Seq<char>>,
}

pub open spec fn empty_card() -> CardView {
    CardView { task_type: None, explanation: None, command: None, file: None, app: None }
}

/// The reply cut at each `'\n'`.
pub open spec fn split_lines(s: Seq<char>) -> Seq<Seq<char>> {
    pieces(s, '\n')
}

/// `k` is the index of the first `':'` of `line`.
pub open spec fn is_first_colon(line: Seq<char>, k: int) -> bool {
    &&& 0 <= k < line.len()
    &&& line[k] == ':'
    &&& forall|j: int| 0 <= j < k ==> line[j] != ':'
}

pub open spec fn first_colon(line: Seq<char>) -> Option<int> {
    if exists|k: int| is_first_colon(line, k) {
        Some(choose|k: int| is_first_colon(line, k))
    } else {
        None
    }
}

/// The effect of one line: split at the first colon, key and value trimmed;
/// a value of `N/A`, an unknown key or a line without colon changes nothing.
pub open spec fn apply_line(c: CardView, line: Seq<char>) -> CardView {
    match first_colon(line) {
        None => c,
        Some(k) => {
            let key = trimmed(line.take(k));
            let value = trimmed(line.skip(k + 1));
            if value == "N/A"@ {
                c
            } else if key == "TASK_TYPE"@ {
                CardView { task_type: Some(value), ..c }
            } else if key == "EXPLANATION"@ {
                CardView { explanation: Some(value), ..c }
            } else if key == "COMMAND"@ {
                CardView { command: Some(value), ..c }
            } else if key == "FILE"@ {
                CardView { file: Some(value), ..c }
            } else if key == "APP"@ {
                CardView { app: Some(value), ..c }
            } else {
                c
            }
        },
    }
}

pub open spec fn apply_lines(c: CardView, lines: Seq<Seq<char>>) -> CardView
    decreases lines.len(),
{
    if lines.len() == 0 {
        c
    } else {
        apply_line(apply_lines(c, lines.drop_last()), lines.last())
    }
}

/// What the lines of a reply set, later lines overriding earlier ones.
pub open spec fn card_of(reply: Seq<char>) -> CardView {
    apply_lines(empty_card(), split_lines(reply))
}

/// Both mandatory keys were matched, and the explanation is not empty.
pub open spec fn card_complete(c: CardView) -> bool {
    c.task_type is Some && c.explanation is Some && c.explanation->Some_0.len() > 0
}

/// The task that a complete card describes.
pub open spec fn card_task(c: CardView) -> TaskView {
    new_task_view(c.task_type->Some_0, c.explanation->Some_0, c.command, c.file, c.app)
}

/// The diagnostic of a reply that is not a valid card: it carries the raw text.
pub open spec fn protocol_error_text(reply: Seq<char>) -> Seq<char> {
    "Oracle did not return a valid Task Card. Raw output: '"@ + reply + "'"@
}

/// The reply parses: both mandatory keys are present with a value other than
/// `N/A`, and the explanation is not empty.
pub open spec fn reply_parses(reply: Seq<char>) -> bool {
    card_complete(card_of(reply))
}

/// The fields gathered so far while reading a card.
pub struct TaskCard {
    pub task_type: Option<String>,
    pub explanation: Option<String>,
    pub command: Option<String>,
    pub file: Option<String>,
    pub app: Option<String>,
}

impl View for TaskCard {
    type V = CardView;

    open spec fn view(&self) -> CardView {
        CardView {
            task_type: text_opt(self.task_type),
            explanation: text_opt(self.explanation),
            command: text_opt(self.command),
            file: text_opt(self.file),
            app: text_opt(self.app),
        }
    }
}

/// Applies the line `cs[lo..hi]` of `text` to `card`.
fn absorb_line(card: &mut TaskCard, text: &str, cs: &Vec<char>, lo: usize, hi: usize)
    requires
        cs@ == text@,
        lo <= hi <= cs@.len(),
    ensures
        final(card)@ == apply_line(old(card)@, cs@.subrange(lo as int, hi as int)),
{
    let ghost line = cs@.subrange(lo as int, hi as int);
    let mut k: usize = lo;
    while k < hi && cs[k] != ':'
        invariant
            lo <= k <= hi <= cs@.len(),
            line == cs@.subrange(lo as int, hi as int),
            forall|j: int| 0 <= j < k - lo ==> line[j] != ':',
        decreases hi - k,
    {
        k = k + 1;
    }
    if k == hi {
        assert(!exists|c: int| is_first_colon(line, c));
        return;
    }
    let ghost kk = k - lo;
    assert(is_first_colon(line, kk));
    assert forall|c: int| is_first_colon(line, c) implies c == kk by {
        if c < kk {
            assert(line[c] != ':');
        } else if c > kk {
            assert(line[kk] != ':');
        }
    }
    assert(first_colon(line) == Some(kk));
    let (ka, kb) = trim_range(cs, lo, k);
    let (va, vb) = trim_range(cs, k + 1, hi);
    assert(line.take(kk) =~= cs@.subrange(lo as int, k as int));
    assert(line.skip(kk + 1) =~= cs@.subrange(k + 1, hi as int));
    if range_equals(cs, va, vb, "N/A") {
        return;
    }
    let value = String::from_str(text.substring_char(va, vb));
    if range_equals(cs, ka, kb, "TASK_TYPE") {
        card.task_type = Some(value);
    } else if range_equals(cs, ka, kb, "EXPLANATION") {
        card.explanation = Some(value);
    } else if range_equals(cs, ka, kb, "COMMAND") {
        card.command = Some(value);
    } else if range_equals(cs, ka, kb, "FILE") {
        card.file = Some(value);
    } else if range_equals(cs, ka, kb, "APP") {
        card.app = Some(value);
    }
}

/// Reads every line of a reply.
pub fn read_card(output: &str) -> (r: TaskCard)
    ensures
        r@ == card_of(output@),
{
    let cs = chars_of(output);
    let n = cs.len();
    let mut card = TaskCard { task_type: None, explanation: None, command: None, file: None, app: None };
    let mut start: usize = 0;
    let mut i: usize = 0;
    let ghost mut done: Seq<Seq<char>> = Seq::empty();
    assert(cs@.take(0) =~= Seq::<char>::empty());
    assert(split_lines(cs@.take(0)) =~= done.push(cs@.subrange(0, 0)));
    while i < n
        invariant
            cs@ == output@,
            n == cs@.len(),
            start <= i <= n,
            split_lines(cs@.take(i as int)) == done.push(cs@.subrange(start as int, i as int)),
            card@ == apply_lines(empty_card(), done),
        decreases n - i,
    {
        let ghost prev = cs@.take(i as int);
        assert(cs@.take(i + 1).drop_last() =~= prev);
        if cs[i] == '\n' {
            absorb_line(&mut card, output, &cs, start, i);
            proof {
                let line = cs@.subrange(start as int, i as int);
                assert(done.push(line).drop_last() =~= done);
                done = done.push(line);
                assert(cs@.subrange(i + 1, i + 1) =~= Seq::<char>::empty());
            }
            start = i + 1;
        } else {
            proof {
                let l = split_lines(prev);
                assert(l.last() == cs@.subrange(start as int, i as int));
                assert(l.last().push(cs@[i as int]) =~= cs@.subrange(start as int, i + 1));
                assert(l.update(l.len() - 1, l.last().push(cs@[i as int])) =~= done.push(
                    cs@.subrange(start as int, i + 1),
                ));
            }
        }
        i = i + 1;
    }
    absorb_line(&mut card, output, &cs, start, n);
    proof {
        let line = cs@.subrange(start as int, n as int);
        assert(cs@.take(n as int) =~= cs@);
        assert(done.push(line).drop_last() =~= done);
    }
    card
}

/// The diagnostic for a reply that is not a valid card.
pub fn protocol_error(output: &str) -> (r: String)
    ensures
        r@ == protocol_error_text(output@),
{
    let mut e = String::from_str("Oracle did not return a valid Task Card. Raw output: '");
    e.append(output);
    e.append("'");
    e
}

/// Parses a reply into a task.
///
/// It succeeds exactly when each of the two mandatory keys, `TASK_TYPE` and
/// `EXPLANATION`, was given a value other than `N/A` by some line (the last such
/// line wins), and the explanation is not empty. A reply that matches only one
/// of the two keys, however often, fails; so the task type of a parsed task is
/// always the one the reply gave. Otherwise the error carries the raw reply.
pub fn parse_task_card(output: &str) -> (r: Result<FenrirTask, String>)
    ensures
        match r {
            Ok(t) => reply_parses(output@) && t@ == card_task(card_of(output@))
                && t@.explanation.len() > 0,
            Err(e) => !reply_parses(output@) && e@ == protocol_error_text(output@),
        },
{
    let card = read_card(output);
    match (card.task_type, card.explanation) {
        (Some(task_type), Some(explanation)) if explanation.as_str().unicode_len() > 0 => Ok(
            FenrirTask::new(task_type, explanation, card.command, card.file, card.app),
        ),
        _ => Err(protocol_error(output)),
    }
}

/// One of the five keys that the protocol recognises.
pub open spec fn recognized_key(key: Seq<char>) -> bool {
    ||| key == "TASK_TYPE"@
    ||| key == "EXPLANATION"@
    ||| key == "COMMAND"@
    ||| key == "FILE"@
    ||| key == "APP"@
}

/// The card field that a recognised key sets.
pub open spec fn card_field(c: CardView, key: Seq<char>) -> Option<Seq<char>> {
    if key == "TASK_TYPE"@ {
        c.task_type
    } else if key == "EXPLANATION"@ {
        c.explanation
    } else if key == "COMMAND"@ {
        c.command
    } else if key == "FILE"@ {
        c.file
    } else if key == "APP"@ {
        c.app
    } else {
        None
    }
}

/// The line has a colon, and its trimmed key is `key`.
pub open spec fn line_has_key(line: Seq<char>, key: Seq<char>) -> bool {
    first_colon(line) is Some && trimmed(line.take(first_colon(line)->Some_0)) == key
}

/// The trimmed value after the first colon of the line.
pub open spec fn line_value(line: Seq<char>) -> Seq<char> {
    trimmed(line.skip(first_colon(line)->Some_0 + 1))
}

/// The line gives `key` a value other than `N/A`.
pub open spec fn sets_key(line: Seq<char>, key: Seq<char>) -> bool {
    line_has_key(line, key) && line_value(line) != "N/A"@
}

/// Some line of the reply gives `key` a value other than `N/A`.
pub open spec fn reply_sets_key(reply: Seq<char>, key: Seq<char>) -> bool {
    exists|i: int| 0 <= i < split_lines(reply).len() && sets_key(#[trigger] split_lines(reply)[i], key)
}

proof fn lemma_keys_distinct()
    ensures
        "TASK_TYPE"@ != "EXPLANATION"@,
        "TASK_TYPE"@ != "COMMAND"@,
        "TASK_TYPE"@ != "FILE"@,
        "TASK_TYPE"@ != "APP"@,
        "EXPLANATION"@ != "COMMAND"@,
        "EXPLANATION"@ != "FILE"@,
        "EXPLANATION"@ != "APP"@,
        "COMMAND"@ != "FILE"@,
        "COMMAND"@ != "APP"@,
        "FILE"@ != "APP"@,
{
    reveal_strlit("TASK_TYPE");
    reveal_strlit("EXPLANATION");
    reveal_strlit("COMMAND");
    reveal_strlit("FILE");
    reveal_strlit("APP");
    assert("TASK_TYPE"@.len() == 9);
    assert("EXPLANATION"@.len() == 11);
    assert("COMMAND"@.len() == 7);
    assert("FILE"@.len() == 4);
    assert("APP"@.len() == 3);
}

/// A line changes a recognised field exactly when it sets that key, and then
/// to the line's value.
proof fn lemma_line_field(c: CardView, line: Seq<char>, key: Seq<char>)
    requires
        recognized_key(key),
    ensures
        sets_key(line, key) ==> card_field(apply_line(c, line), key) == Some(line_value(line)),
        !sets_key(line, key) ==> card_field(apply_line(c, line), key) == card_field(c, key),
{
    lemma_keys_distinct();
}

/// A recognised field is present after a run of lines exactly when it was
/// present before or some line of the run sets it.
proof fn lemma_lines_field(c: CardView, lines: Seq<Seq<char>>, key: Seq<char>)
    requires
        recognized_key(key),
    ensures
        card_field(apply_lines(c, lines), key) is Some <==> (card_field(c, key) is Some || exists|
            i: int,
        | 0 <= i < lines.len() && sets_key(#[trigger] lines[i], key)),
    decreases lines.len(),
{
    if lines.len() > 0 {
        let init = lines.drop_last();
        lemma_lines_field(c, init, key);
        lemma_line_field(apply_lines(c, init), lines.last(), key);
        if exists|i: int| 0 <= i < lines.len() && sets_key(#[trigger] lines[i], key) {
            let i = choose|i: int| 0 <= i < lines.len() && sets_key(#[trigger] lines[i], key);
            if i < lines.len() - 1 {
                assert(init[i] == lines[i]);
            }
        }
        if exists|i: int| 0 <= i < init.len() && sets_key(#[trigger] init[i], key) {
            let i = choose|i: int| 0 <= i < init.len() && sets_key(#[trigger] init[i], key);
            assert(lines[i] == init[i]);
        }
    }
}

/// A recognised field of a parsed reply is present exactly when some line gives
/// its key a value other than `N/A`: an `N/A` value is never stored, and a
/// field that every line marks `N/A` stays absent.
pub proof fn lemma_field_present_iff_set(reply: Seq<char>, key: Seq<char>)
    requires
        recognized_key(key),
    ensures
        card_field(card_of(reply), key) is Some <==> reply_sets_key(reply, key),
{
    lemma_lines_field(empty_card(), split_lines(reply), key);
}

/// A recognised field, when present after a run of lines, holds the value
/// that it held before or the value of some line of the run that sets it.
proof fn lemma_lines_field_value(c: CardView, lines: Seq<Seq<char>>, key: Seq<char>)
    requires
        recognized_key(key),
        card_field(apply_lines(c, lines), key) is Some,
    ensures
        card_field(c, key) == card_field(apply_lines(c, lines), key) || exists|i: int|
            0 <= i < lines.len() && sets_key(#[trigger] lines[i], key) && Some(line_value(lines[i]))
                == card_field(apply_lines(c, lines), key),
    decreases lines.len(),
{
    if lines.len() > 0 {
        let init = lines.drop_last();
        let before = apply_lines(c, init);
        lemma_line_field(before, lines.last(), key);
        if sets_key(lines.last(), key) {
            assert(sets_key(lines[lines.len() - 1], key));
        } else {
            lemma_lines_field_value(c, init, key);
            if card_field(c, key) != card_field(before, key) {
                let i = choose|i: int|
                    0 <= i < init.len() && sets_key(#[trigger] init[i], key) && Some(line_value(init[i]))
                        == card_field(before, key);
                assert(lines[i] == init[i]);
            }
        }
    }
}

/// A reply in which lines give both `TASK_TYPE` and `EXPLANATION` a value,
/// every explanation given being non-empty, parses, whatever other lines it
/// holds.
pub proof fn lemma_mandatory_keys_parse(reply: Seq<char>)
    requires
        reply_sets_key(reply, "TASK_TYPE"@),
        reply_sets_key(reply, "EXPLANATION"@),
        forall|i: int|
            0 <= i < split_lines(reply).len() && sets_key(#[trigger] split_lines(reply)[i], "EXPLANATION"@)
                ==> line_value(split_lines(reply)[i]).len() > 0,
    ensures
        reply_parses(reply),
{
    lemma_keys_distinct();
    lemma_field_present_iff_set(reply, "TASK_TYPE"@);
    lemma_field_present_iff_set(reply, "EXPLANATION"@);
    lemma_lines_field_value(empty_card(), split_lines(reply), "EXPLANATION"@);
}

/// A reply whose explanation, as parsed, is empty does not parse.
pub proof fn lemma_empty_explanation_fails(reply: Seq<char>)
    requires
        card_of(reply).explanation == Some(Seq::<char>::empty()),
    ensures
        !reply_parses(reply),
{
}

/// A reply in which no line gives `TASK_TYPE` or `EXPLANATION` a value does not
/// parse; the error then carries the reply (see `parse_task_card`).
pub proof fn lemma_missing_keys_fail(reply: Seq<char>)
    requires
        !reply_sets_key(reply, "TASK_TYPE"@),
        !reply_sets_key(reply, "EXPLANATION"@),
    ensures
        !reply_parses(reply),
{
    lemma_field_present_iff_set(reply, "TASK_TYPE"@);
}

/// A line whose key is not recognised, or that has no colon, leaves every
/// field as it was.
pub proof fn lemma_unknown_line_ignored(c: CardView, line: Seq<char>)
    requires
        first_colon(line) is None || !recognized_key(trimmed(line.take(first_colon(line)->Some_0))),
    ensures
        apply_line(c, line) == c,
{
}

proof fn lemma_pieces_append(s: Seq<char>, sep: char, line: Seq<char>)
    requires
        forall|i: int| 0 <= i < line.len() ==> line[i] != sep,
    ensures
        pieces(s + seq![sep] + line, sep) == pieces(s, sep).push(line),
    decreases line.len(),
{
    if line.len() == 0 {
        assert(s + seq![sep] + line =~= s.push(sep));
        assert(s.push(sep).drop_last() =~= s);
        assert(line =~= Seq::<char>::empty());
        assert(pieces(s.push(sep), sep) == pieces(s, sep).push(Seq::<char>::empty()));
    } else {
        let init = line.drop_last();
        lemma_pieces_append(s, sep, init);
        let whole = s + seq![sep] + line;
        assert(whole.drop_last() =~= s + seq![sep] + init);
        assert(whole.last() == line.last());
        assert(line[line.len() - 1] != sep);
        assert(init.push(line.last()) =~= line);
        let l = pieces(s, sep).push(init);
        assert(l.update(l.len() - 1, l.last().push(line.last())) =~= pieces(s, sep).push(line));
        assert(pieces(whole, sep) == l.update(l.len() - 1, l.last().push(line.last())));
    }
}

/// Appending to a reply a line whose key is not recognised, or that has no
/// colon, changes nothing of what the reply sets: it parses exactly as before.
pub proof fn lemma_unknown_line_appended(reply: Seq<char>, line: Seq<char>)
    requires
        forall|i: int| 0 <= i < line.len() ==> line[i] != '\n',
        first_colon(line) is None || !recognized_key(trimmed(line.take(first_colon(line)->Some_0))),
    ensures
        card_of(reply + seq!['\n'] + line) == card_of(reply),
        reply_parses(reply + seq!['\n'] + line) == reply_parses(reply),
{
    lemma_pieces_append(reply, '\n', line);
    let l = split_lines(reply);
    assert(l.push(line).drop_last() =~= l);
    lemma_unknown_line_ignored(apply_lines(empty_card(), l), line);
}

/// Inserting a line with an unrecognised key anywhere among a reply's lines
/// does not change what they set.
pub proof fn lemma_unknown_line_inserted(c: CardView, lines: Seq<Seq<char>>, idx: int, line: Seq<char>)
    requires
        0 <= idx <= lines.len(),
        first_colon(line) is None || !recognized_key(trimmed(line.take(first_colon(line)->Some_0))),
    ensures
        apply_lines(c, lines.insert(idx, line)) == apply_lines(c, lines),
    decreases lines.len(),
{
    let with = lines.insert(idx, line);
    if idx == lines.len() {
        assert(with.drop_last() =~= lines);
        lemma_unknown_line_ignored(apply_lines(c, lines), line);
    } else {
        assert(with.drop_last() =~= lines.drop_last().insert(idx, line));
        assert(with.last() == lines.last());
        lemma_unknown_line_inserted(c, lines.drop_last(), idx, line);
    }
}

} // verus!
