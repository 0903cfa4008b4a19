//! The interactive session: what each line typed at the prompt means.

use vstd::prelude::*;
use vstd::string::StrSliceExecFns;
use crate::text::{lower_of, lowercase, text_equals, trim_text, trimmed};

verus! {

/// What a line of the interactive session asks for.
#[derive(Debug)]
pub enum SessionInput {
    /// Nothing but whitespace: ignored.
    Blank,
    /// The exit keyword: the session ends.
    Exit,
    /// A request, normalised (trimmed, lower-cased), to run through the pipeline.
    Query(String),
}

pub enum InputView {
    Blank,
    Exit,
    Query(Seq<char>),
}

pub open spec fn input_view(i: SessionInput) -> InputView {
    match i {
        SessionInput::Blank => InputView::Blank,
        SessionInput::Exit => InputView::Exit,
        SessionInput::Query(q) => InputView::Query(q@),
    }
}

/// The meaning of a line: it is trimmed, then lower-cased.
pub open spec fn session_input_of(line: Seq<char>) -> InputView {
    let n = lower_of(trimmed(line));
    if n.len() == 0 {
        InputView::Blank
    } else if n == "exit"@ {
        InputView::Exit
    } else {
        InputView::Query(n)
    }
}

/// Reads one line of the interactive session.
pub fn read_session_line(line: &str) -> (r: SessionInput)
    ensures
        input_view(r) == session_input_of(line@),
{
    let t = trim_text(line);
    let n = lowercase(t.as_str());
    if n.as_str().unicode_len() == 0 {
        SessionInput::Blank
    } else if text_equals(n.as_str(), "exit") {
        SessionInput::Exit
    } else {
        SessionInput::Query(n)
    }
}

} // verus!
