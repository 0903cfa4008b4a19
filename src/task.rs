//! The task descriptor that flows through the pipeline, and its model.

use vstd::prelude::*;
use crate::segment::{command_segment, ExecutionTimeSegment};

verus! {

/// A structured description of one requested action.
#[derive(Debug)]
pub struct FenrirTask {
    pub task_type: String,
    pub ia_explanation: String,
    pub command_to_run: Option<String>,
    pub target_path: Option<String>,
    pub application: Option<String>,
    pub tags: Option<Vec<String>>,
    pub time_segment: Option<ExecutionTimeSegment>,
    pub retry_count: u32,
    pub is_confirmed: bool,
}

/// The mathematical model of a `FenrirTask`.
pub struct TaskView {
    pub task_type: Seq<char>,
    pub explanation: Seq<char>,
    pub command: Option<Seq<char>>,
    pub target: Option<Seq<char>>,
    pub application: Option<Seq<char>>,
    pub tags: Option<Seq<Seq<char>>>,
    pub time_segment: Option<ExecutionTimeSegment>,
    pub retry_count: u32,
    pub is_confirmed: bool,
}

pub open spec fn text_opt(o: Option<String>) -> Option<Seq<char>> {
    match o {
        Some(s) => Some(s@),
        None => None,
    }
}

pub open spec fn list_opt(o: Option<Vec<String>>) -> Option<Seq<Seq<char>>> {
    match o {
        Some(v) => Some(v.deep_view()),
        None => None,
    }
}

impl View for FenrirTask {
    type V = TaskView;

    open spec fn view(&self) -> TaskView {
        TaskView {
            task_type: self.task_type@,
            explanation: self.ia_explanation@,
            command: text_opt(self.command_to_run),
            target: text_opt(self.target_path),
            application: text_opt(self.application),
            tags: list_opt(self.tags),
            time_segment: self.time_segment,
            retry_count: self.retry_count,
            is_confirmed: self.is_confirmed,
        }
    }
}

/// A fresh, unconfirmed task with no retries spent and no segment.
pub open spec fn new_task_view(
    task_type: Seq<char>,
    explanation: Seq<char>,
    command: Option<Seq<char>>,
    target: Option<Seq<char>>,
    application: Option<Seq<char>>,
) -> TaskView {
    TaskView {
        task_type,
        explanation,
        command,
        target,
        application,
        tags: None,
        time_segment: None,
        retry_count: 0,
        is_confirmed: false,
    }
}

/// `t` with its time segment derived from its command, where it has one.
pub open spec fn categorized(t: TaskView) -> TaskView {
    match t.command {
        Some(c) => TaskView { time_segment: Some(command_segment(c)), ..t },
        None => t,
    }
}

pub fn copy_text_opt(o: &Option<String>) -> (r: Option<String>)
    ensures
        text_opt(r) == text_opt(*o),
{
    match o {
        Some(s) => Some(s.clone()),
        None => None,
    }
}

pub fn copy_texts(v: &Vec<String>) -> (r: Vec<String>)
    ensures
        r.deep_view() == v.deep_view(),
{
    let mut r: Vec<String> = Vec::new();
    let mut i: usize = 0;
    while i < v.len()
        invariant
            i <= v.len(),
            r@.len() == i,
            forall|k: int| 0 <= k < i ==> r@[k]@ == v@[k]@,
        decreases v.len() - i,
    {
        r.push(v[i].clone());
        i = i + 1;
    }
    assert(r.deep_view() =~= v.deep_view());
    r
}

impl FenrirTask {
    /// A fresh, unconfirmed task.
    pub fn new(
        task_type: String,
        ia_explanation: String,
        command_to_run: Option<String>,
        target_path: Option<String>,
        application: Option<String>,
    ) -> (r: FenrirTask)
        ensures
            r@ == new_task_view(
                task_type@,
                ia_explanation@,
                text_opt(command_to_run),
                text_opt(target_path),
                text_opt(application),
            ),
    {
        FenrirTask {
            task_type,
            ia_explanation,
            command_to_run,
            target_path,
            application,
            tags: None,
            time_segment: None,
            retry_count: 0,
            is_confirmed: false,
        }
    }

    /// A field-by-field copy.
    pub fn duplicate(&self) -> (r: FenrirTask)
        ensures
            r@ == self@,
    {
        let tags = match &self.tags {
            Some(v) => Some(copy_texts(v)),
            None => None,
        };
        FenrirTask {
            task_type: self.task_type.clone(),
            ia_explanation: self.ia_explanation.clone(),
            command_to_run: copy_text_opt(&self.command_to_run),
            target_path: copy_text_opt(&self.target_path),
            application: copy_text_opt(&self.application),
            tags,
            time_segment: self.time_segment,
            retry_count: self.retry_count,
            is_confirmed: self.is_confirmed,
        }
    }

    /// Derives the time segment from the command, where there is one; a task
    /// without a command keeps its segment.
    pub fn categorize_by_time(&mut self)
        ensures
            final(self)@ == categorized(old(self)@),
    {
        if let Some(cmd) = &self.command_to_run {
            self.time_segment = Some(ExecutionTimeSegment::from_command(cmd.as_str()));
        }
    }
}

} // verus!
