//! The report that a run ends in.

use vstd::prelude::*;
use crate::error::{CodepeckerError, Failure};
use crate::json::{
    array, count, duplicate, duplicates, json_of, jsons_of, object, parse, parsed, pretty, render,
    set_member, text, text_member, u64_member, Json, Number,
};

verus! {

/// The findings of a task that a severity floor let through, enriched, with
/// the backend's summary of the task.
pub struct Report {
    pub task_id: String,
    pub severity: String,
    pub info: serde_json::Value,
    pub problems: Vec<serde_json::Value>,
}

/// The content of a [`Report`].
pub struct ReportView {
    pub task_id: Seq<char>,
    pub severity: Seq<char>,
    pub info: Json,
    pub problems: Seq<Json>,
}

impl View for Report {
    type V = ReportView;

    open spec fn view(&self) -> ReportView {
        ReportView {
            task_id: self.task_id@,
            severity: self.severity@,
            info: json_of(self.info),
            problems: jsons_of(self.problems@),
        }
    }
}

impl ReportView {
    /// The report as one document: the task, the floor, the number of
    /// findings, the summary, and the findings in their order.
    pub open spec fn document(self) -> Json {
        Json::Object(Map::empty()).with_member("task_id"@, Json::Text(self.task_id)).with_member(
            "severity"@,
            Json::Text(self.severity),
        ).with_member(
            "problem_count"@,
            Json::Number(Number::Int(self.problems.len() as int)),
        ).with_member("info"@, self.info).with_member("problems"@, Json::Array(self.problems))
    }

    /// What stands at the head of the report.
    pub open spec fn heading(self) -> HeadingView {
        HeadingView {
            task_id: self.task_id,
            severity: self.severity,
            problem_count: self.problems.len(),
        }
    }
}

/// What stands at the head of a report: the task, the floor, and the number
/// of findings.
#[derive(Debug, Clone, PartialEq, Eq)]
pub struct Heading {
    pub task_id: String,
    pub severity: String,
    pub problem_count: u64,
}

/// The content of a [`Heading`].
pub struct HeadingView {
    pub task_id: Seq<char>,
    pub severity: Seq<char>,
    pub problem_count: nat,
}

impl View for Heading {
    type V = HeadingView;

    open spec fn view(&self) -> HeadingView {
        HeadingView {
            task_id: self.task_id@,
            severity: self.severity@,
            problem_count: self.problem_count as nat,
        }
    }
}

/// The head of a report, read back from its document.
pub open spec fn heading_of(doc: Json) -> Option<HeadingView> {
    match (
        doc.text_member("task_id"@),
        doc.text_member("severity"@),
        doc.u64_member("problem_count"@),
    ) {
        (Some(task_id), Some(severity), Some(n)) => Some(
            HeadingView { task_id, severity, problem_count: n as nat },
        ),
        _ => None,
    }
}

impl Report {
    /// The number of findings in the report.
    pub fn problem_count(&self) -> (r: usize)
        ensures
            r == self@.problems.len(),
    {
        self.problems.len()
    }

    /// The report as one document.
    pub fn to_json(&self) -> (r: serde_json::Value)
        ensures
            json_of(r) == self@.document(),
    {
        let mut doc = object();
        set_member(&mut doc, "task_id", text(self.task_id.as_str()));
        set_member(&mut doc, "severity", text(self.severity.as_str()));
        set_member(&mut doc, "problem_count", count(self.problems.len()));
        set_member(&mut doc, "info", duplicate(&self.info));
        set_member(&mut doc, "problems", array(duplicates(&self.problems)));
        doc
    }

    /// The report written out as indented JSON.
    pub fn render(&self) -> (r: Result<String, CodepeckerError>)
        ensures
            match r {
                Ok(written) => pretty(self@.document()) == Some(written@),
                Err(e) => pretty(self@.document()) is None && e@ == Failure::ReportError,
            },
    {
        let doc = self.to_json();
        match render(&doc) {
            Ok(written) => Ok(written),
            Err(_) => Err(CodepeckerError::ReportError),
        }
    }
}

/// Reads the head of a report back from its document.
pub fn heading(doc: &serde_json::Value) -> (r: Option<Heading>)
    ensures
        match r {
            Some(h) => heading_of(json_of(*doc)) == Some(h@),
            None => heading_of(json_of(*doc)) is None,
        },
{
    let task_id = match text_member(doc, "task_id") {
        Some(t) => t,
        None => {
            return None;
        },
    };
    let severity = match text_member(doc, "severity") {
        Some(s) => s,
        None => {
            return None;
        },
    };
    match u64_member(doc, "problem_count") {
        Some(n) => Some(
            Heading {
                task_id: task_id.to_owned(),
                severity: severity.to_owned(),
                problem_count: n,
            },
        ),
        None => None,
    }
}

/// Reads the head of a report back from its written form.
pub fn read_heading(written: &[u8]) -> (r: Option<Heading>)
    ensures
        match r {
            Some(h) => parsed(written@) matches Some(doc) && heading_of(doc) == Some(h@),
            None => parsed(written@) matches Some(doc) ==> heading_of(doc) is None,
        },
{
    match parse(written) {
        Ok(doc) => heading(&doc),
        Err(_) => None,
    }
}

/// The document of a report carries its head: the task, the floor and the
/// number of findings can be read back from it as they went in.
pub proof fn heading_survives(report: ReportView)
    requires
        report.problems.len() <= u64::MAX,
    ensures
        heading_of(report.document()) == Some(report.heading()),
        report.document().member("info"@) == Some(report.info),
        report.document().items_member("problems"@) == Some(report.problems),
{
    reveal_strlit("task_id");
    reveal_strlit("severity");
    reveal_strlit("problem_count");
    reveal_strlit("info");
    reveal_strlit("problems");
    assert("task_id"@.len() == 7 && "task_id"@[0] == 't');
    assert("severity"@.len() == 8 && "severity"@[0] == 's');
    assert("problem_count"@.len() == 13);
    assert("info"@.len() == 4);
    assert("problems"@.len() == 8 && "problems"@[0] == 'p');
}

} // verus!
