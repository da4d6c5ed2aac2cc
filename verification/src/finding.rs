//! Findings, and what enrichment adds to them.
//!
//! A finding is a document of the backend's making. This client reads a few
//! of its members and adds a few; every other member passes through as it
//! came.

use vstd::prelude::*;
use crate::error::Failure;
use crate::json::{
    array, duplicate, json_of, jsons_of, member, object, set_member, text, text_member, Json,
};

verus! {

/// The kind of a finding, by which its remediation text is found.
pub open spec fn error_code(finding: Json) -> Option<Seq<char>> {
    finding.text_member("errorCode"@)
}

/// The path of the file in which a finding lies.
pub open spec fn file_path(finding: Json) -> Option<Seq<char>> {
    finding.text_member("filePath"@)
}

/// The steps of the trace that leads to a finding.
pub open spec fn trace_steps(finding: Json) -> Option<Seq<Json>> {
    finding.items_member("traceBlock"@)
}

/// The path of the file in which a step of a trace lies.
pub open spec fn step_file(step: Json) -> Option<Seq<char>> {
    step.text_member("file"@)
}

/// A member of an answer as it is, or the empty string in its place.
pub open spec fn or_blank(value: Option<Json>) -> Json {
    match value {
        Some(v) => v,
        None => Json::Text(""@),
    }
}

/// The remediation text that an answer carries: its description, which has
/// to be a string, with its detail and its example as they are.
pub open spec fn solution_of(answer: Json) -> Option<Json> {
    match answer.text_member("wiki_description"@) {
        Some(description) => Some(
            Json::Object(Map::empty()).with_member("description"@, Json::Text(description))
                .with_member("detail"@, or_blank(answer.member("wiki_detail"@))).with_member(
                "example"@,
                or_blank(answer.member("wiki_example"@)),
            ),
        ),
        None => None,
    }
}

/// A finding with the remediation text of an answer, where the answer came
/// and carries one; the finding as it was otherwise.
pub open spec fn solved(finding: Json, answer: Result<Json, Failure>) -> Json {
    match answer {
        Ok(a) => match solution_of(a) {
            Some(solution) => finding.with_member("solution"@, solution),
            None => finding,
        },
        Err(_) => finding,
    }
}

/// The content of a file as an answer carries it; nothing where no answer
/// came or where it carries none.
pub open spec fn content_of(answer: Result<Json, Failure>) -> Seq<Json> {
    match answer {
        Ok(a) => match a.items_member("byteArrayOfFiles"@) {
            Some(content) => content,
            None => Seq::empty(),
        },
        Err(_) => Seq::empty(),
    }
}

/// A finding, or a step of a trace, with the content of its file.
pub open spec fn with_content(target: Json, content: Seq<Json>) -> Json {
    target.with_member("file_content_bytes"@, Json::Array(content))
}

/// A finding with the steps of its trace replaced.
pub open spec fn with_trace(finding: Json, steps: Seq<Json>) -> Json {
    finding.with_member("traceBlock"@, Json::Array(steps))
}

fn copy_or_blank(answer: &serde_json::Value, key: &str) -> (r: serde_json::Value)
    ensures
        json_of(r) == or_blank(json_of(*answer).member(key@)),
{
    match member(answer, key) {
        Some(v) => duplicate(v),
        None => text(""),
    }
}

/// Adds the remediation text of an answer to the finding at `at`, where the
/// answer carries one.
pub(crate) fn attach_solution(
    findings: &mut Vec<serde_json::Value>,
    at: usize,
    answer: &serde_json::Value,
)
    requires
        at < old(findings)@.len(),
        json_of(old(findings)@[at as int]) is Object,
    ensures
        final(findings)@.len() == old(findings)@.len(),
        jsons_of(final(findings)@) == jsons_of(old(findings)@).update(
            at as int,
            solved(json_of(old(findings)@[at as int]), Ok(json_of(*answer))),
        ),
{
    match text_member(answer, "wiki_description") {
        Some(description) => {
            let mut solution = object();
            set_member(&mut solution, "description", text(description));
            set_member(&mut solution, "detail", copy_or_blank(answer, "wiki_detail"));
            set_member(&mut solution, "example", copy_or_blank(answer, "wiki_example"));
            set_member(&mut findings[at], "solution", solution);
        },
        None => {},
    }
    assert(jsons_of(findings@) =~= jsons_of(old(findings)@).update(
        at as int,
        solved(json_of(old(findings)@[at as int]), Ok(json_of(*answer))),
    ));
}

/// Adds the content of its file to the finding, or the step, at `at`.
pub(crate) fn attach_content(
    targets: &mut Vec<serde_json::Value>,
    at: usize,
    content: Vec<serde_json::Value>,
)
    requires
        at < old(targets)@.len(),
        json_of(old(targets)@[at as int]) is Object,
    ensures
        final(targets)@.len() == old(targets)@.len(),
        jsons_of(final(targets)@) == jsons_of(old(targets)@).update(
            at as int,
            with_content(json_of(old(targets)@[at as int]), jsons_of(content@)),
        ),
{
    set_member(&mut targets[at], "file_content_bytes", array(content));
    assert(jsons_of(targets@) =~= jsons_of(old(targets)@).update(
        at as int,
        with_content(json_of(old(targets)@[at as int]), jsons_of(content@)),
    ));
}

/// Replaces the steps of the trace of the finding at `at`.
pub(crate) fn attach_trace(
    findings: &mut Vec<serde_json::Value>,
    at: usize,
    steps: Vec<serde_json::Value>,
)
    requires
        at < old(findings)@.len(),
        json_of(old(findings)@[at as int]) is Object,
    ensures
        final(findings)@.len() == old(findings)@.len(),
        jsons_of(final(findings)@) == jsons_of(old(findings)@).update(
            at as int,
            with_trace(json_of(old(findings)@[at as int]), jsons_of(steps@)),
        ),
{
    set_member(&mut findings[at], "traceBlock", array(steps));
    assert(jsons_of(findings@) =~= jsons_of(old(findings)@).update(
        at as int,
        with_trace(json_of(old(findings)@[at as int]), jsons_of(steps@)),
    ));
}

/// What enrichment adds is added once: to add the same content again
/// changes nothing, and no other member is touched.
pub proof fn content_is_added_once(target: Json, content: Seq<Json>, key: Seq<char>)
    ensures
        with_content(with_content(target, content), content) == with_content(target, content),
        key != "file_content_bytes"@ ==> with_content(target, content).member(key)
            == target.member(key),
        target is Object ==> with_content(target, content).items_member("file_content_bytes"@)
            == Some(content),
{
    match target {
        Json::Object(members) => {
            let once = members.insert("file_content_bytes"@, Json::Array(content));
            assert(once.insert("file_content_bytes"@, Json::Array(content)) =~= once);
        },
        _ => {},
    }
}

/// The members that this client reads and writes have names of their own.
pub proof fn member_names_differ()
    ensures
        "file_content_bytes"@ != "filePath"@,
        "file_content_bytes"@ != "file"@,
        "file_content_bytes"@ != "traceBlock"@,
        "file_content_bytes"@ != "solution"@,
        "traceBlock"@ != "filePath"@,
        "traceBlock"@ != "solution"@,
        "solution"@ != "filePath"@,
{
    reveal_strlit("file_content_bytes");
    reveal_strlit("filePath");
    reveal_strlit("file");
    reveal_strlit("traceBlock");
    reveal_strlit("solution");
    assert("file_content_bytes"@.len() == 18);
    assert("filePath"@.len() == 8 && "filePath"@[0] == 'f');
    assert("file"@.len() == 4);
    assert("traceBlock"@.len() == 10);
    assert("solution"@.len() == 8 && "solution"@[0] == 's');
}

} // verus!
