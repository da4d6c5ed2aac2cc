//! Waiting for a scan to end.
//!
//! The backend is asked for the state of the task again and again, with a
//! fixed pause between two questions, until it names a state that ends the
//! wait. Each answer is judged by itself; the caller asks, and pauses.

use vstd::prelude::*;
use crate::error::{CodepeckerError, Failure, SCAN_FAILED, SCAN_UNKNOWN};
use crate::json::{json_of, text_member, u64_member, Json};
use crate::pecker::{accepted, document, Pecker, STATUS_ACTION};
use crate::request::{Answer, AnswerView, Content};
use crate::text::same_text;

verus! {

/// The pause between two questions, in seconds.
pub const POLL_INTERVAL_SECONDS: u64 = 5;

/// The state of a task as the backend reports it.
#[derive(Debug, Clone, Copy, PartialEq, Eq, Structural)]
pub enum TaskState {
    Uploaded,
    Unpacked,
    Scanning,
    Completed,
    Failed,
    Queued,
}

impl TaskState {
    /// The code by which the backend names the state.
    pub open spec fn code(self) -> Seq<char> {
        match self {
            TaskState::Uploaded => "0"@,
            TaskState::Unpacked => "1"@,
            TaskState::Scanning => "2"@,
            TaskState::Completed => "3"@,
            TaskState::Failed => "4"@,
            TaskState::Queued => "99"@,
        }
    }

    /// The state that a code names, if it names one.
    pub open spec fn named(code: Seq<char>) -> Option<TaskState> {
        if code == "0"@ {
            Some(TaskState::Uploaded)
        } else if code == "1"@ {
            Some(TaskState::Unpacked)
        } else if code == "2"@ {
            Some(TaskState::Scanning)
        } else if code == "3"@ {
            Some(TaskState::Completed)
        } else if code == "4"@ {
            Some(TaskState::Failed)
        } else if code == "99"@ {
            Some(TaskState::Queued)
        } else {
            None
        }
    }

    /// The state that a code names, if it names one.
    pub fn parse(code: &str) -> (r: Option<TaskState>)
        ensures
            r == TaskState::named(code@),
    {
        if same_text(code, "0") {
            Some(TaskState::Uploaded)
        } else if same_text(code, "1") {
            Some(TaskState::Unpacked)
        } else if same_text(code, "2") {
            Some(TaskState::Scanning)
        } else if same_text(code, "3") {
            Some(TaskState::Completed)
        } else if same_text(code, "4") {
            Some(TaskState::Failed)
        } else if same_text(code, "99") {
            Some(TaskState::Queued)
        } else {
            None
        }
    }
}

/// Every state is named by its own code, and by no other.
pub proof fn state_codes_differ()
    ensures
        forall|s: TaskState| TaskState::named(#[trigger] s.code()) == Some(s),
{
    reveal_strlit("0");
    reveal_strlit("1");
    reveal_strlit("2");
    reveal_strlit("3");
    reveal_strlit("4");
    reveal_strlit("99");
    assert forall|s: TaskState| TaskState::named(#[trigger] s.code()) == Some(s) by {
        assert("0"@.len() == 1 && "0"@[0] == '0');
        assert("1"@.len() == 1 && "1"@[0] == '1');
        assert("2"@.len() == 1 && "2"@[0] == '2');
        assert("3"@.len() == 1 && "3"@[0] == '3');
        assert("4"@.len() == 1 && "4"@[0] == '4');
        assert("99"@.len() == 2);
    }
}

/// What one answer means for the wait.
#[derive(Debug, Clone, PartialEq, Eq)]
pub enum PollStep {
    /// The scan is complete: the wait is over.
    Completed,
    /// The scan goes on: pause, then ask again. The state is the one that
    /// the backend named, `None` where it named none and gave no reason.
    Wait(Option<TaskState>),
    /// The wait is over, and the run has failed.
    Failed(CodepeckerError),
}

/// The content of a [`PollStep`].
pub enum PollView {
    Completed,
    Wait(Option<TaskState>),
    Failed(Failure),
}

impl View for PollStep {
    type V = PollView;

    open spec fn view(&self) -> PollView {
        match self {
            PollStep::Completed => PollView::Completed,
            PollStep::Wait(state) => PollView::Wait(*state),
            PollStep::Failed(e) => PollView::Failed(e@),
        }
    }
}

impl PollView {
    /// Whether the answer ends the wait.
    pub open spec fn ends(self) -> bool {
        !(self is Wait)
    }
}

/// What an answer about the state of a task means.
///
/// An answer that the backend marks as a success names the state: a
/// complete scan ends the wait, a failed scan and an unknown state fail the
/// run, any other state means to go on. An answer that it does not mark as
/// a success fails the run in the backend's words, where it has any.
pub open spec fn status_verdict(doc: Json) -> PollView {
    if accepted(doc) {
        match doc.text_member("taskStatus"@) {
            Some(code) => match TaskState::named(code) {
                Some(TaskState::Completed) => PollView::Completed,
                Some(TaskState::Failed) => PollView::Failed(
                    Failure::CustomInvalidInfo(SCAN_FAILED@),
                ),
                Some(state) => PollView::Wait(Some(state)),
                None => PollView::Failed(Failure::CustomInvalidInfo(SCAN_UNKNOWN@)),
            },
            None => PollView::Failed(Failure::CustomInvalidInfo(SCAN_UNKNOWN@)),
        }
    } else {
        match doc.text_member("errorMsg"@) {
            Some(words) => PollView::Failed(Failure::CustomInvalidInfo(words)),
            None => PollView::Wait(None),
        }
    }
}

/// What the answer to a question after the state of a task means. The
/// HTTP status of the answer plays no part.
pub open spec fn polled(url: Seq<char>, answer: AnswerView) -> PollView {
    match answer {
        AnswerView::Unreachable => PollView::Failed(Failure::UnableToConnect(url)),
        AnswerView::Received { status, content } => match document(content) {
            Ok(doc) => status_verdict(doc),
            Err(e) => PollView::Failed(e),
        },
    }
}

/// How a wait goes when the answers come in this order: the number of
/// questions asked, and what ended the wait, `None` where the answers run
/// out before anything does. The pauses are one fewer than the questions.
pub open spec fn watch(url: Seq<char>, answers: Seq<AnswerView>) -> (nat, Option<PollView>)
    decreases answers.len(),
{
    if answers.len() == 0 {
        (0, None)
    } else if polled(url, answers[0]).ends() {
        (1, Some(polled(url, answers[0])))
    } else {
        let rest = watch(url, answers.drop_first());
        (rest.0 + 1, rest.1)
    }
}

/// Judges a document that answers a question after the state of a task.
pub fn judge_status(doc: &serde_json::Value) -> (r: PollStep)
    ensures
        r@ == status_verdict(json_of(*doc)),
{
    let accepted = match u64_member(doc, "status") {
        Some(code) => code == 0,
        None => false,
    };
    if accepted {
        match text_member(doc, "taskStatus") {
            Some(code) => match TaskState::parse(code) {
                Some(TaskState::Completed) => PollStep::Completed,
                Some(TaskState::Failed) => PollStep::Failed(CodepeckerError::said(SCAN_FAILED)),
                Some(state) => PollStep::Wait(Some(state)),
                None => PollStep::Failed(CodepeckerError::said(SCAN_UNKNOWN)),
            },
            None => PollStep::Failed(CodepeckerError::said(SCAN_UNKNOWN)),
        }
    } else {
        match text_member(doc, "errorMsg") {
            Some(words) => PollStep::Failed(CodepeckerError::said(words)),
            None => PollStep::Wait(None),
        }
    }
}

impl Pecker {
    /// What the answer to the question after the state of a task means for
    /// the wait.
    pub fn query_task_status(&self, answer: &Answer) -> (r: PollStep)
        ensures
            r@ == polled(self@.endpoint(STATUS_ACTION@), answer@),
    {
        match answer {
            Answer::Unreachable => {
                let url = self.endpoint(STATUS_ACTION);
                PollStep::Failed(CodepeckerError::unreachable(url.as_str()))
            },
            Answer::Received { status, content } => match content {
                Content::Document(doc) => judge_status(doc),
                _ => PollStep::Failed(CodepeckerError::UnableToParseJson),
            },
        }
    }
}

/// A wait ends with the first answer that ends it, and asks nothing after:
/// where `before` answers mean to go on and the next one does not, the wait
/// takes `before + 1` questions, with `before` pauses between them, and ends
/// as that answer says, whatever answers would have followed.
pub proof fn wait_ends_at_first_verdict(url: Seq<char>, answers: Seq<AnswerView>, before: nat)
    requires
        before < answers.len(),
        forall|i: int| 0 <= i < before ==> !polled(url, #[trigger] answers[i]).ends(),
        polled(url, answers[before as int]).ends(),
    ensures
        watch(url, answers) == (before + 1, Some(polled(url, answers[before as int]))),
    decreases before,
{
    if before > 0 {
        let rest = answers.drop_first();
        assert forall|i: int| 0 <= i < before - 1 implies !polled(
            url,
            #[trigger] rest[i],
        ).ends() by {
            assert(rest[i] == answers[i + 1]);
        }
        assert(rest[before - 1] == answers[before as int]);
        wait_ends_at_first_verdict(url, rest, (before - 1) as nat);
    }
}

} // verus!
