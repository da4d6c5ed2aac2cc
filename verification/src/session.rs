//! A run from the submission to the report.
//!
//! A run submits what the plan names, waits for the scan to end, gathers
//! the findings, and has the report written; or it takes up a task that was
//! submitted before, and gathers its findings at once. Like the aggregation
//! that it contains, a run is a machine: it is handed the answer to what it
//! sent last, and says what to do next. The caller sends, pauses and writes.
//! A report is written only where nothing failed on the way.

use vstd::prelude::*;
use crate::aggregate::{Aggregation, AggregationView, Progress, ProgressView};
use crate::error::{CodepeckerError, Failure, CHECKOUT_FAILED, UPLOAD_FAILED};
use crate::pecker::{
    submission, Pecker, PeckerView, CHECKOUT_ACTION, STATUS_ACTION, UPLOAD_ACTION,
};
use crate::plan::{Plan, PlanView, Run, RunView};
use crate::poll::{polled, watch, PollStep, PollView, POLL_INTERVAL_SECONDS};
use crate::report::{Report, ReportView};
use crate::request::{Answer, AnswerView, Form, FormView, Upload, UploadView};

verus! {

/// What a run is waiting for.
pub enum PhaseView {
    /// The answer to the submission of an archive.
    Uploading,
    /// The answer to the submission of a repository.
    CheckingOut,
    /// The answer to the question after the state of the task.
    Waiting { task: Seq<char> },
    /// An answer to the aggregation of the findings of the task.
    Gathering(AggregationView),
}

/// The content of a [`Session`].
pub struct SessionView {
    pub pecker: PeckerView,
    pub output: Seq<char>,
    pub severity: Seq<char>,
    pub language: Seq<char>,
    pub get_source: bool,
    pub phase: PhaseView,
}

/// What a run is to do next.
pub enum TurnView {
    /// Send the upload, and hand the answer to the session.
    Upload(SessionView, UploadView),
    /// Pause for so many seconds, send the form, and hand the answer to the session.
    Send(SessionView, FormView, nat),
    /// Write the report to the path, in place of what is there. The run is over.
    Write { path: Seq<char>, report: ReportView },
    /// The run has failed. Nothing is to be written.
    Fail(Failure),
    /// There is nothing to do. The run is over.
    Rest,
}

impl SessionView {
    /// The session of a run that has not sent anything yet.
    pub open spec fn of(run: RunView, phase: PhaseView) -> SessionView {
        SessionView {
            pecker: run.pecker,
            output: run.output,
            severity: run.severity,
            language: run.language,
            get_source: run.get_source,
            phase,
        }
    }

    /// The session in another phase.
    pub open spec fn at(self, phase: PhaseView) -> SessionView {
        SessionView { phase, ..self }
    }

    /// Starts to gather the findings of a task.
    pub open spec fn gather(self, task: Seq<char>) -> TurnView {
        let begun = AggregationView::begin(task, self.language, self.severity, self.get_source);
        TurnView::Send(self.at(PhaseView::Gathering(begun)), begun.pending(self.pecker), 0)
    }

    /// Goes on from a submission: to the first question after the state of
    /// the task, without a pause. A submission that failed fails the run,
    /// and a task without a name is not waited for.
    pub open spec fn submitted(self, outcome: Result<Seq<char>, Failure>) -> TurnView {
        match outcome {
            Ok(task) => if task.len() == 0 {
                TurnView::Rest
            } else {
                TurnView::Send(
                    self.at(PhaseView::Waiting { task }),
                    self.pecker.status_form(task),
                    0,
                )
            },
            Err(e) => TurnView::Fail(e),
        }
    }

    /// How a run starts. `archive` is the name and the content of the
    /// archive that the plan names, as read by the caller.
    ///
    /// A task submitted before is gathered at once. An archive or a
    /// repository is submitted, unless the project asks for rules of the
    /// user's own without naming the rule set: then nothing is sent.
    pub open spec fn start(run: RunView, archive: Option<(Seq<char>, Seq<u8>)>) -> TurnView {
        match run.plan {
            PlanView::Resume { task } => SessionView::of(run, PhaseView::Uploading).gather(task),
            PlanView::Archive { project, file } => match archive {
                Some((name, content)) => if project.valid() {
                    TurnView::Upload(
                        SessionView::of(run, PhaseView::Uploading),
                        run.pecker.upload(project, name, content),
                    )
                } else {
                    TurnView::Fail(Failure::ParamMissing)
                },
                None => TurnView::Fail(Failure::FileUploadError),
            },
            PlanView::Repository { project, source } => if project.valid() {
                TurnView::Send(
                    SessionView::of(run, PhaseView::CheckingOut),
                    run.pecker.checkout(project, source),
                    0,
                )
            } else {
                TurnView::Fail(Failure::ParamMissing)
            },
            PlanView::Nothing => TurnView::Rest,
        }
    }

    /// What the run is to do when the answer to what it sent last is `answer`.
    ///
    /// - A submission that the backend filed is followed by the wait for
    ///   the scan.
    /// - While the scan goes on, the state of the task is asked again after
    ///   a pause of [`POLL_INTERVAL_SECONDS`]. A complete scan is followed
    ///   by the aggregation; a failed one fails the run.
    /// - The aggregation goes on as [`AggregationView::step`] says; its
    ///   report is to be written to the output of the run.
    pub open spec fn step(self, answer: AnswerView) -> TurnView {
        match self.phase {
            PhaseView::Uploading => self.submitted(
                submission(self.pecker.endpoint(UPLOAD_ACTION@), UPLOAD_FAILED@, answer),
            ),
            PhaseView::CheckingOut => self.submitted(
                submission(self.pecker.endpoint(CHECKOUT_ACTION@), CHECKOUT_FAILED@, answer),
            ),
            PhaseView::Waiting { task } => match polled(
                self.pecker.endpoint(STATUS_ACTION@),
                answer,
            ) {
                PollView::Completed => self.gather(task),
                PollView::Wait(_) => TurnView::Send(
                    self,
                    self.pecker.status_form(task),
                    POLL_INTERVAL_SECONDS as nat,
                ),
                PollView::Failed(e) => TurnView::Fail(e),
            },
            PhaseView::Gathering(state) => match state.step(self.pecker, answer) {
                ProgressView::Ask(next) => TurnView::Send(
                    self.at(PhaseView::Gathering(next)),
                    next.pending(self.pecker),
                    0,
                ),
                ProgressView::Done(report) => TurnView::Write { path: self.output, report },
                ProgressView::Failed(e) => TurnView::Fail(e),
            },
        }
    }
}

impl SessionView {
    /// How the wait for a scan goes when the answers come in this order:
    /// the seconds paused in all, and the turn that ends the wait, `None`
    /// where the answers run out before anything does.
    pub open spec fn wait(self, answers: Seq<AnswerView>) -> (nat, Option<TurnView>)
        decreases answers.len(),
    {
        if answers.len() == 0 {
            (0, None)
        } else {
            match self.step(answers[0]) {
                TurnView::Send(next, form, pause) => if next.phase is Waiting {
                    let rest = next.wait(answers.drop_first());
                    (pause + rest.0, rest.1)
                } else {
                    (0, Some(self.step(answers[0])))
                },
                ended => (0, Some(ended)),
            }
        }
    }

    /// The turn that a verdict on the state of the task leads to.
    pub open spec fn turn_after(self, verdict: PollView) -> TurnView {
        match verdict {
            PollView::Completed => self.gather(self.phase->task),
            PollView::Wait(_) => TurnView::Send(
                self,
                self.pecker.status_form(self.phase->task),
                POLL_INTERVAL_SECONDS as nat,
            ),
            PollView::Failed(e) => TurnView::Fail(e),
        }
    }
}

/// A run waits as [`watch`] says: it asks for the state of the task until
/// an answer ends the wait, pauses [`POLL_INTERVAL_SECONDS`] before every
/// question but the first, asks nothing after the answer that ends the
/// wait, and goes on from there as that answer says: to the aggregation
/// where the scan is complete, to the failure otherwise.
pub proof fn session_waits_as_watched(s: SessionView, answers: Seq<AnswerView>)
    requires
        s.phase is Waiting,
    ensures
        match watch(s.pecker.endpoint(STATUS_ACTION@), answers).1 {
            Some(verdict) => {
                &&& verdict.ends()
                &&& s.wait(answers).0 == (watch(s.pecker.endpoint(STATUS_ACTION@), answers).0 - 1)
                    * POLL_INTERVAL_SECONDS
                &&& s.wait(answers).1 == Some(s.turn_after(verdict))
            },
            None => {
                &&& s.wait(answers).0 == watch(s.pecker.endpoint(STATUS_ACTION@), answers).0
                    * POLL_INTERVAL_SECONDS
                &&& s.wait(answers).1 is None
            },
        },
    decreases answers.len(),
{
    if answers.len() > 0 {
        let verdict = polled(s.pecker.endpoint(STATUS_ACTION@), answers[0]);
        if !verdict.ends() {
            session_waits_as_watched(s, answers.drop_first());
        }
    }
}

enum Phase {
    Uploading,
    CheckingOut,
    Waiting { task: String },
    Gathering(Aggregation),
}

impl Phase {
    spec fn content(self) -> PhaseView {
        match self {
            Phase::Uploading => PhaseView::Uploading,
            Phase::CheckingOut => PhaseView::CheckingOut,
            Phase::Waiting { task } => PhaseView::Waiting { task: task@ },
            Phase::Gathering(state) => PhaseView::Gathering(state@),
        }
    }
}

/// A run that waits for the answer to what it sent last.
pub struct Session {
    pecker: Pecker,
    output: String,
    severity: String,
    language: String,
    get_source: bool,
    phase: Phase,
}

impl View for Session {
    type V = SessionView;

    closed spec fn view(&self) -> SessionView {
        SessionView {
            pecker: self.pecker@,
            output: self.output@,
            severity: self.severity@,
            language: self.language@,
            get_source: self.get_source,
            phase: self.phase.content(),
        }
    }
}

/// What a run is to do next.
pub enum Turn {
    /// Send the upload, and hand the answer to the session.
    Upload(Session, Upload),
    /// Pause for so many seconds, send the form, and hand the answer to the session.
    Send(Session, Form, u64),
    /// Write the report to the path, in place of what is there, as
    /// [`Report::render`] spells it. The run is over.
    Write { path: String, report: Report },
    /// The run has failed. Nothing is to be written.
    Fail(CodepeckerError),
    /// There is nothing to do. The run is over.
    Rest,
}

impl Turn {
    /// Whether the turn taken is the turn expected.
    pub open spec fn agrees(self, expected: TurnView) -> bool {
        match self {
            Turn::Upload(session, upload) => expected == TurnView::Upload(session@, upload@),
            Turn::Send(session, form, pause) => expected == TurnView::Send(
                session@,
                form@,
                pause as nat,
            ),
            Turn::Write { path, report } => expected == (TurnView::Write {
                path: path@,
                report: report@,
            }),
            Turn::Fail(e) => expected == TurnView::Fail(e@),
            Turn::Rest => expected == TurnView::Rest,
        }
    }
}

/// The name and the content of an archive.
pub open spec fn archive_of(archive: Option<(String, Vec<u8>)>) -> Option<(Seq<char>, Seq<u8>)> {
    match archive {
        Some((name, content)) => Some((name@, content@)),
        None => None,
    }
}

impl Session {
    fn gather(self, task: &str) -> (r: Turn)
        ensures
            r.agrees(self@.gather(task@)),
    {
        let (begun, form) = self.pecker.get_task_result_begin(
            task,
            self.language.as_str(),
            self.severity.as_str(),
            self.get_source,
        );
        let session = Session {
            pecker: self.pecker,
            output: self.output,
            severity: self.severity,
            language: self.language,
            get_source: self.get_source,
            phase: Phase::Gathering(begun),
        };
        Turn::Send(session, form, 0)
    }

    fn submitted(self, outcome: Result<String, CodepeckerError>) -> (r: Turn)
        ensures
            r.agrees(
                self@.submitted(
                    match outcome {
                        Ok(task) => Ok(task@),
                        Err(e) => Err(e@),
                    },
                ),
            ),
    {
        match outcome {
            Ok(task) => if task.as_str().is_empty() {
                Turn::Rest
            } else {
                let form = self.pecker.query_task_status_request(task.as_str());
                let session = Session {
                    pecker: self.pecker,
                    output: self.output,
                    severity: self.severity,
                    language: self.language,
                    get_source: self.get_source,
                    phase: Phase::Waiting { task },
                };
                Turn::Send(session, form, 0)
            },
            Err(e) => Turn::Fail(e),
        }
    }

    /// Starts a run. `archive` is the name and the content of the archive
    /// that the plan names, where it names one and it could be read.
    pub fn start(run: Run, archive: Option<(String, Vec<u8>)>) -> (r: Turn)
        ensures
            r.agrees(SessionView::start(run@, archive_of(archive))),
    {
        let session = Session {
            pecker: run.pecker,
            output: run.output,
            severity: run.severity,
            language: run.language,
            get_source: run.get_source,
            phase: Phase::Uploading,
        };
        match run.plan {
            Plan::Resume { task } => session.gather(task.as_str()),
            Plan::Archive { project, file } => match archive {
                Some((name, content)) => match session.pecker.post_source_code_request(
                    &project,
                    name.as_str(),
                    content,
                ) {
                    Ok(upload) => Turn::Upload(session, upload),
                    Err(e) => Turn::Fail(e),
                },
                None => Turn::Fail(CodepeckerError::FileUploadError),
            },
            Plan::Repository { project, source } => {
                match session.pecker.post_source_code_by_svn_or_git_request(&project, &source) {
                    Ok(form) => {
                        let session = Session {
                            pecker: session.pecker,
                            output: session.output,
                            severity: session.severity,
                            language: session.language,
                            get_source: session.get_source,
                            phase: Phase::CheckingOut,
                        };
                        Turn::Send(session, form, 0)
                    },
                    Err(e) => Turn::Fail(e),
                }
            },
            Plan::Nothing => Turn::Rest,
        }
    }

    /// Hands the run the answer to what it sent last, and says what it is to
    /// do next.
    pub fn step(self, answer: Answer) -> (r: Turn)
        ensures
            r.agrees(self@.step(answer@)),
    {
        match self.phase {
            Phase::Uploading => {
                let outcome = self.pecker.post_source_code(&answer);
                let session = Session {
                    pecker: self.pecker,
                    output: self.output,
                    severity: self.severity,
                    language: self.language,
                    get_source: self.get_source,
                    phase: Phase::Uploading,
                };
                session.submitted(outcome)
            },
            Phase::CheckingOut => {
                let outcome = self.pecker.post_source_code_by_svn_or_git(&answer);
                let session = Session {
                    pecker: self.pecker,
                    output: self.output,
                    severity: self.severity,
                    language: self.language,
                    get_source: self.get_source,
                    phase: Phase::CheckingOut,
                };
                session.submitted(outcome)
            },
            Phase::Waiting { task } => match self.pecker.query_task_status(&answer) {
                PollStep::Completed => {
                    let session = Session {
                        pecker: self.pecker,
                        output: self.output,
                        severity: self.severity,
                        language: self.language,
                        get_source: self.get_source,
                        phase: Phase::Uploading,
                    };
                    session.gather(task.as_str())
                },
                PollStep::Wait(_) => {
                    let form = self.pecker.query_task_status_request(task.as_str());
                    let session = Session {
                        pecker: self.pecker,
                        output: self.output,
                        severity: self.severity,
                        language: self.language,
                        get_source: self.get_source,
                        phase: Phase::Waiting { task },
                    };
                    Turn::Send(session, form, POLL_INTERVAL_SECONDS)
                },
                PollStep::Failed(e) => Turn::Fail(e),
            },
            Phase::Gathering(state) => match self.pecker.get_task_result(state, answer) {
                Progress::Ask(next, form) => {
                    let session = Session {
                        pecker: self.pecker,
                        output: self.output,
                        severity: self.severity,
                        language: self.language,
                        get_source: self.get_source,
                        phase: Phase::Gathering(next),
                    };
                    Turn::Send(session, form, 0)
                },
                Progress::Done(report) => Turn::Write { path: self.output, report },
                Progress::Failed(e) => Turn::Fail(e),
            },
        }
    }
}

} // verus!
