//! Gathering the findings of a task into a report.
//!
//! An aggregation asks the backend one question at a time: first for the
//! summary of the task, then for its findings page by page, then, for each
//! finding that the severity floor lets through, for its remediation text
//! and, where source is wanted, for the content of the files that the
//! finding and the steps of its trace lie in. It is written as a machine
//! that is handed the answer to its last question and says what to ask next:
//! the caller does the asking. What the machine does is laid down by
//! [`AggregationView::step`], on the content of its state; the executable
//! [`Pecker::get_task_result`] is proved to do exactly that.

use vstd::prelude::*;
use crate::cache::FileContentCache;
use crate::error::{CodepeckerError, Failure, DETAIL_FAILED, RESULT_FAILED};
use crate::finding::{
    attach_content, attach_solution, attach_trace, content_of, error_code, file_path, solved,
    step_file, trace_steps, with_content, with_trace,
};
use crate::json::{duplicates, items_member, json_of, jsons_of, null, text_member, Json};
use crate::pecker::{
    told, Pecker, PeckerView, FILE_ACTION, RESULT_ACTION, SOLUTION_ACTION, STATISTICS_ACTION,
};
use crate::report::{Report, ReportView};
use crate::request::{Answer, AnswerView, Form, FormView};
use crate::severity::filtered;

verus! {

/// Where an aggregation stands: the question whose answer it waits for.
pub enum Stage {
    /// The summary of the task.
    Statistics,
    /// The page after the `fetched` pages gathered so far.
    Pages { fetched: nat },
    /// The remediation text for a finding.
    Solution { finding: nat },
    /// The content of the file that a finding lies in.
    File { finding: nat },
    /// The content of the file that a step of a finding's trace lies in.
    Trace { finding: nat, step: nat },
}

impl Stage {
    /// The finding that the stage is about.
    pub open spec fn finding(self) -> nat {
        match self {
            Stage::Solution { finding } => finding,
            Stage::File { finding } => finding,
            Stage::Trace { finding, .. } => finding,
            _ => 0,
        }
    }

    /// How much of a finding is still to be seen to.
    pub open spec fn rank(self) -> nat {
        match self {
            Stage::Solution { .. } => 2,
            Stage::File { .. } => 1,
            _ => 0,
        }
    }

    /// The step of the trace that the stage is about.
    pub open spec fn step(self) -> nat {
        match self {
            Stage::Trace { step, .. } => step,
            _ => 0,
        }
    }
}

/// The content of an [`Aggregation`].
pub struct AggregationView {
    pub task: Seq<char>,
    pub language: Seq<char>,
    pub severity: Seq<char>,
    pub get_source: bool,
    pub stage: Stage,
    /// The summary of the task, once it is there.
    pub info: Json,
    /// The findings: as gathered while pages come in, then those that the
    /// floor lets through, enriched up to the finding that the stage names.
    pub problems: Seq<Json>,
    /// The steps of the trace of the finding in hand, enriched up to the
    /// step that the stage names.
    pub trace: Seq<Json>,
    /// The content of every file that was asked for so far.
    pub cache: Map<Seq<char>, Seq<Json>>,
}

/// What an aggregation comes to when it is handed an answer.
pub enum ProgressView {
    /// It has another question, the one that its new state waits for.
    Ask(AggregationView),
    /// It is done.
    Done(ReportView),
    /// It has failed, and nothing is to be written.
    Failed(Failure),
}

impl AggregationView {
    /// The state in which an aggregation starts.
    pub open spec fn begin(
        task: Seq<char>,
        language: Seq<char>,
        severity: Seq<char>,
        get_source: bool,
    ) -> AggregationView {
        AggregationView {
            task,
            language,
            severity,
            get_source,
            stage: Stage::Statistics,
            info: Json::Null,
            problems: Seq::empty(),
            trace: Seq::empty(),
            cache: Map::empty(),
        }
    }

    /// While the steps of a trace are in hand, the finding is there and has a trace.
    pub open spec fn sound(self) -> bool {
        self.stage matches Stage::Trace { finding, .. } ==> finding < self.problems.len()
            && trace_steps(self.problems[finding as int]) is Some
    }

    /// What holds of a state that waits for an answer. While pages come in,
    /// no more pages were gathered than findings. In enrichment, the finding
    /// or the step in hand is there and names what is asked for, and a file
    /// that is asked for is one of which nothing is kept yet.
    pub open spec fn wf(self) -> bool {
        &&& self.sound()
        &&& match self.stage {
            Stage::Statistics => true,
            Stage::Pages { fetched } => fetched <= self.problems.len(),
            Stage::Solution { finding } => finding < self.problems.len() && error_code(
                self.problems[finding as int],
            ) is Some,
            Stage::File { finding } => finding < self.problems.len() && self.get_source && (
            file_path(self.problems[finding as int]) matches Some(path)
                && !self.cache.contains_key(path)),
            Stage::Trace { finding, step } => step < self.trace.len() && (step_file(
                self.trace[step as int],
            ) matches Some(path) && !self.cache.contains_key(path)),
        }
    }

    /// The question that the state waits for an answer to.
    pub open spec fn pending(self, pecker: PeckerView) -> FormView {
        match self.stage {
            Stage::Statistics => pecker.statistics_form(self.task),
            Stage::Pages { fetched } => pecker.page_form(self.task, fetched + 1),
            Stage::Solution { finding } => pecker.solution_form(
                error_code(self.problems[finding as int])->0,
                self.language,
            ),
            Stage::File { finding } => pecker.file_form(
                file_path(self.problems[finding as int])->0,
            ),
            Stage::Trace { finding, step } => pecker.file_form(
                step_file(self.trace[step as int])->0,
            ),
        }
    }

    /// The path of the file that the state waits for, where it waits for one.
    pub open spec fn pending_path(self) -> Option<Seq<char>> {
        match self.stage {
            Stage::File { finding } => file_path(self.problems[finding as int]),
            Stage::Trace { finding, step } => step_file(self.trace[step as int]),
            _ => None,
        }
    }

    /// The report on the findings as they stand.
    pub open spec fn report(self) -> ReportView {
        ReportView {
            task_id: self.task,
            severity: self.severity,
            info: self.info,
            problems: self.problems,
        }
    }

    /// The state at another stage.
    pub open spec fn at(self, stage: Stage) -> AggregationView {
        AggregationView { stage, ..self }
    }

    /// The state with one finding replaced.
    pub open spec fn with_problem(self, finding: nat, doc: Json) -> AggregationView {
        AggregationView { problems: self.problems.update(finding as int, doc), ..self }
    }

    /// The state with one step of the trace in hand replaced.
    pub open spec fn with_step(self, step: nat, doc: Json) -> AggregationView {
        AggregationView { trace: self.trace.update(step as int, doc), ..self }
    }

    /// The state with the content of a file added to what is kept.
    pub open spec fn remember(self, path: Seq<char>, content: Seq<Json>) -> AggregationView {
        AggregationView { cache: self.cache.insert(path, content), ..self }
    }

    /// Takes the trace of a finding in hand, where it has one; goes on to
    /// the next finding where it has none.
    pub open spec fn enter_trace(self, finding: nat) -> AggregationView {
        match trace_steps(self.problems[finding as int]) {
            Some(steps) => AggregationView {
                trace: steps,
                stage: Stage::Trace { finding, step: 0 },
                ..self
            },
            None => self.at(Stage::Solution { finding: finding + 1 }),
        }
    }

    /// Puts the trace in hand back into its finding, and goes on to the next finding.
    pub open spec fn leave_trace(self, finding: nat) -> AggregationView {
        AggregationView {
            problems: self.problems.update(
                finding as int,
                with_trace(self.problems[finding as int], self.trace),
            ),
            trace: Seq::empty(),
            stage: Stage::Solution { finding: finding + 1 },
            ..self
        }
    }

    /// Enriches on from the stage that the state names, as far as can be
    /// done without the backend: up to the next question that has to be
    /// asked, or to the end.
    ///
    /// A finding without an error code needs no remediation text. Where
    /// source is wanted, a file whose content is kept already gets that
    /// content, and only a file that was never asked for is asked for.
    pub open spec fn advance(self) -> ProgressView
        decreases self.problems.len() - self.stage.finding(), self.stage.rank(), self.trace.len()
            - self.stage.step(),
    {
        match self.stage {
            Stage::Solution { finding } => if finding >= self.problems.len() {
                ProgressView::Done(self.report())
            } else if error_code(self.problems[finding as int]) is Some {
                ProgressView::Ask(self)
            } else {
                self.at(Stage::File { finding }).advance()
            },
            Stage::File { finding } => if finding >= self.problems.len() {
                ProgressView::Done(self.report())
            } else if !self.get_source {
                self.at(Stage::Solution { finding: finding + 1 }).advance()
            } else {
                match file_path(self.problems[finding as int]) {
                    Some(path) => if self.cache.contains_key(path) {
                        self.with_problem(
                            finding,
                            with_content(self.problems[finding as int], self.cache[path]),
                        ).enter_trace(finding).advance()
                    } else {
                        ProgressView::Ask(self)
                    },
                    None => self.enter_trace(finding).advance(),
                }
            },
            Stage::Trace { finding, step } => if finding >= self.problems.len() {
                ProgressView::Done(self.report())
            } else if step >= self.trace.len() {
                self.leave_trace(finding).advance()
            } else {
                match step_file(self.trace[step as int]) {
                    Some(path) => if self.cache.contains_key(path) {
                        self.with_step(
                            step,
                            with_content(self.trace[step as int], self.cache[path]),
                        ).at(Stage::Trace { finding, step: step + 1 }).advance()
                    } else {
                        ProgressView::Ask(self)
                    },
                    None => self.at(Stage::Trace { finding, step: step + 1 }).advance(),
                }
            },
            _ => ProgressView::Ask(self),
        }
    }

    /// What the aggregation comes to when the answer to its question is `answer`.
    ///
    /// - The summary is kept as it comes; without it the run fails.
    /// - A page with findings is added behind those gathered so far, and the
    ///   next page is asked for. A page without findings ends the paging: the
    ///   severity floor is applied and enrichment starts. A page that does
    ///   not come fails the run.
    /// - Remediation text is attached where it came and carries a
    ///   description. Where it did not, the finding stays as it is.
    /// - The content of a file is kept under its path, and attached, whether
    ///   or not the backend had any: no path is asked for twice.
    pub open spec fn step(self, pecker: PeckerView, answer: AnswerView) -> ProgressView {
        match self.stage {
            Stage::Statistics => match told(
                pecker.endpoint(STATISTICS_ACTION@),
                RESULT_FAILED@,
                answer,
            ) {
                Ok(info) => ProgressView::Ask(
                    AggregationView { info, stage: Stage::Pages { fetched: 0 }, ..self },
                ),
                Err(e) => ProgressView::Failed(e),
            },
            Stage::Pages { fetched } => match told(
                pecker.endpoint(RESULT_ACTION@),
                RESULT_FAILED@,
                answer,
            ) {
                Ok(page) => match page.items_member("problem"@) {
                    Some(items) => if items.len() > 0 {
                        ProgressView::Ask(
                            AggregationView {
                                problems: self.problems + items,
                                stage: Stage::Pages { fetched: fetched + 1 },
                                ..self
                            },
                        )
                    } else {
                        self.enrich()
                    },
                    None => self.enrich(),
                },
                Err(e) => ProgressView::Failed(e),
            },
            Stage::Solution { finding } => self.with_problem(
                finding,
                solved(
                    self.problems[finding as int],
                    told(pecker.endpoint(SOLUTION_ACTION@), DETAIL_FAILED@, answer),
                ),
            ).at(Stage::File { finding }).advance(),
            Stage::File { finding } => {
                let content = content_of(
                    told(pecker.endpoint(FILE_ACTION@), DETAIL_FAILED@, answer),
                );
                self.remember(file_path(self.problems[finding as int])->0, content).with_problem(
                    finding,
                    with_content(self.problems[finding as int], content),
                ).enter_trace(finding).advance()
            },
            Stage::Trace { finding, step } => {
                let content = content_of(
                    told(pecker.endpoint(FILE_ACTION@), DETAIL_FAILED@, answer),
                );
                self.remember(step_file(self.trace[step as int])->0, content).with_step(
                    step,
                    with_content(self.trace[step as int], content),
                ).at(Stage::Trace { finding, step: step + 1 }).advance()
            },
        }
    }

    /// Applies the severity floor to the findings gathered, and starts to enrich.
    pub open spec fn enrich(self) -> ProgressView {
        AggregationView {
            problems: filtered(self.problems, self.severity),
            stage: Stage::Solution { finding: 0 },
            ..self
        }.advance()
    }
}

enum Cursor {
    Statistics,
    Pages { fetched: usize },
    Solution { finding: usize },
    File { finding: usize },
    Trace { finding: usize, step: usize },
}

impl Cursor {
    spec fn stage(self) -> Stage {
        match self {
            Cursor::Statistics => Stage::Statistics,
            Cursor::Pages { fetched } => Stage::Pages { fetched: fetched as nat },
            Cursor::Solution { finding } => Stage::Solution { finding: finding as nat },
            Cursor::File { finding } => Stage::File { finding: finding as nat },
            Cursor::Trace { finding, step } => Stage::Trace {
                finding: finding as nat,
                step: step as nat,
            },
        }
    }
}

struct Work {
    task: String,
    language: String,
    severity: String,
    get_source: bool,
    cursor: Cursor,
    info: serde_json::Value,
    problems: Vec<serde_json::Value>,
    trace: Vec<serde_json::Value>,
    cache: FileContentCache,
}

impl Work {
    spec fn content(self) -> AggregationView {
        AggregationView {
            task: self.task@,
            language: self.language@,
            severity: self.severity@,
            get_source: self.get_source,
            stage: self.cursor.stage(),
            info: json_of(self.info),
            problems: jsons_of(self.problems@),
            trace: jsons_of(self.trace@),
            cache: self.cache@,
        }
    }
}

/// An aggregation that waits for the answer to its last question.
pub struct Aggregation {
    work: Work,
}

impl View for Aggregation {
    type V = AggregationView;

    closed spec fn view(&self) -> AggregationView {
        self.work.content()
    }
}

impl Aggregation {
    #[verifier::type_invariant]
    spec fn valid(self) -> bool {
        self.work.content().wf()
    }

    /// The task whose findings are gathered.
    pub fn task(&self) -> (r: &str)
        ensures
            r@ == self@.task,
    {
        self.work.task.as_str()
    }

    /// How many findings the aggregation holds.
    pub fn gathered(&self) -> (r: usize)
        ensures
            r == self@.problems.len(),
    {
        self.work.problems.len()
    }
}

/// What an aggregation comes to when it is handed an answer.
pub enum Progress {
    /// It has another question: send the form, and hand the answer to the new state.
    Ask(Aggregation, Form),
    /// It is done: this is the report.
    Done(Report),
    /// It has failed, and nothing is to be written.
    Failed(CodepeckerError),
}

impl Progress {
    /// Whether the progress made is the progress expected: the same state
    /// with the question that it waits for, the same report, or the same
    /// failure. A state handed out always waits for a question that was not
    /// asked before.
    pub open spec fn agrees(self, pecker: PeckerView, expected: ProgressView) -> bool {
        match self {
            Progress::Ask(next, form) => expected == ProgressView::Ask(next@) && next@.wf()
                && form@ == next@.pending(pecker),
            Progress::Done(report) => expected == ProgressView::Done(report@),
            Progress::Failed(e) => expected == ProgressView::Failed(e@),
        }
    }
}

/// What there is to do about the file that a finding, or a step, lies in.
enum Lookup {
    /// It names no file.
    Unnamed,
    /// The content of its file is kept.
    Kept(Vec<serde_json::Value>),
    /// The content of its file has to be asked for.
    Wanted(Form),
}

impl Lookup {
    spec fn of(self, pecker: PeckerView, cache: Map<Seq<char>, Seq<Json>>, path: Option<Seq<char>>)
        -> bool {
        match self {
            Lookup::Unnamed => path is None,
            Lookup::Kept(content) => path matches Some(p) && cache.contains_key(p) && jsons_of(
                content@,
            ) == cache[p],
            Lookup::Wanted(form) => path matches Some(p) && !cache.contains_key(p) && form@
                == pecker.file_form(p),
        }
    }
}

impl Pecker {
    fn look_up(&self, cache: &FileContentCache, target: &serde_json::Value, key: &str) -> (r:
        Lookup)
        ensures
            r.of(self@, cache@, json_of(*target).text_member(key@)),
    {
        match text_member(target, key) {
            Some(path) => match cache.get(path) {
                Some(content) => Lookup::Kept(content),
                None => Lookup::Wanted(self.get_file_content_bytes_request(path)),
            },
            None => Lookup::Unnamed,
        }
    }

    fn file_content(&self, answer: Answer) -> (r: Vec<serde_json::Value>)
        ensures
            jsons_of(r@) == content_of(
                told(self@.endpoint(FILE_ACTION@), DETAIL_FAILED@, answer@),
            ),
    {
        let nothing: Vec<serde_json::Value> = Vec::new();
        assert(jsons_of(nothing@) =~= Seq::empty());
        match self.get_file_content_bytes(answer) {
            Ok(a) => match items_member(&a, "byteArrayOfFiles") {
                Some(content) => duplicates(content),
                None => nothing,
            },
            Err(_) => nothing,
        }
    }

    /// Starts to gather the findings of `task`: the state to begin in, and
    /// the first question to send. Findings below the floor `severity` are
    /// left out; remediation text is asked for code written in `language`;
    /// file content is asked for where `get_source` is set.
    pub fn get_task_result_begin(
        &self,
        task: &str,
        language: &str,
        severity: &str,
        get_source: bool,
    ) -> (r: (Aggregation, Form))
        ensures
            r.0@ == AggregationView::begin(task@, language@, severity@, get_source),
            r.0@.wf(),
            r.1@ == r.0@.pending(self@),
    {
        let work = Work {
            task: task.to_owned(),
            language: language.to_owned(),
            severity: severity.to_owned(),
            get_source,
            cursor: Cursor::Statistics,
            info: null(),
            problems: Vec::new(),
            trace: Vec::new(),
            cache: FileContentCache::new(),
        };
        assert(jsons_of(work.problems@) =~= Seq::empty());
        assert(jsons_of(work.trace@) =~= Seq::empty());
        let form = self.query_statistics_request(task);
        (Aggregation { work }, form)
    }
}

fn enter_trace(work: &mut Work, finding: usize)
    requires
        finding < old(work).problems@.len(),
    ensures
        final(work).content() == old(work).content().enter_trace(finding as nat),
{
    let gathered = work.problems.len();
    match items_member(&work.problems[finding], "traceBlock") {
        Some(steps) => {
            let copies = duplicates(steps);
            work.trace = copies;
            work.cursor = Cursor::Trace { finding, step: 0 };
        },
        None => {
            work.cursor = Cursor::Solution { finding: finding + 1 };
        },
    }
}

fn leave_trace(work: &mut Work, finding: usize)
    requires
        finding < old(work).problems@.len(),
        json_of(old(work).problems@[finding as int]) is Object,
    ensures
        final(work).content() == old(work).content().leave_trace(finding as nat),
{
    let gathered = work.problems.len();
    let mut steps: Vec<serde_json::Value> = Vec::new();
    assert(jsons_of(steps@) =~= Seq::empty());
    std::mem::swap(&mut work.trace, &mut steps);
    attach_trace(&mut work.problems, finding, steps);
    work.cursor = Cursor::Solution { finding: finding + 1 };
}

fn report_of(work: Work) -> (r: Report)
    ensures
        r@ == work.content().report(),
{
    Report { task_id: work.task, severity: work.severity, info: work.info, problems: work.problems }
}

impl Pecker {
    fn advance(&self, work: Work) -> (r: Progress)
        requires
            work.cursor is Solution || work.cursor is File || work.cursor is Trace,
            work.content().sound(),
        ensures
            r.agrees(self@, work.content().advance()),
    {
        let mut now = work;
        loop
            invariant
                now.content().advance() == work.content().advance(),
                now.content().sound(),
                now.cursor is Solution || now.cursor is File || now.cursor is Trace,
            decreases
                    now.problems@.len() - now.cursor.stage().finding(),
                    now.cursor.stage().rank(),
                    now.trace@.len() - now.cursor.stage().step(),
        {
            match now.cursor {
                Cursor::Solution { finding } => {
                    if finding >= now.problems.len() {
                        return Progress::Done(report_of(now));
                    }
                    let question = match text_member(&now.problems[finding], "errorCode") {
                        Some(code) => Some(
                            self.get_solution_detail_request(code, now.language.as_str()),
                        ),
                        None => None,
                    };
                    match question {
                        Some(form) => {
                            return Progress::Ask(Aggregation { work: now }, form);
                        },
                        None => {
                            now.cursor = Cursor::File { finding };
                        },
                    }
                },
                Cursor::File { finding } => {
                    if finding >= now.problems.len() {
                        return Progress::Done(report_of(now));
                    }
                    if !now.get_source {
                        now.cursor = Cursor::Solution { finding: finding + 1 };
                    } else {
                        match self.look_up(&now.cache, &now.problems[finding], "filePath") {
                            Lookup::Kept(content) => {
                                attach_content(&mut now.problems, finding, content);
                                enter_trace(&mut now, finding);
                            },
                            Lookup::Wanted(form) => {
                                return Progress::Ask(Aggregation { work: now }, form);
                            },
                            Lookup::Unnamed => {
                                enter_trace(&mut now, finding);
                            },
                        }
                    }
                },
                Cursor::Trace { finding, step } => {
                    if finding >= now.problems.len() {
                        return Progress::Done(report_of(now));
                    }
                    if step >= now.trace.len() {
                        leave_trace(&mut now, finding);
                    } else {
                        match self.look_up(&now.cache, &now.trace[step], "file") {
                            Lookup::Kept(content) => {
                                attach_content(&mut now.trace, step, content);
                                now.cursor = Cursor::Trace { finding, step: step + 1 };
                            },
                            Lookup::Wanted(form) => {
                                return Progress::Ask(Aggregation { work: now }, form);
                            },
                            Lookup::Unnamed => {
                                now.cursor = Cursor::Trace { finding, step: step + 1 };
                            },
                        }
                    }
                },
                _ => {
                    return vstd::pervasive::unreached();
                },
            }
        }
    }

    /// Hands the aggregation the answer to its last question, and says what
    /// it comes to: another question, the report, or a failure.
    pub fn get_task_result(&self, state: Aggregation, answer: Answer) -> (r: Progress)
        ensures
            r.agrees(self@, state@.step(self@, answer@)),
    {
        proof {
            use_type_invariant(&state);
        }
        let mut work = state.work;
        match work.cursor {
            Cursor::Statistics => match self.query_statistics(answer) {
                Ok(info) => {
                    work.info = info;
                    work.cursor = Cursor::Pages { fetched: 0 };
                    let form = self.get_task_result_request(work.task.as_str(), 1);
                    Progress::Ask(Aggregation { work }, form)
                },
                Err(e) => Progress::Failed(e),
            },
            Cursor::Pages { fetched } => {
                let url = self.endpoint(RESULT_ACTION);
                match crate::pecker::read_answer(url.as_str(), RESULT_FAILED, answer) {
                    Ok(page) => {
                        let more = match items_member(&page, "problem") {
                            Some(items) => if items.len() > 0 {
                                Some(duplicates(items))
                            } else {
                                None
                            },
                            None => None,
                        };
                        match more {
                            Some(mut items) => {
                                let ghost before = work.problems@;
                                let ghost added = items@;
                                work.problems.append(&mut items);
                                let gathered = work.problems.len();
                                assert(jsons_of(work.problems@) =~= jsons_of(before) + jsons_of(
                                    added,
                                ));
                                work.cursor = Cursor::Pages { fetched: fetched + 1 };
                                let number: u128 = fetched as u128 + 2;
                                let form = self.get_task_result_request(work.task.as_str(), number);
                                Progress::Ask(Aggregation { work }, form)
                            },
                            None => {
                                let mut all: Vec<serde_json::Value> = Vec::new();
                                std::mem::swap(&mut work.problems, &mut all);
                                let kept = self.filter_by_severity(work.severity.as_str(), all);
                                work.problems = kept;
                                work.cursor = Cursor::Solution { finding: 0 };
                                self.advance(work)
                            },
                        }
                    },
                    Err(e) => Progress::Failed(e),
                }
            },
            Cursor::Solution { finding } => {
                match self.get_solution_detail(answer) {
                    Ok(a) => {
                        attach_solution(&mut work.problems, finding, &a);
                    },
                    Err(_) => {
                        assert(jsons_of(work.problems@) =~= jsons_of(work.problems@).update(
                            finding as int,
                            json_of(work.problems@[finding as int]),
                        ));
                    },
                }
                work.cursor = Cursor::File { finding };
                self.advance(work)
            },
            Cursor::File { finding } => {
                let content = self.file_content(answer);
                let path = match text_member(&work.problems[finding], "filePath") {
                    Some(p) => p.to_owned(),
                    None => vstd::pervasive::unreached(),
                };
                work.cache.insert(path, duplicates(&content));
                attach_content(&mut work.problems, finding, content);
                enter_trace(&mut work, finding);
                self.advance(work)
            },
            Cursor::Trace { finding, step } => {
                let content = self.file_content(answer);
                let path = match text_member(&work.trace[step], "file") {
                    Some(p) => p.to_owned(),
                    None => vstd::pervasive::unreached(),
                };
                work.cache.insert(path, duplicates(&content));
                let steps = work.trace.len();
                attach_content(&mut work.trace, step, content);
                work.cursor = Cursor::Trace { finding, step: step + 1 };
                self.advance(work)
            },
        }
    }
}

} // verus!
