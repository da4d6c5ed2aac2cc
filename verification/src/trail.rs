//! What holds of an aggregation from its first question to its last.
//!
//! The machine of [`crate::aggregate`] is judged here over whole runs: the
//! states that it passes through as answers come in, whatever the answers.
//! Pages add up in order, and no file is asked for twice.

use vstd::prelude::*;
use crate::aggregate::{AggregationView, ProgressView, Stage};
use crate::error::{DETAIL_FAILED, RESULT_FAILED};
use crate::finding::{content_of, error_code, file_path, solved, step_file, with_content};
use crate::json::Json;
use crate::pecker::{told, PeckerView, FILE_ACTION, RESULT_ACTION, SOLUTION_ACTION};
use crate::request::AnswerView;
use crate::severity::filtered;

verus! {

impl AggregationView {
    /// Whether the stage is one of enrichment.
    pub open spec fn enriching(self) -> bool {
        self.stage is Solution || self.stage is File || self.stage is Trace
    }

    /// Whether another state belongs to the same aggregation: the same
    /// task, floor, language and wish for source.
    pub open spec fn same_run(self, other: AggregationView) -> bool {
        &&& self.task == other.task
        &&& self.language == other.language
        &&& self.severity == other.severity
        &&& self.get_source == other.get_source
    }

    /// The states that the aggregation waits in, one after the other, when
    /// the answers come in this order: first the state itself, then the
    /// state after each answer, up to the answer that ends the aggregation or
    /// to the last answer.
    pub open spec fn trail(self, pecker: PeckerView, answers: Seq<AnswerView>) -> Seq<
        AggregationView,
    >
        decreases answers.len(),
    {
        if answers.len() == 0 {
            seq![self]
        } else {
            match self.step(pecker, answers[0]) {
                ProgressView::Ask(next) => seq![self] + next.trail(pecker, answers.drop_first()),
                _ => seq![self],
            }
        }
    }

    /// What the aggregation has come to when the answers came in this order.
    pub open spec fn after(self, pecker: PeckerView, answers: Seq<AnswerView>) -> ProgressView
        decreases answers.len(),
    {
        if answers.len() == 0 {
            ProgressView::Ask(self)
        } else {
            match self.step(pecker, answers[0]) {
                ProgressView::Ask(next) => next.after(pecker, answers.drop_first()),
                ended => ended,
            }
        }
    }

    /// What is kept of files once the answer to the question waited for is in.
    pub open spec fn kept_with(self, pecker: PeckerView, answer: AnswerView) -> Map<
        Seq<char>,
        Seq<Json>,
    > {
        match self.pending_path() {
            Some(path) => self.cache.insert(
                path,
                content_of(told(pecker.endpoint(FILE_ACTION@), DETAIL_FAILED@, answer)),
            ),
            None => self.cache,
        }
    }

    /// What is kept of files when the answers came in this order.
    pub open spec fn kept_after(self, pecker: PeckerView, answers: Seq<AnswerView>) -> Map<
        Seq<char>,
        Seq<Json>,
    >
        decreases answers.len(),
    {
        if answers.len() == 0 {
            self.cache
        } else {
            match self.step(pecker, answers[0]) {
                ProgressView::Ask(next) => next.kept_after(pecker, answers.drop_first()),
                _ => self.kept_with(pecker, answers[0]),
            }
        }
    }
}

/// Enrichment without the backend stops only at a question that can be
/// asked, keeps the run's parameters, and leaves what is kept of files as
/// it is.
pub proof fn advance_waits_well(s: AggregationView)
    requires
        s.sound(),
        s.enriching(),
    ensures
        match s.advance() {
            ProgressView::Ask(next) => next.wf() && next.enriching() && next.same_run(s)
                && next.info == s.info && next.cache == s.cache,
            ProgressView::Done(report) => report.task_id == s.task && report.severity
                == s.severity && report.info == s.info,
            ProgressView::Failed(_) => false,
        },
    decreases s.problems.len() - s.stage.finding(), s.stage.rank(), s.trace.len() - s.stage.step(),
{
    match s.stage {
        Stage::Solution { finding } => {
            if finding < s.problems.len() && !(error_code(
                s.problems[finding as int],
            ) is Some) {
                advance_waits_well(s.at(Stage::File { finding }));
            }
        },
        Stage::File { finding } => {
            if finding < s.problems.len() {
                if !s.get_source {
                    advance_waits_well(s.at(Stage::Solution { finding: finding + 1 }));
                } else {
                    match file_path(s.problems[finding as int]) {
                        Some(path) => {
                            if s.cache.contains_key(path) {
                                advance_waits_well(
                                    s.with_problem(
                                        finding,
                                        with_content(
                                            s.problems[finding as int],
                                            s.cache[path],
                                        ),
                                    ).enter_trace(finding),
                                );
                            }
                        },
                        None => {
                            advance_waits_well(s.enter_trace(finding));
                        },
                    }
                }
            }
        },
        Stage::Trace { finding, step } => {
            if finding < s.problems.len() {
                if step >= s.trace.len() {
                    advance_waits_well(s.leave_trace(finding));
                } else {
                    match step_file(s.trace[step as int]) {
                        Some(path) => {
                            if s.cache.contains_key(path) {
                                advance_waits_well(
                                    s.with_step(
                                        step,
                                        with_content(
                                            s.trace[step as int],
                                            s.cache[path],
                                        ),
                                    ).at(Stage::Trace { finding, step: step + 1 }),
                                );
                            }
                        },
                        None => {
                            advance_waits_well(s.at(Stage::Trace { finding, step: step + 1 }));
                        },
                    }
                }
            }
        },
        _ => {},
    }
}

/// A answer leads from a state that waits well to another one of the same
/// run, or ends the aggregation. The content of the file that was waited
/// for is kept from then on, and nothing that was kept is lost or changed.
pub proof fn step_waits_well(s: AggregationView, pecker: PeckerView, answer: AnswerView)
    requires
        s.wf(),
    ensures
        s.step(pecker, answer) matches ProgressView::Ask(next) ==> {
            &&& next.wf()
            &&& next.same_run(s)
            &&& forall|path: Seq<char>| #[trigger]
                s.cache.contains_key(path) ==> next.cache.contains_key(path) && next.cache[path]
                    == s.cache[path]
            &&& s.pending_path() matches Some(path) ==> next.cache.contains_key(path)
            &&& next.cache == s.kept_with(pecker, answer)
            &&& !(s.stage is Statistics) ==> next.info == s.info
            &&& !(next.stage is Statistics)
        },
        s.step(pecker, answer) matches ProgressView::Done(report) ==> report.task_id == s.task
            && report.severity == s.severity && report.info == s.info,
{
    match s.stage {
        Stage::Statistics => {},
        Stage::Pages { fetched } => {
            let enriching = AggregationView {
                problems: filtered(s.problems, s.severity),
                stage: Stage::Solution { finding: 0 },
                ..s
            };
            advance_waits_well(enriching);
        },
        Stage::Solution { finding } => {
            let text = told(
                pecker.endpoint(SOLUTION_ACTION@),
                DETAIL_FAILED@,
                answer,
            );
            advance_waits_well(
                s.with_problem(
                    finding,
                    solved(s.problems[finding as int], text),
                ).at(Stage::File { finding }),
            );
        },
        Stage::File { finding } => {
            let content = content_of(
                told(
                    pecker.endpoint(FILE_ACTION@),
                    DETAIL_FAILED@,
                    answer,
                ),
            );
            advance_waits_well(
                s.remember(file_path(s.problems[finding as int])->0, content)
                    .with_problem(
                    finding,
                    with_content(s.problems[finding as int], content),
                ).enter_trace(finding),
            );
        },
        Stage::Trace { finding, step } => {
            let content = content_of(
                told(
                    pecker.endpoint(FILE_ACTION@),
                    DETAIL_FAILED@,
                    answer,
                ),
            );
            advance_waits_well(
                s.remember(step_file(s.trace[step as int])->0, content).with_step(
                    step,
                    with_content(s.trace[step as int], content),
                ).at(Stage::Trace { finding, step: step + 1 }),
            );
        },
    }
}

/// Along a run, every state waits well, nothing that was kept of files is
/// lost, and the file that a state waited for is kept in every later state.
pub proof fn trail_keeps_files(
    s: AggregationView,
    pecker: PeckerView,
    answers: Seq<AnswerView>,
    later: int,
)
    requires
        s.wf(),
        0 < later < s.trail(pecker, answers).len(),
    ensures
        s.trail(pecker, answers)[later].wf(),
        s.trail(pecker, answers)[later].same_run(s),
        forall|path: Seq<char>| #[trigger]
            s.cache.contains_key(path) ==> s.trail(pecker, answers)[later].cache.contains_key(
                path,
            ),
        s.pending_path() matches Some(path) ==> s.trail(pecker, answers)[later].cache.contains_key(
            path,
        ),
    decreases answers.len(),
{
    step_waits_well(s, pecker, answers[0]);
    match s.step(pecker, answers[0]) {
        ProgressView::Ask(next) => {
            let rest = next.trail(pecker, answers.drop_first());
            assert(s.trail(pecker, answers)[later] == rest[later - 1]);
            if later > 1 {
                trail_keeps_files(next, pecker, answers.drop_first(), later - 1);
            }
        },
        _ => {},
    }
}

/// No file is asked for twice: in any run, from any state that waits well
/// and whatever the answers, two states that wait for the content of a file
/// wait for different files.
pub proof fn no_file_is_asked_twice(
    s: AggregationView,
    pecker: PeckerView,
    answers: Seq<AnswerView>,
    first: int,
    second: int,
)
    requires
        s.wf(),
        0 <= first < second < s.trail(pecker, answers).len(),
        s.trail(pecker, answers)[first].pending_path() is Some,
        s.trail(pecker, answers)[second].pending_path() is Some,
    ensures
        s.trail(pecker, answers)[first].pending_path() != s.trail(
            pecker,
            answers,
        )[second].pending_path(),
    decreases answers.len(),
{
    if first == 0 {
        trail_keeps_files(s, pecker, answers, second);
    } else {
        step_waits_well(s, pecker, answers[0]);
        match s.step(pecker, answers[0]) {
            ProgressView::Ask(next) => {
                let rest = next.trail(pecker, answers.drop_first());
                assert(s.trail(pecker, answers)[first] == rest[first - 1]);
                assert(s.trail(pecker, answers)[second] == rest[second - 1]);
                no_file_is_asked_twice(next, pecker, answers.drop_first(), first - 1, second - 1);
            },
            _ => {},
        }
    }
}

/// Nothing is kept that was not asked for: whatever is kept of files at the
/// end of a run was kept at its start, or is the content of a file that
/// some state of the run waited for.
pub proof fn every_kept_file_was_asked_for(
    s: AggregationView,
    pecker: PeckerView,
    answers: Seq<AnswerView>,
    path: Seq<char>,
)
    requires
        s.wf(),
        s.kept_after(pecker, answers).contains_key(path),
        !s.cache.contains_key(path),
    ensures
        exists|k: int|
            0 <= k < s.trail(pecker, answers).len() && (#[trigger] s.trail(
                pecker,
                answers,
            )[k]).pending_path() == Some(path),
    decreases answers.len(),
{
    if answers.len() > 0 {
        step_waits_well(s, pecker, answers[0]);
        if s.pending_path() == Some(path) {
            assert(s.trail(pecker, answers)[0].pending_path() == Some(path));
        } else {
            match s.step(pecker, answers[0]) {
                ProgressView::Ask(next) => {
                    let rest = next.trail(pecker, answers.drop_first());
                    every_kept_file_was_asked_for(next, pecker, answers.drop_first(), path);
                    let k = choose|k: int|
                        0 <= k < rest.len() && (#[trigger] rest[k]).pending_path() == Some(path);
                    assert(s.trail(pecker, answers)[k + 1] == rest[k]);
                },
                _ => {},
            }
        }
    }
}

/// The findings on the page that a answer carries, where it carries one.
pub open spec fn page_of(pecker: PeckerView, answer: AnswerView) -> Option<Seq<Json>> {
    match told(pecker.endpoint(RESULT_ACTION@), RESULT_FAILED@, answer) {
        Ok(page) => page.items_member("problem"@),
        Err(_) => None,
    }
}

/// The findings on the pages that answers carry, page after page.
pub open spec fn pages_of(pecker: PeckerView, answers: Seq<AnswerView>) -> Seq<Json>
    decreases answers.len(),
{
    if answers.len() == 0 {
        Seq::empty()
    } else {
        match page_of(pecker, answers[0]) {
            Some(items) => items + pages_of(pecker, answers.drop_first()),
            None => pages_of(pecker, answers.drop_first()),
        }
    }
}

/// Pages add up: while every answer carries a page with findings on it, the
/// findings are put behind those gathered before, page after page and in
/// the order in which each page lists them, and with every page the number
/// of the page asked for goes up by one.
pub proof fn pages_add_up(s: AggregationView, pecker: PeckerView, answers: Seq<AnswerView>)
    requires
        s.stage is Pages,
        forall|i: int|
            0 <= i < answers.len() ==> (#[trigger] page_of(pecker, answers[i]) matches Some(items)
                && items.len() > 0),
    ensures
        s.after(pecker, answers) == ProgressView::Ask(
            AggregationView {
                problems: s.problems + pages_of(pecker, answers),
                stage: Stage::Pages { fetched: s.stage->fetched + answers.len() },
                ..s
            },
        ),
    decreases answers.len(),
{
    if answers.len() == 0 {
        assert(s.problems + pages_of(pecker, answers) =~= s.problems);
    } else {
        let items = page_of(pecker, answers[0])->0;
        let next = AggregationView {
            problems: s.problems + items,
            stage: Stage::Pages { fetched: s.stage->fetched + 1 },
            ..s
        };
        let rest = answers.drop_first();
        assert(s.step(pecker, answers[0]) == ProgressView::Ask(next));
        assert forall|i: int| 0 <= i < rest.len() implies (#[trigger] page_of(pecker, rest[i])
            matches Some(items) && items.len() > 0) by {
            assert(rest[i] == answers[i + 1]);
        }
        pages_add_up(next, pecker, rest);
        assert((s.problems + items) + pages_of(pecker, rest) =~= s.problems + pages_of(
            pecker,
            answers,
        ));
    }
}

/// Paging ends with the first page that has no findings on it, or no list
/// of findings at all: the severity floor is applied to what was gathered,
/// and no further page is asked for.
pub proof fn paging_ends(s: AggregationView, pecker: PeckerView, answer: AnswerView)
    requires
        s.stage is Pages,
        told(pecker.endpoint(RESULT_ACTION@), RESULT_FAILED@, answer) is Ok,
        page_of(pecker, answer) matches Some(items) ==> items.len() == 0,
    ensures
        s.step(pecker, answer) == s.enrich(),
        s.step(pecker, answer) matches ProgressView::Ask(next) ==> !(next.stage is Pages)
            && next.problems.len() == filtered(s.problems, s.severity).len(),
        s.step(pecker, answer) matches ProgressView::Done(report) ==> report.problems.len()
            == filtered(s.problems, s.severity).len(),
{
    let enriching = AggregationView {
        problems: filtered(s.problems, s.severity),
        stage: Stage::Solution { finding: 0 },
        ..s
    };
    advance_waits_well(enriching);
    advance_keeps_count(enriching);
}

/// Enrichment neither adds nor drops a finding.
pub proof fn advance_keeps_count(s: AggregationView)
    requires
        s.enriching(),
    ensures
        match s.advance() {
            ProgressView::Ask(next) => next.problems.len() == s.problems.len(),
            ProgressView::Done(report) => report.problems.len() == s.problems.len(),
            ProgressView::Failed(_) => false,
        },
    decreases s.problems.len() - s.stage.finding(), s.stage.rank(), s.trace.len() - s.stage.step(),
{
    match s.stage {
        Stage::Solution { finding } => {
            if finding < s.problems.len() && !(error_code(s.problems[finding as int]) is Some) {
                advance_keeps_count(s.at(Stage::File { finding }));
            }
        },
        Stage::File { finding } => {
            if finding < s.problems.len() {
                if !s.get_source {
                    advance_keeps_count(s.at(Stage::Solution { finding: finding + 1 }));
                } else {
                    match file_path(s.problems[finding as int]) {
                        Some(path) => {
                            if s.cache.contains_key(path) {
                                advance_keeps_count(
                                    s.with_problem(
                                        finding,
                                        with_content(s.problems[finding as int], s.cache[path]),
                                    ).enter_trace(finding),
                                );
                            }
                        },
                        None => {
                            advance_keeps_count(s.enter_trace(finding));
                        },
                    }
                }
            }
        },
        Stage::Trace { finding, step } => {
            if finding < s.problems.len() {
                if step >= s.trace.len() {
                    advance_keeps_count(s.leave_trace(finding));
                } else {
                    match step_file(s.trace[step as int]) {
                        Some(path) => {
                            if s.cache.contains_key(path) {
                                advance_keeps_count(
                                    s.with_step(
                                        step,
                                        with_content(s.trace[step as int], s.cache[path]),
                                    ).at(Stage::Trace { finding, step: step + 1 }),
                                );
                            }
                        },
                        None => {
                            advance_keeps_count(s.at(Stage::Trace { finding, step: step + 1 }));
                        },
                    }
                }
            }
        },
        _ => {},
    }
}

/// A run in two parts is the first part, and where that has not ended the
/// aggregation, the second part from where the first one led.
pub proof fn after_splits(
    s: AggregationView,
    pecker: PeckerView,
    first: Seq<AnswerView>,
    second: Seq<AnswerView>,
)
    ensures
        s.after(pecker, first + second) == match s.after(pecker, first) {
            ProgressView::Ask(next) => next.after(pecker, second),
            ended => ended,
        },
    decreases first.len(),
{
    if first.len() == 0 {
        assert(first + second =~= second);
    } else {
        assert((first + second)[0] == first[0]);
        assert((first + second).drop_first() =~= first.drop_first() + second);
        match s.step(pecker, first[0]) {
            ProgressView::Ask(next) => {
                after_splits(next, pecker, first.drop_first(), second);
            },
            _ => {},
        }
    }
}

/// A report is the report of its run: once the summary is there, whatever
/// answers follow, a report names the task and the floor of the run and
/// carries that summary.
pub proof fn report_is_of_the_run(
    s: AggregationView,
    pecker: PeckerView,
    answers: Seq<AnswerView>,
    report: crate::report::ReportView,
)
    requires
        s.wf(),
        !(s.stage is Statistics),
        s.after(pecker, answers) == ProgressView::Done(report),
    ensures
        report.task_id == s.task,
        report.severity == s.severity,
        report.info == s.info,
    decreases answers.len(),
{
    if answers.len() > 0 {
        step_waits_well(s, pecker, answers[0]);
        match s.step(pecker, answers[0]) {
            ProgressView::Ask(next) => {
                assert(!(next.stage is Statistics));
                report_is_of_the_run(next, pecker, answers.drop_first(), report);
            },
            _ => {},
        }
    }
}

} // verus!
