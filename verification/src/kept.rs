//! One file, one content.
//!
//! Whatever the backend answers, every finding and every step of a trace
//! that lies in a file ends up with the content that is kept of that file,
//! so that two places in the same file carry the same content.

use vstd::prelude::*;
use crate::aggregate::{AggregationView, ProgressView, Stage};
use crate::error::DETAIL_FAILED;
use crate::finding::{
    content_of, error_code, file_path, member_names_differ, solved, step_file, trace_steps,
    with_content,
};
use crate::json::Json;
use crate::pecker::{told, PeckerView, FILE_ACTION, SOLUTION_ACTION};
use crate::report::ReportView;
use crate::request::AnswerView;
use crate::severity::filtered;
use crate::trail::step_waits_well;

verus! {

/// Whether a finding, or a step, that lies in a file carries what is kept
/// of that file.
pub open spec fn carries_kept(
    target: Json,
    path: Option<Seq<char>>,
    cache: Map<Seq<char>, Seq<Json>>,
) -> bool {
    path matches Some(p) ==> cache.contains_key(p) && target.items_member("file_content_bytes"@)
        == Some(cache[p])
}

/// Whether a finding and every step of its trace carry what is kept of
/// their files.
pub open spec fn settled(finding: Json, cache: Map<Seq<char>, Seq<Json>>) -> bool {
    &&& carries_kept(finding, file_path(finding), cache)
    &&& trace_steps(finding) matches Some(steps) ==> forall|t: int|
        0 <= t < steps.len() ==> carries_kept(#[trigger] steps[t], step_file(steps[t]), cache)
}

/// Whether every finding of a report, and every step of its trace, carries
/// what is kept of its file.
pub open spec fn report_settled(report: ReportView, cache: Map<Seq<char>, Seq<Json>>) -> bool {
    forall|k: int| 0 <= k < report.problems.len() ==> settled(#[trigger] report.problems[k], cache)
}

impl AggregationView {
    /// Whether what was enriched so far carries what is kept of its files:
    /// the findings before the one in hand, and of the one in hand, once
    /// its trace is in hand, the finding itself and the steps before the
    /// one that the stage names.
    pub open spec fn tidy(self) -> bool {
        self.get_source && self.enriching() ==> {
            &&& forall|k: int|
                0 <= k < self.stage.finding() && k < self.problems.len() ==> settled(
                    #[trigger] self.problems[k],
                    self.cache,
                )
            &&& self.stage matches Stage::Trace { finding, step } ==> {
                &&& carries_kept(
                    self.problems[finding as int],
                    file_path(self.problems[finding as int]),
                    self.cache,
                )
                &&& forall|t: int|
                    0 <= t < step && t < self.trace.len() ==> carries_kept(
                        #[trigger] self.trace[t],
                        step_file(self.trace[t]),
                        self.cache,
                    )
            }
        }
    }
}

/// Enrichment without the backend keeps what was enriched in step with what
/// is kept of files, up to the report.
pub proof fn advance_keeps_tidy(s: AggregationView)
    requires
        s.sound(),
        s.enriching(),
        s.tidy(),
    ensures
        match s.advance() {
            ProgressView::Ask(next) => next.tidy(),
            ProgressView::Done(report) => s.get_source ==> report_settled(report, s.cache),
            ProgressView::Failed(_) => false,
        },
    decreases s.problems.len() - s.stage.finding(), s.stage.rank(), s.trace.len() - s.stage.step(),
{
    member_names_differ();
    match s.stage {
        Stage::Solution { finding } => {
            if finding < s.problems.len() && !(error_code(s.problems[finding as int]) is Some) {
                advance_keeps_tidy(s.at(Stage::File { finding }));
            }
        },
        Stage::File { finding } => {
            if finding < s.problems.len() {
                if !s.get_source {
                    advance_keeps_tidy(s.at(Stage::Solution { finding: finding + 1 }));
                } else {
                    match file_path(s.problems[finding as int]) {
                        Some(path) => {
                            if s.cache.contains_key(path) {
                                let filled = s.with_problem(
                                    finding,
                                    with_content(s.problems[finding as int], s.cache[path]),
                                );
                                assert(forall|k: int|
                                    0 <= k < finding ==> filled.problems[k] == s.problems[k]);
                                advance_keeps_tidy(filled.enter_trace(finding));
                            }
                        },
                        None => {
                            advance_keeps_tidy(s.enter_trace(finding));
                        },
                    }
                }
            }
        },
        Stage::Trace { finding, step } => {
            if finding < s.problems.len() {
                if step >= s.trace.len() {
                    let left = s.leave_trace(finding);
                    assert(forall|k: int|
                        0 <= k < finding ==> left.problems[k] == s.problems[k]);
                    if s.get_source {
                        assert(trace_steps(left.problems[finding as int]) == Some(s.trace));
                        assert(settled(left.problems[finding as int], s.cache));
                    }
                    advance_keeps_tidy(left);
                } else {
                    match step_file(s.trace[step as int]) {
                        Some(path) => {
                            if s.cache.contains_key(path) {
                                let filled = s.with_step(
                                    step,
                                    with_content(s.trace[step as int], s.cache[path]),
                                ).at(Stage::Trace { finding, step: step + 1 });
                                assert(forall|t: int|
                                    0 <= t < step ==> filled.trace[t] == s.trace[t]);
                                advance_keeps_tidy(filled);
                            }
                        },
                        None => {
                            advance_keeps_tidy(s.at(Stage::Trace { finding, step: step + 1 }));
                        },
                    }
                }
            }
        },
        _ => {},
    }
}

/// A answer keeps what was enriched in step with what is kept of files.
pub proof fn step_keeps_tidy(s: AggregationView, pecker: PeckerView, answer: AnswerView)
    requires
        s.wf(),
        s.tidy(),
    ensures
        match s.step(pecker, answer) {
            ProgressView::Ask(next) => next.tidy(),
            ProgressView::Done(report) => s.get_source ==> report_settled(
                report,
                s.kept_with(pecker, answer),
            ),
            ProgressView::Failed(_) => true,
        },
{
    member_names_differ();
    match s.stage {
        Stage::Statistics => {},
        Stage::Pages { fetched } => {
            let enriching = AggregationView {
                problems: filtered(s.problems, s.severity),
                stage: Stage::Solution { finding: 0 },
                ..s
            };
            advance_keeps_tidy(enriching);
        },
        Stage::Solution { finding } => {
            let text = told(pecker.endpoint(SOLUTION_ACTION@), DETAIL_FAILED@, answer);
            let solved = s.with_problem(finding, solved(s.problems[finding as int], text)).at(
                Stage::File { finding },
            );
            assert(forall|k: int| 0 <= k < finding ==> solved.problems[k] == s.problems[k]);
            advance_keeps_tidy(solved);
        },
        Stage::File { finding } => {
            let content = content_of(told(pecker.endpoint(FILE_ACTION@), DETAIL_FAILED@, answer));
            let filled = s.remember(file_path(s.problems[finding as int])->0, content).with_problem(
                finding,
                with_content(s.problems[finding as int], content),
            );
            assert(forall|k: int| 0 <= k < finding ==> filled.problems[k] == s.problems[k]);
            assert forall|k: int| 0 <= k < finding implies settled(
                #[trigger] filled.problems[k],
                filled.cache,
            ) by {
                assert(settled(s.problems[k], s.cache));
            }
            advance_keeps_tidy(filled.enter_trace(finding));
        },
        Stage::Trace { finding, step } => {
            let content = content_of(told(pecker.endpoint(FILE_ACTION@), DETAIL_FAILED@, answer));
            let filled = s.remember(step_file(s.trace[step as int])->0, content).with_step(
                step,
                with_content(s.trace[step as int], content),
            ).at(Stage::Trace { finding, step: step + 1 });
            assert(forall|t: int| 0 <= t < step ==> filled.trace[t] == s.trace[t]);
            if s.get_source {
                assert forall|k: int| 0 <= k < finding implies settled(
                    #[trigger] filled.problems[k],
                    filled.cache,
                ) by {
                    assert(settled(s.problems[k], s.cache));
                }
                assert forall|t: int|
                    0 <= t < step + 1 && t < filled.trace.len() implies carries_kept(
                    #[trigger] filled.trace[t],
                    step_file(filled.trace[t]),
                    filled.cache,
                ) by {
                    if t < step {
                        assert(carries_kept(s.trace[t], step_file(s.trace[t]), s.cache));
                    }
                }
            }
            advance_keeps_tidy(filled);
        },
    }
}

/// Where a run ends in a report, every finding of the report and every
/// step of its trace carries what was kept of its file at the end.
pub proof fn report_carries_kept(
    s: AggregationView,
    pecker: PeckerView,
    answers: Seq<AnswerView>,
    report: ReportView,
)
    requires
        s.wf(),
        s.tidy(),
        s.get_source,
        s.after(pecker, answers) == ProgressView::Done(report),
    ensures
        report_settled(report, s.kept_after(pecker, answers)),
    decreases answers.len(),
{
    if answers.len() > 0 {
        step_waits_well(s, pecker, answers[0]);
        step_keeps_tidy(s, pecker, answers[0]);
        match s.step(pecker, answers[0]) {
            ProgressView::Ask(next) => {
                report_carries_kept(next, pecker, answers.drop_first(), report);
            },
            _ => {},
        }
    }
}

/// A place in a report where the content of a file may be attached: a
/// finding, or a step of the trace of a finding.
pub enum Place {
    Finding { finding: int },
    Step { finding: int, step: int },
}

impl Place {
    /// Whether a report has the place.
    pub open spec fn within(self, report: ReportView) -> bool {
        match self {
            Place::Finding { finding } => 0 <= finding < report.problems.len(),
            Place::Step { finding, step } => 0 <= finding < report.problems.len() && (trace_steps(
                report.problems[finding],
            ) matches Some(steps) && 0 <= step < steps.len()),
        }
    }

    /// The finding, or the step, at the place.
    pub open spec fn doc(self, report: ReportView) -> Json {
        match self {
            Place::Finding { finding } => report.problems[finding],
            Place::Step { finding, step } => trace_steps(report.problems[finding])->0[step],
        }
    }

    /// The file that the finding, or the step, at the place lies in.
    pub open spec fn path(self, report: ReportView) -> Option<Seq<char>> {
        match self {
            Place::Finding { finding } => file_path(report.problems[finding]),
            Place::Step { finding, step } => step_file(
                trace_steps(report.problems[finding])->0[step],
            ),
        }
    }
}

/// One file, one content: in the report of an aggregation that was asked
/// for source, whatever the backend replied, two places that lie in the
/// same file carry the same content, and each place that lies in a file
/// carries content.
pub proof fn same_file_same_content(
    task: Seq<char>,
    language: Seq<char>,
    severity: Seq<char>,
    pecker: PeckerView,
    answers: Seq<AnswerView>,
    report: ReportView,
    one: Place,
    other: Place,
)
    requires
        AggregationView::begin(task, language, severity, true).after(pecker, answers)
            == ProgressView::Done(report),
        one.within(report),
        other.within(report),
        one.path(report) is Some,
        one.path(report) == other.path(report),
    ensures
        one.doc(report).items_member("file_content_bytes"@) is Some,
        one.doc(report).items_member("file_content_bytes"@) == other.doc(report).items_member(
            "file_content_bytes"@,
        ),
{
    let start = AggregationView::begin(task, language, severity, true);
    report_carries_kept(start, pecker, answers, report);
    let kept = start.kept_after(pecker, answers);
    match one {
        Place::Finding { finding } => {
            assert(settled(report.problems[finding], kept));
        },
        Place::Step { finding, step } => {
            assert(settled(report.problems[finding], kept));
        },
    }
    match other {
        Place::Finding { finding } => {
            assert(settled(report.problems[finding], kept));
        },
        Place::Step { finding, step } => {
            assert(settled(report.problems[finding], kept));
        },
    }
}

} // verus!
