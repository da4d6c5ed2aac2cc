//! Enrichment only adds.
//!
//! Whatever the backend answers, the report holds the findings that the
//! severity floor kept, one for one and in their order, and each of them is
//! what the backend sent but for the members that enrichment writes.

use vstd::prelude::*;
use crate::aggregate::{AggregationView, ProgressView, Stage};
use crate::error::{DETAIL_FAILED, RESULT_FAILED};
use crate::finding::{
    content_of, error_code, file_path, member_names_differ, solution_of, solved, step_file,
    trace_steps, with_content, with_trace,
};
use crate::json::Json;
use crate::pecker::{
    told, PeckerView, FILE_ACTION, RESULT_ACTION, SOLUTION_ACTION, STATISTICS_ACTION,
};
use crate::report::ReportView;
use crate::request::AnswerView;
use crate::severity::filtered;
use crate::trail::{
    advance_waits_well, after_splits, page_of, pages_add_up, pages_of, report_is_of_the_run,
    step_waits_well,
};

verus! {

/// Whether a member is one that enrichment writes.
pub open spec fn written(key: Seq<char>) -> bool {
    key == "solution"@ || key == "file_content_bytes"@ || key == "traceBlock"@
}

/// Whether a step of a trace is the step that the backend sent, with
/// nothing changed but the content of its file.
pub open spec fn step_extends(step: Json, sent: Json) -> bool {
    forall|key: Seq<char>|
        key != "file_content_bytes"@ ==> #[trigger] step.member(key) == sent.member(key)
}

/// Whether a finding is the finding that the backend sent, with nothing
/// changed but what enrichment writes: every other member is as it came,
/// and the trace has the steps that came, each with nothing changed but the
/// content of its file.
pub open spec fn extends(finding: Json, sent: Json) -> bool {
    &&& forall|key: Seq<char>| !written(key) ==> #[trigger] finding.member(key) == sent.member(key)
    &&& match trace_steps(sent) {
        Some(steps) => trace_steps(finding) matches Some(now) && now.len() == steps.len()
            && forall|t: int| 0 <= t < steps.len() ==> step_extends(#[trigger] now[t], steps[t]),
        None => finding.member("traceBlock"@) == sent.member("traceBlock"@),
    }
}

impl AggregationView {
    /// Whether the findings in hand are the findings `sent`, one for one,
    /// with nothing changed but what enrichment writes.
    pub open spec fn tracks(self, sent: Seq<Json>) -> bool {
        &&& self.problems.len() == sent.len()
        &&& forall|k: int| 0 <= k < sent.len() ==> extends(#[trigger] self.problems[k], sent[k])
        &&& self.stage matches Stage::Trace { finding, .. } ==> (trace_steps(sent[finding as int])
            matches Some(steps) && self.trace.len() == steps.len() && forall|t: int|
            0 <= t < steps.len() ==> step_extends(#[trigger] self.trace[t], steps[t]))
    }
}

/// To set a member that enrichment writes, other than the trace, keeps a
/// finding what it was but for what enrichment writes.
proof fn lemma_extends_with(finding: Json, sent: Json, key: Seq<char>, value: Json)
    requires
        extends(finding, sent),
        key == "solution"@ || key == "file_content_bytes"@,
    ensures
        extends(finding.with_member(key, value), sent),
{
    member_names_differ();
    let set = finding.with_member(key, value);
    assert forall|other: Seq<char>| !written(other) implies #[trigger] set.member(other)
        == sent.member(other) by {
        assert(finding.member(other) == sent.member(other));
    }
    assert(set.member("traceBlock"@) == finding.member("traceBlock"@));
}

/// To put back the steps of a trace, each what it was but for the content
/// of its file, keeps a finding what it was but for what enrichment writes.
proof fn lemma_extends_with_trace(finding: Json, sent: Json, steps: Seq<Json>)
    requires
        extends(finding, sent),
        finding is Object,
        trace_steps(sent) matches Some(came) && steps.len() == came.len() && forall|t: int|
            0 <= t < came.len() ==> step_extends(#[trigger] steps[t], came[t]),
    ensures
        extends(with_trace(finding, steps), sent),
{
    member_names_differ();
    let set = with_trace(finding, steps);
    assert forall|other: Seq<char>| !written(other) implies #[trigger] set.member(other)
        == sent.member(other) by {
        assert(finding.member(other) == sent.member(other));
    }
    assert(trace_steps(set) == Some(steps));
}

/// To set the content of its file keeps a step what it was but for that.
proof fn lemma_step_extends_with(step: Json, sent: Json, content: Seq<Json>)
    requires
        step_extends(step, sent),
    ensures
        step_extends(with_content(step, content), sent),
{
    let set = with_content(step, content);
    assert forall|other: Seq<char>| other != "file_content_bytes"@ implies #[trigger] set.member(
        other,
    ) == sent.member(other) by {
        assert(step.member(other) == sent.member(other));
    }
}

/// Enrichment without the backend changes nothing of a finding but what it
/// writes.
pub proof fn advance_only_adds(s: AggregationView, sent: Seq<Json>)
    requires
        s.sound(),
        s.enriching(),
        s.tracks(sent),
    ensures
        match s.advance() {
            ProgressView::Ask(next) => next.tracks(sent),
            ProgressView::Done(report) => report.problems.len() == sent.len() && forall|k: int|
                0 <= k < sent.len() ==> extends(#[trigger] report.problems[k], sent[k]),
            ProgressView::Failed(_) => false,
        },
    decreases s.problems.len() - s.stage.finding(), s.stage.rank(), s.trace.len() - s.stage.step(),
{
    member_names_differ();
    match s.stage {
        Stage::Solution { finding } => {
            if finding < s.problems.len() && !(error_code(s.problems[finding as int]) is Some) {
                advance_only_adds(s.at(Stage::File { finding }), sent);
            }
        },
        Stage::File { finding } => {
            if finding < s.problems.len() {
                if !s.get_source {
                    advance_only_adds(s.at(Stage::Solution { finding: finding + 1 }), sent);
                } else {
                    match file_path(s.problems[finding as int]) {
                        Some(path) => {
                            if s.cache.contains_key(path) {
                                let filled = s.with_problem(
                                    finding,
                                    with_content(s.problems[finding as int], s.cache[path]),
                                );
                                lemma_filled_tracks(s, filled, finding as int, s.cache[path], sent);
                                lemma_enter_tracks(filled, finding, sent);
                                advance_only_adds(filled.enter_trace(finding), sent);
                            }
                        },
                        None => {
                            lemma_enter_tracks(s, finding, sent);
                            advance_only_adds(s.enter_trace(finding), sent);
                        },
                    }
                }
            }
        },
        Stage::Trace { finding, step } => {
            if finding < s.problems.len() {
                if step >= s.trace.len() {
                    let left = s.leave_trace(finding);
                    assert(extends(left.problems[finding as int], sent[finding as int])) by {
                        assert(extends(s.problems[finding as int], sent[finding as int]));
                        lemma_extends_with_trace(
                            s.problems[finding as int],
                            sent[finding as int],
                            s.trace,
                        );
                    }
                    assert forall|k: int| 0 <= k < sent.len() implies extends(
                        #[trigger] left.problems[k],
                        sent[k],
                    ) by {
                        if k != finding {
                            assert(extends(s.problems[k], sent[k]));
                        }
                    }
                    advance_only_adds(left, sent);
                } else {
                    match step_file(s.trace[step as int]) {
                        Some(path) => {
                            if s.cache.contains_key(path) {
                                let filled = s.with_step(
                                    step,
                                    with_content(s.trace[step as int], s.cache[path]),
                                ).at(Stage::Trace { finding, step: step + 1 });
                                lemma_step_tracks(s, filled, step as int, s.cache[path], sent);
                                advance_only_adds(filled, sent);
                            }
                        },
                        None => {
                            advance_only_adds(
                                s.at(Stage::Trace { finding, step: step + 1 }),
                                sent,
                            );
                        },
                    }
                }
            }
        },
        _ => {},
    }
}

proof fn lemma_filled_tracks(
    s: AggregationView,
    filled: AggregationView,
    finding: int,
    content: Seq<Json>,
    sent: Seq<Json>,
)
    requires
        s.tracks(sent),
        !(s.stage is Trace),
        0 <= finding < s.problems.len(),
        filled == s.with_problem(finding as nat, with_content(s.problems[finding], content)),
    ensures
        filled.tracks(sent),
{
    assert forall|k: int| 0 <= k < sent.len() implies extends(
        #[trigger] filled.problems[k],
        sent[k],
    ) by {
        assert(extends(s.problems[k], sent[k]));
        if k == finding {
            lemma_extends_with(
                s.problems[k],
                sent[k],
                "file_content_bytes"@,
                Json::Array(content),
            );
        }
    }
}

proof fn lemma_enter_tracks(s: AggregationView, finding: nat, sent: Seq<Json>)
    requires
        s.tracks(sent),
        !(s.stage is Trace),
        finding < s.problems.len(),
    ensures
        s.enter_trace(finding).tracks(sent),
{
    member_names_differ();
    assert(extends(s.problems[finding as int], sent[finding as int]));
    let entered = s.enter_trace(finding);
    assert forall|k: int| 0 <= k < sent.len() implies extends(
        #[trigger] entered.problems[k],
        sent[k],
    ) by {
        assert(extends(s.problems[k], sent[k]));
    }
    if trace_steps(s.problems[finding as int]) is Some {
        if trace_steps(sent[finding as int]) is None {
            assert(s.problems[finding as int].member("traceBlock"@) == sent[finding as int].member(
                "traceBlock"@,
            ));
        }
    }
}

proof fn lemma_step_tracks(
    s: AggregationView,
    filled: AggregationView,
    step: int,
    content: Seq<Json>,
    sent: Seq<Json>,
)
    requires
        s.tracks(sent),
        s.stage matches Stage::Trace { finding, step: at } && at == step && finding
            < s.problems.len(),
        0 <= step < s.trace.len(),
        filled == s.with_step(step as nat, with_content(s.trace[step], content)).at(
            Stage::Trace { finding: s.stage->Trace_finding, step: (step + 1) as nat },
        ),
    ensures
        filled.tracks(sent),
{
    member_names_differ();
    let steps = trace_steps(sent[s.stage->Trace_finding as int])->0;
    assert forall|t: int| 0 <= t < steps.len() implies step_extends(
        #[trigger] filled.trace[t],
        steps[t],
    ) by {
        assert(step_extends(s.trace[t], steps[t]));
        if t == step {
            lemma_step_extends_with(s.trace[t], steps[t], content);
        }
    }
}

/// A answer changes nothing of a finding but what enrichment writes.
pub proof fn step_only_adds(
    s: AggregationView,
    pecker: PeckerView,
    answer: AnswerView,
    sent: Seq<Json>,
)
    requires
        s.wf(),
        s.enriching(),
        s.tracks(sent),
    ensures
        match s.step(pecker, answer) {
            ProgressView::Ask(next) => next.tracks(sent) && next.enriching(),
            ProgressView::Done(report) => report.problems.len() == sent.len() && forall|k: int|
                0 <= k < sent.len() ==> extends(#[trigger] report.problems[k], sent[k]),
            ProgressView::Failed(_) => false,
        },
{
    member_names_differ();
    match s.stage {
        Stage::Solution { finding } => {
            let text = told(pecker.endpoint(SOLUTION_ACTION@), DETAIL_FAILED@, answer);
            let solved = s.with_problem(finding, solved(s.problems[finding as int], text)).at(
                Stage::File { finding },
            );
            assert forall|k: int| 0 <= k < sent.len() implies extends(
                #[trigger] solved.problems[k],
                sent[k],
            ) by {
                assert(extends(s.problems[k], sent[k]));
                if k == finding {
                    match text {
                        Ok(a) => match solution_of(a) {
                            Some(solution) => {
                                lemma_extends_with(s.problems[k], sent[k], "solution"@, solution);
                            },
                            None => {},
                        },
                        Err(_) => {},
                    }
                }
            }
            advance_waits_well(solved);
            advance_only_adds(solved, sent);
        },
        Stage::File { finding } => {
            let content = content_of(told(pecker.endpoint(FILE_ACTION@), DETAIL_FAILED@, answer));
            let kept = s.remember(file_path(s.problems[finding as int])->0, content);
            let filled = kept.with_problem(
                finding,
                with_content(s.problems[finding as int], content),
            );
            lemma_filled_tracks(kept, filled, finding as int, content, sent);
            lemma_enter_tracks(filled, finding, sent);
            advance_waits_well(filled.enter_trace(finding));
            advance_only_adds(filled.enter_trace(finding), sent);
        },
        Stage::Trace { finding, step } => {
            let content = content_of(told(pecker.endpoint(FILE_ACTION@), DETAIL_FAILED@, answer));
            let kept = s.remember(step_file(s.trace[step as int])->0, content);
            let filled = kept.with_step(step, with_content(s.trace[step as int], content)).at(
                Stage::Trace { finding, step: step + 1 },
            );
            lemma_step_tracks(kept, filled, step as int, content, sent);
            advance_waits_well(filled);
            advance_only_adds(filled, sent);
        },
        _ => {},
    }
}

/// Enrichment only adds: from any state of enrichment and whatever the
/// answers, a report holds the findings that enrichment started from, one
/// for one and in their order, each with nothing changed but what
/// enrichment writes. No finding is dropped for want of an answer.
pub proof fn enrichment_only_adds(
    s: AggregationView,
    pecker: PeckerView,
    answers: Seq<AnswerView>,
    report: ReportView,
    sent: Seq<Json>,
)
    requires
        s.wf(),
        s.enriching(),
        s.tracks(sent),
        s.after(pecker, answers) == ProgressView::Done(report),
    ensures
        report.problems.len() == sent.len(),
        forall|k: int| 0 <= k < sent.len() ==> extends(#[trigger] report.problems[k], sent[k]),
    decreases answers.len(),
{
    if answers.len() > 0 {
        step_waits_well(s, pecker, answers[0]);
        step_only_adds(s, pecker, answers[0], sent);
        match s.step(pecker, answers[0]) {
            ProgressView::Ask(next) => {
                enrichment_only_adds(next, pecker, answers.drop_first(), report, sent);
            },
            _ => {},
        }
    }
}

/// The report holds what the floor kept: where the answer to a question
/// after a page ends the paging, and the run ends in a report after that
/// answer and those that follow, the report holds the findings that the
/// severity floor kept of those gathered, one for one and in their order,
/// each with nothing changed but what enrichment writes.
pub proof fn report_holds_what_the_floor_kept(
    s: AggregationView,
    pecker: PeckerView,
    answers: Seq<AnswerView>,
    report: ReportView,
)
    requires
        s.wf(),
        s.stage is Pages,
        answers.len() > 0,
        told(pecker.endpoint(RESULT_ACTION@), RESULT_FAILED@, answers[0]) is Ok,
        page_of(pecker, answers[0]) matches Some(items) ==> items.len() == 0,
        s.after(pecker, answers) == ProgressView::Done(report),
    ensures
        report.problems.len() == filtered(s.problems, s.severity).len(),
        forall|k: int|
            0 <= k < report.problems.len() ==> extends(
                #[trigger] report.problems[k],
                filtered(s.problems, s.severity)[k],
            ),
{
    member_names_differ();
    let kept = filtered(s.problems, s.severity);
    let enriching = AggregationView {
        problems: kept,
        stage: Stage::Solution { finding: 0 },
        ..s
    };
    assert forall|k: int| 0 <= k < kept.len() implies extends(
        #[trigger] enriching.problems[k],
        kept[k],
    ) by {}
    advance_waits_well(enriching);
    advance_only_adds(enriching, kept);
    match s.step(pecker, answers[0]) {
        ProgressView::Ask(next) => {
            enrichment_only_adds(next, pecker, answers.drop_first(), report, kept);
        },
        _ => {},
    }
}

/// What a report is. Take an aggregation from its start. The summary comes;
/// pages with findings come, then an answer without findings that ends the
/// paging; further answers come, whatever they are, and the aggregation
/// ends in a report. Then the report names the task and the floor, carries
/// the summary as it came, and holds the findings that the floor kept of
/// those on the pages, page after page and in the order of each page, one
/// for one, each with nothing changed but what enrichment writes.
pub proof fn report_of_a_run(
    task: Seq<char>,
    language: Seq<char>,
    severity: Seq<char>,
    get_source: bool,
    pecker: PeckerView,
    summary: AnswerView,
    pages: Seq<AnswerView>,
    last: AnswerView,
    further: Seq<AnswerView>,
    report: ReportView,
)
    requires
        told(pecker.endpoint(STATISTICS_ACTION@), RESULT_FAILED@, summary) is Ok,
        forall|i: int|
            0 <= i < pages.len() ==> (#[trigger] page_of(pecker, pages[i]) matches Some(items)
                && items.len() > 0),
        told(pecker.endpoint(RESULT_ACTION@), RESULT_FAILED@, last) is Ok,
        page_of(pecker, last) matches Some(items) ==> items.len() == 0,
        AggregationView::begin(task, language, severity, get_source).after(
            pecker,
            seq![summary] + pages + seq![last] + further,
        ) == ProgressView::Done(report),
    ensures
        report.task_id == task,
        report.severity == severity,
        report.info == told(pecker.endpoint(STATISTICS_ACTION@), RESULT_FAILED@, summary)->Ok_0,
        report.problems.len() == filtered(pages_of(pecker, pages), severity).len(),
        forall|k: int|
            0 <= k < report.problems.len() ==> extends(
                #[trigger] report.problems[k],
                filtered(pages_of(pecker, pages), severity)[k],
            ),
{
    let start = AggregationView::begin(task, language, severity, get_source);
    let info = told(pecker.endpoint(STATISTICS_ACTION@), RESULT_FAILED@, summary)->Ok_0;
    let paging = AggregationView { info, stage: Stage::Pages { fetched: 0 }, ..start };
    let all = seq![summary] + pages + seq![last] + further;
    let tail = pages + (seq![last] + further);
    assert(all =~= seq![summary] + tail);
    assert(all[0] == summary);
    assert(all.drop_first() =~= tail);
    assert(start.step(pecker, summary) == ProgressView::Ask(paging));
    assert(start.after(pecker, all) == paging.after(pecker, tail));
    pages_add_up(paging, pecker, pages);
    after_splits(paging, pecker, pages, seq![last] + further);
    let paged = AggregationView {
        problems: paging.problems + pages_of(pecker, pages),
        stage: Stage::Pages { fetched: pages.len() },
        ..paging
    };
    assert(paging.problems + pages_of(pecker, pages) =~= pages_of(pecker, pages));
    assert(paged.after(pecker, seq![last] + further) == ProgressView::Done(report));
    lemma_pages_outnumbered(pecker, pages);
    assert((seq![last] + further)[0] == last);
    report_holds_what_the_floor_kept(paged, pecker, seq![last] + further, report);
    report_is_of_the_run(paged, pecker, seq![last] + further, report);
}

/// Pages with findings on them bring at least as many findings as they are.
proof fn lemma_pages_outnumbered(pecker: PeckerView, pages: Seq<AnswerView>)
    requires
        forall|i: int|
            0 <= i < pages.len() ==> (#[trigger] page_of(pecker, pages[i]) matches Some(items)
                && items.len() > 0),
    ensures
        pages.len() <= pages_of(pecker, pages).len(),
    decreases pages.len(),
{
    if pages.len() > 0 {
        let rest = pages.drop_first();
        assert forall|i: int| 0 <= i < rest.len() implies (#[trigger] page_of(pecker, rest[i])
            matches Some(items) && items.len() > 0) by {
            assert(rest[i] == pages[i + 1]);
        }
        lemma_pages_outnumbered(pecker, rest);
        assert(page_of(pecker, pages[0]) is Some);
    }
}

} // verus!
