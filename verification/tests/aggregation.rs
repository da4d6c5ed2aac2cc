use codepecker::aggregate::{Aggregation, Progress};
use codepecker::error::{CodepeckerError, RESULT_FAILED};
use codepecker::pecker::Pecker;
use codepecker::report::Report;
use codepecker::request::{read, Answer, Form, Reply};

fn backend() -> Pecker {
    Pecker::new("http://127.0.0.1:8081/", None, "secret")
}

fn received(status: u16, body: Option<&str>) -> Answer {
    read(&Reply::Received { status, body: body.map(|b| b.as_bytes().to_vec()) })
}

fn ok(body: &str) -> Answer {
    received(200, Some(body))
}

fn param(form: &Form, name: &str) -> Option<String> {
    form.params.iter().find(|p| p.0 == name).map(|p| p.1.clone())
}

fn action(form: &Form) -> String {
    form.url.rsplit('/').next().unwrap().to_string()
}

/// Runs an aggregation against a backend that is a function of the form,
/// and returns every form that was sent with the outcome.
fn run(
    pecker: &Pecker,
    severity: &str,
    get_source: bool,
    answer: &dyn Fn(&Form) -> Answer,
) -> (Vec<Form>, Result<Report, CodepeckerError>) {
    let (mut state, mut form): (Aggregation, Form) =
        pecker.get_task_result_begin("task-1", "java", severity, get_source);
    let mut sent = Vec::new();
    loop {
        let got = answer(&form);
        sent.push(form);
        match pecker.get_task_result(state, got) {
            Progress::Ask(next, question) => {
                state = next;
                form = question;
            }
            Progress::Done(report) => return (sent, Ok(report)),
            Progress::Failed(e) => return (sent, Err(e)),
        }
    }
}

fn pages(form: &Form, first: &str, second: &str) -> Answer {
    match action(form).as_str() {
        "queryStatistics.action" => ok("{\"status\":0,\"total\":3}"),
        "getTaskResult.action" => match param(form, "requestNum").unwrap().as_str() {
            "1" => ok(first),
            "2" => ok(second),
            _ => ok("{\"problem\":[]}"),
        },
        _ => Answer::Unreachable,
    }
}

#[test]
fn paging_stops_at_the_first_empty_page() {
    let pecker = backend();
    let first = "{\"problem\":[{\"id\":1,\"severityLevel\":1},{\"id\":2,\"severityLevel\":2}]}";
    let second = "{\"problem\":[{\"id\":3,\"severityLevel\":3}]}";
    let (sent, outcome) = run(&pecker, "info", false, &|f| pages(f, first, second));
    let report = outcome.unwrap();
    let asked: Vec<String> = sent
        .iter()
        .filter(|f| action(f) == "getTaskResult.action")
        .map(|f| param(f, "requestNum").unwrap())
        .collect();
    assert_eq!(asked, vec!["1".to_string(), "2".to_string(), "3".to_string()]);
    assert_eq!(sent.len(), 4);
    let ids: Vec<i64> = report.problems.iter().map(|p| p["id"].as_i64().unwrap()).collect();
    assert_eq!(ids, vec![1, 2, 3]);
    assert_eq!(report.problem_count(), 3);
    assert_eq!(report.task_id, "task-1");
    assert_eq!(report.severity, "info");
    assert_eq!(report.info["total"].as_i64(), Some(3));
}

#[test]
fn a_page_without_findings_member_ends_paging() {
    let pecker = backend();
    let (sent, outcome) = run(&pecker, "info", false, &|f| {
        pages(f, "{\"problem\":[{\"id\":1}]}", "{\"status\":0}")
    });
    assert_eq!(sent.len(), 3);
    assert_eq!(outcome.unwrap().problems.len(), 1);
}

#[test]
fn the_first_request_asks_for_the_summary() {
    let pecker = backend();
    let (_, form) = pecker.get_task_result_begin("task-1", "java", "info", false);
    assert_eq!(form.url, "http://127.0.0.1:8081/cp4/webInterface/queryStatistics.action");
    assert_eq!(
        form.params,
        vec![
            ("taskId".to_string(), "task-1".to_string()),
            ("auth".to_string(), "secret".to_string())
        ]
    );
}

#[test]
fn a_failed_summary_ends_the_run() {
    let pecker = backend();
    let (sent, outcome) = run(&pecker, "info", false, &|_| received(500, Some("")));
    assert_eq!(sent.len(), 1);
    assert_eq!(outcome.err(), Some(CodepeckerError::CustomInvalidInfo(RESULT_FAILED.to_string())));
}

#[test]
fn a_failed_page_ends_the_run_without_a_report() {
    let pecker = backend();
    let (sent, outcome) = run(&pecker, "info", false, &|f| match action(f).as_str() {
        "queryStatistics.action" => ok("{}"),
        "getTaskResult.action" => match param(f, "requestNum").unwrap().as_str() {
            "1" => ok("{\"problem\":[{\"id\":1}]}"),
            _ => received(404, None),
        },
        _ => Answer::Unreachable,
    });
    assert_eq!(sent.len(), 3);
    assert_eq!(outcome.err(), Some(CodepeckerError::CustomInvalidInfo(RESULT_FAILED.to_string())));
}

#[test]
fn an_unreachable_page_names_the_endpoint() {
    let pecker = backend();
    let (_, outcome) = run(&pecker, "info", false, &|f| match action(f).as_str() {
        "queryStatistics.action" => ok("{}"),
        _ => Answer::Unreachable,
    });
    assert_eq!(
        outcome.err(),
        Some(CodepeckerError::UnableToConnect(
            "http://127.0.0.1:8081/cp4/webInterface/getTaskResult.action".to_string()
        ))
    );
}

#[test]
fn a_page_that_is_not_json_ends_the_run() {
    let pecker = backend();
    let (_, outcome) = run(&pecker, "info", false, &|f| match action(f).as_str() {
        "queryStatistics.action" => ok("{}"),
        _ => ok("<html>"),
    });
    assert_eq!(outcome.err(), Some(CodepeckerError::UnableToParseJson));
}

#[test]
fn the_floor_is_applied_before_enrichment() {
    let pecker = backend();
    let first = "{\"problem\":[{\"errorCode\":\"A\",\"severityLevel\":1},\
                 {\"errorCode\":\"B\",\"severityLevel\":4}]}";
    let (sent, outcome) = run(&pecker, "high", false, &|f| match action(f).as_str() {
        "queryWikiByLanguageErrorid.action" => ok("{\"wiki_description\":\"fix it\"}"),
        _ => pages(f, first, "{\"problem\":[]}"),
    });
    let report = outcome.unwrap();
    assert_eq!(report.problems.len(), 1);
    let wanted: Vec<String> = sent
        .iter()
        .filter(|f| action(f) == "queryWikiByLanguageErrorid.action")
        .map(|f| param(f, "errorid").unwrap())
        .collect();
    assert_eq!(wanted, vec!["A".to_string()]);
}

#[test]
fn remediation_text_is_attached_where_it_has_a_description() {
    let pecker = backend();
    let first = "{\"problem\":[{\"errorCode\":\"A\"},{\"errorCode\":\"B\"},{\"errorCode\":\"C\"},\
                 {\"name\":\"no code\"}]}";
    let (sent, outcome) = run(&pecker, "info", false, &|f| match action(f).as_str() {
        "queryWikiByLanguageErrorid.action" => {
            assert_eq!(param(f, "language").unwrap(), "java");
            assert_eq!(param(f, "auth").unwrap(), "secret");
            match param(f, "errorid").unwrap().as_str() {
                "A" => ok("{\"wiki_description\":\"d\",\"wiki_detail\":[1,2],\"wiki_example\":\"e\"}"),
                "B" => ok("{\"wiki_detail\":\"no description\"}"),
                _ => received(503, None),
            }
        }
        _ => pages(f, first, "{\"problem\":[]}"),
    });
    let report = outcome.unwrap();
    assert_eq!(sent.len(), 6);
    assert_eq!(report.problems.len(), 4);
    let a = &report.problems[0];
    assert_eq!(a["solution"]["description"].as_str(), Some("d"));
    assert_eq!(a["solution"]["detail"][1].as_i64(), Some(2));
    assert_eq!(a["solution"]["example"].as_str(), Some("e"));
    assert_eq!(a["errorCode"].as_str(), Some("A"));
    assert!(report.problems[1].get("solution").is_none());
    assert!(report.problems[2].get("solution").is_none());
    assert!(report.problems[3].get("solution").is_none());
    assert!(report.problems[0].get("file_content_bytes").is_none());
}

#[test]
fn missing_detail_and_example_become_empty_strings() {
    let pecker = backend();
    let (_, outcome) = run(&pecker, "info", false, &|f| match action(f).as_str() {
        "queryWikiByLanguageErrorid.action" => ok("{\"wiki_description\":\"d\"}"),
        _ => pages(f, "{\"problem\":[{\"errorCode\":\"A\"}]}", "{\"problem\":[]}"),
    });
    let report = outcome.unwrap();
    let solution = report.problems[0]["solution"].as_object().unwrap();
    assert_eq!(solution.len(), 3);
    assert_eq!(solution["detail"].as_str(), Some(""));
    assert_eq!(solution["example"].as_str(), Some(""));
}

fn files(form: &Form) -> Answer {
    match param(form, "path").unwrap().as_str() {
        "src/A.java" => ok("{\"byteArrayOfFiles\":[65,66]}"),
        "src/B.java" => ok("{\"byteArrayOfFiles\":[67]}"),
        "src/none.java" => ok("{\"status\":1}"),
        _ => Answer::Unreachable,
    }
}

#[test]
fn each_file_is_fetched_once() {
    let pecker = backend();
    let first = "{\"problem\":[\
        {\"filePath\":\"src/A.java\",\"traceBlock\":[{\"file\":\"src/A.java\"},{\"file\":\"src/B.java\"},{\"line\":3}]},\
        {\"filePath\":\"src/B.java\"},\
        {\"filePath\":\"src/A.java\",\"traceBlock\":[{\"file\":\"src/B.java\"}]}]}";
    let (sent, outcome) = run(&pecker, "info", true, &|f| match action(f).as_str() {
        "getFile.action" => files(f),
        _ => pages(f, first, "{\"problem\":[]}"),
    });
    let report = outcome.unwrap();
    let fetched: Vec<String> = sent
        .iter()
        .filter(|f| action(f) == "getFile.action")
        .map(|f| param(f, "path").unwrap())
        .collect();
    assert_eq!(fetched, vec!["src/A.java".to_string(), "src/B.java".to_string()]);
    let a: serde_json::Value = serde_json::from_str("[65,66]").unwrap();
    let b: serde_json::Value = serde_json::from_str("[67]").unwrap();
    assert_eq!(report.problems[0]["file_content_bytes"], a);
    assert_eq!(report.problems[2]["file_content_bytes"], a);
    assert_eq!(report.problems[1]["file_content_bytes"], b);
    assert_eq!(report.problems[0]["traceBlock"][0]["file_content_bytes"], a);
    assert_eq!(report.problems[0]["traceBlock"][1]["file_content_bytes"], b);
    assert_eq!(report.problems[2]["traceBlock"][0]["file_content_bytes"], b);
    assert!(report.problems[0]["traceBlock"][2].get("file_content_bytes").is_none());
    assert_eq!(report.problems[0]["traceBlock"][2]["line"].as_i64(), Some(3));
    assert_eq!(report.problems[0]["traceBlock"].as_array().unwrap().len(), 3);
}

#[test]
fn a_file_without_content_is_kept_as_empty_and_not_asked_again() {
    let pecker = backend();
    let first = "{\"problem\":[{\"filePath\":\"src/none.java\"},{\"filePath\":\"gone\"},\
                 {\"filePath\":\"src/none.java\",\"traceBlock\":[{\"file\":\"gone\"}]}]}";
    let (sent, outcome) = run(&pecker, "info", true, &|f| match action(f).as_str() {
        "getFile.action" => files(f),
        _ => pages(f, first, "{\"problem\":[]}"),
    });
    let report = outcome.unwrap();
    let fetched: Vec<String> = sent
        .iter()
        .filter(|f| action(f) == "getFile.action")
        .map(|f| param(f, "path").unwrap())
        .collect();
    assert_eq!(fetched, vec!["src/none.java".to_string(), "gone".to_string()]);
    let empty: serde_json::Value = serde_json::from_str("[]").unwrap();
    assert_eq!(report.problems[0]["file_content_bytes"], empty);
    assert_eq!(report.problems[1]["file_content_bytes"], empty);
    assert_eq!(report.problems[2]["file_content_bytes"], empty);
    assert_eq!(report.problems[2]["traceBlock"][0]["file_content_bytes"], empty);
}

#[test]
fn no_file_is_asked_for_where_source_is_not_wanted() {
    let pecker = backend();
    let first = "{\"problem\":[{\"filePath\":\"src/A.java\",\"traceBlock\":[{\"file\":\"src/A.java\"}]}]}";
    let (sent, outcome) = run(&pecker, "info", false, &|f| pages(f, first, "{\"problem\":[]}"));
    let report = outcome.unwrap();
    assert_eq!(sent.len(), 3);
    assert!(report.problems[0].get("file_content_bytes").is_none());
    assert!(report.problems[0]["traceBlock"][0].get("file_content_bytes").is_none());
}

#[test]
fn solution_comes_before_files_for_each_finding() {
    let pecker = backend();
    let first = "{\"problem\":[{\"errorCode\":\"A\",\"filePath\":\"src/A.java\"},\
                 {\"errorCode\":\"B\",\"filePath\":\"src/B.java\"}]}";
    let (sent, outcome) = run(&pecker, "info", true, &|f| match action(f).as_str() {
        "getFile.action" => files(f),
        "queryWikiByLanguageErrorid.action" => ok("{\"wiki_description\":\"d\"}"),
        _ => pages(f, first, "{\"problem\":[]}"),
    });
    outcome.unwrap();
    let order: Vec<String> = sent.iter().skip(3).map(|f| action(f)).collect();
    assert_eq!(
        order,
        vec![
            "queryWikiByLanguageErrorid.action".to_string(),
            "getFile.action".to_string(),
            "queryWikiByLanguageErrorid.action".to_string(),
            "getFile.action".to_string()
        ]
    );
}

#[test]
fn an_aggregation_tells_what_it_holds() {
    let pecker = backend();
    let (state, _) = pecker.get_task_result_begin("task-1", "java", "info", false);
    assert_eq!(state.task(), "task-1");
    assert_eq!(state.gathered(), 0);
    let state = match pecker.get_task_result(state, ok("{}")) {
        Progress::Ask(next, _) => next,
        _ => panic!("the summary came"),
    };
    match pecker.get_task_result(state, ok("{\"problem\":[{},{}]}")) {
        Progress::Ask(next, form) => {
            assert_eq!(next.gathered(), 2);
            assert_eq!(param(&form, "requestNum").unwrap(), "2");
        }
        _ => panic!("a page came"),
    }
}
