use codepecker::error::{CodepeckerError, SCAN_FAILED, UPLOAD_FAILED};
use codepecker::plan::{builder, Options, Plan, Run};
use codepecker::pecker::Pecker;
use codepecker::project::{Project, Source, Template};
use codepecker::report::{read_heading, Report};
use codepecker::request::{read, Answer, Form, Reply, Upload};
use codepecker::session::{Session, Turn};

fn ok(body: &str) -> Answer {
    read(&Reply::Received { status: 200, body: Some(body.as_bytes().to_vec()) })
}

fn action(url: &str) -> String {
    url.rsplit('/').next().unwrap().to_string()
}

fn run_with(plan: Plan) -> Run {
    Run {
        pecker: Pecker::new("http://127.0.0.1:8081/", None, "secret"),
        plan,
        output: "out/results.json".to_string(),
        severity: "high".to_string(),
        language: "java".to_string(),
        get_source: false,
    }
}

fn project() -> Project {
    Project::new("shop", "java", Template::Default, None, None).unwrap()
}

/// What a caller did on behalf of a run.
#[derive(Debug, PartialEq)]
enum Did {
    Uploaded(String),
    Paused(u64),
    Posted(String),
}

enum End {
    Written { path: String, report: Report },
    Failed(CodepeckerError),
    Rested,
}

/// Drives a run as a caller would, against a backend that answers by script.
fn drive(
    first: Turn,
    answer: &mut dyn FnMut(&str, Option<&Form>, Option<&Upload>) -> Answer,
) -> (Vec<Did>, End) {
    let mut did = Vec::new();
    let mut turn = first;
    loop {
        turn = match turn {
            Turn::Upload(session, upload) => {
                did.push(Did::Uploaded(action(&upload.url)));
                session.step(answer(&action(&upload.url), None, Some(&upload)))
            }
            Turn::Send(session, form, pause) => {
                if pause > 0 {
                    did.push(Did::Paused(pause));
                }
                did.push(Did::Posted(action(&form.url)));
                session.step(answer(&action(&form.url), Some(&form), None))
            }
            Turn::Write { path, report } => return (did, End::Written { path, report }),
            Turn::Fail(e) => return (did, End::Failed(e)),
            Turn::Rest => return (did, End::Rested),
        };
    }
}

fn posted(name: &str) -> Did {
    Did::Posted(name.to_string())
}

#[test]
fn a_run_goes_from_upload_to_report() {
    let states = ["99", "1", "2", "3"];
    let mut polls = 0;
    let start = Session::start(
        run_with(Plan::Archive { project: project(), file: "/tmp/shop.zip".to_string() }),
        Some(("shop.zip".to_string(), vec![80, 75])),
    );
    let (did, end) = drive(start, &mut |action, form, upload| match action {
        "postSourceCode.action" => {
            let upload = upload.unwrap();
            assert_eq!(upload.file_name, "shop.zip");
            assert_eq!(upload.content, vec![80, 75]);
            ok("{\"status\":0,\"taskId\":\"T-42\"}")
        }
        "queryTaskStatus.action" => {
            assert_eq!(form.unwrap().params[0], ("taskId".to_string(), "T-42".to_string()));
            let state = states[polls];
            polls += 1;
            ok(&format!("{{\"status\":0,\"taskStatus\":\"{}\"}}", state))
        }
        "queryStatistics.action" => ok("{\"total\":2}"),
        "getTaskResult.action" => {
            if form.unwrap().params[2].1 == "1" {
                ok("{\"problem\":[{\"severityLevel\":1},{\"severityLevel\":5}]}")
            } else {
                ok("{\"problem\":[]}")
            }
        }
        _ => Answer::Unreachable,
    });
    assert_eq!(
        did,
        vec![
            Did::Uploaded("postSourceCode.action".to_string()),
            posted("queryTaskStatus.action"),
            Did::Paused(5),
            posted("queryTaskStatus.action"),
            Did::Paused(5),
            posted("queryTaskStatus.action"),
            Did::Paused(5),
            posted("queryTaskStatus.action"),
            posted("queryStatistics.action"),
            posted("getTaskResult.action"),
            posted("getTaskResult.action"),
        ]
    );
    match end {
        End::Written { path, report } => {
            assert_eq!(path, "out/results.json");
            assert_eq!(report.problems.len(), 1);
            assert_eq!(report.info["total"].as_i64(), Some(2));
            let head = read_heading(report.render().unwrap().as_bytes()).unwrap();
            assert_eq!(head.task_id, "T-42");
            assert_eq!(head.severity, "high");
            assert_eq!(head.problem_count, 1);
        }
        _ => panic!("the run was to end in a report"),
    }
}

#[test]
fn a_failed_scan_ends_the_run_at_once() {
    let states = ["0", "4", "3"];
    let mut polls = 0;
    let source = Source::git("https://git.local/shop.git", "u", "p", None);
    let start = Session::start(run_with(Plan::Repository { project: project(), source }), None);
    let (did, end) = drive(start, &mut |action, _, _| match action {
        "postSourceCodeBySvnGit.action" => ok("{\"status\":0,\"taskId\":\"T-7\"}"),
        "queryTaskStatus.action" => {
            let state = states[polls];
            polls += 1;
            ok(&format!("{{\"status\":0,\"taskStatus\":\"{}\"}}", state))
        }
        _ => Answer::Unreachable,
    });
    assert_eq!(
        did,
        vec![
            posted("postSourceCodeBySvnGit.action"),
            posted("queryTaskStatus.action"),
            Did::Paused(5),
            posted("queryTaskStatus.action"),
        ]
    );
    match end {
        End::Failed(e) => assert_eq!(e, CodepeckerError::CustomInvalidInfo(SCAN_FAILED.to_string())),
        _ => panic!("the run was to fail"),
    }
}

#[test]
fn a_task_filed_earlier_is_gathered_at_once() {
    let start = Session::start(run_with(Plan::Resume { task: "T-1".to_string() }), None);
    let (did, end) = drive(start, &mut |action, _, _| match action {
        "queryStatistics.action" => ok("{}"),
        "getTaskResult.action" => ok("{}"),
        _ => Answer::Unreachable,
    });
    assert_eq!(did, vec![posted("queryStatistics.action"), posted("getTaskResult.action")]);
    match end {
        End::Written { report, .. } => {
            assert_eq!(report.task_id, "T-1");
            assert_eq!(read_heading(report.render().unwrap().as_bytes()).unwrap().problem_count, 0)
        }
        _ => panic!("the run was to end in a report"),
    }
}

#[test]
fn a_refused_submission_ends_the_run() {
    let start = Session::start(
        run_with(Plan::Archive { project: project(), file: "shop.zip".to_string() }),
        Some(("shop.zip".to_string(), Vec::new())),
    );
    let (did, end) = drive(start, &mut |_, _, _| {
        read(&Reply::Received { status: 401, body: Some(Vec::new()) })
    });
    assert_eq!(did.len(), 1);
    match end {
        End::Failed(e) => assert_eq!(e, CodepeckerError::CustomInvalidInfo(UPLOAD_FAILED.to_string())),
        _ => panic!("the run was to fail"),
    }
}

#[test]
fn a_task_without_a_name_is_not_waited_for() {
    let start = Session::start(
        run_with(Plan::Archive { project: project(), file: "shop.zip".to_string() }),
        Some(("shop.zip".to_string(), Vec::new())),
    );
    let (did, end) = drive(start, &mut |_, _, _| ok("{\"status\":0,\"taskId\":\"\"}"));
    assert_eq!(did.len(), 1);
    assert!(matches!(end, End::Rested));
}

#[test]
fn nothing_is_sent_for_a_plan_without_a_source() {
    let (did, end) = drive(Session::start(run_with(Plan::Nothing), None), &mut |_, _, _| Answer::Unreachable);
    assert!(did.is_empty());
    assert!(matches!(end, End::Rested));
}

#[test]
fn nothing_is_sent_without_the_archive() {
    let start =
        Session::start(run_with(Plan::Archive { project: project(), file: "gone.zip".to_string() }), None);
    assert!(matches!(start, Turn::Fail(CodepeckerError::FileUploadError)));
}

#[test]
fn nothing_is_sent_for_a_project_without_its_rule_set() {
    let unruly = Project {
        name: "shop".to_string(),
        lang: "java".to_string(),
        template: Template::UserDefined,
        group: None,
        rule: None,
    };
    let start = Session::start(
        run_with(Plan::Archive { project: unruly.duplicate(), file: "shop.zip".to_string() }),
        Some(("shop.zip".to_string(), vec![1])),
    );
    assert!(matches!(start, Turn::Fail(CodepeckerError::ParamMissing)));
    let source = Source::svn("svn://svn.local/shop", "u", "p", None);
    let start = Session::start(run_with(Plan::Repository { project: unruly, source }), None);
    assert!(matches!(start, Turn::Fail(CodepeckerError::ParamMissing)));
}

#[test]
fn a_run_is_built_and_started_from_options() {
    let options = Options {
        url: Some("http://127.0.0.1:8081/".to_string()),
        key: Some("secret".to_string()),
        proxy: None,
        project: None,
        group: None,
        lang: None,
        template: None,
        rule: None,
        file: None,
        svn: None,
        git: None,
        user: None,
        password: None,
        branch: None,
        task: Some("T-5".to_string()),
        output: Some("r.json".to_string()),
        severity: "info".to_string(),
        language: "c".to_string(),
        get_source: true,
    };
    match Session::start(builder(&options).unwrap(), None) {
        Turn::Send(_, form, pause) => {
            assert_eq!(pause, 0);
            assert_eq!(form.url, "http://127.0.0.1:8081/cp4/webInterface/queryStatistics.action");
            assert_eq!(form.params[0], ("taskId".to_string(), "T-5".to_string()));
        }
        _ => panic!("the summary was to be asked for"),
    }
}
