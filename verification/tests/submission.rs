use codepecker::error::{CodepeckerError, CHECKOUT_FAILED, UPLOAD_FAILED};
use codepecker::pecker::{judge_submission, read_answer, read_submission, Pecker};
use codepecker::project::{Project, Remote, Source, Template};
use codepecker::request::{put, put_some, read, succeeded, Answer, Content, Reply};
use serde_json::Value;

fn backend() -> Pecker {
    Pecker::new("https://pecker.local:8443/", Some("http://127.0.0.1:8080".to_string()), "k3y")
}

fn pair(name: &str, value: &str) -> (String, String) {
    (name.to_string(), value.to_string())
}

fn project(template: Template, group: Option<&str>, rule: Option<&str>) -> Project {
    Project {
        name: "shop".to_string(),
        lang: "java".to_string(),
        template,
        group: group.map(|g| g.to_string()),
        rule: rule.map(|r| r.to_string()),
    }
}

fn received(status: u16, body: Option<&str>) -> Answer {
    read(&Reply::Received { status, body: body.map(|b| b.as_bytes().to_vec()) })
}

fn ok(body: &str) -> Answer {
    received(200, Some(body))
}

#[test]
fn the_backend_keeps_what_it_is_made_of() {
    let pecker = backend();
    assert_eq!(pecker.url, "https://pecker.local:8443/");
    assert_eq!(pecker.proxy.as_deref(), Some("http://127.0.0.1:8080"));
    assert_eq!(pecker.key, "k3y");
    assert_eq!(
        pecker.endpoint("cp4/webInterface/getFile.action"),
        "https://pecker.local:8443/cp4/webInterface/getFile.action"
    );
}

#[test]
fn an_upload_carries_the_project_and_the_archive() {
    let pecker = backend();
    let upload = pecker
        .post_source_code_request(&project(Template::Default, None, None), "shop.zip", vec![80, 75, 3, 4])
        .unwrap();
    assert_eq!(upload.url, "https://pecker.local:8443/cp4/webInterface/postSourceCode.action");
    assert_eq!(
        upload.fields,
        vec![
            pair("auth", "k3y"),
            pair("projectId", "shop"),
            pair("langType", "java"),
            pair("projectLevel", "default")
        ]
    );
    assert_eq!(upload.part, "uploadFile");
    assert_eq!(upload.file_name, "shop.zip");
    assert_eq!(upload.mime_type, "application/zip");
    assert_eq!(upload.content, vec![80, 75, 3, 4]);
}

#[test]
fn an_upload_names_group_and_rule_where_they_apply() {
    let pecker = backend();
    let upload = pecker
        .post_source_code_request(&project(Template::UserDefined, Some("g7"), Some("r9")), "a.tar", Vec::new())
        .unwrap();
    assert_eq!(
        upload.fields,
        vec![
            pair("auth", "k3y"),
            pair("projectId", "shop"),
            pair("langType", "java"),
            pair("projectLevel", "user_defined"),
            pair("projectGroupId", "g7"),
            pair("ruleId", "r9")
        ]
    );
    let high = pecker
        .post_source_code_request(&project(Template::High, None, Some("r9")), "a.tar", Vec::new())
        .unwrap();
    assert_eq!(
        high.fields,
        vec![
            pair("auth", "k3y"),
            pair("projectId", "shop"),
            pair("langType", "java"),
            pair("projectLevel", "high")
        ]
    );
}

#[test]
fn the_media_type_follows_the_extension() {
    let pecker = backend();
    let p = project(Template::Default, None, None);
    let of = |name: &str| pecker.post_source_code_request(&p, name, Vec::new()).unwrap().mime_type;
    assert_eq!(of("shop.zip"), "application/zip");
    assert_eq!(of("notes.txt"), "text/plain");
    assert_eq!(of("shop.unknown-extension"), "application/octet-stream");
    assert_eq!(of("shop"), "application/octet-stream");
    assert_ne!(of("shop.zip"), "shop.zip");
}

#[test]
fn nothing_is_submitted_without_the_rule_it_needs() {
    let pecker = backend();
    let missing = project(Template::UserDefined, Some("g7"), None);
    assert_eq!(
        pecker.post_source_code_request(&missing, "shop.zip", vec![1]).err(),
        Some(CodepeckerError::ParamMissing)
    );
    let source = Source::git("https://git.local/shop.git", "u", "p", None);
    assert_eq!(
        pecker.post_source_code_by_svn_or_git_request(&missing, &source).err(),
        Some(CodepeckerError::ParamMissing)
    );
    assert!(!missing.is_valid());
    assert_eq!(
        Project::new("shop", "java", Template::UserDefined, None, None).err(),
        Some(CodepeckerError::ParamMissing)
    );
}

#[test]
fn a_project_is_made_of_what_it_is_given() {
    let made = Project::new("shop", "go", Template::UserDefined, Some("g".to_string()), Some("r".to_string()))
        .unwrap();
    assert_eq!(made.name, "shop");
    assert_eq!(made.lang, "go");
    assert_eq!(made.template, Template::UserDefined);
    assert_eq!(made.group.as_deref(), Some("g"));
    assert_eq!(made.rule.as_deref(), Some("r"));
    assert!(made.is_valid());
    assert_eq!(made.duplicate(), made);
    assert!(Project::new("shop", "go", Template::High, None, None).unwrap().is_valid());
    assert!(Project::new("shop", "go", Template::Default, None, None).unwrap().is_valid());
}

#[test]
fn templates_are_named_by_their_words() {
    assert_eq!(Template::parse("default"), Some(Template::Default));
    assert_eq!(Template::parse("high"), Some(Template::High));
    assert_eq!(Template::parse("user_defined"), Some(Template::UserDefined));
    assert_eq!(Template::parse("userdefined"), None);
    assert_eq!(Template::Default.as_str(), "default");
    assert_eq!(Template::High.as_str(), "high");
    assert_eq!(Template::UserDefined.as_str(), "user_defined");
    assert_eq!(Remote::Svn.as_str(), "1");
    assert_eq!(Remote::Git.as_str(), "2");
}

#[test]
fn a_checkout_carries_the_project_and_the_repository() {
    let pecker = backend();
    let source = Source::git("https://git.local/shop.git", "alice", "pw", Some("main".to_string()));
    let form = pecker
        .post_source_code_by_svn_or_git_request(&project(Template::UserDefined, Some("g7"), Some("r9")), &source)
        .unwrap();
    assert_eq!(form.url, "https://pecker.local:8443/cp4/webInterface/postSourceCodeBySvnGit.action");
    assert_eq!(
        form.params,
        vec![
            pair("auth", "k3y"),
            pair("projectId", "shop"),
            pair("langType", "java"),
            pair("projectLevel", "user_defined"),
            pair("projectGroupId", "g7"),
            pair("ruleId", "r9"),
            pair("downloadType", "2"),
            pair("scmUrl", "https://git.local/shop.git"),
            pair("scmUser", "alice"),
            pair("scmPassword", "pw"),
            pair("branch", "main")
        ]
    );
    let svn = Source::svn("svn://svn.local/shop", "bob", "pw2", None);
    assert_eq!(svn.remote, Remote::Svn);
    let form = pecker
        .post_source_code_by_svn_or_git_request(&project(Template::Default, None, None), &svn)
        .unwrap();
    assert_eq!(
        form.params,
        vec![
            pair("auth", "k3y"),
            pair("projectId", "shop"),
            pair("langType", "java"),
            pair("projectLevel", "default"),
            pair("downloadType", "1"),
            pair("scmUrl", "svn://svn.local/shop"),
            pair("scmUser", "bob"),
            pair("scmPassword", "pw2")
        ]
    );
}

#[test]
fn an_accepted_submission_yields_its_task() {
    let pecker = backend();
    let reply = ok("{\"status\":0,\"taskId\":\"T-42\"}");
    assert_eq!(pecker.post_source_code(&reply), Ok("T-42".to_string()));
    assert_eq!(pecker.post_source_code_by_svn_or_git(&reply), Ok("T-42".to_string()));
    let created = received(201, Some("{\"status\":0,\"taskId\":\"T-43\"}"));
    assert_eq!(pecker.post_source_code(&created), Ok("T-43".to_string()));
}

#[test]
fn a_refused_submission_fails_in_the_words_of_the_backend() {
    let pecker = backend();
    let reply = ok("{\"status\":1,\"errorMsg\":\"quota exceeded\",\"taskId\":\"T-42\"}");
    assert_eq!(
        pecker.post_source_code(&reply),
        Err(CodepeckerError::CustomInvalidInfo("quota exceeded".to_string()))
    );
    assert_eq!(
        pecker.post_source_code_by_svn_or_git(&reply),
        Err(CodepeckerError::CustomInvalidInfo("quota exceeded".to_string()))
    );
}

#[test]
fn a_refusal_without_words_fails_in_general_terms() {
    let pecker = backend();
    let reply = ok("{\"status\":1}");
    assert_eq!(
        pecker.post_source_code(&reply),
        Err(CodepeckerError::CustomInvalidInfo(UPLOAD_FAILED.to_string()))
    );
    assert_eq!(
        pecker.post_source_code_by_svn_or_git(&reply),
        Err(CodepeckerError::CustomInvalidInfo(CHECKOUT_FAILED.to_string()))
    );
    assert_eq!(
        pecker.post_source_code(&ok("{\"taskId\":\"T-1\"}")),
        Err(CodepeckerError::CustomInvalidInfo(UPLOAD_FAILED.to_string()))
    );
    assert_eq!(
        pecker.post_source_code(&ok("{\"status\":\"0\",\"taskId\":\"T-1\"}")),
        Err(CodepeckerError::CustomInvalidInfo(UPLOAD_FAILED.to_string()))
    );
    assert_eq!(
        pecker.post_source_code(&ok("[0]")),
        Err(CodepeckerError::CustomInvalidInfo(UPLOAD_FAILED.to_string()))
    );
}

#[test]
fn a_success_without_a_task_is_malformed() {
    let pecker = backend();
    assert_eq!(pecker.post_source_code(&ok("{\"status\":0}")), Err(CodepeckerError::MalformedResponse));
    assert_eq!(
        pecker.post_source_code(&ok("{\"status\":0,\"taskId\":7}")),
        Err(CodepeckerError::MalformedResponse)
    );
    assert_eq!(
        pecker.post_source_code(&ok("{\"status\":0,\"errorMsg\":\"odd\"}")),
        Err(CodepeckerError::MalformedResponse)
    );
}

#[test]
fn an_http_failure_fails_whatever_the_body_says() {
    let pecker = backend();
    let reply = received(500, Some("{\"status\":0,\"taskId\":\"T-42\"}"));
    assert_eq!(
        pecker.post_source_code(&reply),
        Err(CodepeckerError::CustomInvalidInfo(UPLOAD_FAILED.to_string()))
    );
    assert_eq!(
        pecker.post_source_code_by_svn_or_git(&reply),
        Err(CodepeckerError::CustomInvalidInfo(CHECKOUT_FAILED.to_string()))
    );
    let redirect = received(302, Some(""));
    assert_eq!(
        pecker.post_source_code(&redirect),
        Err(CodepeckerError::CustomInvalidInfo(UPLOAD_FAILED.to_string()))
    );
    let unreadable = received(500, None);
    assert_eq!(pecker.post_source_code(&unreadable), Err(CodepeckerError::UnableToGetText));
}

#[test]
fn a_submission_that_cannot_be_delivered_names_the_endpoint() {
    let pecker = backend();
    assert_eq!(
        pecker.post_source_code(&Answer::Unreachable),
        Err(CodepeckerError::UnableToConnect(
            "https://pecker.local:8443/cp4/webInterface/postSourceCode.action".to_string()
        ))
    );
    assert_eq!(
        pecker.post_source_code_by_svn_or_git(&Answer::Unreachable),
        Err(CodepeckerError::UnableToConnect(
            "https://pecker.local:8443/cp4/webInterface/postSourceCodeBySvnGit.action".to_string()
        ))
    );
}

#[test]
fn an_answer_that_is_not_json_cannot_be_parsed() {
    let pecker = backend();
    assert_eq!(pecker.post_source_code(&ok("task T-42")), Err(CodepeckerError::UnableToParseJson));
    assert_eq!(pecker.post_source_code(&ok("")), Err(CodepeckerError::UnableToParseJson));
    let unreadable = received(200, None);
    assert_eq!(pecker.post_source_code(&unreadable), Err(CodepeckerError::UnableToParseJson));
    assert_eq!(pecker.post_source_code(&ok("{\"a\":")), Err(CodepeckerError::UnableToParseJson));
}

#[test]
fn a_body_is_read_as_the_document_it_spells() {
    let doc = match ok(" {\"a\": [1, \"two\", null], \"b\": {\"c\": true}} ") {
        Answer::Received { status: 200, content: Content::Document(doc) } => doc,
        _ => panic!("the body spells a document"),
    };
    assert_eq!(doc["a"][0].as_i64(), Some(1));
    assert_eq!(doc["a"][1].as_str(), Some("two"));
    assert!(doc["a"][2].is_null());
    assert_eq!(doc["b"]["c"].as_bool(), Some(true));
    assert_eq!(doc.as_object().unwrap().len(), 2);
}

#[test]
fn a_reply_is_read_once() {
    assert!(matches!(read(&Reply::Unreachable), Answer::Unreachable));
    assert!(matches!(received(204, None), Answer::Received { status: 204, content: Content::Unreadable }));
    assert!(matches!(received(200, Some("")), Answer::Received { status: 200, content: Content::Garbled }));
    assert!(matches!(received(200, Some("{\"a\":")), Answer::Received { status: 200, content: Content::Garbled }));
    assert!(matches!(received(200, Some("{} {}")), Answer::Received { status: 200, content: Content::Garbled }));
    assert!(matches!(
        received(500, Some("null")),
        Answer::Received { status: 500, content: Content::Document(serde_json::Value::Null) }
    ));
    let reply = Reply::Received { status: 200, body: Some(vec![0xff, 0xfe]) };
    assert!(matches!(read(&reply), Answer::Received { status: 200, content: Content::Garbled }));
}

#[test]
fn a_submission_is_judged_by_its_document() {
    let doc: Value = serde_json::from_str("{\"status\":0,\"taskId\":\"T-9\"}").unwrap();
    assert_eq!(judge_submission(&doc, "refused"), Ok("T-9".to_string()));
    let doc: Value = serde_json::from_str("{\"status\":-1}").unwrap();
    assert_eq!(
        judge_submission(&doc, "refused"),
        Err(CodepeckerError::CustomInvalidInfo("refused".to_string()))
    );
    let doc: Value = serde_json::from_str("{\"status\":0.0,\"taskId\":\"T-9\"}").unwrap();
    assert_eq!(
        judge_submission(&doc, "refused"),
        Err(CodepeckerError::CustomInvalidInfo("refused".to_string()))
    );
    assert_eq!(
        read_submission("http://x/", "refused", &ok("{\"status\":2,\"errorMsg\":\"no\"}")),
        Err(CodepeckerError::CustomInvalidInfo("no".to_string()))
    );
}

#[test]
fn answers_to_questions_ignore_the_status_member() {
    let doc = read_answer("http://x/", "refused", ok("{\"status\":1,\"errorMsg\":\"no\"}")).unwrap();
    assert_eq!(doc["errorMsg"].as_str(), Some("no"));
    assert_eq!(
        read_answer("http://x/", "refused", received(199, Some("{}"))),
        Err(CodepeckerError::CustomInvalidInfo("refused".to_string()))
    );
    assert_eq!(
        read_answer("http://x/", "refused", received(300, None)),
        Err(CodepeckerError::CustomInvalidInfo("refused".to_string()))
    );
    assert_eq!(
        read_answer("http://x/", "refused", Answer::Unreachable),
        Err(CodepeckerError::UnableToConnect("http://x/".to_string()))
    );
    assert_eq!(read_answer("http://x/", "refused", ok("{")), Err(CodepeckerError::UnableToParseJson));
    assert_eq!(read_answer("http://x/", "refused", received(200, None)), Err(CodepeckerError::UnableToParseJson));
}

#[test]
fn success_is_any_status_in_the_two_hundreds() {
    assert!(!succeeded(199));
    assert!(succeeded(200));
    assert!(succeeded(204));
    assert!(succeeded(299));
    assert!(!succeeded(300));
    assert!(!succeeded(404));
    assert!(!succeeded(0));
}

#[test]
fn fields_are_put_in_order() {
    let mut fields = Vec::new();
    put(&mut fields, "a", "1");
    put_some(&mut fields, "b", &None);
    put_some(&mut fields, "c", &Some("3".to_string()));
    put(&mut fields, "a", "4");
    assert_eq!(fields, vec![pair("a", "1"), pair("c", "3"), pair("a", "4")]);
}
