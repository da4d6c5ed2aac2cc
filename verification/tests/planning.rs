use codepecker::error::CodepeckerError;
use codepecker::plan::{builder, plan, Options, Plan};
use codepecker::project::{Remote, Template};

fn given() -> Options {
    Options {
        url: Some("http://127.0.0.1:8081/".to_string()),
        key: Some("secret".to_string()),
        proxy: None,
        project: Some("test".to_string()),
        group: None,
        lang: Some("java".to_string()),
        template: Some(Template::Default),
        rule: None,
        file: None,
        svn: None,
        git: None,
        user: None,
        password: None,
        branch: None,
        task: None,
        output: Some("results.json".to_string()),
        severity: "medium".to_string(),
        language: "java".to_string(),
        get_source: true,
    }
}

#[test]
fn a_task_with_an_output_is_resumed() {
    let mut options = given();
    options.task = Some("T-42".to_string());
    options.file = Some("shop.zip".to_string());
    options.project = None;
    let run = builder(&options).unwrap();
    assert_eq!(run.plan, Plan::Resume { task: "T-42".to_string() });
    assert_eq!(run.output, "results.json");
    assert_eq!(run.severity, "medium");
    assert_eq!(run.language, "java");
    assert!(run.get_source);
    assert_eq!(run.pecker.url, "http://127.0.0.1:8081/");
    assert_eq!(run.pecker.key, "secret");
    assert_eq!(run.pecker.proxy, None);
}

#[test]
fn an_archive_goes_before_a_repository() {
    let mut options = given();
    options.file = Some("shop.zip".to_string());
    options.git = Some("https://git.local/shop.git".to_string());
    options.user = Some("u".to_string());
    options.password = Some("p".to_string());
    options.group = Some("g7".to_string());
    options.proxy = Some("http://127.0.0.1:8080".to_string());
    let run = builder(&options).unwrap();
    match run.plan {
        Plan::Archive { project, file } => {
            assert_eq!(file, "shop.zip");
            assert_eq!(project.name, "test");
            assert_eq!(project.lang, "java");
            assert_eq!(project.template, Template::Default);
            assert_eq!(project.group.as_deref(), Some("g7"));
            assert_eq!(project.rule, None);
        }
        other => panic!("an archive was named, not {:?}", other),
    }
    assert_eq!(run.pecker.proxy.as_deref(), Some("http://127.0.0.1:8080"));
}

#[test]
fn git_goes_before_subversion() {
    let mut options = given();
    options.git = Some("https://git.local/shop.git".to_string());
    options.svn = Some("svn://svn.local/shop".to_string());
    options.user = Some("u".to_string());
    options.password = Some("p".to_string());
    options.branch = Some("main".to_string());
    match plan(&options).unwrap() {
        Plan::Repository { source, .. } => {
            assert_eq!(source.remote, Remote::Git);
            assert_eq!(source.url, "https://git.local/shop.git");
            assert_eq!(source.user, "u");
            assert_eq!(source.password, "p");
            assert_eq!(source.branch.as_deref(), Some("main"));
        }
        other => panic!("a repository was named, not {:?}", other),
    }
    options.git = None;
    match plan(&options).unwrap() {
        Plan::Repository { source, .. } => {
            assert_eq!(source.remote, Remote::Svn);
            assert_eq!(source.url, "svn://svn.local/shop");
        }
        other => panic!("a repository was named, not {:?}", other),
    }
}

#[test]
fn a_repository_without_credentials_is_no_source() {
    let mut options = given();
    options.git = Some("https://git.local/shop.git".to_string());
    options.user = Some("u".to_string());
    assert_eq!(plan(&options), Ok(Plan::Nothing));
    options.user = None;
    options.password = Some("p".to_string());
    options.svn = Some("svn://svn.local/shop".to_string());
    assert_eq!(plan(&options), Ok(Plan::Nothing));
}

#[test]
fn nothing_is_planned_where_no_source_is_named() {
    let options = given();
    assert_eq!(builder(&options).unwrap().plan, Plan::Nothing);
}

#[test]
fn a_run_needs_its_parameters() {
    for missing in 0..6 {
        let mut options = given();
        options.file = Some("shop.zip".to_string());
        match missing {
            0 => options.url = None,
            1 => options.key = None,
            2 => options.project = None,
            3 => options.lang = None,
            4 => options.template = None,
            _ => options.output = None,
        }
        assert_eq!(builder(&options).err(), Some(CodepeckerError::ParamMissing));
    }
    let mut options = given();
    options.task = Some("T-42".to_string());
    options.output = None;
    assert_eq!(builder(&options).err(), Some(CodepeckerError::ParamMissing));
}

#[test]
fn rules_of_the_users_own_need_a_rule_set() {
    let mut options = given();
    options.template = Some(Template::UserDefined);
    options.file = Some("shop.zip".to_string());
    assert_eq!(builder(&options).err(), Some(CodepeckerError::ParamMissing));
    assert_eq!(plan(&options).err(), Some(CodepeckerError::ParamMissing));
    options.file = None;
    options.svn = Some("svn://svn.local/shop".to_string());
    options.user = Some("u".to_string());
    options.password = Some("p".to_string());
    assert_eq!(plan(&options).err(), Some(CodepeckerError::ParamMissing));
    options.rule = Some("r9".to_string());
    match plan(&options).unwrap() {
        Plan::Repository { project, .. } => assert_eq!(project.rule.as_deref(), Some("r9")),
        other => panic!("a repository was named, not {:?}", other),
    }
    options.svn = None;
    options.rule = None;
    assert_eq!(plan(&options), Ok(Plan::Nothing));
}
