//! The backend as this client sees it: where each request goes, what it
//! carries, and what each answer means.

use vstd::prelude::*;
use vstd::string::StringExecFns;
use crate::error::{
    CodepeckerError, Failure, CHECKOUT_FAILED, DETAIL_FAILED, RESULT_FAILED, UPLOAD_FAILED,
};
use crate::json::{json_of, text_member, u64_member, Json};
use crate::mime::{guess, mime_of};
use crate::project::{Project, ProjectView, Source, SourceView, Template};
use crate::request::{
    is_success, optional_field, pairs_of, put, put_some, succeeded, Answer, AnswerView, Content,
    ContentView, Form, FormView, Upload, UploadView,
};
use crate::text::{decimal, decimal_text, text_of};

verus! {

/// Where an archive is submitted.
pub const UPLOAD_ACTION: &'static str = "cp4/webInterface/postSourceCode.action";

/// Where a repository is submitted.
pub const CHECKOUT_ACTION: &'static str = "cp4/webInterface/postSourceCodeBySvnGit.action";

/// Where the state of a task is asked.
pub const STATUS_ACTION: &'static str = "cp4/webInterface/queryTaskStatus.action";

/// Where the summary of a task is asked.
pub const STATISTICS_ACTION: &'static str = "cp4/webInterface/queryStatistics.action";

/// Where the findings of a task are asked, page by page.
pub const RESULT_ACTION: &'static str = "cp4/webInterface/getTaskResult.action";

/// Where the remediation text for a kind of finding is asked.
pub const SOLUTION_ACTION: &'static str = "cp4/webInterface/queryWikiByLanguageErrorid.action";

/// Where the content of a file is asked.
pub const FILE_ACTION: &'static str = "cp4/webInterface/getFile.action";

/// The field of an upload that carries the archive.
pub const UPLOAD_PART: &'static str = "uploadFile";

/// The backend: its address, the proxy to reach it through, and the
/// credential that every request carries.
#[derive(Debug, Clone, PartialEq, Eq)]
pub struct Pecker {
    pub url: String,
    pub proxy: Option<String>,
    pub key: String,
}

/// The content of a [`Pecker`].
pub struct PeckerView {
    pub url: Seq<char>,
    pub proxy: Option<Seq<char>>,
    pub key: Seq<char>,
}

impl View for Pecker {
    type V = PeckerView;

    open spec fn view(&self) -> PeckerView {
        PeckerView { url: self.url@, proxy: text_of(self.proxy), key: self.key@ }
    }
}

/// The fields that describe a project in a submission. The rule set is sent
/// only for a project with rules of the user's own.
pub open spec fn project_fields(key: Seq<char>, project: ProjectView) -> Seq<
    (Seq<char>, Seq<char>),
> {
    seq![
        ("auth"@, key),
        ("projectId"@, project.name),
        ("langType"@, project.lang),
        ("projectLevel"@, project.template.name()),
    ] + optional_field("projectGroupId"@, project.group) + optional_field(
        "ruleId"@,
        if project.template == Template::UserDefined {
            project.rule
        } else {
            None
        },
    )
}

/// The fields that describe a repository in a submission.
pub open spec fn source_fields(source: SourceView) -> Seq<(Seq<char>, Seq<char>)> {
    seq![
        ("downloadType"@, source.remote.code()),
        ("scmUrl"@, source.url),
        ("scmUser"@, source.user),
        ("scmPassword"@, source.password),
    ] + optional_field("branch"@, source.branch)
}

impl PeckerView {
    /// The address of an endpoint.
    pub open spec fn endpoint(self, action: Seq<char>) -> Seq<char> {
        self.url + action
    }

    /// The submission of an archive.
    pub open spec fn upload(
        self,
        project: ProjectView,
        file_name: Seq<char>,
        content: Seq<u8>,
    ) -> UploadView {
        UploadView {
            url: self.endpoint(UPLOAD_ACTION@),
            fields: project_fields(self.key, project),
            part: UPLOAD_PART@,
            file_name,
            mime_type: mime_of(file_name),
            content,
        }
    }

    /// The submission of a repository.
    pub open spec fn checkout(self, project: ProjectView, source: SourceView) -> FormView {
        FormView {
            url: self.endpoint(CHECKOUT_ACTION@),
            params: project_fields(self.key, project) + source_fields(source),
        }
    }

    /// The question after the state of a task.
    pub open spec fn status_form(self, task: Seq<char>) -> FormView {
        FormView {
            url: self.endpoint(STATUS_ACTION@),
            params: seq![("taskId"@, task), ("auth"@, self.key)],
        }
    }

    /// The question after the summary of a task.
    pub open spec fn statistics_form(self, task: Seq<char>) -> FormView {
        FormView {
            url: self.endpoint(STATISTICS_ACTION@),
            params: seq![("taskId"@, task), ("auth"@, self.key)],
        }
    }

    /// The question after one page of the findings of a task.
    pub open spec fn page_form(self, task: Seq<char>, number: nat) -> FormView {
        FormView {
            url: self.endpoint(RESULT_ACTION@),
            params: seq![
                ("taskId"@, task),
                ("auth"@, self.key),
                ("requestNum"@, decimal_text(number)),
            ],
        }
    }

    /// The question after the remediation text for a kind of finding.
    pub open spec fn solution_form(self, code: Seq<char>, language: Seq<char>) -> FormView {
        FormView {
            url: self.endpoint(SOLUTION_ACTION@),
            params: seq![("errorid"@, code), ("language"@, language), ("auth"@, self.key)],
        }
    }

    /// The question after the content of a file.
    pub open spec fn file_form(self, path: Seq<char>) -> FormView {
        FormView {
            url: self.endpoint(FILE_ACTION@),
            params: seq![("path"@, path), ("auth"@, self.key)],
        }
    }
}

/// The document in the body of an answer.
pub open spec fn document(content: ContentView) -> Result<Json, Failure> {
    match content {
        ContentView::Document(doc) => Ok(doc),
        _ => Err(Failure::UnableToParseJson),
    }
}

/// What the answer to a question yields: the document that a successful
/// answer carries. A refusal by HTTP status is reported in the words of
/// `refusal`, whatever its body says.
pub open spec fn told(url: Seq<char>, refusal: Seq<char>, answer: AnswerView) -> Result<
    Json,
    Failure,
> {
    match answer {
        AnswerView::Unreachable => Err(Failure::UnableToConnect(url)),
        AnswerView::Received { status, content } => if is_success(status) {
            document(content)
        } else {
            Err(Failure::CustomInvalidInfo(refusal))
        },
    }
}

/// Whether the backend marks a document as a success.
pub open spec fn accepted(doc: Json) -> bool {
    doc.u64_member("status"@) == Some(0u64)
}

/// What a document that answers a submission says: the task under which
/// the backend filed it, or why there is none.
///
/// A document that the backend marks as a success carries the task; one
/// that does not carry it is malformed. Any other document fails the
/// submission, in the backend's words where it has any, and in the words of
/// `refusal` where it has none.
pub open spec fn submission_verdict(doc: Json, refusal: Seq<char>) -> Result<Seq<char>, Failure> {
    if accepted(doc) {
        match doc.text_member("taskId"@) {
            Some(task) => Ok(task),
            None => Err(Failure::MalformedResponse),
        }
    } else {
        match doc.text_member("errorMsg"@) {
            Some(words) => Err(Failure::CustomInvalidInfo(words)),
            None => Err(Failure::CustomInvalidInfo(refusal)),
        }
    }
}

/// What the answer to a submission yields. A refusal by HTTP status fails
/// the submission whatever its body says.
pub open spec fn submission(url: Seq<char>, refusal: Seq<char>, answer: AnswerView) -> Result<
    Seq<char>,
    Failure,
> {
    match answer {
        AnswerView::Unreachable => Err(Failure::UnableToConnect(url)),
        AnswerView::Received { status, content } => if is_success(status) {
            match document(content) {
                Ok(doc) => submission_verdict(doc, refusal),
                Err(e) => Err(e),
            }
        } else if content is Unreadable {
            Err(Failure::UnableToGetText)
        } else {
            Err(Failure::CustomInvalidInfo(refusal))
        },
    }
}

/// The document that the answer to a question sent to `url` carries.
pub fn read_answer(url: &str, refusal: &str, answer: Answer) -> (r: Result<
    serde_json::Value,
    CodepeckerError,
>)
    ensures
        match r {
            Ok(v) => told(url@, refusal@, answer@) == Ok::<Json, Failure>(json_of(v)),
            Err(e) => told(url@, refusal@, answer@) == Err::<Json, Failure>(e@),
        },
{
    match answer {
        Answer::Unreachable => Err(CodepeckerError::unreachable(url)),
        Answer::Received { status, content } => if succeeded(status) {
            match content {
                Content::Document(doc) => Ok(doc),
                _ => Err(CodepeckerError::UnableToParseJson),
            }
        } else {
            Err(CodepeckerError::said(refusal))
        },
    }
}

/// Judges a document that answers a submission.
pub fn judge_submission(doc: &serde_json::Value, refusal: &str) -> (r: Result<
    String,
    CodepeckerError,
>)
    ensures
        match r {
            Ok(task) => submission_verdict(json_of(*doc), refusal@) == Ok::<Seq<char>, Failure>(
                task@,
            ),
            Err(e) => submission_verdict(json_of(*doc), refusal@) == Err::<Seq<char>, Failure>(
                e@,
            ),
        },
{
    let accepted = match u64_member(doc, "status") {
        Some(code) => code == 0,
        None => false,
    };
    if accepted {
        match text_member(doc, "taskId") {
            Some(task) => Ok(task.to_owned()),
            None => Err(CodepeckerError::MalformedResponse),
        }
    } else {
        match text_member(doc, "errorMsg") {
            Some(words) => Err(CodepeckerError::said(words)),
            None => Err(CodepeckerError::said(refusal)),
        }
    }
}

/// The task that the answer to a submission sent to `url` carries.
pub fn read_submission(url: &str, refusal: &str, answer: &Answer) -> (r: Result<
    String,
    CodepeckerError,
>)
    ensures
        match r {
            Ok(task) => submission(url@, refusal@, answer@) == Ok::<Seq<char>, Failure>(task@),
            Err(e) => submission(url@, refusal@, answer@) == Err::<Seq<char>, Failure>(e@),
        },
{
    match answer {
        Answer::Unreachable => Err(CodepeckerError::unreachable(url)),
        Answer::Received { status, content } => if succeeded(*status) {
            match content {
                Content::Document(doc) => judge_submission(doc, refusal),
                _ => Err(CodepeckerError::UnableToParseJson),
            }
        } else {
            match content {
                Content::Unreadable => Err(CodepeckerError::UnableToGetText),
                _ => Err(CodepeckerError::said(refusal)),
            }
        },
    }
}

impl Pecker {
    /// The backend at `url`, reached through `proxy` where one is given,
    /// with the credential `key`.
    pub fn new(url: &str, proxy: Option<String>, key: &str) -> (r: Pecker)
        ensures
            r@ == (PeckerView { url: url@, proxy: text_of(proxy), key: key@ }),
    {
        Pecker { url: url.to_owned(), proxy, key: key.to_owned() }
    }

    /// The address of an endpoint.
    pub fn endpoint(&self, action: &str) -> (r: String)
        ensures
            r@ == self@.endpoint(action@),
    {
        self.url.clone().concat(action)
    }

    fn project_fields(&self, project: &Project) -> (r: Vec<(String, String)>)
        ensures
            pairs_of(r@) == project_fields(self@.key, project@),
    {
        let mut fields: Vec<(String, String)> = Vec::new();
        assert(pairs_of(fields@) =~= Seq::empty());
        put(&mut fields, "auth", self.key.as_str());
        put(&mut fields, "projectId", project.name.as_str());
        put(&mut fields, "langType", project.lang.as_str());
        put(&mut fields, "projectLevel", project.template.as_str());
        assert(pairs_of(fields@) =~= seq![
            ("auth"@, self@.key),
            ("projectId"@, project@.name),
            ("langType"@, project@.lang),
            ("projectLevel"@, project@.template.name()),
        ]);
        put_some(&mut fields, "projectGroupId", &project.group);
        match project.template {
            Template::UserDefined => {
                put_some(&mut fields, "ruleId", &project.rule);
            },
            _ => {
                assert(pairs_of(fields@) =~= pairs_of(fields@) + optional_field("ruleId"@, None));
            },
        }
        fields
    }

    /// The submission of an archive, for a project that names its rule set
    /// where it has to. Nothing is to be sent for one that does not.
    pub fn post_source_code_request(
        &self,
        project: &Project,
        file_name: &str,
        content: Vec<u8>,
    ) -> (r: Result<Upload, CodepeckerError>)
        ensures
            match r {
                Ok(upload) => project@.valid() && upload@ == self@.upload(
                    project@,
                    file_name@,
                    content@,
                ),
                Err(e) => !project@.valid() && e@ == Failure::ParamMissing,
            },
    {
        if !project.is_valid() {
            return Err(CodepeckerError::ParamMissing);
        }
        Ok(
            Upload {
                url: self.endpoint(UPLOAD_ACTION),
                fields: self.project_fields(project),
                part: UPLOAD_PART.to_owned(),
                file_name: file_name.to_owned(),
                mime_type: guess(file_name),
                content,
            },
        )
    }

    /// The task under which the backend filed an archive, read from its
    /// answer to the submission.
    pub fn post_source_code(&self, answer: &Answer) -> (r: Result<String, CodepeckerError>)
        ensures
            match r {
                Ok(task) => submission(self@.endpoint(UPLOAD_ACTION@), UPLOAD_FAILED@, answer@)
                    == Ok::<Seq<char>, Failure>(task@),
                Err(e) => submission(self@.endpoint(UPLOAD_ACTION@), UPLOAD_FAILED@, answer@)
                    == Err::<Seq<char>, Failure>(e@),
            },
    {
        let url = self.endpoint(UPLOAD_ACTION);
        read_submission(url.as_str(), UPLOAD_FAILED, answer)
    }

    /// The submission of a repository, for a project that names its rule
    /// set where it has to. Nothing is to be sent for one that does not.
    pub fn post_source_code_by_svn_or_git_request(&self, project: &Project, source: &Source) -> (r:
        Result<Form, CodepeckerError>)
        ensures
            match r {
                Ok(form) => project@.valid() && form@ == self@.checkout(project@, source@),
                Err(e) => !project@.valid() && e@ == Failure::ParamMissing,
            },
    {
        if !project.is_valid() {
            return Err(CodepeckerError::ParamMissing);
        }
        let mut params = self.project_fields(project);
        let ghost before = pairs_of(params@);
        put(&mut params, "downloadType", source.remote.as_str());
        put(&mut params, "scmUrl", source.url.as_str());
        put(&mut params, "scmUser", source.user.as_str());
        put(&mut params, "scmPassword", source.password.as_str());
        assert(pairs_of(params@) =~= before + seq![
            ("downloadType"@, source@.remote.code()),
            ("scmUrl"@, source@.url),
            ("scmUser"@, source@.user),
            ("scmPassword"@, source@.password),
        ]);
        put_some(&mut params, "branch", &source.branch);
        assert(pairs_of(params@) =~= before + source_fields(source@));
        Ok(Form { url: self.endpoint(CHECKOUT_ACTION), params })
    }

    /// The task under which the backend filed a repository, read from its
    /// answer to the submission.
    pub fn post_source_code_by_svn_or_git(&self, answer: &Answer) -> (r: Result<
        String,
        CodepeckerError,
    >)
        ensures
            match r {
                Ok(task) => submission(
                    self@.endpoint(CHECKOUT_ACTION@),
                    CHECKOUT_FAILED@,
                    answer@,
                ) == Ok::<Seq<char>, Failure>(task@),
                Err(e) => submission(self@.endpoint(CHECKOUT_ACTION@), CHECKOUT_FAILED@, answer@)
                    == Err::<Seq<char>, Failure>(e@),
            },
    {
        let url = self.endpoint(CHECKOUT_ACTION);
        read_submission(url.as_str(), CHECKOUT_FAILED, answer)
    }

    /// The question after the state of a task.
    pub fn query_task_status_request(&self, task: &str) -> (r: Form)
        ensures
            r@ == self@.status_form(task@),
    {
        let mut params: Vec<(String, String)> = Vec::new();
        assert(pairs_of(params@) =~= Seq::empty());
        put(&mut params, "taskId", task);
        put(&mut params, "auth", self.key.as_str());
        assert(pairs_of(params@) =~= seq![("taskId"@, task@), ("auth"@, self@.key)]);
        Form { url: self.endpoint(STATUS_ACTION), params }
    }

    /// The question after the summary of a task.
    pub fn query_statistics_request(&self, task: &str) -> (r: Form)
        ensures
            r@ == self@.statistics_form(task@),
    {
        let mut params: Vec<(String, String)> = Vec::new();
        assert(pairs_of(params@) =~= Seq::empty());
        put(&mut params, "taskId", task);
        put(&mut params, "auth", self.key.as_str());
        assert(pairs_of(params@) =~= seq![("taskId"@, task@), ("auth"@, self@.key)]);
        Form { url: self.endpoint(STATISTICS_ACTION), params }
    }

    /// The summary of a task, taken from the answer to the question after it.
    pub fn query_statistics(&self, answer: Answer) -> (r: Result<
        serde_json::Value,
        CodepeckerError,
    >)
        ensures
            match r {
                Ok(v) => told(self@.endpoint(STATISTICS_ACTION@), RESULT_FAILED@, answer@)
                    == Ok::<Json, Failure>(json_of(v)),
                Err(e) => told(self@.endpoint(STATISTICS_ACTION@), RESULT_FAILED@, answer@)
                    == Err::<Json, Failure>(e@),
            },
    {
        let url = self.endpoint(STATISTICS_ACTION);
        read_answer(url.as_str(), RESULT_FAILED, answer)
    }

    /// The question after page `number` of the findings of a task.
    pub fn get_task_result_request(&self, task: &str, number: u128) -> (r: Form)
        ensures
            r@ == self@.page_form(task@, number as nat),
    {
        let mut params: Vec<(String, String)> = Vec::new();
        assert(pairs_of(params@) =~= Seq::empty());
        let written = decimal(number);
        put(&mut params, "taskId", task);
        put(&mut params, "auth", self.key.as_str());
        put(&mut params, "requestNum", written.as_str());
        assert(pairs_of(params@) =~= seq![
            ("taskId"@, task@),
            ("auth"@, self@.key),
            ("requestNum"@, decimal_text(number as nat)),
        ]);
        Form { url: self.endpoint(RESULT_ACTION), params }
    }

    /// The question after the remediation text for findings of the kind
    /// `error_code` in code written in `language`.
    pub fn get_solution_detail_request(&self, error_code: &str, language: &str) -> (r: Form)
        ensures
            r@ == self@.solution_form(error_code@, language@),
    {
        let mut params: Vec<(String, String)> = Vec::new();
        assert(pairs_of(params@) =~= Seq::empty());
        put(&mut params, "errorid", error_code);
        put(&mut params, "language", language);
        put(&mut params, "auth", self.key.as_str());
        assert(pairs_of(params@) =~= seq![
            ("errorid"@, error_code@),
            ("language"@, language@),
            ("auth"@, self@.key),
        ]);
        Form { url: self.endpoint(SOLUTION_ACTION), params }
    }

    /// The remediation text, taken from the answer to the question after it.
    pub fn get_solution_detail(&self, answer: Answer) -> (r: Result<
        serde_json::Value,
        CodepeckerError,
    >)
        ensures
            match r {
                Ok(v) => told(self@.endpoint(SOLUTION_ACTION@), DETAIL_FAILED@, answer@)
                    == Ok::<Json, Failure>(json_of(v)),
                Err(e) => told(self@.endpoint(SOLUTION_ACTION@), DETAIL_FAILED@, answer@)
                    == Err::<Json, Failure>(e@),
            },
    {
        let url = self.endpoint(SOLUTION_ACTION);
        read_answer(url.as_str(), DETAIL_FAILED, answer)
    }

    /// The question after the content of the file at `path`.
    pub fn get_file_content_bytes_request(&self, path: &str) -> (r: Form)
        ensures
            r@ == self@.file_form(path@),
    {
        let mut params: Vec<(String, String)> = Vec::new();
        assert(pairs_of(params@) =~= Seq::empty());
        put(&mut params, "path", path);
        put(&mut params, "auth", self.key.as_str());
        assert(pairs_of(params@) =~= seq![("path"@, path@), ("auth"@, self@.key)]);
        Form { url: self.endpoint(FILE_ACTION), params }
    }

    /// The content of a file, taken from the answer to the question after it.
    pub fn get_file_content_bytes(&self, answer: Answer) -> (r: Result<
        serde_json::Value,
        CodepeckerError,
    >)
        ensures
            match r {
                Ok(v) => told(self@.endpoint(FILE_ACTION@), DETAIL_FAILED@, answer@) == Ok::<
                    Json,
                    Failure,
                >(json_of(v)),
                Err(e) => told(self@.endpoint(FILE_ACTION@), DETAIL_FAILED@, answer@) == Err::<
                    Json,
                    Failure,
                >(e@),
            },
    {
        let url = self.endpoint(FILE_ACTION);
        read_answer(url.as_str(), DETAIL_FAILED, answer)
    }
}

} // verus!
