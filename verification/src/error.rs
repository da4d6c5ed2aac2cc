//! What can go wrong in a run.

use vstd::prelude::*;
use vstd::string::StringExecFns;

verus! {

/// Reported where an archive submission fails without a message from the backend.
pub const UPLOAD_FAILED: &'static str = "上传源代码文件失败,请检查URL地址及key值";

/// Reported where a submission by repository fails without a message from the backend.
pub const CHECKOUT_FAILED: &'static str = "部署GIT/SVN源代码扫描失败,请检查URL地址及key值";

/// Reported where the backend refuses to hand out statistics or findings.
pub const RESULT_FAILED: &'static str = "无法从服务端获取扫描结果,请检查URL地址及key值";

/// Reported where the backend refuses to hand out remediation text or file content.
pub const DETAIL_FAILED: &'static str = "无法从服务端获取解决方案,请检查URL地址及key值";

/// Reported where the backend says that the scan itself failed.
pub const SCAN_FAILED: &'static str = "检测异常,请查看codepecker运行状态";

/// Reported where the backend names a task state that is not known.
pub const SCAN_UNKNOWN: &'static str = "检测异常,其他未知性错误";

/// An error that ends a run.
#[derive(Debug, Clone, PartialEq, Eq)]
pub enum CodepeckerError {
    /// The outbound proxy could not be set up.
    ProxyBuildError,
    /// The HTTP client could not be set up.
    ClientBuildError,
    /// The archive could not be made into an upload.
    FileUploadError,
    /// The endpoint with this URL could not be reached.
    UnableToConnect(String),
    /// The backend's answer was not JSON.
    UnableToParseJson,
    /// The body of a refusal could not be read.
    UnableToGetText,
    /// The backend, or this client in its place, reports a failure in words.
    CustomInvalidInfo(String),
    /// The backend reported success and left out what was asked for.
    MalformedResponse,
    /// The report could not be written out.
    ReportError,
    /// A parameter that the run needs was not given.
    ParamMissing,
}

/// The content of a [`CodepeckerError`].
pub enum Failure {
    ProxyBuildError,
    ClientBuildError,
    FileUploadError,
    UnableToConnect(Seq<char>),
    UnableToParseJson,
    UnableToGetText,
    CustomInvalidInfo(Seq<char>),
    MalformedResponse,
    ReportError,
    ParamMissing,
}

impl View for CodepeckerError {
    type V = Failure;

    open spec fn view(&self) -> Failure {
        match self {
            CodepeckerError::ProxyBuildError => Failure::ProxyBuildError,
            CodepeckerError::ClientBuildError => Failure::ClientBuildError,
            CodepeckerError::FileUploadError => Failure::FileUploadError,
            CodepeckerError::UnableToConnect(url) => Failure::UnableToConnect(url@),
            CodepeckerError::UnableToParseJson => Failure::UnableToParseJson,
            CodepeckerError::UnableToGetText => Failure::UnableToGetText,
            CodepeckerError::CustomInvalidInfo(words) => Failure::CustomInvalidInfo(words@),
            CodepeckerError::MalformedResponse => Failure::MalformedResponse,
            CodepeckerError::ReportError => Failure::ReportError,
            CodepeckerError::ParamMissing => Failure::ParamMissing,
        }
    }
}

impl Failure {
    /// The failure in words, for the operator.
    pub open spec fn words(self) -> Seq<char> {
        match self {
            Failure::ProxyBuildError => "unable to set up the proxy"@,
            Failure::ClientBuildError => "unable to set up the HTTP client"@,
            Failure::FileUploadError => "unable to prepare the archive for upload"@,
            Failure::UnableToConnect(url) => "unable to connect to "@ + url,
            Failure::UnableToParseJson => "unable to parse the answer as JSON"@,
            Failure::UnableToGetText => "unable to read the answer"@,
            Failure::CustomInvalidInfo(words) => words,
            Failure::MalformedResponse => "the backend reported success without a result"@,
            Failure::ReportError => "unable to write the report"@,
            Failure::ParamMissing => "a required parameter is missing"@,
        }
    }
}

impl CodepeckerError {
    /// The failure in words, for the operator.
    pub fn message(&self) -> (r: String)
        ensures
            r@ == self@.words(),
    {
        match self {
            CodepeckerError::ProxyBuildError => "unable to set up the proxy".to_owned(),
            CodepeckerError::ClientBuildError => "unable to set up the HTTP client".to_owned(),
            CodepeckerError::FileUploadError => "unable to prepare the archive for upload"
                .to_owned(),
            CodepeckerError::UnableToConnect(url) => "unable to connect to ".to_owned().concat(
                url.as_str(),
            ),
            CodepeckerError::UnableToParseJson => "unable to parse the answer as JSON".to_owned(),
            CodepeckerError::UnableToGetText => "unable to read the answer".to_owned(),
            CodepeckerError::CustomInvalidInfo(words) => words.clone(),
            CodepeckerError::MalformedResponse => "the backend reported success without a result"
                .to_owned(),
            CodepeckerError::ReportError => "unable to write the report".to_owned(),
            CodepeckerError::ParamMissing => "a required parameter is missing".to_owned(),
        }
    }

    /// A failure in words that this client supplies.
    pub fn said(words: &str) -> (r: CodepeckerError)
        ensures
            r@ == Failure::CustomInvalidInfo(words@),
    {
        CodepeckerError::CustomInvalidInfo(words.to_owned())
    }

    /// The endpoint `url` could not be reached.
    pub fn unreachable(url: &str) -> (r: CodepeckerError)
        ensures
            r@ == Failure::UnableToConnect(url@),
    {
        CodepeckerError::UnableToConnect(url.to_owned())
    }
}

} // verus!
