use codepecker::error::{CodepeckerError, SCAN_FAILED};

#[test]
fn failures_are_put_in_words() {
    assert_eq!(CodepeckerError::ProxyBuildError.message(), "unable to set up the proxy");
    assert_eq!(CodepeckerError::ClientBuildError.message(), "unable to set up the HTTP client");
    assert_eq!(CodepeckerError::FileUploadError.message(), "unable to prepare the archive for upload");
    assert_eq!(
        CodepeckerError::UnableToConnect("http://x/y".to_string()).message(),
        "unable to connect to http://x/y"
    );
    assert_eq!(CodepeckerError::UnableToParseJson.message(), "unable to parse the answer as JSON");
    assert_eq!(CodepeckerError::UnableToGetText.message(), "unable to read the answer");
    assert_eq!(CodepeckerError::CustomInvalidInfo("quota exceeded".to_string()).message(), "quota exceeded");
    assert_eq!(
        CodepeckerError::MalformedResponse.message(),
        "the backend reported success without a result"
    );
    assert_eq!(CodepeckerError::ReportError.message(), "unable to write the report");
    assert_eq!(CodepeckerError::ParamMissing.message(), "a required parameter is missing");
}

#[test]
fn failures_are_made_from_words() {
    assert_eq!(CodepeckerError::said(SCAN_FAILED), CodepeckerError::CustomInvalidInfo(SCAN_FAILED.to_string()));
    assert_eq!(
        CodepeckerError::unreachable("http://x/"),
        CodepeckerError::UnableToConnect("http://x/".to_string())
    );
}
