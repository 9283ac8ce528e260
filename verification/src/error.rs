//! Error types for seavan.

use vstd::prelude::*;

verus! {

/// `std::io::Error`, which is carried to the caller and never looked into.
#[verifier::external_type_specification]
#[verifier::external_body]
pub struct ExIoError(std::io::Error);

/// Types of error for seavan.
#[derive(Debug)]
pub enum SeavanError {
    /// The given path has no filename. Check whether the path is correct.
    NoFileName(String),
    /// The given path has no directory. Check whether the path is correct.
    NoDirectory(String),
    /// A string conversion operation failed.
    FailedStrConversion,
    /// The registry begins with the prefix that is not accepted.
    BannedRegistryPrefix,
    /// There was a failure while calling Docker to build the image.
    DockerBuildFailure(String),
    /// Standard io error.
    IoError(std::io::Error),
}

/// Result wrapper for `SeavanError`.
pub type SeavanResult<T> = Result<T, SeavanError>;

/// A `SeavanError` with its texts as sequences of characters.
pub enum SeavanErrorView {
    NoFileName(Seq<char>),
    NoDirectory(Seq<char>),
    FailedStrConversion,
    BannedRegistryPrefix,
    DockerBuildFailure(Seq<char>),
    IoError(std::io::Error),
}

impl View for SeavanError {
    type V = SeavanErrorView;

    open spec fn view(&self) -> SeavanErrorView {
        match self {
            SeavanError::NoFileName(path) => SeavanErrorView::NoFileName(path@),
            SeavanError::NoDirectory(path) => SeavanErrorView::NoDirectory(path@),
            SeavanError::FailedStrConversion => SeavanErrorView::FailedStrConversion,
            SeavanError::BannedRegistryPrefix => SeavanErrorView::BannedRegistryPrefix,
            SeavanError::DockerBuildFailure(text) => SeavanErrorView::DockerBuildFailure(text@),
            SeavanError::IoError(cause) => SeavanErrorView::IoError(*cause),
        }
    }
}

/// A result with what it holds, value or error, taken by its view.
pub open spec fn result_view<T: View>(result: SeavanResult<T>) -> Result<T::V, SeavanErrorView> {
    match result {
        Ok(value) => Ok(value@),
        Err(error) => Err(error@),
    }
}

/// The message of an error.
pub open spec fn message_of(error: SeavanErrorView) -> Seq<char> {
    match error {
        SeavanErrorView::NoFileName(path) => "\""@ + path + "\" has no filename"@,
        SeavanErrorView::NoDirectory(path) => "\""@ + path + "\" has no directory"@,
        SeavanErrorView::FailedStrConversion => "Failed string conversion"@,
        SeavanErrorView::BannedRegistryPrefix => "Banned registry prefix"@,
        SeavanErrorView::DockerBuildFailure(text) => "Docker build failure: "@ + text,
        SeavanErrorView::IoError(_) => "io error"@,
    }
}

impl SeavanError {
    /// The message of this error, for a person to read.
    pub fn message(&self) -> (text: String)
        ensures
            text@ == message_of(self@),
    {
        match self {
            SeavanError::NoFileName(path) => {
                let mut text = "\"".to_owned();
                text.append(path.as_str());
                text.append("\" has no filename");
                text
            },
            SeavanError::NoDirectory(path) => {
                let mut text = "\"".to_owned();
                text.append(path.as_str());
                text.append("\" has no directory");
                text
            },
            SeavanError::FailedStrConversion => "Failed string conversion".to_owned(),
            SeavanError::BannedRegistryPrefix => "Banned registry prefix".to_owned(),
            SeavanError::DockerBuildFailure(text) => {
                let mut message = "Docker build failure: ".to_owned();
                message.append(text.as_str());
                message
            },
            SeavanError::IoError(_) => "io error".to_owned(),
        }
    }
}

} // verus!
