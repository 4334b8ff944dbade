//! What can go wrong in a run, and how it is reported upward.

use crate::text::join;
use vstd::prelude::*;

verus! {

/// The kinds of failure that end a run. None is retried.
#[derive(Clone, Copy, Debug, PartialEq, Eq, Structural)]
pub enum FailureKind {
    /// The request is malformed, or its output directory cannot be had.
    ConfigurationError,
    /// An external tool could not be started at all.
    LaunchError,
    /// An external tool ran and reported failure.
    ExecutionError,
    /// A file that a stage should have produced is absent.
    MissingArtifact,
    /// An intermediate file could not be deleted.
    CleanupError,
}

/// A failure: its kind, and the cause in words (for `MissingArtifact`, the
/// path that is absent).
#[derive(Debug, PartialEq, Eq)]
pub struct Failure {
    pub kind: FailureKind,
    pub detail: String,
}

/// A `Failure` as a mathematical value.
pub ghost struct FailureView {
    pub kind: FailureKind,
    pub detail: Seq<char>,
}

impl View for Failure {
    type V = FailureView;

    open spec fn view(&self) -> FailureView {
        FailureView { kind: self.kind, detail: self.detail@ }
    }
}

impl Clone for Failure {
    fn clone(&self) -> (copy: Self)
        ensures
            copy@ == self@,
    {
        Failure { kind: self.kind, detail: self.detail.clone() }
    }
}

/// The error handed to the caller of a run.
#[derive(Debug, PartialEq, Eq)]
pub enum VideoConversionError {
    /// A command, or a filesystem operation around it, failed.
    CommandError(String),
    /// A file that should exist does not.
    FileNotFound(String),
}

/// A `VideoConversionError` as a mathematical value.
pub ghost enum VideoConversionErrorView {
    CommandError(Seq<char>),
    FileNotFound(Seq<char>),
}

impl View for VideoConversionError {
    type V = VideoConversionErrorView;

    open spec fn view(&self) -> VideoConversionErrorView {
        match *self {
            VideoConversionError::CommandError(detail) => VideoConversionErrorView::CommandError(
                detail@,
            ),
            VideoConversionError::FileNotFound(path) => VideoConversionErrorView::FileNotFound(
                path@,
            ),
        }
    }
}

/// The text of an error, as shown to the user.
pub open spec fn message_text(error: VideoConversionErrorView) -> Seq<char> {
    match error {
        VideoConversionErrorView::CommandError(detail) => "Failed to execute command: "@ + detail,
        VideoConversionErrorView::FileNotFound(path) => "File not found: "@ + path,
    }
}

/// The error that reports a failure: a missing artifact is a file not
/// found, naming the path; a failed deletion is a command error that says
/// so; any other failure is a command error with the failure's own detail.
pub open spec fn reported_error(failure: FailureView) -> VideoConversionErrorView {
    match failure.kind {
        FailureKind::MissingArtifact => VideoConversionErrorView::FileNotFound(failure.detail),
        FailureKind::CleanupError => VideoConversionErrorView::CommandError(
            "Failed to delete file: "@ + failure.detail,
        ),
        _ => VideoConversionErrorView::CommandError(failure.detail),
    }
}

impl VideoConversionError {
    /// The message for the user.
    pub fn message(&self) -> (text: String)
        ensures
            text@ == message_text(self@),
    {
        match self {
            VideoConversionError::CommandError(detail) => join(
                "Failed to execute command: ",
                detail.as_str(),
            ),
            VideoConversionError::FileNotFound(path) => join("File not found: ", path.as_str()),
        }
    }
}

impl Failure {
    /// The error under which this failure is reported to the caller.
    pub fn to_error(&self) -> (error: VideoConversionError)
        ensures
            error@ == reported_error(self@),
    {
        match self.kind {
            FailureKind::MissingArtifact => VideoConversionError::FileNotFound(self.detail.clone()),
            FailureKind::CleanupError => VideoConversionError::CommandError(
                join("Failed to delete file: ", self.detail.as_str()),
            ),
            _ => VideoConversionError::CommandError(self.detail.clone()),
        }
    }
}

} // verus!
