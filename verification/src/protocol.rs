//! What the pipeline asks of its caller, and what the caller reports back.
//!
//! The pipeline performs nothing itself. It hands out one `Action` at a
//! time; the caller carries it out and answers with the matching `Event`.

use crate::error::{FailureKind, FailureView};
use crate::stage::{Operation, OperationView, StageOutcome, StageOutcomeView};
use vstd::prelude::*;

verus! {

/// The stages of a run, in the order in which a run passes through them.
#[derive(Clone, Copy, Debug, PartialEq, Eq, Structural)]
pub enum Stage {
    /// The output directory is being made ready.
    Planning,
    /// The media is being fetched.
    Downloading,
    /// The fetched video is being checked and re-encoded.
    Transcoding,
    /// Audio is being taken out of a video file.
    Extracting,
    /// Intermediate files are being deleted.
    Cleanup,
}

/// One thing for the caller to do.
#[derive(Debug, PartialEq, Eq)]
pub enum Action {
    /// Create the directory and any missing parents; an existing directory
    /// is no error.
    CreateDirectory { path: String },
    /// Run the external operation.
    Run { operation: Operation },
    /// Look whether the file exists.
    RequireArtifact { path: String },
    /// Delete the file.
    Delete { path: String },
}

/// An `Action` as a mathematical value.
pub ghost enum ActionView {
    CreateDirectory { path: Seq<char> },
    Run { operation: OperationView },
    RequireArtifact { path: Seq<char> },
    Delete { path: Seq<char> },
}

impl View for Action {
    type V = ActionView;

    open spec fn view(&self) -> ActionView {
        match *self {
            Action::CreateDirectory { path } => ActionView::CreateDirectory { path: path@ },
            Action::Run { operation } => ActionView::Run { operation: operation@ },
            Action::RequireArtifact { path } => ActionView::RequireArtifact { path: path@ },
            Action::Delete { path } => ActionView::Delete { path: path@ },
        }
    }
}

impl Clone for Action {
    fn clone(&self) -> (copy: Self)
        ensures
            copy@ == self@,
    {
        match self {
            Action::CreateDirectory { path } => Action::CreateDirectory { path: path.clone() },
            Action::Run { operation } => Action::Run { operation: operation.clone() },
            Action::RequireArtifact { path } => Action::RequireArtifact { path: path.clone() },
            Action::Delete { path } => Action::Delete { path: path.clone() },
        }
    }
}

/// What happened when the caller carried an action out.
#[derive(Debug, PartialEq, Eq)]
pub enum Event {
    /// The directory is there.
    DirectoryCreated,
    /// The directory could not be created.
    DirectoryUnavailable { cause: String },
    /// The external operation ended.
    StageFinished { outcome: StageOutcome },
    /// The file was looked for.
    ArtifactChecked { exists: bool },
    /// The file is gone.
    Deleted,
    /// The file could not be deleted.
    DeleteFailed { cause: String },
}

/// An `Event` as a mathematical value.
pub ghost enum EventView {
    DirectoryCreated,
    DirectoryUnavailable { cause: Seq<char> },
    StageFinished { outcome: StageOutcomeView },
    ArtifactChecked { exists: bool },
    Deleted,
    DeleteFailed { cause: Seq<char> },
}

impl View for Event {
    type V = EventView;

    open spec fn view(&self) -> EventView {
        match *self {
            Event::DirectoryCreated => EventView::DirectoryCreated,
            Event::DirectoryUnavailable { cause } => EventView::DirectoryUnavailable {
                cause: cause@,
            },
            Event::StageFinished { outcome } => EventView::StageFinished { outcome: outcome@ },
            Event::ArtifactChecked { exists } => EventView::ArtifactChecked { exists },
            Event::Deleted => EventView::Deleted,
            Event::DeleteFailed { cause } => EventView::DeleteFailed { cause: cause@ },
        }
    }
}

impl OperationView {
    /// The stage that the operation belongs to.
    pub open spec fn stage(self) -> Stage {
        match self {
            OperationView::DownloadVideo { .. } => Stage::Downloading,
            OperationView::DownloadAudio { .. } => Stage::Downloading,
            OperationView::NormalizeVideo { .. } => Stage::Transcoding,
            OperationView::ExtractAudio { .. } => Stage::Extracting,
        }
    }
}

impl ActionView {
    /// The stage during which the action is carried out. A file is looked
    /// for on behalf of the stage that is about to consume it, which in
    /// every run is transcoding.
    pub open spec fn stage(self) -> Stage {
        match self {
            ActionView::CreateDirectory { .. } => Stage::Planning,
            ActionView::Run { operation } => operation.stage(),
            ActionView::RequireArtifact { .. } => Stage::Transcoding,
            ActionView::Delete { .. } => Stage::Cleanup,
        }
    }

    /// Whether the event is an answer to this action.
    pub open spec fn answered_by(self, event: EventView) -> bool {
        match self {
            ActionView::CreateDirectory { .. } => event is DirectoryCreated
                || event is DirectoryUnavailable,
            ActionView::Run { .. } => event is StageFinished,
            ActionView::RequireArtifact { .. } => event is ArtifactChecked,
            ActionView::Delete { .. } => event is Deleted || event is DeleteFailed,
        }
    }

    /// Why the run ends at this action, given an event that answers it; or
    /// `None` where the action went well. A directory that cannot be
    /// created is a configuration error; a failed stage fails the run with
    /// its own failure; an absent file is a missing artifact, named by its
    /// path; a failed deletion is a cleanup error.
    pub open spec fn verdict(self, event: EventView) -> Option<FailureView> {
        match event {
            EventView::DirectoryCreated => None,
            EventView::DirectoryUnavailable { cause } => Some(
                FailureView { kind: FailureKind::ConfigurationError, detail: cause },
            ),
            EventView::StageFinished { outcome } => match outcome {
                StageOutcomeView::Success => None,
                StageOutcomeView::Failure(failure) => Some(failure),
            },
            EventView::ArtifactChecked { exists } => if exists {
                None
            } else {
                Some(FailureView { kind: FailureKind::MissingArtifact, detail: self.target() })
            },
            EventView::Deleted => None,
            EventView::DeleteFailed { cause } => Some(
                FailureView { kind: FailureKind::CleanupError, detail: cause },
            ),
        }
    }

    /// The path that the action is about: the directory to create, the
    /// file that the operation writes, the file to look for or to delete.
    pub open spec fn target(self) -> Seq<char> {
        match self {
            ActionView::CreateDirectory { path } => path,
            ActionView::Run { operation } => operation.output(),
            ActionView::RequireArtifact { path } => path,
            ActionView::Delete { path } => path,
        }
    }
}

impl Operation {
    /// The stage that the operation belongs to.
    pub fn stage(&self) -> (stage: Stage)
        ensures
            stage == self@.stage(),
    {
        match self {
            Operation::DownloadVideo { .. } => Stage::Downloading,
            Operation::DownloadAudio { .. } => Stage::Downloading,
            Operation::NormalizeVideo { .. } => Stage::Transcoding,
            Operation::ExtractAudio { .. } => Stage::Extracting,
        }
    }
}

impl Action {
    /// The stage during which the action is carried out.
    pub fn stage(&self) -> (stage: Stage)
        ensures
            stage == self@.stage(),
    {
        match self {
            Action::CreateDirectory { .. } => Stage::Planning,
            Action::Run { operation } => operation.stage(),
            Action::RequireArtifact { .. } => Stage::Transcoding,
            Action::Delete { .. } => Stage::Cleanup,
        }
    }

    /// The path that the action is about.
    pub fn target(&self) -> (path: &str)
        ensures
            path@ == self@.target(),
    {
        match self {
            Action::CreateDirectory { path } => path.as_str(),
            Action::Run { operation } => operation.output(),
            Action::RequireArtifact { path } => path.as_str(),
            Action::Delete { path } => path.as_str(),
        }
    }

    /// Whether the event is an answer to this action.
    pub fn answered_by(&self, event: &Event) -> (answered: bool)
        ensures
            answered == self@.answered_by(event@),
    {
        match self {
            Action::CreateDirectory { .. } => match event {
                Event::DirectoryCreated => true,
                Event::DirectoryUnavailable { .. } => true,
                _ => false,
            },
            Action::Run { .. } => match event {
                Event::StageFinished { .. } => true,
                _ => false,
            },
            Action::RequireArtifact { .. } => match event {
                Event::ArtifactChecked { .. } => true,
                _ => false,
            },
            Action::Delete { .. } => match event {
                Event::Deleted => true,
                Event::DeleteFailed { .. } => true,
                _ => false,
            },
        }
    }
}

} // verus!
