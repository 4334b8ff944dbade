//! The pipeline: a cursor over the planned steps of a run.
//!
//! The cursor moves forward by one step each time the caller reports that
//! the pending action went well, and never back. The first failure ends the
//! run: nothing is retried, nothing further is asked for, and what the
//! failed run left on disk stays there for inspection.

use crate::error::{
    reported_error,
    Failure,
    FailureKind,
    FailureView,
    VideoConversionError,
    VideoConversionErrorView,
};
use crate::lifecycle::mark_consumed;
use crate::paths::{
    audio_path,
    normalized_video_path,
    plan,
    planned_paths,
    raw_video_path,
    ArtifactPath,
    Role,
};
use crate::protocol::{Action, ActionView, Event, EventView, Stage};
use crate::request::{OutputKind, Request, RequestView};
use crate::stage::{Operation, OperationView, StageOutcome};
use vstd::prelude::*;

verus! {

/// Why and where a run ended early.
#[derive(Debug, PartialEq, Eq)]
pub struct Abort {
    pub stage: Stage,
    pub reason: Failure,
}

/// An `Abort` as a mathematical value.
pub ghost struct AbortView {
    pub stage: Stage,
    pub reason: FailureView,
}

impl View for Abort {
    type V = AbortView;

    open spec fn view(&self) -> AbortView {
        AbortView { stage: self.stage, reason: self.reason@ }
    }
}

impl Clone for Abort {
    fn clone(&self) -> (copy: Self)
        ensures
            copy@ == self@,
    {
        Abort { stage: self.stage, reason: self.reason.clone() }
    }
}

/// Where a run stands.
#[derive(Debug, PartialEq, Eq)]
pub enum State {
    /// The run is in this stage and waits for the answer to its pending
    /// action.
    Active(Stage),
    /// Every step succeeded; only final files are left.
    Completed,
    /// The run ended at the first failure.
    Aborted(Abort),
}

/// A `State` as a mathematical value.
pub ghost enum StateView {
    Active(Stage),
    Completed,
    Aborted(AbortView),
}

impl View for State {
    type V = StateView;

    open spec fn view(&self) -> StateView {
        match *self {
            State::Active(stage) => StateView::Active(stage),
            State::Completed => StateView::Completed,
            State::Aborted(abort) => StateView::Aborted(abort@),
        }
    }
}

/// The steps of a run, in order. A video run makes the directory,
/// downloads the raw video, makes sure that it is there, re-encodes it, and
/// deletes the raw video. An audio run makes the directory and downloads
/// the audio straight to its final place.
pub open spec fn script(request: RequestView) -> Seq<ActionView> {
    let directory = request.output_directory;
    let raw = raw_video_path(directory, request.base_name);
    let normalized = normalized_video_path(directory, request.base_name);
    let audio = audio_path(directory, request.base_name);
    match request.output_kind {
        OutputKind::VideoOnly => seq![
            ActionView::CreateDirectory { path: directory },
            ActionView::Run {
                operation: OperationView::DownloadVideo { url: request.source_url, output: raw },
            },
            ActionView::RequireArtifact { path: raw },
            ActionView::Run {
                operation: OperationView::NormalizeVideo { input: raw, output: normalized },
            },
            ActionView::Delete { path: raw },
        ],
        OutputKind::AudioOnly => seq![
            ActionView::CreateDirectory { path: directory },
            ActionView::Run {
                operation: OperationView::DownloadAudio { url: request.source_url, output: audio },
            },
        ],
    }
}

/// A `Pipeline` as a mathematical value: the request, its steps, how many
/// of them have succeeded, and the failure that ended the run, if one did.
pub ghost struct PipelineView {
    pub request: RequestView,
    pub steps: Seq<ActionView>,
    pub cursor: int,
    pub abort: Option<AbortView>,
}

impl PipelineView {
    /// The pipeline of a request before anything has happened.
    pub open spec fn start(request: RequestView) -> PipelineView {
        PipelineView { request, steps: script(request), cursor: 0, abort: None }
    }

    /// The request is valid and the steps are its script; the cursor
    /// points at a step or just behind the last one; and a run that was
    /// aborted was aborted at the step under the cursor, in that step's
    /// stage.
    pub open spec fn well_formed(self) -> bool {
        &&& self.request.valid()
        &&& self.steps == script(self.request)
        &&& 0 <= self.cursor <= self.steps.len()
        &&& self.abort matches Some(abort) ==> self.cursor < self.steps.len() && abort.stage
            == self.steps[self.cursor].stage()
    }

    /// The action that the caller is to carry out next, unless the run is
    /// over.
    pub open spec fn pending(self) -> Option<ActionView> {
        if self.abort is None && 0 <= self.cursor < self.steps.len() {
            Some(self.steps[self.cursor])
        } else {
            None
        }
    }

    /// Where the run stands.
    pub open spec fn state(self) -> StateView {
        match self.abort {
            Some(abort) => StateView::Aborted(abort),
            None => match self.pending() {
                Some(action) => StateView::Active(action.stage()),
                None => StateView::Completed,
            },
        }
    }

    /// Whether the run is over, one way or the other.
    pub open spec fn finished(self) -> bool {
        self.pending() is None
    }

    /// Whether the event answers the pending action.
    pub open spec fn accepts(self, event: EventView) -> bool {
        self.pending() matches Some(action) && action.answered_by(event)
    }

    /// The pipeline after an event. An event that answers the pending
    /// action moves the cursor one step on where the action went well, and
    /// ends the run in the action's stage where it did not. Any other
    /// event, and any event once the run is over, changes nothing.
    pub open spec fn after(self, event: EventView) -> PipelineView {
        match self.pending() {
            Some(action) => if action.answered_by(event) {
                match action.verdict(event) {
                    None => PipelineView { cursor: self.cursor + 1, ..self },
                    Some(reason) => PipelineView {
                        abort: Some(AbortView { stage: action.stage(), reason }),
                        ..self
                    },
                }
            } else {
                self
            },
            None => self,
        }
    }

    /// The pipeline after a sequence of events, first to last.
    pub open spec fn after_all(self, events: Seq<EventView>) -> PipelineView
        decreases events.len(),
    {
        if events.len() == 0 {
            self
        } else {
            self.after(events.first()).after_all(events.drop_first())
        }
    }

    /// What the caller of the run is told once it is over: nothing on
    /// completion, the reported error of the failure otherwise.
    pub open spec fn result(self) -> Option<Result<(), VideoConversionErrorView>> {
        match self.state() {
            StateView::Active(_) => None,
            StateView::Completed => Some(Ok(())),
            StateView::Aborted(abort) => Some(Err(reported_error(abort.reason))),
        }
    }
}

/// The orchestrator of one run. It owns the request for as long as the
/// run lasts.
#[derive(Debug, PartialEq, Eq)]
pub struct Pipeline {
    request: Request,
    steps: Vec<Action>,
    cursor: usize,
    abort: Option<Abort>,
}

impl View for Pipeline {
    type V = PipelineView;

    closed spec fn view(&self) -> PipelineView {
        PipelineView {
            request: self.request@,
            steps: self.steps@.map_values(|action: Action| action@),
            cursor: self.cursor as int,
            abort: match self.abort {
                Some(abort) => Some(abort@),
                None => None,
            },
        }
    }
}

/// Lays out the steps of a request.
fn lay_out(request: &Request) -> (steps: Vec<Action>)
    ensures
        steps@.map_values(|action: Action| action@) == script(request@),
{
    let mut steps: Vec<Action> = Vec::new();
    steps.push(Action::CreateDirectory { path: String::from_str(request.output_directory()) });
    proof {
        use_type_invariant(request);
    }
    let kind = request.output_kind();
    match plan(request.base_name(), request.output_directory(), kind) {
        Ok(paths) => {
            let ghost planned = paths@.map_values(|artifact: ArtifactPath| artifact@);
            assert(planned.len() == paths.len());
            match kind {
                OutputKind::VideoOnly => {
                    let raw = &paths[0];
                    let normalized = &paths[1];
                    assert(raw@ == planned[0] && normalized@ == planned[1]);
                    steps.push(
                        Action::Run {
                            operation: Operation::DownloadVideo {
                                url: String::from_str(request.source_url()),
                                output: String::from_str(raw.path()),
                            },
                        },
                    );
                    steps.push(Action::RequireArtifact { path: String::from_str(raw.path()) });
                    steps.push(
                        Action::Run {
                            operation: Operation::NormalizeVideo {
                                input: String::from_str(raw.path()),
                                output: String::from_str(normalized.path()),
                            },
                        },
                    );
                    steps.push(mark_consumed(raw));
                },
                OutputKind::AudioOnly => {
                    let audio = &paths[0];
                    assert(audio@ == planned[0]);
                    steps.push(
                        Action::Run {
                            operation: Operation::DownloadAudio {
                                url: String::from_str(request.source_url()),
                                output: String::from_str(audio.path()),
                            },
                        },
                    );
                },
            }
        },
        Err(_) => {
            assert(false);
        },
    }
    assert(steps@.map_values(|action: Action| action@) =~= script(request@));
    steps
}

/// Decides whether the run ends at `action`, given the event that answers
/// it.
fn judge(action: &Action, event: Event) -> (failure: Option<Failure>)
    ensures
        match failure {
            Some(reason) => action@.verdict(event@) == Some(reason@),
            None => action@.verdict(event@) is None,
        },
{
    match event {
        Event::DirectoryCreated => None,
        Event::DirectoryUnavailable { cause } => Some(
            Failure { kind: FailureKind::ConfigurationError, detail: cause },
        ),
        Event::StageFinished { outcome } => match outcome {
            StageOutcome::Success => None,
            StageOutcome::Failure(failure) => Some(failure),
        },
        Event::ArtifactChecked { exists } => {
            if exists {
                None
            } else {
                Some(
                    Failure {
                        kind: FailureKind::MissingArtifact,
                        detail: String::from_str(action.target()),
                    },
                )
            }
        },
        Event::Deleted => None,
        Event::DeleteFailed { cause } => Some(
            Failure { kind: FailureKind::CleanupError, detail: cause },
        ),
    }
}

impl Pipeline {
    #[verifier::type_invariant]
    pub open spec fn well_formed(self) -> bool {
        self@.well_formed()
    }

    /// The pipeline of a request, before its first step. The first thing
    /// it asks for is the output directory.
    pub fn new(request: Request) -> (pipeline: Pipeline)
        ensures
            pipeline@ == PipelineView::start(request@),
    {
        proof {
            use_type_invariant(&request);
        }
        let steps = lay_out(&request);
        Pipeline { request, steps, cursor: 0, abort: None }
    }

    /// The request that this run serves.
    pub fn request(&self) -> (request: &Request)
        ensures
            request@ == self@.request,
    {
        &self.request
    }

    /// The action that the caller is to carry out next; `None` once the
    /// run is over.
    pub fn pending(&self) -> (action: Option<&Action>)
        ensures
            match action {
                Some(action) => self@.pending() == Some(action@),
                None => self@.pending() is None,
            },
    {
        proof {
            use_type_invariant(self);
        }
        if self.abort.is_none() && self.cursor < self.steps.len() {
            Some(&self.steps[self.cursor])
        } else {
            None
        }
    }

    /// Whether the run is over, one way or the other.
    pub fn is_finished(&self) -> (finished: bool)
        ensures
            finished == self@.finished(),
    {
        self.pending().is_none()
    }

    /// Where the run stands.
    pub fn state(&self) -> (state: State)
        ensures
            state@ == self@.state(),
    {
        match &self.abort {
            Some(abort) => State::Aborted(abort.clone()),
            None => match self.pending() {
                Some(action) => State::Active(action.stage()),
                None => State::Completed,
            },
        }
    }

    /// Whether the event answers the pending action.
    pub fn accepts(&self, event: &Event) -> (accepted: bool)
        ensures
            accepted == self@.accepts(event@),
    {
        match self.pending() {
            Some(action) => action.answered_by(event),
            None => false,
        }
    }

    /// Takes in what happened and says what to do next: the next action,
    /// or `None` when the run is over.
    pub fn advance(&mut self, event: Event) -> (next: Option<Action>)
        ensures
            final(self)@ == old(self)@.after(event@),
            match next {
                Some(action) => final(self)@.pending() == Some(action@),
                None => final(self)@.pending() is None,
            },
    {
        proof {
            use_type_invariant(&*self);
        }
        if self.accepts(&event) {
            assert(self.cursor < self.steps.len());
            let stage = self.steps[self.cursor].stage();
            match judge(&self.steps[self.cursor], event) {
                None => {
                    self.cursor = self.cursor + 1;
                },
                Some(reason) => {
                    self.abort = Some(Abort { stage, reason });
                },
            }
        }
        match self.pending() {
            Some(action) => Some(action.clone()),
            None => None,
        }
    }

    /// What the caller of the run is told once it is over; `None` while
    /// the run is still under way.
    pub fn result(&self) -> (result: Option<Result<(), VideoConversionError>>)
        ensures
            match result {
                None => self@.result() is None,
                Some(Ok(_)) => self@.result() == Some(Ok::<(), VideoConversionErrorView>(())),
                Some(Err(error)) => self@.result() == Some(
                    Err::<(), VideoConversionErrorView>(error@),
                ),
            },
    {
        match &self.abort {
            Some(abort) => Some(Err(abort.reason.to_error())),
            None => match self.pending() {
                Some(_) => None,
                None => Some(Ok(())),
            },
        }
    }
}

/// The cursor only moves forward, by one step at most, and the steps
/// themselves never change: no stage is taken up a second time.
pub proof fn cursor_only_moves_forward(pipeline: PipelineView, event: EventView)
    requires
        pipeline.well_formed(),
    ensures
        pipeline.after(event).well_formed(),
        pipeline.after(event).request == pipeline.request,
        pipeline.after(event).steps == pipeline.steps,
        pipeline.cursor <= pipeline.after(event).cursor <= pipeline.cursor + 1,
        pipeline.after(event).cursor == pipeline.cursor + 1 <==> pipeline.accepts(event)
            && pipeline.pending()->0.verdict(event) is None,
{
}

/// A run that is over stays as it is: once completed or aborted, no event
/// changes the state, and no further action is asked for.
pub proof fn finished_run_is_final(pipeline: PipelineView, events: Seq<EventView>)
    requires
        pipeline.finished(),
    ensures
        pipeline.after_all(events) == pipeline,
        pipeline.after_all(events).pending() is None,
    decreases events.len(),
{
    if events.len() > 0 {
        finished_run_is_final(pipeline, events.drop_first());
    }
}

/// The first failure ends the run at once: an event that answers the
/// pending action with a failure aborts the run in that action's stage,
/// with that failure, and nothing is asked for afterwards.
pub proof fn first_failure_aborts(pipeline: PipelineView, event: EventView)
    requires
        pipeline.accepts(event),
        pipeline.pending()->0.verdict(event) is Some,
    ensures
        pipeline.after(event).state() == StateView::Aborted(
            AbortView {
                stage: pipeline.pending()->0.stage(),
                reason: pipeline.pending()->0.verdict(event)->0,
            },
        ),
        pipeline.after(event).finished(),
        pipeline.after(event).cursor == pipeline.cursor,
{
}

/// A run is completed exactly when no failure has ended it and every one
/// of its steps has succeeded.
pub proof fn completed_means_every_step_succeeded(pipeline: PipelineView)
    requires
        pipeline.well_formed(),
    ensures
        pipeline.state() == StateView::Completed <==> pipeline.abort is None && pipeline.cursor
            == pipeline.steps.len(),
{
}

/// The only file that a run ever asks to delete is the raw video, which is
/// intermediate, and it asks so directly after the step that re-encodes
/// that very file. An audio run asks for no deletion.
pub proof fn deletion_follows_the_consumer(request: RequestView, index: int)
    requires
        0 <= index < script(request).len(),
        script(request)[index] is Delete,
    ensures
        request.output_kind == OutputKind::VideoOnly,
        script(request)[index]->Delete_path == raw_video_path(
            request.output_directory,
            request.base_name,
        ),
        script(request)[index]->Delete_path == planned_paths(
            request.output_directory,
            request.base_name,
            request.output_kind,
        )[0].path,
        planned_paths(request.output_directory, request.base_name, request.output_kind)[0].role
            == Role::Intermediate,
        index >= 1,
        script(request)[index - 1] matches ActionView::Run { operation } && operation.input()
            == Some(script(request)[index]->Delete_path),
{
}

} // verus!
