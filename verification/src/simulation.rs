//! A run against a simulated executor, and what it leaves on disk.
//!
//! Nothing here is executable. A stub stands for the caller: it says, for
//! each action, whether the action goes well, and a set of paths stands for
//! the files that exist. The theorems say what a run leaves behind when the
//! external tools behave in a given way.

use crate::error::{FailureKind, FailureView};
use crate::paths::{
    audio_path,
    normalized_video_path,
    paths_carry_their_extension,
    planned_paths,
    raw_video_path,
    video_paths_differ,
    Role,
};
use crate::pipeline::{script, AbortView, PipelineView, StateView};
use crate::protocol::{ActionView, EventView, Stage};
use crate::request::{OutputKind, RequestView};
use crate::stage::StageOutcomeView;
use crate::text::ends_with;
use vstd::prelude::*;

verus! {

/// How a simulated executor deals with one action.
pub ghost enum Behaviour {
    /// It does what is asked and says so.
    Succeeds,
    /// It says that all went well, and has done nothing.
    Pretends,
    /// It does nothing and reports this failure.
    Fails(FailureView),
}

/// Carries one action out on the files that exist: the event that the
/// caller reports, and the files that exist afterwards. A stage that
/// succeeds leaves its output file; a deletion that succeeds removes the
/// file; a look at a file tells the truth whatever the behaviour; nothing
/// else changes a file.
pub open spec fn perform(action: ActionView, behaviour: Behaviour, files: Set<Seq<char>>) -> (
    EventView,
    Set<Seq<char>>,
) {
    match action {
        ActionView::CreateDirectory { .. } => match behaviour {
            Behaviour::Fails(failure) => (
                EventView::DirectoryUnavailable { cause: failure.detail },
                files,
            ),
            _ => (EventView::DirectoryCreated, files),
        },
        ActionView::Run { operation } => match behaviour {
            Behaviour::Succeeds => (
                EventView::StageFinished { outcome: StageOutcomeView::Success },
                files.insert(operation.output()),
            ),
            Behaviour::Pretends => (
                EventView::StageFinished { outcome: StageOutcomeView::Success },
                files,
            ),
            Behaviour::Fails(failure) => (
                EventView::StageFinished { outcome: StageOutcomeView::Failure(failure) },
                files,
            ),
        },
        ActionView::RequireArtifact { path } => (
            EventView::ArtifactChecked { exists: files.contains(path) },
            files,
        ),
        ActionView::Delete { path } => match behaviour {
            Behaviour::Succeeds => (EventView::Deleted, files.remove(path)),
            Behaviour::Pretends => (EventView::Deleted, files),
            Behaviour::Fails(failure) => (EventView::DeleteFailed { cause: failure.detail }, files),
        },
    }
}

/// How a simulated run ended.
pub ghost struct Run {
    /// The pipeline at its end.
    pub pipeline: PipelineView,
    /// The files that exist at the end.
    pub files: Set<Seq<char>>,
    /// The actions that were carried out, in order.
    pub performed: Seq<ActionView>,
}

/// The steps that a pipeline has yet to take.
pub open spec fn remaining(pipeline: PipelineView) -> nat {
    if pipeline.pending() is Some {
        (pipeline.steps.len() - pipeline.cursor) as nat
    } else {
        0
    }
}

/// Runs the pipeline to its end: each pending action is carried out as
/// the stub says, and the resulting event is handed to the pipeline.
pub open spec fn simulate(
    pipeline: PipelineView,
    files: Set<Seq<char>>,
    stub: spec_fn(ActionView) -> Behaviour,
) -> Run
    decreases remaining(pipeline),
{
    match pipeline.pending() {
        None => Run { pipeline, files, performed: Seq::empty() },
        Some(action) => {
            let (event, files_after) = perform(action, stub(action), files);
            let rest = simulate(pipeline.after(event), files_after, stub);
            Run { performed: seq![action] + rest.performed, ..rest }
        },
    }
}

/// The stub under which every action goes well.
pub open spec fn all_succeed() -> spec_fn(ActionView) -> Behaviour {
    |action: ActionView| Behaviour::Succeeds
}

/// A video run in which every action goes well completes after all five
/// steps. Whatever existed before, the raw video is then gone and the
/// compatible video is there; no other file has come or gone.
pub proof fn successful_video_run_leaves_the_final_video(
    request: RequestView,
    files: Set<Seq<char>>,
)
    requires
        request.valid(),
        request.output_kind == OutputKind::VideoOnly,
    ensures
        ({
            let run = simulate(PipelineView::start(request), files, all_succeed());
            let raw = raw_video_path(request.output_directory, request.base_name);
            let normalized = normalized_video_path(request.output_directory, request.base_name);
            &&& run.pipeline.state() == StateView::Completed
            &&& run.performed == script(request)
            &&& !run.files.contains(raw)
            &&& run.files.contains(normalized)
            &&& run.files == files.insert(normalized).remove(raw)
        }),
{
    reveal_with_fuel(simulate, 6);
    video_paths_differ(request.output_directory, request.base_name);
    let run = simulate(PipelineView::start(request), files, all_succeed());
    let raw = raw_video_path(request.output_directory, request.base_name);
    let normalized = normalized_video_path(request.output_directory, request.base_name);
    assert(run.performed =~= script(request));
    assert(run.files =~= files.insert(normalized).remove(raw));
}

/// An audio run, however its actions go, creates no file but the audio
/// file and deletes none; it carries out nothing but the making of the
/// directory and the audio download. Where every action goes well it
/// completes, and the audio file is there.
pub proof fn audio_run_touches_only_the_audio_file(
    request: RequestView,
    files: Set<Seq<char>>,
    stub: spec_fn(ActionView) -> Behaviour,
)
    requires
        request.valid(),
        request.output_kind == OutputKind::AudioOnly,
    ensures
        ({
            let run = simulate(PipelineView::start(request), files, stub);
            let audio = audio_path(request.output_directory, request.base_name);
            &&& run.files == files || run.files == files.insert(audio)
            &&& forall|path: Seq<char>|
                run.files.contains(path) && !files.contains(path) ==> path == audio && ends_with(
                    path,
                    ".mp3"@,
                ) && !ends_with(path, ".mp4"@)
            &&& run.performed == script(request).take(run.performed.len() as int)
            &&& forall|i: int|
                0 <= i < run.performed.len() ==> !((#[trigger] run.performed[i]) is Delete)
                    && !(run.performed[i] is RequireArtifact)
            &&& stub == all_succeed() ==> run.pipeline.state() == StateView::Completed && run.files
                == files.insert(audio)
        }),
{
    reveal_with_fuel(simulate, 3);
    paths_carry_their_extension(request.output_directory, request.base_name);
    let run = simulate(PipelineView::start(request), files, stub);
    assert(run.performed =~= script(request).take(run.performed.len() as int));
}

/// Where the video download reports success and the raw video is not
/// there, the run is aborted with a missing artifact that names the raw
/// video. Transcoding is never run, nothing is deleted, and no file has
/// come or gone.
pub proof fn absent_download_aborts_the_run(
    request: RequestView,
    files: Set<Seq<char>>,
    stub: spec_fn(ActionView) -> Behaviour,
)
    requires
        request.valid(),
        request.output_kind == OutputKind::VideoOnly,
        !files.contains(raw_video_path(request.output_directory, request.base_name)),
        !(stub(script(request)[0]) is Fails),
        stub(script(request)[1]) is Pretends,
    ensures
        ({
            let run = simulate(PipelineView::start(request), files, stub);
            let raw = raw_video_path(request.output_directory, request.base_name);
            &&& run.pipeline.state() == StateView::Aborted(
                AbortView {
                    stage: Stage::Transcoding,
                    reason: FailureView { kind: FailureKind::MissingArtifact, detail: raw },
                },
            )
            &&& run.performed == script(request).take(3)
            &&& run.files == files
        }),
{
    reveal_with_fuel(simulate, 4);
    let run = simulate(PipelineView::start(request), files, stub);
    assert(run.performed =~= script(request).take(3));
}

/// Where transcoding fails after a good download, the run is aborted in
/// the transcoding stage with the failure that transcoding reported.
/// Nothing is deleted: the raw video is still there, and it is the only
/// file that has come or gone, so the compatible video is there only if it
/// was there before the run.
pub proof fn failed_transcoding_keeps_the_raw_video(
    request: RequestView,
    files: Set<Seq<char>>,
    stub: spec_fn(ActionView) -> Behaviour,
    failure: FailureView,
)
    requires
        request.valid(),
        request.output_kind == OutputKind::VideoOnly,
        !(stub(script(request)[0]) is Fails),
        stub(script(request)[1]) is Succeeds,
        stub(script(request)[3]) == Behaviour::Fails(failure),
    ensures
        ({
            let run = simulate(PipelineView::start(request), files, stub);
            let raw = raw_video_path(request.output_directory, request.base_name);
            let normalized = normalized_video_path(request.output_directory, request.base_name);
            &&& run.pipeline.state() == StateView::Aborted(
                AbortView { stage: Stage::Transcoding, reason: failure },
            )
            &&& run.performed == script(request).take(4)
            &&& run.files == files.insert(raw)
            &&& run.files.contains(raw)
            &&& run.files.contains(normalized) == files.contains(normalized)
            &&& !files.contains(normalized) ==> !run.files.contains(normalized)
        }),
{
    reveal_with_fuel(simulate, 5);
    video_paths_differ(request.output_directory, request.base_name);
    let run = simulate(PipelineView::start(request), files, stub);
    assert(run.performed =~= script(request).take(4));
}

/// Running the same request a second time, on what the first run left,
/// completes again and leaves the same files: no stale intermediate
/// builds up.
pub proof fn rerun_leaves_the_same_files(request: RequestView, files: Set<Seq<char>>)
    requires
        request.valid(),
    ensures
        ({
            let first = simulate(PipelineView::start(request), files, all_succeed());
            let second = simulate(PipelineView::start(request), first.files, all_succeed());
            &&& first.pipeline.state() == StateView::Completed
            &&& second.pipeline.state() == StateView::Completed
            &&& second.files == first.files
        }),
{
    reveal_with_fuel(simulate, 6);
    video_paths_differ(request.output_directory, request.base_name);
    let first = simulate(PipelineView::start(request), files, all_succeed());
    let second = simulate(PipelineView::start(request), first.files, all_succeed());
    assert(second.files =~= first.files);
}

/// However the actions of a run go, the run carries out its steps in
/// order from the first and stops where it ends, and a final file that was
/// there before the run is there after it: the pipeline never deletes one.
pub proof fn final_files_survive(
    request: RequestView,
    files: Set<Seq<char>>,
    stub: spec_fn(ActionView) -> Behaviour,
)
    requires
        request.valid(),
    ensures
        ({
            let run = simulate(PipelineView::start(request), files, stub);
            let planned = planned_paths(
                request.output_directory,
                request.base_name,
                request.output_kind,
            );
            &&& run.performed.len() <= script(request).len()
            &&& run.performed == script(request).take(run.performed.len() as int)
            &&& forall|i: int|
                0 <= i < planned.len() && (#[trigger] planned[i]).role == Role::Final
                    && files.contains(planned[i].path) ==> run.files.contains(planned[i].path)
        }),
{
    reveal_with_fuel(simulate, 6);
    video_paths_differ(request.output_directory, request.base_name);
    let run = simulate(PipelineView::start(request), files, stub);
    assert(run.performed =~= script(request).take(run.performed.len() as int));
}

/// In a video run, however its actions go, a deletion is carried out only
/// as the last of the five steps, after the download and the transcoding
/// have both reported success and the raw video was found in place. A run
/// that stops earlier has deleted nothing.
pub proof fn deletion_waits_for_transcoding(
    request: RequestView,
    files: Set<Seq<char>>,
    stub: spec_fn(ActionView) -> Behaviour,
)
    requires
        request.valid(),
        request.output_kind == OutputKind::VideoOnly,
    ensures
        ({
            let run = simulate(PipelineView::start(request), files, stub);
            let steps = script(request);
            let deletes = exists|i: int|
                0 <= i < run.performed.len() && (#[trigger] run.performed[i]) is Delete;
            &&& deletes <==> run.performed.len() == 5
            &&& deletes ==> !(stub(steps[0]) is Fails) && !(stub(steps[1]) is Fails) && !(stub(
                steps[3],
            ) is Fails)
            &&& !deletes ==> forall|path: Seq<char>|
                files.contains(path) ==> run.files.contains(path)
        }),
{
    reveal_with_fuel(simulate, 6);
    let run = simulate(PipelineView::start(request), files, stub);
    assert(run.performed =~= script(request).take(run.performed.len() as int));
    if run.performed.len() == 5 {
        assert(run.performed[4] is Delete);
    }
}

/// Where the output directory cannot be made, the run is aborted in the
/// planning stage with a configuration error that gives the cause. No
/// stage is run, and no file has come or gone.
pub proof fn unavailable_directory_aborts_before_any_stage(
    request: RequestView,
    files: Set<Seq<char>>,
    stub: spec_fn(ActionView) -> Behaviour,
    failure: FailureView,
)
    requires
        request.valid(),
        stub(script(request)[0]) == Behaviour::Fails(failure),
    ensures
        ({
            let run = simulate(PipelineView::start(request), files, stub);
            &&& run.pipeline.state() == StateView::Aborted(
                AbortView {
                    stage: Stage::Planning,
                    reason: FailureView {
                        kind: FailureKind::ConfigurationError,
                        detail: failure.detail,
                    },
                },
            )
            &&& run.performed == script(request).take(1)
            &&& run.files == files
        }),
{
    reveal_with_fuel(simulate, 2);
    let run = simulate(PipelineView::start(request), files, stub);
    assert(run.performed =~= script(request).take(1));
}

/// Where the download fails, of either kind of run, the run is aborted in
/// the downloading stage with the failure that the download reported.
/// Nothing further is carried out, and no file has come or gone.
pub proof fn failed_download_aborts_the_run(
    request: RequestView,
    files: Set<Seq<char>>,
    stub: spec_fn(ActionView) -> Behaviour,
    failure: FailureView,
)
    requires
        request.valid(),
        !(stub(script(request)[0]) is Fails),
        stub(script(request)[1]) == Behaviour::Fails(failure),
    ensures
        ({
            let run = simulate(PipelineView::start(request), files, stub);
            &&& run.pipeline.state() == StateView::Aborted(
                AbortView { stage: Stage::Downloading, reason: failure },
            )
            &&& run.performed == script(request).take(2)
            &&& run.files == files
        }),
{
    reveal_with_fuel(simulate, 3);
    let run = simulate(PipelineView::start(request), files, stub);
    assert(run.performed =~= script(request).take(2));
}

/// Where the raw video cannot be deleted after a good download and a good
/// transcoding, the run is aborted in the cleanup stage with a cleanup
/// error that gives the cause: it does not pass for completed while the
/// raw video lies beside the compatible one.
pub proof fn failed_deletion_aborts_the_run(
    request: RequestView,
    files: Set<Seq<char>>,
    stub: spec_fn(ActionView) -> Behaviour,
    failure: FailureView,
)
    requires
        request.valid(),
        request.output_kind == OutputKind::VideoOnly,
        !(stub(script(request)[0]) is Fails),
        stub(script(request)[1]) is Succeeds,
        stub(script(request)[3]) is Succeeds,
        stub(script(request)[4]) == Behaviour::Fails(failure),
    ensures
        ({
            let run = simulate(PipelineView::start(request), files, stub);
            let raw = raw_video_path(request.output_directory, request.base_name);
            let normalized = normalized_video_path(request.output_directory, request.base_name);
            &&& run.pipeline.state() == StateView::Aborted(
                AbortView {
                    stage: Stage::Cleanup,
                    reason: FailureView { kind: FailureKind::CleanupError, detail: failure.detail },
                },
            )
            &&& run.performed == script(request)
            &&& run.files == files.insert(raw).insert(normalized)
        }),
{
    reveal_with_fuel(simulate, 6);
    let run = simulate(PipelineView::start(request), files, stub);
    assert(run.performed =~= script(request));
}

/// A simulated run takes the pipeline only through well-formed states, and
/// ends with the run over.
pub proof fn simulated_run_ends(
    pipeline: PipelineView,
    files: Set<Seq<char>>,
    stub: spec_fn(ActionView) -> Behaviour,
)
    requires
        pipeline.well_formed(),
    ensures
        simulate(pipeline, files, stub).pipeline.well_formed(),
        simulate(pipeline, files, stub).pipeline.finished(),
        simulate(pipeline, files, stub).pipeline.request == pipeline.request,
    decreases remaining(pipeline),
{
    match pipeline.pending() {
        None => {},
        Some(action) => {
            let (event, files_after) = perform(action, stub(action), files);
            simulated_run_ends(pipeline.after(event), files_after, stub);
        },
    }
}

} // verus!
