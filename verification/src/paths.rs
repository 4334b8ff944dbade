//! Where the files of a run live: `{directory}/{name}{suffix}.{extension}`.
//!
//! Planning is pure. It touches no file; it names them.

use crate::error::{Failure, FailureView};
use crate::request::{reject_base_name, unsafe_base_name, OutputKind};
use crate::text::{contains_separator, ends_with, has_separator, is_separator};
use vstd::prelude::*;

verus! {

/// Whether a file is a deliverable or a stepping stone.
#[derive(Clone, Copy, Debug, PartialEq, Eq, Structural)]
pub enum Role {
    /// Produced by one stage only to be consumed by the next; deleted once
    /// that stage has succeeded.
    Intermediate,
    /// What the run was asked for; the pipeline never deletes it.
    Final,
}

/// A planned file and its role. Made by `plan` alone, and never changed.
#[derive(Debug, PartialEq, Eq)]
pub struct ArtifactPath {
    path: String,
    role: Role,
}

/// An `ArtifactPath` as a mathematical value.
pub ghost struct ArtifactPathView {
    pub path: Seq<char>,
    pub role: Role,
}

impl View for ArtifactPath {
    type V = ArtifactPathView;

    closed spec fn view(&self) -> ArtifactPathView {
        ArtifactPathView { path: self.path@, role: self.role }
    }
}

impl ArtifactPath {
    /// The path, as given to the external tools.
    pub fn path(&self) -> (path: &str)
        ensures
            path@ == self@.path,
    {
        self.path.as_str()
    }

    /// The role fixed at planning time.
    pub fn role(&self) -> (role: Role)
        ensures
            role == self@.role,
    {
        self.role
    }
}

/// The file name of an artifact: the base name, a suffix, a dot and the
/// extension.
pub open spec fn file_name(base_name: Seq<char>, suffix: Seq<char>, extension: Seq<char>) -> Seq<
    char,
> {
    base_name + suffix + "."@ + extension
}

/// The path of an artifact: its file name inside the output directory.
pub open spec fn artifact_path(
    directory: Seq<char>,
    base_name: Seq<char>,
    suffix: Seq<char>,
    extension: Seq<char>,
) -> Seq<char> {
    directory + "/"@ + file_name(base_name, suffix, extension)
}

/// The video as downloaded: `{directory}/{name}.mp4`.
pub open spec fn raw_video_path(directory: Seq<char>, base_name: Seq<char>) -> Seq<char> {
    artifact_path(directory, base_name, ""@, "mp4"@)
}

/// The video made compatible: `{directory}/{name}_complete.mp4`.
pub open spec fn normalized_video_path(directory: Seq<char>, base_name: Seq<char>) -> Seq<char> {
    artifact_path(directory, base_name, "_complete"@, "mp4"@)
}

/// The audio: `{directory}/{name}.mp3`.
pub open spec fn audio_path(directory: Seq<char>, base_name: Seq<char>) -> Seq<char> {
    artifact_path(directory, base_name, ""@, "mp3"@)
}

/// The files of a run, in the order in which they come to be. A video run
/// has the raw download, which is intermediate, and then the compatible
/// video, which is final. An audio run has the audio file alone.
pub open spec fn planned_paths(
    directory: Seq<char>,
    base_name: Seq<char>,
    output_kind: OutputKind,
) -> Seq<ArtifactPathView> {
    match output_kind {
        OutputKind::VideoOnly => seq![
            ArtifactPathView { path: raw_video_path(directory, base_name), role: Role::Intermediate },
            ArtifactPathView {
                path: normalized_video_path(directory, base_name),
                role: Role::Final,
            },
        ],
        OutputKind::AudioOnly => seq![
            ArtifactPathView { path: audio_path(directory, base_name), role: Role::Final },
        ],
    }
}

/// What planning yields: the planned files, or the failure that rejects a
/// base name holding a path separator.
pub open spec fn plan_outcome(
    base_name: Seq<char>,
    directory: Seq<char>,
    output_kind: OutputKind,
) -> Result<Seq<ArtifactPathView>, FailureView> {
    if has_separator(base_name) {
        Err(unsafe_base_name(base_name))
    } else {
        Ok(planned_paths(directory, base_name, output_kind))
    }
}

/// A planning result as a mathematical value.
pub open spec fn plan_view(planned: Result<Vec<ArtifactPath>, Failure>) -> Result<
    Seq<ArtifactPathView>,
    FailureView,
> {
    match planned {
        Ok(paths) => Ok(paths@.map_values(|artifact: ArtifactPath| artifact@)),
        Err(failure) => Err(failure@),
    }
}

/// Builds `{directory}/{base_name}{suffix}.{extension}`.
fn build_path(directory: &str, base_name: &str, suffix: &str, extension: &str) -> (path: String)
    ensures
        path@ == artifact_path(directory@, base_name@, suffix@, extension@),
{
    let mut path = String::from_str(directory);
    path.append("/");
    path.append(base_name);
    path.append(suffix);
    path.append(".");
    path.append(extension);
    assert(path@ =~= artifact_path(directory@, base_name@, suffix@, extension@));
    path
}

/// Names the files of a run. No file is touched. A base name that holds a
/// path separator is refused, since it could lead out of the directory.
pub fn plan(base_name: &str, output_directory: &str, output_kind: OutputKind) -> (planned: Result<
    Vec<ArtifactPath>,
    Failure,
>)
    ensures
        plan_view(planned) == plan_outcome(base_name@, output_directory@, output_kind),
{
    if contains_separator(base_name) {
        return Err(reject_base_name(base_name));
    }
    let mut paths: Vec<ArtifactPath> = Vec::new();
    match output_kind {
        OutputKind::VideoOnly => {
            paths.push(
                ArtifactPath {
                    path: build_path(output_directory, base_name, "", "mp4"),
                    role: Role::Intermediate,
                },
            );
            paths.push(
                ArtifactPath {
                    path: build_path(output_directory, base_name, "_complete", "mp4"),
                    role: Role::Final,
                },
            );
        },
        OutputKind::AudioOnly => {
            paths.push(
                ArtifactPath {
                    path: build_path(output_directory, base_name, "", "mp3"),
                    role: Role::Final,
                },
            );
        },
    }
    assert(paths@.map_values(|artifact: ArtifactPath| artifact@) =~= planned_paths(
        output_directory@,
        base_name@,
        output_kind,
    ));
    Ok(paths)
}

/// Planning is a function of its inputs: two results for the same base
/// name, directory and output kind are the same, path by path and role by
/// role.
pub proof fn plan_is_deterministic(
    base_name: Seq<char>,
    directory: Seq<char>,
    output_kind: OutputKind,
    first: Result<Vec<ArtifactPath>, Failure>,
    second: Result<Vec<ArtifactPath>, Failure>,
)
    requires
        plan_view(first) == plan_outcome(base_name, directory, output_kind),
        plan_view(second) == plan_outcome(base_name, directory, output_kind),
    ensures
        plan_view(first) == plan_view(second),
{
}

/// The two files of a video run are different files, so deleting the raw
/// video cannot touch the compatible one.
pub proof fn video_paths_differ(directory: Seq<char>, base_name: Seq<char>)
    ensures
        raw_video_path(directory, base_name) != normalized_video_path(directory, base_name),
{
    reveal_strlit("");
    reveal_strlit("_complete");
    assert(raw_video_path(directory, base_name).len() + 9 == normalized_video_path(
        directory,
        base_name,
    ).len());
}

/// Each file carries the extension of what it holds, and the compatible
/// video its suffix as well. The audio file is neither of the two video
/// files, and does not end as a video file does.
pub proof fn paths_carry_their_extension(directory: Seq<char>, base_name: Seq<char>)
    ensures
        ends_with(raw_video_path(directory, base_name), ".mp4"@),
        ends_with(normalized_video_path(directory, base_name), "_complete.mp4"@),
        ends_with(audio_path(directory, base_name), ".mp3"@),
        !ends_with(audio_path(directory, base_name), ".mp4"@),
        audio_path(directory, base_name) != raw_video_path(directory, base_name),
        audio_path(directory, base_name) != normalized_video_path(directory, base_name),
{
    reveal_strlit("");
    reveal_strlit("_complete");
    reveal_strlit(".");
    reveal_strlit("mp3");
    reveal_strlit("mp4");
    reveal_strlit(".mp3");
    reveal_strlit(".mp4");
    reveal_strlit("_complete.mp4");
    let audio = audio_path(directory, base_name);
    let raw = raw_video_path(directory, base_name);
    let normalized = normalized_video_path(directory, base_name);
    assert(raw.subrange(raw.len() - 4, raw.len() as int) =~= ".mp4"@);
    assert(normalized.subrange(normalized.len() - 13, normalized.len() as int)
        =~= "_complete.mp4"@);
    assert(audio.subrange(audio.len() - 4, audio.len() as int) =~= ".mp3"@);
    assert(".mp3"@[3] != ".mp4"@[3]);
    assert(audio.last() == '3');
    assert(raw.last() == '4');
    assert(normalized.last() == '4');
}

/// A planned file lies directly inside the output directory: after the
/// directory and one separator comes a file name that holds no separator,
/// so that no base name which planning accepts leads out of the directory.
pub proof fn planned_paths_stay_in_directory(
    directory: Seq<char>,
    base_name: Seq<char>,
    output_kind: OutputKind,
    index: int,
)
    requires
        !has_separator(base_name),
        0 <= index < planned_paths(directory, base_name, output_kind).len(),
    ensures
        ({
            let path = planned_paths(directory, base_name, output_kind)[index].path;
            let name = path.subrange(directory.len() + 1 as int, path.len() as int);
            &&& path.len() > directory.len()
            &&& path.subrange(0, directory.len() as int) == directory
            &&& path[directory.len() as int] == '/'
            &&& !has_separator(name)
        }),
{
    reveal_strlit("");
    reveal_strlit("_complete");
    reveal_strlit(".");
    reveal_strlit("/");
    reveal_strlit("mp3");
    reveal_strlit("mp4");
    let path = planned_paths(directory, base_name, output_kind)[index].path;
    let name = path.subrange(directory.len() + 1 as int, path.len() as int);
    let suffix = if output_kind == OutputKind::VideoOnly && index == 1 {
        "_complete"@
    } else {
        ""@
    };
    let extension = if output_kind == OutputKind::VideoOnly {
        "mp4"@
    } else {
        "mp3"@
    };
    assert(path == directory + "/"@ + file_name(base_name, suffix, extension));
    assert(name =~= file_name(base_name, suffix, extension));
    assert(path.subrange(0, directory.len() as int) =~= directory);
    if has_separator(name) {
        let i = choose|i: int| 0 <= i < name.len() && is_separator(#[trigger] name[i]);
        if i < base_name.len() {
            assert(is_separator(base_name[i]));
        }
    }
}

} // verus!
