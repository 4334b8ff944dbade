use videelow::error::FailureKind;
use videelow::paths::{plan, Role};
use videelow::request::OutputKind;

#[test]
fn plan_names_the_files_of_a_video_run() {
    let planned = plan("clip", "out", OutputKind::VideoOnly).unwrap();
    assert_eq!(planned.len(), 2);
    assert_eq!(planned[0].path(), "out/clip.mp4");
    assert_eq!(planned[0].role(), Role::Intermediate);
    assert_eq!(planned[1].path(), "out/clip_complete.mp4");
    assert_eq!(planned[1].role(), Role::Final);
}

#[test]
fn plan_names_the_file_of_an_audio_run() {
    let planned = plan("clip", "out", OutputKind::AudioOnly).unwrap();
    assert_eq!(planned.len(), 1);
    assert_eq!(planned[0].path(), "out/clip.mp3");
    assert_eq!(planned[0].role(), Role::Final);
}

#[test]
fn plan_uses_the_usual_names() {
    let planned = plan("video", "Processed", OutputKind::VideoOnly).unwrap();
    assert_eq!(planned[0].path(), "Processed/video.mp4");
    assert_eq!(planned[1].path(), "Processed/video_complete.mp4");
    let planned = plan("video", "Processed", OutputKind::AudioOnly).unwrap();
    assert_eq!(planned[0].path(), "Processed/video.mp3");
}

#[test]
fn plan_keeps_a_nested_directory_as_given() {
    let planned = plan("a b", "some/deep/dir", OutputKind::VideoOnly).unwrap();
    assert_eq!(planned[0].path(), "some/deep/dir/a b.mp4");
    assert_eq!(planned[1].path(), "some/deep/dir/a b_complete.mp4");
}

#[test]
fn plan_accepts_an_empty_base_name_and_directory() {
    let planned = plan("", "", OutputKind::VideoOnly).unwrap();
    assert_eq!(planned[0].path(), "/.mp4");
    assert_eq!(planned[1].path(), "/_complete.mp4");
}

#[test]
fn plan_keeps_characters_outside_ascii() {
    let planned = plan("vidéo", "sortie", OutputKind::AudioOnly).unwrap();
    assert_eq!(planned[0].path(), "sortie/vidéo.mp3");
}

#[test]
fn plan_rejects_a_slash_in_the_base_name() {
    let failure = plan("../escape", "out", OutputKind::VideoOnly).unwrap_err();
    assert_eq!(failure.kind, FailureKind::ConfigurationError);
    assert_eq!(failure.detail, "Base name contains a path separator: ../escape");
}

#[test]
fn plan_rejects_a_backslash_in_the_base_name() {
    let failure = plan("a\\b", "out", OutputKind::AudioOnly).unwrap_err();
    assert_eq!(failure.kind, FailureKind::ConfigurationError);
    assert_eq!(failure.detail, "Base name contains a path separator: a\\b");
}

#[test]
fn plan_rejects_a_separator_at_either_end() {
    assert!(plan("/clip", "out", OutputKind::VideoOnly).is_err());
    assert!(plan("clip/", "out", OutputKind::VideoOnly).is_err());
    assert!(plan("/", "out", OutputKind::VideoOnly).is_err());
}

#[test]
fn plan_accepts_dots_without_separators() {
    let planned = plan("..", "out", OutputKind::AudioOnly).unwrap();
    assert_eq!(planned[0].path(), "out/...mp3");
}

#[test]
fn plan_gives_the_same_answer_twice() {
    for kind in [OutputKind::VideoOnly, OutputKind::AudioOnly] {
        let first = plan("clip", "out", kind);
        let second = plan("clip", "out", kind);
        assert_eq!(first, second);
    }
    assert_eq!(
        plan("a/b", "out", OutputKind::VideoOnly),
        plan("a/b", "out", OutputKind::VideoOnly)
    );
}

#[test]
fn planned_files_lie_directly_in_the_directory() {
    for kind in [OutputKind::VideoOnly, OutputKind::AudioOnly] {
        for artifact in plan("clip", "out/dir", kind).unwrap() {
            let name = artifact.path().strip_prefix("out/dir/").unwrap();
            assert!(!name.contains('/'));
            assert!(!name.contains('\\'));
        }
    }
}

#[test]
fn the_planned_files_of_one_run_differ() {
    let video = plan("clip", "out", OutputKind::VideoOnly).unwrap();
    let audio = plan("clip", "out", OutputKind::AudioOnly).unwrap();
    assert_ne!(video[0].path(), video[1].path());
    assert_ne!(audio[0].path(), video[0].path());
    assert_ne!(audio[0].path(), video[1].path());
    assert!(video[0].path().ends_with(".mp4"));
    assert!(video[1].path().ends_with("_complete.mp4"));
    assert!(audio[0].path().ends_with(".mp3"));
}
