use videelow::lifecycle::mark_consumed;
use videelow::paths::{plan, Role};
use videelow::protocol::Action;
use videelow::request::OutputKind;

#[test]
fn a_consumed_intermediate_file_is_deleted() {
    let planned = plan("clip", "out", OutputKind::VideoOnly).unwrap();
    assert_eq!(planned[0].role(), Role::Intermediate);
    assert_eq!(mark_consumed(&planned[0]), Action::Delete { path: "out/clip.mp4".to_string() });
}

#[test]
fn only_the_raw_video_is_intermediate() {
    let video = plan("clip", "out", OutputKind::VideoOnly).unwrap();
    let audio = plan("clip", "out", OutputKind::AudioOnly).unwrap();
    let intermediate: Vec<&str> = video
        .iter()
        .chain(audio.iter())
        .filter(|artifact| artifact.role() == Role::Intermediate)
        .map(|artifact| artifact.path())
        .collect();
    assert_eq!(intermediate, vec!["out/clip.mp4"]);
}
