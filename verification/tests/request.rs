use videelow::error::FailureKind;
use videelow::request::{OutputKind, Request};

#[test]
fn a_valid_request_keeps_its_parts() {
    let request =
        Request::new("https://example/video", "clip", "out", OutputKind::VideoOnly).unwrap();
    assert_eq!(request.source_url(), "https://example/video");
    assert_eq!(request.base_name(), "clip");
    assert_eq!(request.output_directory(), "out");
    assert_eq!(request.output_kind(), OutputKind::VideoOnly);
}

#[test]
fn an_audio_request_keeps_its_kind() {
    let request = Request::new("u", "n", "d", OutputKind::AudioOnly).unwrap();
    assert_eq!(request.output_kind(), OutputKind::AudioOnly);
}

#[test]
fn an_empty_url_is_refused() {
    let failure = Request::new("", "clip", "out", OutputKind::VideoOnly).unwrap_err();
    assert_eq!(failure.kind, FailureKind::ConfigurationError);
    assert_eq!(failure.detail, "Source URL is empty");
}

#[test]
fn a_base_name_with_a_separator_is_refused() {
    let failure = Request::new("u", "a/b", "out", OutputKind::VideoOnly).unwrap_err();
    assert_eq!(failure.kind, FailureKind::ConfigurationError);
    assert_eq!(failure.detail, "Base name contains a path separator: a/b");
    let failure = Request::new("u", "a\\b", "out", OutputKind::AudioOnly).unwrap_err();
    assert_eq!(failure.detail, "Base name contains a path separator: a\\b");
}

#[test]
fn the_url_is_looked_at_before_the_base_name() {
    let failure = Request::new("", "a/b", "out", OutputKind::VideoOnly).unwrap_err();
    assert_eq!(failure.detail, "Source URL is empty");
}

#[test]
fn a_separator_in_the_directory_is_no_fault() {
    assert!(Request::new("u", "clip", "a/b\\c", OutputKind::VideoOnly).is_ok());
}

#[test]
fn an_empty_base_name_or_directory_is_no_fault() {
    assert!(Request::new("u", "", "", OutputKind::AudioOnly).is_ok());
}

#[test]
fn a_copy_of_a_request_is_the_same_request() {
    let request = Request::new("https://example/video", "clip", "out", OutputKind::AudioOnly).unwrap();
    let copy = request.clone();
    assert_eq!(copy, request);
    assert_eq!(copy.source_url(), "https://example/video");
    assert_eq!(copy.base_name(), "clip");
    assert_eq!(copy.output_directory(), "out");
    assert_eq!(copy.output_kind(), OutputKind::AudioOnly);
}
