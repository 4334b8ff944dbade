use videelow::error::{Failure, FailureKind};
use videelow::protocol::Stage;
use videelow::stage::{Operation, ProcessReport, StageOutcome};

fn download_video() -> Operation {
    Operation::DownloadVideo { url: "https://example/video".to_string(), output: "out/clip.mp4".to_string() }
}

fn download_audio() -> Operation {
    Operation::DownloadAudio { url: "https://example/video".to_string(), output: "out/clip.mp3".to_string() }
}

fn normalize_video() -> Operation {
    Operation::NormalizeVideo { input: "out/clip.mp4".to_string(), output: "out/clip_complete.mp4".to_string() }
}

fn extract_audio() -> Operation {
    Operation::ExtractAudio { input: "out/clip.mp4".to_string(), output: "out/clip.mp3".to_string() }
}

#[test]
fn the_video_download_command_line() {
    let command = download_video().invocation();
    assert_eq!(command.program, "yt-dlp");
    assert_eq!(
        command.arguments,
        vec![
            "-f",
            "bestvideo[ext=mp4]+bestaudio[ext=m4a]/best[ext=mp4]/best",
            "-o",
            "out/clip.mp4",
            "https://example/video",
        ]
    );
}

#[test]
fn the_audio_download_command_line() {
    let command = download_audio().invocation();
    assert_eq!(command.program, "yt-dlp");
    assert_eq!(
        command.arguments,
        vec![
            "-f",
            "bestaudio",
            "--extract-audio",
            "--audio-format",
            "mp3",
            "--audio-quality",
            "192K",
            "-o",
            "out/clip.mp3",
            "https://example/video",
        ]
    );
}

#[test]
fn the_normalizing_command_line() {
    let command = normalize_video().invocation();
    assert_eq!(command.program, "ffmpeg");
    assert_eq!(
        command.arguments,
        vec![
            "-i",
            "out/clip.mp4",
            "-c:v",
            "libx264",
            "-c:a",
            "aac",
            "-movflags",
            "+faststart",
            "out/clip_complete.mp4",
        ]
    );
}

#[test]
fn the_audio_extraction_command_line() {
    let command = extract_audio().invocation();
    assert_eq!(command.program, "ffmpeg");
    assert_eq!(
        command.arguments,
        vec!["-i", "out/clip.mp4", "-q:a", "0", "-map", "a", "out/clip.mp3"]
    );
}

#[test]
fn an_operation_knows_its_files() {
    assert_eq!(download_video().output(), "out/clip.mp4");
    assert_eq!(download_video().input(), None);
    assert_eq!(download_audio().output(), "out/clip.mp3");
    assert_eq!(download_audio().input(), None);
    assert_eq!(normalize_video().output(), "out/clip_complete.mp4");
    assert_eq!(normalize_video().input(), Some("out/clip.mp4"));
    assert_eq!(extract_audio().output(), "out/clip.mp3");
    assert_eq!(extract_audio().input(), Some("out/clip.mp4"));
}

#[test]
fn an_operation_knows_its_stage() {
    assert_eq!(download_video().stage(), Stage::Downloading);
    assert_eq!(download_audio().stage(), Stage::Downloading);
    assert_eq!(normalize_video().stage(), Stage::Transcoding);
    assert_eq!(extract_audio().stage(), Stage::Extracting);
}

#[test]
fn a_clean_exit_is_a_success() {
    for operation in [download_video(), download_audio(), normalize_video(), extract_audio()] {
        assert_eq!(
            operation.outcome(ProcessReport::Exited { success: true }),
            StageOutcome::Success
        );
    }
}

#[test]
fn a_failed_exit_is_an_execution_error() {
    for operation in [download_video(), download_audio(), extract_audio()] {
        assert_eq!(
            operation.outcome(ProcessReport::Exited { success: false }),
            StageOutcome::Failure(Failure {
                kind: FailureKind::ExecutionError,
                detail: "Command failed".to_string(),
            })
        );
    }
    assert_eq!(
        normalize_video().outcome(ProcessReport::Exited { success: false }),
        StageOutcome::Failure(Failure {
            kind: FailureKind::ExecutionError,
            detail: "Re-encoding to QuickTime-compatible format failed".to_string(),
        })
    );
}

#[test]
fn a_program_that_cannot_start_is_a_launch_error() {
    for operation in [download_video(), download_audio(), normalize_video(), extract_audio()] {
        assert_eq!(
            operation.outcome(ProcessReport::NotStarted { cause: "No such file or directory".to_string() }),
            StageOutcome::Failure(Failure {
                kind: FailureKind::LaunchError,
                detail: "No such file or directory".to_string(),
            })
        );
    }
}

#[test]
fn a_copy_of_an_operation_is_the_same_operation() {
    for operation in [download_video(), download_audio(), normalize_video(), extract_audio()] {
        assert_eq!(operation.clone(), operation);
    }
}
