//! The four external operations: the command line of each, and what the
//! way its process ended means.
//!
//! Format selectors, codecs and quality settings are fixed here and cannot
//! be configured, so that what a run produces does not vary.

use crate::error::{Failure, FailureKind, FailureView};
use vstd::prelude::*;

verus! {

/// One external operation on concrete paths.
#[derive(Debug, PartialEq, Eq)]
pub enum Operation {
    /// Fetch the best video and audio streams of `url` into an MP4 at `output`.
    DownloadVideo { url: String, output: String },
    /// Fetch the best audio stream of `url` and convert it to MP3 at `output`.
    DownloadAudio { url: String, output: String },
    /// Re-encode `input` to H.264 video and AAC audio laid out for streaming.
    NormalizeVideo { input: String, output: String },
    /// Drop the video stream of `input` and encode its audio at `output`.
    ExtractAudio { input: String, output: String },
}

/// An `Operation` as a mathematical value.
pub ghost enum OperationView {
    DownloadVideo { url: Seq<char>, output: Seq<char> },
    DownloadAudio { url: Seq<char>, output: Seq<char> },
    NormalizeVideo { input: Seq<char>, output: Seq<char> },
    ExtractAudio { input: Seq<char>, output: Seq<char> },
}

impl View for Operation {
    type V = OperationView;

    open spec fn view(&self) -> OperationView {
        match *self {
            Operation::DownloadVideo { url, output } => OperationView::DownloadVideo {
                url: url@,
                output: output@,
            },
            Operation::DownloadAudio { url, output } => OperationView::DownloadAudio {
                url: url@,
                output: output@,
            },
            Operation::NormalizeVideo { input, output } => OperationView::NormalizeVideo {
                input: input@,
                output: output@,
            },
            Operation::ExtractAudio { input, output } => OperationView::ExtractAudio {
                input: input@,
                output: output@,
            },
        }
    }
}

impl Clone for Operation {
    fn clone(&self) -> (copy: Self)
        ensures
            copy@ == self@,
    {
        match self {
            Operation::DownloadVideo { url, output } => Operation::DownloadVideo {
                url: url.clone(),
                output: output.clone(),
            },
            Operation::DownloadAudio { url, output } => Operation::DownloadAudio {
                url: url.clone(),
                output: output.clone(),
            },
            Operation::NormalizeVideo { input, output } => Operation::NormalizeVideo {
                input: input.clone(),
                output: output.clone(),
            },
            Operation::ExtractAudio { input, output } => Operation::ExtractAudio {
                input: input.clone(),
                output: output.clone(),
            },
        }
    }
}

/// A command line: the program to start and its arguments, in order.
#[derive(Debug, PartialEq, Eq)]
pub struct Invocation {
    pub program: String,
    pub arguments: Vec<String>,
}

/// An `Invocation` as a mathematical value.
pub ghost struct InvocationView {
    pub program: Seq<char>,
    pub arguments: Seq<Seq<char>>,
}

impl View for Invocation {
    type V = InvocationView;

    open spec fn view(&self) -> InvocationView {
        InvocationView {
            program: self.program@,
            arguments: self.arguments@.map_values(|argument: String| argument@),
        }
    }
}

impl OperationView {
    /// The file that the operation writes.
    pub open spec fn output(self) -> Seq<char> {
        match self {
            OperationView::DownloadVideo { output, .. } => output,
            OperationView::DownloadAudio { output, .. } => output,
            OperationView::NormalizeVideo { output, .. } => output,
            OperationView::ExtractAudio { output, .. } => output,
        }
    }

    /// The file that the operation reads, if it reads one.
    pub open spec fn input(self) -> Option<Seq<char>> {
        match self {
            OperationView::DownloadVideo { .. } => None,
            OperationView::DownloadAudio { .. } => None,
            OperationView::NormalizeVideo { input, .. } => Some(input),
            OperationView::ExtractAudio { input, .. } => Some(input),
        }
    }

    /// The program that carries the operation out: the downloader for the
    /// two downloads, the transcoder for the two conversions.
    pub open spec fn program(self) -> Seq<char> {
        match self {
            OperationView::DownloadVideo { .. } => "yt-dlp"@,
            OperationView::DownloadAudio { .. } => "yt-dlp"@,
            OperationView::NormalizeVideo { .. } => "ffmpeg"@,
            OperationView::ExtractAudio { .. } => "ffmpeg"@,
        }
    }

    /// The arguments of the operation's command line.
    pub open spec fn arguments(self) -> Seq<Seq<char>> {
        match self {
            OperationView::DownloadVideo { url, output } => seq![
                "-f"@,
                "bestvideo[ext=mp4]+bestaudio[ext=m4a]/best[ext=mp4]/best"@,
                "-o"@,
                output,
                url,
            ],
            OperationView::DownloadAudio { url, output } => seq![
                "-f"@,
                "bestaudio"@,
                "--extract-audio"@,
                "--audio-format"@,
                "mp3"@,
                "--audio-quality"@,
                "192K"@,
                "-o"@,
                output,
                url,
            ],
            OperationView::NormalizeVideo { input, output } => seq![
                "-i"@,
                input,
                "-c:v"@,
                "libx264"@,
                "-c:a"@,
                "aac"@,
                "-movflags"@,
                "+faststart"@,
                output,
            ],
            OperationView::ExtractAudio { input, output } => seq![
                "-i"@,
                input,
                "-q:a"@,
                "0"@,
                "-map"@,
                "a"@,
                output,
            ],
        }
    }

    /// The operation's whole command line.
    pub open spec fn invocation(self) -> InvocationView {
        InvocationView { program: self.program(), arguments: self.arguments() }
    }

    /// What is said of the operation when its process ran and reported
    /// failure.
    pub open spec fn failure_text(self) -> Seq<char> {
        match self {
            OperationView::NormalizeVideo { .. } => "Re-encoding to QuickTime-compatible format failed"@,
            _ => "Command failed"@,
        }
    }
}

impl Operation {
    /// The file that the operation writes.
    pub fn output(&self) -> (path: &str)
        ensures
            path@ == self@.output(),
    {
        match self {
            Operation::DownloadVideo { output, .. } => output.as_str(),
            Operation::DownloadAudio { output, .. } => output.as_str(),
            Operation::NormalizeVideo { output, .. } => output.as_str(),
            Operation::ExtractAudio { output, .. } => output.as_str(),
        }
    }

    /// The file that the operation reads, if it reads one.
    pub fn input(&self) -> (path: Option<&str>)
        ensures
            path is Some == self@.input() is Some,
            path matches Some(p) ==> self@.input() == Some(p@),
    {
        match self {
            Operation::DownloadVideo { .. } => None,
            Operation::DownloadAudio { .. } => None,
            Operation::NormalizeVideo { input, .. } => Some(input.as_str()),
            Operation::ExtractAudio { input, .. } => Some(input.as_str()),
        }
    }

    /// The command line that carries the operation out.
    pub fn invocation(&self) -> (command: Invocation)
        ensures
            command@ == self@.invocation(),
    {
        let mut arguments: Vec<String> = Vec::new();
        let program = match self {
            Operation::DownloadVideo { url, output } => {
                arguments.push(String::from_str("-f"));
                arguments.push(
                    String::from_str("bestvideo[ext=mp4]+bestaudio[ext=m4a]/best[ext=mp4]/best"),
                );
                arguments.push(String::from_str("-o"));
                arguments.push(output.clone());
                arguments.push(url.clone());
                String::from_str("yt-dlp")
            },
            Operation::DownloadAudio { url, output } => {
                arguments.push(String::from_str("-f"));
                arguments.push(String::from_str("bestaudio"));
                arguments.push(String::from_str("--extract-audio"));
                arguments.push(String::from_str("--audio-format"));
                arguments.push(String::from_str("mp3"));
                arguments.push(String::from_str("--audio-quality"));
                arguments.push(String::from_str("192K"));
                arguments.push(String::from_str("-o"));
                arguments.push(output.clone());
                arguments.push(url.clone());
                String::from_str("yt-dlp")
            },
            Operation::NormalizeVideo { input, output } => {
                arguments.push(String::from_str("-i"));
                arguments.push(input.clone());
                arguments.push(String::from_str("-c:v"));
                arguments.push(String::from_str("libx264"));
                arguments.push(String::from_str("-c:a"));
                arguments.push(String::from_str("aac"));
                arguments.push(String::from_str("-movflags"));
                arguments.push(String::from_str("+faststart"));
                arguments.push(output.clone());
                String::from_str("ffmpeg")
            },
            Operation::ExtractAudio { input, output } => {
                arguments.push(String::from_str("-i"));
                arguments.push(input.clone());
                arguments.push(String::from_str("-q:a"));
                arguments.push(String::from_str("0"));
                arguments.push(String::from_str("-map"));
                arguments.push(String::from_str("a"));
                arguments.push(output.clone());
                String::from_str("ffmpeg")
            },
        };
        assert(arguments@.map_values(|argument: String| argument@) =~= self@.arguments());
        Invocation { program, arguments }
    }
}

/// How an attempt to run a command ended, as seen by whoever started it.
#[derive(Debug, PartialEq, Eq)]
pub enum ProcessReport {
    /// The program could not be started; `cause` says why.
    NotStarted { cause: String },
    /// The program ran to its end, with or without success.
    Exited { success: bool },
}

/// A `ProcessReport` as a mathematical value.
pub ghost enum ProcessReportView {
    NotStarted { cause: Seq<char> },
    Exited { success: bool },
}

impl View for ProcessReport {
    type V = ProcessReportView;

    open spec fn view(&self) -> ProcessReportView {
        match *self {
            ProcessReport::NotStarted { cause } => ProcessReportView::NotStarted { cause: cause@ },
            ProcessReport::Exited { success } => ProcessReportView::Exited { success },
        }
    }
}

/// The result of one stage.
#[derive(Debug, PartialEq, Eq)]
pub enum StageOutcome {
    Success,
    Failure(Failure),
}

/// A `StageOutcome` as a mathematical value.
pub ghost enum StageOutcomeView {
    Success,
    Failure(FailureView),
}

impl View for StageOutcome {
    type V = StageOutcomeView;

    open spec fn view(&self) -> StageOutcomeView {
        match *self {
            StageOutcome::Success => StageOutcomeView::Success,
            StageOutcome::Failure(failure) => StageOutcomeView::Failure(failure@),
        }
    }
}

impl OperationView {
    /// What the end of the operation's process means: a program that could
    /// not be started is a launch error with the cause given; one that ran
    /// and failed is an execution error; one that ran and succeeded is a
    /// success.
    pub open spec fn outcome(self, report: ProcessReportView) -> StageOutcomeView {
        match report {
            ProcessReportView::NotStarted { cause } => StageOutcomeView::Failure(
                FailureView { kind: FailureKind::LaunchError, detail: cause },
            ),
            ProcessReportView::Exited { success } => if success {
                StageOutcomeView::Success
            } else {
                StageOutcomeView::Failure(
                    FailureView { kind: FailureKind::ExecutionError, detail: self.failure_text() },
                )
            },
        }
    }
}

impl Operation {
    /// Turns the end of the operation's process into the stage's outcome.
    /// Nothing is retried.
    pub fn outcome(&self, report: ProcessReport) -> (outcome: StageOutcome)
        ensures
            outcome@ == self@.outcome(report@),
    {
        match report {
            ProcessReport::NotStarted { cause } => StageOutcome::Failure(
                Failure { kind: FailureKind::LaunchError, detail: cause },
            ),
            ProcessReport::Exited { success } => {
                if success {
                    StageOutcome::Success
                } else {
                    let detail = match self {
                        Operation::NormalizeVideo { .. } => String::from_str(
                            "Re-encoding to QuickTime-compatible format failed",
                        ),
                        _ => String::from_str("Command failed"),
                    };
                    StageOutcome::Failure(Failure { kind: FailureKind::ExecutionError, detail })
                }
            },
        }
    }
}

} // verus!
