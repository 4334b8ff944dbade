//! Orchestration of a media download pipeline: which external tool to run,
//! in what order, on which files, and what to do when one fails.
//!
//! The library decides; it never touches a process or the filesystem. The
//! caller performs each action the pipeline asks for and reports back what
//! happened.

pub mod error;
pub mod lifecycle;
pub mod paths;
pub mod pipeline;
pub mod protocol;
pub mod request;
pub mod simulation;
pub mod stage;
pub mod text;
