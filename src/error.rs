//! The failures that the pipeline reports.
use vstd::prelude::*;

verus! {

/// Why extraction, encoding or the session handoff failed.
#[derive(Debug, Clone, PartialEq, Eq)]
pub enum DragonflyError {
    /// The probed source has no video stream.
    SourceContainsNoStream,
    /// The probed video stream reports a width or height that is not a positive 32-bit size.
    InvalidResolution,
    /// A media tool could not be spawned or waited on; the message says why.
    Command(String),
    /// The inspection tool's output could not be decoded; the message says why.
    Json(String),
    /// A path has no string form that the media tool can take.
    InvalidPathString(String),
    /// A required media tool is not installed.
    ToolNotFound(String),
    /// A field of view of zero was configured.
    InvalidFieldOfView,
    /// A concurrency limit of zero was configured.
    InvalidConcurrency,
    /// A desired video length of zero was configured.
    InvalidLength,
    /// A desired output frame rate that cannot be used was configured.
    InvalidFrameRate,
    /// A frame rendering process exited with a failure status, with its exit
    /// code where it has one.
    FfmpegExtractFailed(Option<i32>),
    /// The encoding process exited with a failure status, with its exit code
    /// where it has one.
    FfmpegEncodeFailed(Option<i32>),
    /// The frames directory holds no frame to encode.
    EmptyFrameSet,
    /// No extraction directory was recorded by an earlier run.
    SessionNotFound,
    Unknown,
}

} // verus!
