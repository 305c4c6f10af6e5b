use vstd::prelude::*;

verus! {

/// Errors met while parsing a prober's metadata report.
#[derive(Debug, Clone, PartialEq, Eq)]
pub enum VideoInfoError {
    JsonError(String),
    ParseIntError(String),
    ParseFloatError(String),
}

/// Errors of the process layer and of the operations built on it.
#[derive(Debug, Clone, PartialEq, Eq)]
pub enum FfmpegErrorKind {
    /// The external tool could not be found on the search path.
    FfmpegNotFound,
    /// Any other failure to spawn, wait on or talk to a process.
    Io(String),
    /// The tool ran and exited with a failure status; holds its diagnostic text.
    FfmpegInternal(String),
    /// The watchdog gave up waiting for the tool to exit.
    Timeout,
    /// The probed resolution has a zero dimension.
    InvalidResolution,
    /// Output of a tool was not valid UTF-8.
    Utf8Conversion,
    /// The metadata report could not be parsed.
    VideoInfo(VideoInfoError),
}

impl From<VideoInfoError> for FfmpegErrorKind {
    fn from(e: VideoInfoError) -> (r: Self)
        ensures
            r == FfmpegErrorKind::VideoInfo(e),
    {
        FfmpegErrorKind::VideoInfo(e)
    }
}

impl vstd::std_specs::convert::FromSpecImpl<VideoInfoError> for FfmpegErrorKind {
    open spec fn obeys_from_spec() -> bool {
        true
    }

    open spec fn from_spec(e: VideoInfoError) -> FfmpegErrorKind {
        FfmpegErrorKind::VideoInfo(e)
    }
}

} // verus!
