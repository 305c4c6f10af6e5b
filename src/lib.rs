//! Frame and metadata extraction around an external decoder and prober.
//!
//! The library holds the decisions: how a prober's JSON report becomes a
//! rotation-corrected `VideoInfo`, how a bounded command's outcome is
//! classified, how the exit-status watchdog schedules its polls, how a
//! frame stream fills fixed-size frames and when it finishes, and which
//! arguments the decoder gets. Processes, pipes and clocks are driven by the
//! caller, which hands the results back as plain values.
use vstd::prelude::*;

pub mod builder;
pub mod classify;
pub mod command;
pub mod error;
pub mod frames;
pub mod json;
pub mod letterbox;
pub mod numeric;
pub mod stats;

pub use builder::{FfmpegFrameReaderBuilder, FramePlan};
pub use classify::{summarize_stream_report, StreamSummary};
pub use command::{
    finish_command, launch_error, truncate_ffmpeg_err_msg, FfmpegCommandName, PollStatus,
    WaitOutcome, Watchdog, WatchdogStep,
};
pub use error::{FfmpegErrorKind, VideoInfoError};
pub use letterbox::{letterbox_crop, measure_frame, measure_side, Crop, RgbFrame, Side};
pub use frames::{frames_from_output, FillEvent, FillStep, FrameSession, FrameStart};
pub use stats::{
    oriented_resolution, probe_info, probe_report, rotation_from_degrees, stats_text,
    FfmpegVideoRotation, VideoInfo,
};
