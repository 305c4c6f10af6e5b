//! The decisions of the process layer: launch-failure classification, the
//! exit-status watchdog's polling schedule, and what a finished bounded
//! command reports.
use vstd::prelude::*;
use vstd::string::*;
use vstd::utf8::{decode_utf8, valid_utf8};
use crate::error::FfmpegErrorKind;

verus! {

/// Most characters of diagnostic text that a failed command reports.
pub const MAX_DIAGNOSTIC_CHARS: usize = 500;

/// Fast polls made before the watchdog falls back to one poll per second.
pub const FAST_POLLS: u32 = 100;

/// Milliseconds between two fast polls.
pub const FAST_POLL_MILLIS: u64 = 10;

/// Milliseconds between two slow polls.
pub const SLOW_POLL_MILLIS: u64 = 1000;

/// Seconds after which the watchdog reports a timeout.
pub const WATCHDOG_LIMIT_SECS: u32 = 60;

/// The two external tools.
#[derive(Debug, Clone, Copy, PartialEq, Eq)]
pub enum FfmpegCommandName {
    Ffprobe,
    Ffmpeg,
}

impl FfmpegCommandName {
    pub open spec fn spec_name(self) -> Seq<char> {
        match self {
            FfmpegCommandName::Ffprobe => "ffprobe"@,
            FfmpegCommandName::Ffmpeg => "ffmpeg"@,
        }
    }

    /// The conventional executable name, looked up on the search path.
    pub fn as_str(&self) -> (r: &'static str)
        ensures
            r@ == self.spec_name(),
    {
        proof {
            reveal_strlit("ffprobe");
            reveal_strlit("ffmpeg");
        }
        match self {
            FfmpegCommandName::Ffprobe => "ffprobe",
            FfmpegCommandName::Ffmpeg => "ffmpeg",
        }
    }
}

/// The error for a process that could not be spawned or waited on: a missing
/// executable is told apart from every other OS failure, whose category is
/// kept as text.
pub fn launch_error(not_found: bool, category: String) -> (r: FfmpegErrorKind)
    ensures
        not_found ==> r == FfmpegErrorKind::FfmpegNotFound,
        !not_found ==> r == FfmpegErrorKind::Io(category),
{
    if not_found {
        FfmpegErrorKind::FfmpegNotFound
    } else {
        FfmpegErrorKind::Io(category)
    }
}

/// Relies on `String::from_utf8`: it succeeds exactly on valid UTF-8 and then
/// holds the decoded characters.
#[verifier::external_body]
pub(crate) fn utf8_string(bytes: &Vec<u8>) -> (r: Option<String>)
    ensures
        r is Some <==> valid_utf8(bytes@),
        r matches Some(s) ==> s@ == decode_utf8(bytes@),
{
    String::from_utf8(bytes.clone()).ok()
}

pub open spec fn min_nat(a: nat, b: nat) -> nat {
    if a <= b { a } else { b }
}

/// The characters a failed command reports: the first 500 of its text.
pub open spec fn diagnostic_of(text: Seq<char>) -> Seq<char> {
    text.take(min_nat(text.len(), MAX_DIAGNOSTIC_CHARS as nat) as int)
}

/// The diagnostic text of a failed command is a prefix of what the tool
/// wrote, at most 500 characters long, and all of it when it is no longer.
pub proof fn lemma_diagnostic_is_bounded_prefix(text: Seq<char>)
    ensures
        diagnostic_of(text).len() <= MAX_DIAGNOSTIC_CHARS,
        text.len() > MAX_DIAGNOSTIC_CHARS ==> diagnostic_of(text).len() == MAX_DIAGNOSTIC_CHARS,
        forall|i: int| 0 <= i < diagnostic_of(text).len() ==> #[trigger] diagnostic_of(text)[i] == text[i],
        text.len() <= MAX_DIAGNOSTIC_CHARS ==> diagnostic_of(text) == text,
{
    if text.len() <= MAX_DIAGNOSTIC_CHARS {
        assert(text.take(text.len() as int) =~= text);
    }
}

/// The error of a command that exited with a failure status: its diagnostic
/// text cut to 500 characters, or `Utf8Conversion` when that text is not
/// UTF-8.
pub fn truncate_ffmpeg_err_msg(stderr: &Vec<u8>) -> (r: FfmpegErrorKind)
    ensures
        !valid_utf8(stderr@) ==> r == FfmpegErrorKind::Utf8Conversion,
        valid_utf8(stderr@) ==> (r matches FfmpegErrorKind::FfmpegInternal(t)
            && t@ == diagnostic_of(decode_utf8(stderr@))),
{
    match utf8_string(stderr) {
        None => FfmpegErrorKind::Utf8Conversion,
        Some(text) => {
            let s: &str = text.as_str();
            let n: usize = s.unicode_len();
            let keep: usize = if n <= MAX_DIAGNOSTIC_CHARS { n } else { MAX_DIAGNOSTIC_CHARS };
            let cut: &str = s.substring_char(0, keep);
            let t = String::from_str(cut);
            proof {
                assert(t@ =~= diagnostic_of(decode_utf8(stderr@)));
            }
            FfmpegErrorKind::FfmpegInternal(t)
        },
    }
}

/// How waiting on a bounded command's process ended.
#[derive(Debug, Clone, PartialEq, Eq)]
pub enum WaitOutcome {
    /// The process exited; `true` for a success status.
    Exited(bool),
    /// The watchdog reached its limit before the process exited.
    TimedOut,
    /// Querying the process's status failed.
    Failed { not_found: bool, category: String },
}

/// The outcome of a bounded command, from how its wait ended and what was
/// drained from its output streams: the captured standard output on a
/// success status, and otherwise the classified failure.
pub fn finish_command(wait: WaitOutcome, stdout: Vec<u8>, stderr: &Vec<u8>) -> (r: Result<
    Vec<u8>,
    FfmpegErrorKind,
>)
    ensures
        wait == WaitOutcome::Exited(true) ==> r == Ok::<Vec<u8>, FfmpegErrorKind>(stdout),
        wait == WaitOutcome::Exited(false) ==> !valid_utf8(stderr@) ==> r == Err::<
            Vec<u8>,
            FfmpegErrorKind,
        >(FfmpegErrorKind::Utf8Conversion),
        wait == WaitOutcome::Exited(false) ==> valid_utf8(stderr@) ==> (r matches Err(
            FfmpegErrorKind::FfmpegInternal(t),
        ) && t@ == diagnostic_of(decode_utf8(stderr@))),
        wait == WaitOutcome::TimedOut ==> r == Err::<Vec<u8>, FfmpegErrorKind>(
            FfmpegErrorKind::Timeout,
        ),
        wait matches WaitOutcome::Failed { not_found, category } ==> r == Err::<
            Vec<u8>,
            FfmpegErrorKind,
        >(if not_found {
            FfmpegErrorKind::FfmpegNotFound
        } else {
            FfmpegErrorKind::Io(category)
        }),
{
    match wait {
        WaitOutcome::Exited(success) => {
            if success {
                Ok(stdout)
            } else {
                Err(truncate_ffmpeg_err_msg(stderr))
            }
        },
        WaitOutcome::TimedOut => Err(FfmpegErrorKind::Timeout),
        WaitOutcome::Failed { not_found, category } => Err(launch_error(not_found, category)),
    }
}

/// What one query of a process's exit status found.
#[derive(Debug, Clone, PartialEq, Eq)]
pub enum PollStatus {
    /// Still running.
    Running,
    /// Exited; `true` for a success status.
    Exited(bool),
    /// The query failed.
    Failed { not_found: bool, category: String },
}

/// What the watchdog does after a poll.
#[derive(Debug, Clone, PartialEq, Eq)]
pub enum WatchdogStep {
    /// Sleep this many milliseconds, then poll again (unless timed out).
    Sleep(u64),
    /// Stop: the wait has ended this way.
    Finish(WaitOutcome),
}

/// The polling schedule of the exit-status watchdog: fast polls for about a
/// second, then one poll per second, until a fixed number of seconds.
#[derive(Debug, Clone, Copy, PartialEq, Eq)]
pub struct Watchdog {
    pub fast_polls: u32,
    pub elapsed_secs: u32,
}

impl Watchdog {
    pub open spec fn wf(self) -> bool {
        &&& self.fast_polls <= FAST_POLLS
        &&& self.elapsed_secs <= WATCHDOG_LIMIT_SECS
        &&& (self.fast_polls == FAST_POLLS <==> self.elapsed_secs >= 1)
    }

    pub open spec fn spec_timed_out(self) -> bool {
        self.elapsed_secs >= WATCHDOG_LIMIT_SECS
    }

    pub fn new() -> (r: Self)
        ensures
            r.wf(),
            r.fast_polls == 0,
            r.elapsed_secs == 0,
    {
        Watchdog { fast_polls: 0, elapsed_secs: 0 }
    }

    /// Whether the watchdog has waited as long as it may: checked before each poll.
    pub fn timed_out(&self) -> (r: bool)
        ensures
            r == self.spec_timed_out(),
    {
        self.elapsed_secs >= WATCHDOG_LIMIT_SECS
    }

    /// The step after a poll that found `status`. An exit or a failed query
    /// ends the wait; a running process is polled again after a short sleep
    /// during the fast phase and after a second's sleep afterwards, and each
    /// second of waiting is counted once.
    pub fn on_poll(&mut self, status: PollStatus) -> (r: WatchdogStep)
        requires
            old(self).wf(),
            !old(self).spec_timed_out(),
        ensures
            final(self).wf(),
            status == PollStatus::Exited(true) ==> r == WatchdogStep::Finish(WaitOutcome::Exited(true)),
            status == PollStatus::Exited(false) ==> r == WatchdogStep::Finish(WaitOutcome::Exited(false)),
            status matches PollStatus::Failed { not_found, category } ==> r == WatchdogStep::Finish(
                WaitOutcome::Failed { not_found, category },
            ),
            status != PollStatus::Running ==> *final(self) == *old(self),
            status == PollStatus::Running && old(self).fast_polls < FAST_POLLS ==> {
                &&& r == WatchdogStep::Sleep(FAST_POLL_MILLIS)
                &&& final(self).fast_polls == old(self).fast_polls + 1
                &&& final(self).elapsed_secs == if final(self).fast_polls == FAST_POLLS { 1u32 } else { 0u32 }
            },
            status == PollStatus::Running && old(self).fast_polls == FAST_POLLS ==> {
                &&& r == WatchdogStep::Sleep(SLOW_POLL_MILLIS)
                &&& final(self).fast_polls == FAST_POLLS
                &&& final(self).elapsed_secs == old(self).elapsed_secs + 1
            },
    {
        match status {
            PollStatus::Running => {
                if self.fast_polls < FAST_POLLS {
                    self.fast_polls = self.fast_polls + 1;
                    if self.fast_polls == FAST_POLLS {
                        self.elapsed_secs = self.elapsed_secs + 1;
                    }
                    WatchdogStep::Sleep(FAST_POLL_MILLIS)
                } else {
                    self.elapsed_secs = self.elapsed_secs + 1;
                    WatchdogStep::Sleep(SLOW_POLL_MILLIS)
                }
            },
            PollStatus::Exited(success) => WatchdogStep::Finish(WaitOutcome::Exited(success)),
            PollStatus::Failed { not_found, category } => WatchdogStep::Finish(
                WaitOutcome::Failed { not_found, category },
            ),
        }
    }
}

} // verus!
