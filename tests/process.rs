use vid_frames::{
    finish_command, launch_error, truncate_ffmpeg_err_msg, FfmpegCommandName, FfmpegErrorKind,
    PollStatus, WaitOutcome, Watchdog, WatchdogStep,
};

#[test]
fn long_diagnostic_is_cut_to_500_chars() {
    let text = "é".repeat(800);
    match truncate_ffmpeg_err_msg(&text.into_bytes()) {
        FfmpegErrorKind::FfmpegInternal(t) => {
            assert_eq!(t.chars().count(), 500);
            assert_eq!(t, "é".repeat(500));
        }
        other => panic!("unexpected {:?}", other),
    }
}

#[test]
fn short_diagnostic_is_kept() {
    assert_eq!(
        truncate_ffmpeg_err_msg(&b"bad input".to_vec()),
        FfmpegErrorKind::FfmpegInternal("bad input".to_string())
    );
    assert_eq!(truncate_ffmpeg_err_msg(&vec![0xc3]), FfmpegErrorKind::Utf8Conversion);
}

#[test]
fn nonzero_exit_reports_truncated_stderr() {
    let stderr = "x".repeat(2000).into_bytes();
    let r = finish_command(WaitOutcome::Exited(false), b"out".to_vec(), &stderr);
    assert_eq!(r, Err(FfmpegErrorKind::FfmpegInternal("x".repeat(500))));
}

#[test]
fn success_returns_stdout() {
    let r = finish_command(WaitOutcome::Exited(true), b"out".to_vec(), &b"warn".to_vec());
    assert_eq!(r, Ok(b"out".to_vec()));
    let r = finish_command(WaitOutcome::TimedOut, vec![], &vec![]);
    assert_eq!(r, Err(FfmpegErrorKind::Timeout));
}

#[test]
fn missing_tool_is_tool_not_found() {
    assert_eq!(launch_error(true, "NotFound".to_string()), FfmpegErrorKind::FfmpegNotFound);
    assert_eq!(
        launch_error(false, "PermissionDenied".to_string()),
        FfmpegErrorKind::Io("PermissionDenied".to_string())
    );
    let r = finish_command(
        WaitOutcome::Failed { not_found: true, category: "NotFound".to_string() },
        vec![],
        &vec![],
    );
    assert_eq!(r, Err(FfmpegErrorKind::FfmpegNotFound));
}

#[test]
fn command_names() {
    assert_eq!(FfmpegCommandName::Ffprobe.as_str(), "ffprobe");
    assert_eq!(FfmpegCommandName::Ffmpeg.as_str(), "ffmpeg");
}

#[test]
fn watchdog_schedule() {
    let mut dog = Watchdog::new();
    let mut sleeps: Vec<u64> = vec![];
    while !dog.timed_out() {
        match dog.on_poll(PollStatus::Running) {
            WatchdogStep::Sleep(ms) => sleeps.push(ms),
            WatchdogStep::Finish(_) => panic!("finished while running"),
        }
    }
    assert_eq!(sleeps.len(), 159);
    assert!(sleeps[..100].iter().all(|&ms| ms == 10));
    assert!(sleeps[100..].iter().all(|&ms| ms == 1000));
    assert_eq!(dog.elapsed_secs, 60);
}

#[test]
fn watchdog_stops_on_exit() {
    let mut dog = Watchdog::new();
    assert_eq!(dog.on_poll(PollStatus::Exited(true)), WatchdogStep::Finish(WaitOutcome::Exited(true)));
    assert_eq!(dog.fast_polls, 0);
}
