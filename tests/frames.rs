use vid_frames::{
    frames_from_output, FfmpegErrorKind, FfmpegFrameReaderBuilder, FillEvent, FillStep,
    FrameSession, FrameStart, VideoInfo,
};

fn info(w: u32, h: u32) -> VideoInfo {
    VideoInfo { duration_text: None, size: 0, bit_rate: 0, resolution: (w, h), has_audio: false }
}

#[test]
fn frame_limit_caps_frames() {
    let output: Vec<u8> = (0..60u8).collect();
    let frames = frames_from_output(2, 2, 3, &output, 5);
    assert_eq!(frames.len(), 3);
    for (i, f) in frames.iter().enumerate() {
        assert_eq!(f.len(), 12);
        assert_eq!(f[..], output[i * 12..(i + 1) * 12]);
    }
}

#[test]
fn available_frames_cap_frames() {
    let output: Vec<u8> = (0..30u8).collect();
    let frames = frames_from_output(2, 2, 10, &output, 7);
    assert_eq!(frames.len(), 2);
    assert_eq!(frames[1], output[12..24].to_vec());
    assert!(frames_from_output(2, 2, 10, &vec![], 4).is_empty());
}

#[test]
fn finished_stream_gives_nothing_more() {
    let mut s = FrameSession::new(1, 1, 1);
    assert_eq!(s.begin_frame(false), FrameStart::Fill);
    assert_eq!(s.on_fill_event(FillEvent::Chunk(vec![1, 2])), FillStep::NeedMore);
    assert_eq!(s.remaining(), 1);
    assert_eq!(s.on_fill_event(FillEvent::Chunk(vec![3])), FillStep::Frame(vec![1, 2, 3]));
    assert_eq!(s.frames_read(), 1);
    assert_eq!(s.begin_frame(false), FrameStart::Stop);
    assert!(s.is_finished());
    assert_eq!(s.begin_frame(false), FrameStart::Stop);
}

#[test]
fn deadline_ends_stream_early() {
    let mut s = FrameSession::new(2, 1, 10);
    assert_eq!(s.begin_frame(false), FrameStart::Fill);
    assert_eq!(s.on_fill_event(FillEvent::Chunk(vec![0; 6])), FillStep::Frame(vec![0; 6]));
    assert_eq!(s.begin_frame(false), FrameStart::Fill);
    assert_eq!(s.on_fill_event(FillEvent::Chunk(vec![1; 2])), FillStep::NeedMore);
    assert_eq!(s.on_fill_event(FillEvent::DeadlinePassed), FillStep::Ended);
    assert!(s.is_finished());
    assert_eq!(s.frames_read(), 1);
    assert_eq!(s.begin_frame(false), FrameStart::Stop);

    let mut t = FrameSession::new(2, 1, 10);
    assert_eq!(t.begin_frame(true), FrameStart::Stop);
    assert!(t.is_finished());
}

#[test]
fn empty_read_or_failure_ends_stream() {
    let mut s = FrameSession::new(2, 2, 5);
    s.begin_frame(false);
    assert_eq!(s.on_fill_event(FillEvent::Chunk(vec![])), FillStep::Ended);
    let mut t = FrameSession::new(2, 2, 5);
    t.begin_frame(false);
    assert_eq!(t.on_fill_event(FillEvent::Failed), FillStep::Ended);
    assert_eq!(t.frames_read(), 0);
}

#[test]
fn zero_resolution_is_refused() {
    let b = FfmpegFrameReaderBuilder::new("a.mp4".to_string());
    assert!(matches!(b.plan(&info(0, 720)), Err(FfmpegErrorKind::InvalidResolution)));
    assert!(matches!(b.plan(&info(1280, 0)), Err(FfmpegErrorKind::InvalidResolution)));
}

#[test]
fn plan_defaults_and_arguments() {
    let mut b = FfmpegFrameReaderBuilder::new("in.mkv".to_string());
    let p = b.plan(&info(4, 3)).unwrap();
    assert_eq!(p.frame_limit, u32::MAX);
    assert_eq!(p.timeout_secs, u32::MAX as u64);
    assert_eq!((p.width, p.height), (4, 3));
    assert_eq!(
        p.args,
        vec![
            "-hide_banner", "-loglevel", "warning", "-nostats", "-i", "in.mkv", "-pix_fmt",
            "rgb24", "-c:v", "rawvideo", "-f", "image2pipe", "-"
        ]
    );
    b.fps("1/5").num_frames(12).timeout_secs(30);
    let p = b.plan(&info(4, 3)).unwrap();
    assert_eq!(p.frame_limit, 12);
    assert_eq!(p.timeout_secs, 30);
    assert_eq!(
        p.args,
        vec![
            "-hide_banner", "-loglevel", "warning", "-nostats", "-i", "in.mkv", "-vf",
            "fps=1/5", "-vframes", "12", "-pix_fmt", "rgb24", "-c:v", "rawvideo", "-f",
            "image2pipe", "-"
        ]
    );
}
