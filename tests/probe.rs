use vid_frames::{
    oriented_resolution, probe_info, probe_report, rotation_from_degrees, stats_text,
    summarize_stream_report, FfmpegErrorKind, FfmpegVideoRotation, VideoInfoError,
};

fn report(rotation: &str) -> String {
    format!(
        r#"{{"streams":[{{"codec_type":"video","width":1920,"height":1080,"side_data_list":[{{"rotation":{}}}]}},{{"codec_type":"audio"}}],"format":{{"duration":"12.5","size":"1000","bit_rate":"800"}}}}"#,
        rotation
    )
}

#[test]
fn probe_reads_all_fields() {
    let info = probe_info(&report("0")).unwrap();
    assert_eq!(info.resolution(), (1920, 1080));
    assert_eq!(info.size(), 1000);
    assert_eq!(info.bit_rate(), 800);
    assert!(info.has_audio());
    assert_eq!(info.duration_text.as_deref(), Some("12.5"));
}

#[test]
fn quarter_turns_swap_resolution() {
    for rot in ["90", "270", "-90", "\"90\"", "\"-90\""] {
        let info = probe_info(&report(rot)).unwrap();
        assert_eq!(info.resolution, (1080, 1920), "rotation {}", rot);
    }
}

#[test]
fn half_turns_keep_resolution() {
    for rot in ["0", "180", "-180", "\"180\"", "\"-180\"", "null"] {
        let info = probe_info(&report(rot)).unwrap();
        assert_eq!(info.resolution, (1920, 1080), "rotation {}", rot);
    }
}

#[test]
fn unlisted_rotation_is_parse_error() {
    for rot in ["45", "360", "-270", "1", "\"45\"", "12.5", "\"abc\""] {
        let r = probe_info(&report(rot));
        assert!(matches!(r, Err(VideoInfoError::ParseIntError(_))), "rotation {}", rot);
    }
}

#[test]
fn rotation_of_other_type_is_json_error() {
    let r = probe_info(&report("true"));
    assert!(matches!(r, Err(VideoInfoError::JsonError(_))));
}

#[test]
fn not_json_is_json_error() {
    assert!(matches!(probe_info("not json"), Err(VideoInfoError::JsonError(_))));
}

#[test]
fn missing_fields_read_as_zero() {
    let info = probe_info("{}").unwrap();
    assert_eq!(info.resolution, (0, 0));
    assert_eq!(info.size, 0);
    assert_eq!(info.bit_rate, 0);
    assert!(!info.has_audio);
    assert_eq!(info.duration_text, None);
}

#[test]
fn numeric_size_is_ignored_but_bad_text_fails() {
    let info = probe_info(r#"{"format":{"size":1234}}"#).unwrap();
    assert_eq!(info.size, 0);
    let r = probe_info(r#"{"format":{"size":"12x"}}"#);
    assert!(matches!(r, Err(VideoInfoError::ParseIntError(_))));
    let r = probe_info(r#"{"format":{"bit_rate":"4294967296"}}"#);
    assert!(matches!(r, Err(VideoInfoError::ParseIntError(_))));
}

#[test]
fn dimensions_come_from_first_video_stream_with_them() {
    let text = r#"{"streams":[{"codec_type":"audio","width":5,"height":6},{"codec_type":"video"},{"codec_type":"video","width":640,"height":480}]}"#;
    let info = probe_info(text).unwrap();
    assert_eq!(info.resolution, (640, 480));
    assert!(info.has_audio);
}

#[test]
fn rotation_degrees_map() {
    assert_eq!(rotation_from_degrees(-180).unwrap(), FfmpegVideoRotation::Rot180);
    assert_eq!(rotation_from_degrees(270).unwrap(), FfmpegVideoRotation::Rot270);
    assert!(rotation_from_degrees(30).is_err());
    assert_eq!(oriented_resolution(FfmpegVideoRotation::Rot90, 4, 3), (3, 4));
    assert_eq!(oriented_resolution(FfmpegVideoRotation::Rot180, 4, 3), (4, 3));
}

#[test]
fn report_bytes_must_be_utf8() {
    assert_eq!(stats_text(&vec![0xff, 0xfe]), Err(FfmpegErrorKind::Utf8Conversion));
    assert_eq!(stats_text(&b"{}".to_vec()).unwrap(), "{}");
    let r = probe_report(&b"[1,".to_vec());
    assert!(matches!(r, Err(FfmpegErrorKind::VideoInfo(VideoInfoError::JsonError(_)))));
    let info = probe_report(&report("90").into_bytes()).unwrap();
    assert_eq!(info.resolution, (1080, 1920));
}

#[test]
fn stream_report_fields() {
    let s = summarize_stream_report("  h264|video|12.000000 \n");
    assert!(s.is_video);
    assert_eq!(s.duration_text, "12.000000");
    let s = summarize_stream_report("mp3|audio|3.0");
    assert!(!s.is_video);
    let s = summarize_stream_report("h264|video");
    assert!(s.is_video);
    assert_eq!(s.duration_text, "");
    let s = summarize_stream_report("");
    assert!(!s.is_video);
}
