//! The metadata probe's parsing: from the prober's JSON report to a
//! normalized, rotation-corrected `VideoInfo`.
use vstd::prelude::*;
use vstd::string::*;
use crate::command::utf8_string;
use crate::error::{FfmpegErrorKind, VideoInfoError};
use vstd::utf8::{decode_utf8, valid_utf8};
use crate::json::{
    element, json_array_len, json_element, json_i64, json_is_null, json_is_number, json_member,
    json_text, json_tree, json_u64, member, parse_json, parsed_json, JsonTree,
};
use crate::numeric::{parse_i64, parse_u32, parse_u64, signed_text, unsigned_text};

verus! {

/// The rotation a video declares, normalized to a quarter turn.
#[derive(Debug, Clone, Copy, PartialEq, Eq)]
pub enum FfmpegVideoRotation {
    Rot0,
    Rot90,
    Rot180,
    Rot270,
}

/// Which kind of parse failure a probe ends in.
pub enum ProbeFailure {
    Json,
    Int,
}

pub open spec fn fails_as(e: VideoInfoError, f: ProbeFailure) -> bool {
    match f {
        ProbeFailure::Json => e is JsonError,
        ProbeFailure::Int => e is ParseIntError,
    }
}

/// The metadata of one video, with its resolution given as the frames are
/// decoded (after rotation). The duration is kept as the prober's decimal
/// text, `None` when the report has none.
#[derive(Debug, PartialEq, Eq)]
pub struct VideoInfo {
    pub duration_text: Option<String>,
    pub size: u64,
    pub bit_rate: u32,
    pub resolution: (u32, u32),
    pub has_audio: bool,
}

impl VideoInfo {
    pub fn size(&self) -> (r: u64)
        ensures
            r == self.size,
    {
        self.size
    }

    pub fn bit_rate(&self) -> (r: u32)
        ensures
            r == self.bit_rate,
    {
        self.bit_rate
    }

    pub fn resolution(&self) -> (r: (u32, u32))
        ensures
            r == self.resolution,
    {
        self.resolution
    }

    pub fn has_audio(&self) -> (r: bool)
        ensures
            r == self.has_audio,
    {
        self.has_audio
    }
}

/// The accepted rotations in degrees and their normalization.
pub open spec fn rotation_of_degrees(d: int) -> Option<FfmpegVideoRotation> {
    if d == 0 {
        Some(FfmpegVideoRotation::Rot0)
    } else if d == 90 {
        Some(FfmpegVideoRotation::Rot90)
    } else if d == 180 || d == -180 {
        Some(FfmpegVideoRotation::Rot180)
    } else if d == 270 || d == -90 {
        Some(FfmpegVideoRotation::Rot270)
    } else {
        None
    }
}

/// A resolution as decoded frames have it: a quarter or three-quarter turn
/// swaps the prober's width and height.
pub open spec fn oriented(rot: FfmpegVideoRotation, w: u32, h: u32) -> (u32, u32) {
    match rot {
        FfmpegVideoRotation::Rot90 | FfmpegVideoRotation::Rot270 => (h, w),
        _ => (w, h),
    }
}

pub open spec fn format_text(t: JsonTree, key: Seq<char>) -> Option<Seq<char>> {
    match member(member(t, "format"@), key) {
        JsonTree::Text(s) => Some(s),
        _ => None,
    }
}

pub open spec fn items(v: JsonTree) -> Seq<JsonTree> {
    match v {
        JsonTree::Array(s) => s,
        _ => Seq::empty(),
    }
}

pub open spec fn streams_of(t: JsonTree) -> Seq<JsonTree> {
    items(member(t, "streams"@))
}

pub open spec fn has_type(s: JsonTree, ty: Seq<char>) -> bool {
    member(s, "codec_type"@) == JsonTree::Text(ty)
}

/// The index of the first video stream at or after `i`.
pub open spec fn first_video_from(s: Seq<JsonTree>, i: int) -> Option<int>
    decreases s.len() - i,
{
    if i < 0 || i >= s.len() {
        None
    } else if has_type(s[i], "video"@) {
        Some(i)
    } else {
        first_video_from(s, i + 1)
    }
}

/// The first of the video streams at or after `i` whose `key` holds a
/// number with a `u64` reading, and that reading.
pub open spec fn first_dimension_from(s: Seq<JsonTree>, key: Seq<char>, i: int) -> Option<u64>
    decreases s.len() - i,
{
    if i < 0 || i >= s.len() {
        None
    } else if has_type(s[i], "video"@) && member(s[i], key) matches JsonTree::Number(_, Some(u)) {
        Some(member(s[i], key)->Number_1->0)
    } else {
        first_dimension_from(s, key, i + 1)
    }
}

/// A dimension as the report gives it for the first video stream that has
/// it, cut to 32 bits; 0 when none has it.
pub open spec fn raw_dimension(t: JsonTree, key: Seq<char>) -> u32 {
    match first_dimension_from(streams_of(t), key, 0) {
        Some(u) => (u % 0x1_0000_0000) as u32,
        None => 0,
    }
}

pub open spec fn has_audio_spec(t: JsonTree) -> bool {
    exists|i: int| 0 <= i < streams_of(t).len() && has_type(#[trigger] streams_of(t)[i], "audio"@)
}

pub open spec fn degrees_rotation(d: Option<int>) -> Result<FfmpegVideoRotation, ProbeFailure> {
    match d {
        Some(d) => match rotation_of_degrees(d) {
            Some(r) => Ok(r),
            None => Err(ProbeFailure::Int),
        },
        None => Err(ProbeFailure::Int),
    }
}

/// The rotation field of a stream: that of its first side-data entry.
pub open spec fn rotation_field(stream: JsonTree) -> JsonTree {
    member(element(member(stream, "side_data_list"@), 0), "rotation"@)
}

/// The rotation the first video stream declares: none declared is no
/// rotation; a number or a decimal text must be one of the accepted values.
pub open spec fn rotation_spec(t: JsonTree) -> Result<FfmpegVideoRotation, ProbeFailure> {
    rotation_of_streams(streams_of(t))
}

pub open spec fn rotation_of_streams(s: Seq<JsonTree>) -> Result<FfmpegVideoRotation, ProbeFailure> {
    match first_video_from(s, 0) {
        None => Ok(FfmpegVideoRotation::Rot0),
        Some(i) => match rotation_field(s[i]) {
            JsonTree::Null => Ok(FfmpegVideoRotation::Rot0),
            JsonTree::Text(x) => degrees_rotation(
                match signed_text(x) {
                    Some(n) => if i64::MIN <= n <= i64::MAX { Some(n) } else { None },
                    None => None,
                },
            ),
            JsonTree::Number(i, _) => degrees_rotation(
                match i {
                    Some(n) => Some(n as int),
                    None => None,
                },
            ),
            _ => Err(ProbeFailure::Json),
        },
    }
}

/// An unsigned field of the report's format section: 0 when absent or not
/// a text, its value when the text is a number that fits under `max`.
pub open spec fn format_number(t: JsonTree, key: Seq<char>, max: nat) -> Option<nat> {
    match format_text(t, key) {
        None => Some(0),
        Some(s) => match unsigned_text(s) {
            Some(n) => if n <= max { Some(n) } else { None },
            None => None,
        },
    }
}

pub open spec fn opt_view(o: Option<String>) -> Option<Seq<char>> {
    match o {
        Some(s) => Some(s@),
        None => None,
    }
}

/// What probing a report yields. It fails on text that is not JSON, on a
/// size or bit rate whose text is not a number that fits, and on a rotation
/// that is not accepted; fields that are absent or of another type read as
/// zero.
pub open spec fn probe_outcome(text: Seq<char>, r: Result<VideoInfo, VideoInfoError>) -> bool {
    match parsed_json(text) {
        None => r matches Err(e) && e is JsonError,
        Some(t) => match (
            format_number(t, "size"@, u64::MAX as nat),
            format_number(t, "bit_rate"@, u32::MAX as nat),
        ) {
            (None, _) => r matches Err(e) && e is ParseIntError,
            (Some(_), None) => r matches Err(e) && e is ParseIntError,
            (Some(size), Some(bit_rate)) => match rotation_spec(t) {
                Err(f) => r matches Err(e) && fails_as(e, f),
                Ok(rot) => r matches Ok(info) && {
                    &&& opt_view(info.duration_text) == format_text(t, "duration"@)
                    &&& info.size == size
                    &&& info.bit_rate == bit_rate
                    &&& info.resolution == oriented(
                        rot,
                        raw_dimension(t, "width"@),
                        raw_dimension(t, "height"@),
                    )
                    &&& info.has_audio == has_audio_spec(t)
                },
            },
        },
    }
}

/// The normalized rotation for a rotation in degrees; any value but the
/// accepted ones is a parse error.
pub fn rotation_from_degrees(d: i64) -> (r: Result<FfmpegVideoRotation, VideoInfoError>)
    ensures
        rotation_of_degrees(d as int) matches Some(rot) ==> r == Ok::<
            FfmpegVideoRotation,
            VideoInfoError,
        >(rot),
        rotation_of_degrees(d as int) is None ==> (r matches Err(e) && e is ParseIntError),
{
    if d == 0 {
        Ok(FfmpegVideoRotation::Rot0)
    } else if d == 90 {
        Ok(FfmpegVideoRotation::Rot90)
    } else if d == 180 || d == -180 {
        Ok(FfmpegVideoRotation::Rot180)
    } else if d == 270 || d == -90 {
        Ok(FfmpegVideoRotation::Rot270)
    } else {
        let mut msg = String::from_str("ffprobe failure. Got unexpected rotation: ");
        let deg = d.to_string();
        msg.append(deg.as_str());
        Err(VideoInfoError::ParseIntError(msg))
    }
}

/// The resolution of decoded frames for the prober's width and height.
pub fn oriented_resolution(rot: FfmpegVideoRotation, width: u32, height: u32) -> (r: (u32, u32))
    ensures
        r == oriented(rot, width, height),
{
    match rot {
        FfmpegVideoRotation::Rot90 | FfmpegVideoRotation::Rot270 => (height, width),
        _ => (width, height),
    }
}

fn format_field(root: &serde_json::Value, key: &str) -> (r: Option<String>)
    ensures
        opt_view(r) == format_text(json_tree(*root), key@),
{
    let format = json_member(root, "format");
    let field = json_member(&format, key);
    json_text(&field)
}

fn format_u64(root: &serde_json::Value, key: &str) -> (r: Result<u64, VideoInfoError>)
    ensures
        r is Ok <==> format_number(json_tree(*root), key@, u64::MAX as nat) is Some,
        r matches Ok(v) ==> format_number(json_tree(*root), key@, u64::MAX as nat) == Some(
            v as nat,
        ),
        r matches Err(e) ==> e is ParseIntError,
{
    match format_field(root, key) {
        None => Ok(0),
        Some(text) => match parse_u64(text.as_str()) {
            Ok(v) => Ok(v),
            Err(m) => Err(VideoInfoError::ParseIntError(m)),
        },
    }
}

fn format_u32(root: &serde_json::Value, key: &str) -> (r: Result<u32, VideoInfoError>)
    ensures
        r is Ok <==> format_number(json_tree(*root), key@, u32::MAX as nat) is Some,
        r matches Ok(v) ==> format_number(json_tree(*root), key@, u32::MAX as nat) == Some(
            v as nat,
        ),
        r matches Err(e) ==> e is ParseIntError,
{
    match format_field(root, key) {
        None => Ok(0),
        Some(text) => match parse_u32(text.as_str()) {
            Ok(v) => Ok(v),
            Err(m) => Err(VideoInfoError::ParseIntError(m)),
        },
    }
}

fn has_codec_type(stream: &serde_json::Value, ty: &str) -> (r: bool)
    ensures
        r == has_type(json_tree(*stream), ty@),
{
    let field = json_member(stream, "codec_type");
    match json_text(&field) {
        Some(text) => {
            let want = String::from_str(ty);
            text == want
        },
        None => false,
    }
}

fn first_video_index(streams: &serde_json::Value, n: usize) -> (r: Option<usize>)
    requires
        items(json_tree(*streams)).len() == n,
    ensures
        match r {
            Some(i) => i < n && first_video_from(items(json_tree(*streams)), 0) == Some(i as int),
            None => first_video_from(items(json_tree(*streams)), 0) is None,
        },
{
    let ghost s = items(json_tree(*streams));
    let mut i: usize = 0;
    while i < n
        invariant
            i <= n,
            s.len() == n,
            s == items(json_tree(*streams)),
            first_video_from(s, 0) == first_video_from(s, i as int),
        decreases n - i,
    {
        let stream = json_element(streams, i);
        assert(json_tree(stream) == s[i as int]);
        if has_codec_type(&stream, "video") {
            return Some(i);
        }
        i = i + 1;
    }
    None
}

fn first_video_dimension(streams: &serde_json::Value, n: usize, key: &str) -> (r: Option<u64>)
    requires
        items(json_tree(*streams)).len() == n,
    ensures
        r == first_dimension_from(items(json_tree(*streams)), key@, 0),
{
    let ghost s = items(json_tree(*streams));
    let mut i: usize = 0;
    while i < n
        invariant
            i <= n,
            s.len() == n,
            s == items(json_tree(*streams)),
            first_dimension_from(s, key@, 0) == first_dimension_from(s, key@, i as int),
        decreases n - i,
    {
        let stream = json_element(streams, i);
        assert(json_tree(stream) == s[i as int]);
        if has_codec_type(&stream, "video") {
            let field = json_member(&stream, key);
            if let Some(u) = json_u64(&field) {
                return Some(u);
            }
        }
        i = i + 1;
    }
    None
}

fn any_audio(streams: &serde_json::Value, n: usize) -> (r: bool)
    requires
        items(json_tree(*streams)).len() == n,
    ensures
        r == exists|j: int|
            0 <= j < n && has_type(#[trigger] items(json_tree(*streams))[j], "audio"@),
{
    let ghost s = items(json_tree(*streams));
    let mut i: usize = 0;
    while i < n
        invariant
            i <= n,
            s.len() == n,
            s == items(json_tree(*streams)),
            forall|j: int| 0 <= j < i ==> !has_type(#[trigger] s[j], "audio"@),
        decreases n - i,
    {
        let stream = json_element(streams, i);
        assert(json_tree(stream) == s[i as int]);
        if has_codec_type(&stream, "audio") {
            return true;
        }
        i = i + 1;
    }
    false
}

fn rotation_of(streams: &serde_json::Value, n: usize) -> (r: Result<
    FfmpegVideoRotation,
    VideoInfoError,
>)
    requires
        items(json_tree(*streams)).len() == n,
    ensures
        match rotation_of_streams(items(json_tree(*streams))) {
            Ok(rot) => r == Ok::<FfmpegVideoRotation, VideoInfoError>(rot),
            Err(f) => r matches Err(e) && fails_as(e, f),
        },
{
    match first_video_index(streams, n) {
        None => Ok(FfmpegVideoRotation::Rot0),
        Some(i) => {
            let stream = json_element(streams, i);
            let side_data = json_member(&stream, "side_data_list");
            let first_entry = json_element(&side_data, 0);
            let rotation = json_member(&first_entry, "rotation");
            let ghost s = items(json_tree(*streams));
            assert(json_tree(stream) == s[i as int]);
            assert(json_tree(rotation) == rotation_field(s[i as int]));
            if json_is_null(&rotation) {
                Ok(FfmpegVideoRotation::Rot0)
            } else {
                match json_text(&rotation) {
                    Some(text) => match parse_i64(text.as_str()) {
                        Ok(d) => rotation_from_degrees(d),
                        Err(m) => Err(VideoInfoError::ParseIntError(m)),
                    },
                    None => if json_is_number(&rotation) {
                        match json_i64(&rotation) {
                            Some(d) => rotation_from_degrees(d),
                            None => Err(
                                VideoInfoError::ParseIntError(
                                    String::from_str("ffprobe failure. Got unexpected rotation"),
                                ),
                            ),
                        }
                    } else {
                        Err(VideoInfoError::JsonError(String::from_str("Failed to parse JSON")))
                    },
                }
            }
        },
    }
}

/// Parses the prober's JSON report into a `VideoInfo`.
pub fn probe_info(text: &str) -> (r: Result<VideoInfo, VideoInfoError>)
    ensures
        probe_outcome(text@, r),
{
    let root = match parse_json(text) {
        Ok(v) => v,
        Err(m) => return Err(VideoInfoError::JsonError(m)),
    };
    let duration_text = format_field(&root, "duration");
    let size = format_u64(&root, "size")?;
    let bit_rate = format_u32(&root, "bit_rate")?;
    let streams = json_member(&root, "streams");
    let n: usize = match json_array_len(&streams) {
        Some(len) => len,
        None => 0,
    };
    let rot = rotation_of(&streams, n)?;
    let width: u32 = match first_video_dimension(&streams, n, "width") {
        Some(u) => (u % 0x1_0000_0000) as u32,
        None => 0,
    };
    let height: u32 = match first_video_dimension(&streams, n, "height") {
        Some(u) => (u % 0x1_0000_0000) as u32,
        None => 0,
    };
    let resolution = oriented_resolution(rot, width, height);
    let has_audio = any_audio(&streams, n);
    Ok(VideoInfo { duration_text, size, bit_rate, resolution, has_audio })
}

/// The prober's standard output as text; output that is not UTF-8 is an error.
pub fn stats_text(stdout: &Vec<u8>) -> (r: Result<String, FfmpegErrorKind>)
    ensures
        !valid_utf8(stdout@) ==> r == Err::<String, FfmpegErrorKind>(FfmpegErrorKind::Utf8Conversion),
        valid_utf8(stdout@) ==> (r matches Ok(s) && s@ == decode_utf8(stdout@)),
{
    match utf8_string(stdout) {
        Some(s) => Ok(s),
        None => Err(FfmpegErrorKind::Utf8Conversion),
    }
}

/// A `VideoInfo` from the prober's standard output: the text must be UTF-8,
/// then it is parsed as `probe_info` does, its errors wrapped.
pub fn probe_report(stdout: &Vec<u8>) -> (r: Result<VideoInfo, FfmpegErrorKind>)
    ensures
        !valid_utf8(stdout@) ==> r == Err::<VideoInfo, FfmpegErrorKind>(FfmpegErrorKind::Utf8Conversion),
        valid_utf8(stdout@) ==> exists|p: Result<VideoInfo, VideoInfoError>| {
            &&& probe_outcome(decode_utf8(stdout@), p)
            &&& match p {
                Ok(info) => r == Ok::<VideoInfo, FfmpegErrorKind>(info),
                Err(e) => r == Err::<VideoInfo, FfmpegErrorKind>(FfmpegErrorKind::VideoInfo(e)),
            }
        },
{
    let text = stats_text(stdout)?;
    let p = probe_info(text.as_str());
    match p {
        Ok(info) => Ok(info),
        Err(e) => Err(FfmpegErrorKind::from(e)),
    }
}

/// The raw width and height that the report gives for its video streams.
pub open spec fn raw_resolution(t: JsonTree) -> (u32, u32) {
    (raw_dimension(t, "width"@), raw_dimension(t, "height"@))
}

/// A successful probe of a report whose video declares a quarter or
/// three-quarter turn has the prober's width and height swapped; with no
/// turn or a half turn it has them unchanged.
pub proof fn lemma_rotation_orients_resolution(text: Seq<char>, r: Result<VideoInfo, VideoInfoError>)
    requires
        probe_outcome(text, r),
        r is Ok,
    ensures
        parsed_json(text) is Some,
        rotation_spec(parsed_json(text)->0) is Ok,
        ({
            let t = parsed_json(text)->0;
            let rot = rotation_spec(t)->Ok_0;
            let (w, h) = raw_resolution(t);
            &&& (rot == FfmpegVideoRotation::Rot90 || rot == FfmpegVideoRotation::Rot270) ==> r->Ok_0.resolution == (h, w)
            &&& (rot == FfmpegVideoRotation::Rot0 || rot == FfmpegVideoRotation::Rot180) ==> r->Ok_0.resolution == (w, h)
        }),
{
}

/// The rotation the first video stream declares, read as an integer: a
/// number with an integer reading, or a decimal text.
pub open spec fn declared_degrees(t: JsonTree) -> Option<int> {
    match first_video_from(streams_of(t), 0) {
        None => None,
        Some(i) => match rotation_field(streams_of(t)[i]) {
            JsonTree::Text(x) => signed_text(x),
            JsonTree::Number(Some(n), _) => Some(n as int),
            _ => None,
        },
    }
}

/// Probing a report whose video declares a rotation other than 0, 90, 180,
/// 270, -90 or -180 degrees fails with a parse error.
pub proof fn lemma_unlisted_rotation_fails(text: Seq<char>, r: Result<VideoInfo, VideoInfoError>, d: int)
    requires
        probe_outcome(text, r),
        parsed_json(text) matches Some(t) && declared_degrees(t) == Some(d),
        d != 0 && d != 90 && d != 180 && d != 270 && d != -90 && d != -180,
    ensures
        r matches Err(e) && e is ParseIntError,
{
}

} // verus!
