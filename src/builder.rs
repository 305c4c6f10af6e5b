//! Configuration of a frame stream, and the decoder invocation it asks for.
use vstd::prelude::*;
use vstd::string::*;
use crate::error::FfmpegErrorKind;
use crate::frames::frame_len_spec;
use crate::stats::VideoInfo;

verus! {

/// The decimal text of a number, without sign or leading zeros.
pub open spec fn decimal(n: nat) -> Seq<char>
    decreases n,
{
    if n < 10 {
        seq![(('0' as u32) + n) as char]
    } else {
        decimal(n / 10).push((('0' as u32) + (n % 10)) as char)
    }
}

/// Relies on `ToString` for `u32`: its decimal text.
#[verifier::external_body]
fn u32_text(n: u32) -> (r: String)
    ensures
        r@ == decimal(n as nat),
{
    n.to_string()
}

pub open spec fn views(v: Seq<String>) -> Seq<Seq<char>> {
    v.map_values(|s: String| s@)
}

/// The decoder's arguments: quiet, the input, an optional rate filter, an
/// optional frame cap, then 24-bit RGB raw video streamed to standard output.
pub open spec fn decoder_args_spec(path: Seq<char>, fps: Option<Seq<char>>, num_frames: Option<u32>)
    -> Seq<Seq<char>>
{
    seq!["-hide_banner"@, "-loglevel"@, "warning"@, "-nostats"@, "-i"@, path] + match fps {
        Some(f) => seq!["-vf"@, "fps="@ + f],
        None => Seq::empty(),
    } + match num_frames {
        Some(n) => seq!["-vframes"@, decimal(n as nat)],
        None => Seq::empty(),
    } + seq!["-pix_fmt"@, "rgb24"@, "-c:v"@, "rawvideo"@, "-f"@, "image2pipe"@, "-"@]
}

/// Collects the sampling rate, frame count limit and timeout of a frame
/// stream for one source file.
pub struct FfmpegFrameReaderBuilder {
    pub src_path: String,
    pub fps: Option<String>,
    pub num_frames: Option<u32>,
    pub timeout_secs: Option<u64>,
}

/// What starting a frame stream needs: the decoder's arguments, the frame
/// geometry, the frame limit and the timeout in seconds.
pub struct FramePlan {
    pub args: Vec<String>,
    pub width: u32,
    pub height: u32,
    pub frame_limit: u32,
    pub timeout_secs: u64,
}

pub open spec fn fps_view(fps: Option<String>) -> Option<Seq<char>> {
    match fps {
        Some(f) => Some(f@),
        None => None,
    }
}

/// A resolution frames can be read at: both dimensions non-zero, and a
/// frame's byte length addressable.
pub open spec fn usable_resolution(res: (u32, u32)) -> bool {
    res.0 > 0 && res.1 > 0 && frame_len_spec(res.0, res.1) <= usize::MAX
}

impl FfmpegFrameReaderBuilder {
    pub fn new(src_path: String) -> (r: Self)
        ensures
            r.src_path == src_path,
            r.fps is None,
            r.num_frames is None,
            r.timeout_secs is None,
    {
        FfmpegFrameReaderBuilder { src_path, fps: None, num_frames: None, timeout_secs: None }
    }

    /// Samples frames at this rate (the decoder's `fps` filter value).
    pub fn fps(&mut self, fps: &str) -> (r: &mut Self)
        ensures
            fps_view(r.fps) == Some(fps@),
            *final(self) == *final(r),
            r.src_path == old(self).src_path,
            r.num_frames == old(self).num_frames,
            r.timeout_secs == old(self).timeout_secs,
    {
        self.fps = Some(String::from_str(fps));
        self
    }

    /// Reads at most this many frames.
    pub fn num_frames(&mut self, num_frames: u32) -> (r: &mut Self)
        ensures
            r.num_frames == Some(num_frames),
            *final(self) == *final(r),
            r.src_path == old(self).src_path,
            r.fps == old(self).fps,
            r.timeout_secs == old(self).timeout_secs,
    {
        self.num_frames = Some(num_frames);
        self
    }

    /// Stops reading frames this many seconds after the stream starts.
    pub fn timeout_secs(&mut self, timeout_secs: u64) -> (r: &mut Self)
        ensures
            r.timeout_secs == Some(timeout_secs),
            *final(self) == *final(r),
            r.src_path == old(self).src_path,
            r.fps == old(self).fps,
            r.num_frames == old(self).num_frames,
    {
        self.timeout_secs = Some(timeout_secs);
        self
    }

    /// The decoder's arguments for this configuration.
    pub fn decoder_args(&self) -> (r: Vec<String>)
        ensures
            views(r@) == decoder_args_spec(self.src_path@, fps_view(self.fps), self.num_frames),
    {
        let mut args: Vec<String> = Vec::new();
        args.push(String::from_str("-hide_banner"));
        args.push(String::from_str("-loglevel"));
        args.push(String::from_str("warning"));
        args.push(String::from_str("-nostats"));
        args.push(String::from_str("-i"));
        args.push(self.src_path.clone());
        match &self.fps {
            Some(f) => {
                args.push(String::from_str("-vf"));
                let mut filter = String::from_str("fps=");
                filter.append(f.as_str());
                args.push(filter);
            },
            None => {},
        }
        match self.num_frames {
            Some(n) => {
                args.push(String::from_str("-vframes"));
                args.push(u32_text(n));
            },
            None => {},
        }
        args.push(String::from_str("-pix_fmt"));
        args.push(String::from_str("rgb24"));
        args.push(String::from_str("-c:v"));
        args.push(String::from_str("rawvideo"));
        args.push(String::from_str("-f"));
        args.push(String::from_str("image2pipe"));
        args.push(String::from_str("-"));
        proof {
            assert(views(args@) =~= decoder_args_spec(
                self.src_path@,
                fps_view(self.fps),
                self.num_frames,
            ));
        }
        args
    }

    /// What starting the stream needs, given the source's probed metadata:
    /// a resolution with a zero dimension (or a frame too large to address)
    /// is refused before anything is launched. Without a frame limit the
    /// stream is capped at `u32::MAX` frames, and without a timeout at
    /// `u32::MAX` seconds.
    pub fn plan(&self, info: &VideoInfo) -> (r: Result<FramePlan, FfmpegErrorKind>)
        ensures
            !usable_resolution(info.resolution) ==> (r matches Err(e) && e == FfmpegErrorKind::InvalidResolution),
            usable_resolution(info.resolution) ==> (r matches Ok(p) && {
                &&& views(p.args@) == decoder_args_spec(
                    self.src_path@,
                    fps_view(self.fps),
                    self.num_frames,
                )
                &&& (p.width, p.height) == info.resolution
                &&& p.frame_limit == match self.num_frames {
                    Some(n) => n,
                    None => u32::MAX,
                }
                &&& p.timeout_secs == match self.timeout_secs {
                    Some(t) => t,
                    None => u32::MAX as u64,
                }
            }),
    {
        let (width, height) = info.resolution;
        if width == 0 || height == 0 {
            return Err(FfmpegErrorKind::InvalidResolution);
        }
        proof {
            assert((width as nat) * (height as nat) <= 0xffff_ffff * 0xffff_ffff) by (nonlinear_arith)
                requires
                    width <= 0xffff_ffffu32,
                    height <= 0xffff_ffffu32,
            ;
        }
        let area: u128 = (width as u128) * (height as u128);
        let len: u128 = area * 3;
        if len > usize::MAX as u128 {
            return Err(FfmpegErrorKind::InvalidResolution);
        }
        let frame_limit = match self.num_frames {
            Some(n) => n,
            None => u32::MAX,
        };
        let timeout_secs = match self.timeout_secs {
            Some(t) => t,
            None => u32::MAX as u64,
        };
        Ok(FramePlan { args: self.decoder_args(), width, height, frame_limit, timeout_secs })
    }
}

} // verus!
