//! Letterbox detection on decoded frames: how many uniform black or white
//! rows and columns border the picture, and the crop that removes them from
//! every frame of a sequence.
use vstd::prelude::*;

verus! {

/// Tolerance of the black-or-white test, per colour channel.
pub const LETTERBOX_TOLERANCE: u32 = 16;

/// A decoded frame: row-major 8-bit RGB, three bytes per pixel.
pub struct RgbFrame {
    pub width: u32,
    pub height: u32,
    pub data: Vec<u8>,
}

impl RgbFrame {
    pub open spec fn wf(&self) -> bool {
        self.data@.len() == (self.width as nat) * (self.height as nat) * 3
    }

    /// A frame from its dimensions and pixel bytes; `None` when the byte
    /// count is not three per pixel.
    pub fn from_raw(width: u32, height: u32, data: Vec<u8>) -> (r: Option<Self>)
        ensures
            r is Some <==> data@.len() == (width as nat) * (height as nat) * 3,
            r matches Some(f) ==> f.width == width && f.height == height && f.data@ == data@,
    {
        proof {
            assert((width as nat) * (height as nat) <= 0xffff_ffff * 0xffff_ffff) by (nonlinear_arith)
                requires
                    width <= 0xffff_ffffu32,
                    height <= 0xffff_ffffu32,
            ;
        }
        let area: u128 = (width as u128) * (height as u128);
        if area * 3 == data.len() as u128 {
            Some(RgbFrame { width, height, data })
        } else {
            None
        }
    }

    /// The sum of the three channels of pixel (`x`, `y`).
    pub open spec fn channel_sum(&self, x: int, y: int) -> int {
        let i = (y * self.width + x) * 3;
        self.data@[i] as int + self.data@[i + 1] as int + self.data@[i + 2] as int
    }
}

/// A pixel that is near enough black or near enough white.
pub open spec fn letterbox_pixel(f: &RgbFrame, x: int, y: int, tol: u32) -> bool {
    f.channel_sum(x, y) <= tol * 3 || f.channel_sum(x, y) >= (255 - tol) * 3
}

/// A side of a frame, whose strips are counted from the edge inwards.
#[derive(Debug, Clone, Copy, PartialEq, Eq)]
pub enum Side {
    Left,
    Right,
    Top,
    Bottom,
}

/// How many strips (columns or rows) lie along a side.
pub open spec fn strip_count(f: &RgbFrame, side: Side) -> nat {
    match side {
        Side::Left | Side::Right => f.width as nat,
        Side::Top | Side::Bottom => f.height as nat,
    }
}

/// Whether the `i`-th strip from a side holds only letterbox pixels.
pub open spec fn strip_is_letterbox(f: &RgbFrame, side: Side, i: int, tol: u32) -> bool {
    match side {
        Side::Left => forall|y: int| 0 <= y < f.height ==> #[trigger] letterbox_pixel(f, i, y, tol),
        Side::Right => forall|y: int|
            0 <= y < f.height ==> #[trigger] letterbox_pixel(f, f.width - 1 - i, y, tol),
        Side::Top => forall|x: int| 0 <= x < f.width ==> #[trigger] letterbox_pixel(f, x, i, tol),
        Side::Bottom => forall|x: int|
            0 <= x < f.width ==> #[trigger] letterbox_pixel(f, x, f.height - 1 - i, tol),
    }
}

/// `n` is the number of letterbox strips at a side, counted from the edge up
/// to the first strip that is not letterbox.
pub open spec fn is_border_width(f: &RgbFrame, side: Side, tol: u32, n: nat) -> bool {
    &&& n <= strip_count(f, side)
    &&& forall|i: int| 0 <= i < n ==> #[trigger] strip_is_letterbox(f, side, i, tol)
    &&& n < strip_count(f, side) ==> !strip_is_letterbox(f, side, n as int, tol)
}

/// The letterbox strips at a side from strip `i` on.
pub open spec fn border_from(f: &RgbFrame, side: Side, tol: u32, i: int) -> nat
    decreases strip_count(f, side) - i,
{
    if i < 0 || i >= strip_count(f, side) {
        0
    } else if strip_is_letterbox(f, side, i, tol) {
        1 + border_from(f, side, tol, i + 1)
    } else {
        0
    }
}

/// The number of letterbox strips at a side.
pub open spec fn border_width(f: &RgbFrame, side: Side, tol: u32) -> nat {
    border_from(f, side, tol, 0)
}

/// A crop of a `orig_res` frame: the rows and columns removed at each side.
#[derive(Debug, Clone, Copy, PartialEq, Eq)]
pub struct Crop {
    pub orig_res: (u32, u32),
    pub left: u32,
    pub right: u32,
    pub top: u32,
    pub bottom: u32,
}

/// A crop that leaves at least one pixel.
pub open spec fn leaves_pixels(c: Crop) -> bool {
    c.left + c.right < c.orig_res.0 && c.top + c.bottom < c.orig_res.1
}

/// The crop asked for when it leaves some pixels, else no crop at all.
pub open spec fn validated(c: Crop) -> Crop {
    if leaves_pixels(c) {
        c
    } else {
        Crop { orig_res: c.orig_res, left: 0, right: 0, top: 0, bottom: 0 }
    }
}

pub open spec fn min_u32(a: u32, b: u32) -> u32 {
    if a <= b { a } else { b }
}

/// The crop that removes only what both crops remove, on the first one's
/// resolution, validated.
pub open spec fn union_spec(a: Crop, b: Crop) -> Crop {
    validated(
        Crop {
            orig_res: a.orig_res,
            left: min_u32(a.left, b.left),
            right: min_u32(a.right, b.right),
            top: min_u32(a.top, b.top),
            bottom: min_u32(a.bottom, b.bottom),
        },
    )
}

impl Crop {
    /// The crop that leaves something or, failing that, no crop.
    pub open spec fn wf(self) -> bool {
        leaves_pixels(self) || (self.left == 0 && self.right == 0 && self.top == 0
            && self.bottom == 0)
    }

    /// A crop of `orig_res`; one that would leave no pixel becomes no crop.
    pub fn new(orig_res: (u32, u32), left: u32, right: u32, top: u32, bottom: u32) -> (r: Self)
        ensures
            r == validated(Crop { orig_res, left, right, top, bottom }),
            r.wf(),
    {
        let (width, height) = orig_res;
        let valid = (left as u64) + (right as u64) < (width as u64) && (top as u64) + (
        bottom as u64) < (height as u64);
        if valid {
            Crop { orig_res, left, right, top, bottom }
        } else {
            Crop { orig_res, left: 0, right: 0, top: 0, bottom: 0 }
        }
    }

    pub fn union(&self, other: &Self) -> (r: Self)
        ensures
            r == union_spec(*self, *other),
            r.wf(),
    {
        Crop::new(
            self.orig_res,
            if self.left <= other.left { self.left } else { other.left },
            if self.right <= other.right { self.right } else { other.right },
            if self.top <= other.top { self.top } else { other.top },
            if self.bottom <= other.bottom { self.bottom } else { other.bottom },
        )
    }

    /// The view the crop keeps: its corner, width and height.
    pub fn as_view_args(&self) -> (r: (u32, u32, u32, u32))
        requires
            self.wf(),
        ensures
            r == (
                self.left,
                self.top,
                (self.orig_res.0 - (self.left + self.right)) as u32,
                (self.orig_res.1 - (self.top + self.bottom)) as u32,
            ),
    {
        let (orig_width, orig_height) = self.orig_res;
        (
            self.left,
            self.top,
            orig_width - (self.left + self.right),
            orig_height - (self.top + self.bottom),
        )
    }
}

proof fn lemma_pixel_in_bounds(w: nat, h: nat, x: nat, y: nat)
    requires
        x < w,
        y < h,
    ensures
        (y * w + x) * 3 + 2 < w * h * 3,
        y * w + x < w * h,
{
    assert(y * w + x < w * h) by (nonlinear_arith)
        requires
            x < w,
            y < h,
    ;
}

fn pixel_is_letterbox(f: &RgbFrame, x: u32, y: u32, tol: u32) -> (r: bool)
    requires
        f.wf(),
        x < f.width,
        y < f.height,
        tol <= 255,
    ensures
        r == letterbox_pixel(f, x as int, y as int, tol),
{
    let len = f.data.len();
    proof {
        lemma_pixel_in_bounds(f.width as nat, f.height as nat, x as nat, y as nat);
        assert((y as nat) * (f.width as nat) <= (y as nat) * (f.width as nat) + (x as nat));
    }
    let i: usize = ((y as usize) * (f.width as usize) + (x as usize)) * 3;
    let sum: u32 = f.data[i] as u32 + f.data[i + 1] as u32 + f.data[i + 2] as u32;
    sum <= tol * 3 || sum >= (255 - tol) * 3
}

fn strip_letterbox(f: &RgbFrame, side: Side, i: u32, tol: u32) -> (r: bool)
    requires
        f.wf(),
        i < strip_count(f, side),
        tol <= 255,
    ensures
        r == strip_is_letterbox(f, side, i as int, tol),
{
    match side {
        Side::Left | Side::Right => {
            let x = match side {
                Side::Left => i,
                _ => f.width - 1 - i,
            };
            let mut y: u32 = 0;
            while y < f.height
                invariant
                    f.wf(),
                    x < f.width,
                    tol <= 255,
                    y <= f.height,
                    x == if side is Left { i as int } else { f.width - 1 - i },
                    side is Left || side is Right,
                    forall|k: int| 0 <= k < y ==> #[trigger] letterbox_pixel(f, x as int, k, tol),
                decreases f.height - y,
            {
                if !pixel_is_letterbox(f, x, y, tol) {
                    return false;
                }
                y = y + 1;
            }
            true
        },
        Side::Top | Side::Bottom => {
            let y = match side {
                Side::Top => i,
                _ => f.height - 1 - i,
            };
            let mut x: u32 = 0;
            while x < f.width
                invariant
                    f.wf(),
                    y < f.height,
                    tol <= 255,
                    x <= f.width,
                    y == if side is Top { i as int } else { f.height - 1 - i },
                    side is Top || side is Bottom,
                    forall|k: int| 0 <= k < x ==> #[trigger] letterbox_pixel(f, k, y as int, tol),
                decreases f.width - x,
            {
                if !pixel_is_letterbox(f, x, y, tol) {
                    return false;
                }
                x = x + 1;
            }
            true
        },
    }
}

/// The number of letterbox strips at one side of a frame.
pub fn measure_side(f: &RgbFrame, side: Side, tol: u32) -> (r: u32)
    requires
        f.wf(),
        tol <= 255,
    ensures
        is_border_width(f, side, tol, r as nat),
        r == border_width(f, side, tol),
{
    let n: u32 = match side {
        Side::Left | Side::Right => f.width,
        Side::Top | Side::Bottom => f.height,
    };
    let mut i: u32 = 0;
    while i < n
        invariant
            f.wf(),
            tol <= 255,
            n == strip_count(f, side),
            i <= n,
            forall|k: int| 0 <= k < i ==> #[trigger] strip_is_letterbox(f, side, k, tol),
            border_from(f, side, tol, 0) == i + border_from(f, side, tol, i as int),
        decreases n - i,
    {
        if !strip_letterbox(f, side, i, tol) {
            return i;
        }
        i = i + 1;
    }
    i
}

/// The crop a frame's letterbox calls for, validated.
pub open spec fn frame_crop(f: &RgbFrame, tol: u32) -> Crop {
    validated(
        Crop {
            orig_res: (f.width, f.height),
            left: border_width(f, Side::Left, tol) as u32,
            right: border_width(f, Side::Right, tol) as u32,
            top: border_width(f, Side::Top, tol) as u32,
            bottom: border_width(f, Side::Bottom, tol) as u32,
        },
    )
}

/// The crop that removes a frame's letterbox, or no crop when that would
/// leave nothing.
pub fn measure_frame(f: &RgbFrame, tol: u32) -> (r: Crop)
    requires
        f.wf(),
        tol <= 255,
    ensures
        r == frame_crop(f, tol),
        r.wf(),
{
    let left = measure_side(f, Side::Left, tol);
    let right = measure_side(f, Side::Right, tol);
    let top = measure_side(f, Side::Top, tol);
    let bottom = measure_side(f, Side::Bottom, tol);
    Crop::new((f.width, f.height), left, right, top, bottom)
}

/// The crop common to a sequence of frames: each frame's crop, combined in
/// order by `union_spec`.
pub open spec fn common_crop(frames: Seq<RgbFrame>, tol: u32) -> Crop
    decreases frames.len(),
{
    if frames.len() <= 1 {
        frame_crop(&frames[0], tol)
    } else {
        union_spec(common_crop(frames.drop_last(), tol), frame_crop(&frames.last(), tol))
    }
}

/// The crop that removes the letterbox shared by all frames, with the
/// standard tolerance.
pub fn letterbox_crop(frames: &Vec<RgbFrame>) -> (r: Crop)
    requires
        frames@.len() > 0,
        forall|i: int| 0 <= i < frames@.len() ==> (#[trigger] frames@[i]).wf(),
    ensures
        r == common_crop(frames@, LETTERBOX_TOLERANCE),
        r.wf(),
{
    let mut crop = measure_frame(&frames[0], LETTERBOX_TOLERANCE);
    let mut i: usize = 1;
    while i < frames.len()
        invariant
            1 <= i <= frames@.len(),
            forall|j: int| 0 <= j < frames@.len() ==> (#[trigger] frames@[j]).wf(),
            crop == common_crop(frames@.subrange(0, i as int), LETTERBOX_TOLERANCE),
            crop.wf(),
        decreases frames@.len() - i,
    {
        let next = measure_frame(&frames[i], LETTERBOX_TOLERANCE);
        crop = crop.union(&next);
        proof {
            let s = frames@.subrange(0, i + 1);
            assert(s.drop_last() =~= frames@.subrange(0, i as int));
            assert(s.last() == frames@[i as int]);
        }
        i = i + 1;
    }
    proof {
        assert(frames@.subrange(0, frames@.len() as int) =~= frames@);
    }
    crop
}

} // verus!
