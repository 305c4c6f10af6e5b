//! The frame stream's consumption state: when it finishes, and how raw
//! decoder output is gathered into whole, fixed-size RGB frames.
use vstd::prelude::*;

verus! {

/// Bytes per pixel of a 24-bit RGB frame.
pub const BYTES_PER_PIXEL: u64 = 3;

/// Milliseconds to pause between two partial reads of one frame.
pub const CHUNK_PAUSE_MILLIS: u64 = 10;

/// The byte length of a `width` by `height` RGB frame.
pub open spec fn frame_len_spec(width: u32, height: u32) -> nat {
    (width as nat) * (height as nat) * (BYTES_PER_PIXEL as nat)
}

/// What to do when the next frame is asked for.
#[derive(Debug, Clone, Copy, PartialEq, Eq)]
pub enum FrameStart {
    /// The stream has ended: stop the decoder and reap it.
    Stop,
    /// Read decoder output into a fresh frame.
    Fill,
}

/// What came of one attempt to read decoder output while a frame fills.
#[derive(Debug, Clone, PartialEq, Eq)]
pub enum FillEvent {
    /// The deadline passed before the read.
    DeadlinePassed,
    /// The read returned these bytes (none: the decoder's output ended).
    Chunk(Vec<u8>),
    /// The read failed.
    Failed,
}

/// What follows a fill event.
#[derive(Debug, Clone, PartialEq, Eq)]
pub enum FillStep {
    /// The frame is not full yet: pause, then read again.
    NeedMore,
    /// The frame is full; these are its bytes.
    Frame(Vec<u8>),
    /// The stream has ended; a partly filled frame is dropped.
    Ended,
}

/// The consumption state of one frame stream: `Active` while frames may
/// still come, `Finished` once the limit is reached, the deadline passes,
/// the decoder's output ends or a read fails. `Finished` is final.
pub struct FrameSession {
    width: u32,
    height: u32,
    frame_len: usize,
    frame_limit: u32,
    frames_read: u32,
    finished: bool,
    filling: bool,
    buf: Vec<u8>,
}

impl FrameSession {
    pub closed spec fn spec_width(&self) -> u32 {
        self.width
    }

    pub closed spec fn spec_height(&self) -> u32 {
        self.height
    }

    pub closed spec fn spec_frame_len(&self) -> nat {
        self.frame_len as nat
    }

    pub closed spec fn spec_frame_limit(&self) -> u32 {
        self.frame_limit
    }

    pub closed spec fn spec_frames_read(&self) -> u32 {
        self.frames_read
    }

    pub closed spec fn spec_finished(&self) -> bool {
        self.finished
    }

    pub closed spec fn spec_filling(&self) -> bool {
        self.filling
    }

    /// The bytes of the frame being filled.
    pub closed spec fn spec_partial(&self) -> Seq<u8> {
        self.buf@
    }

    pub closed spec fn wf(&self) -> bool {
        &&& self.frame_len as nat == frame_len_spec(self.width, self.height)
        &&& self.frame_len > 0
        &&& self.frames_read <= self.frame_limit
        &&& self.finished ==> !self.filling
        &&& self.filling ==> self.buf@.len() < self.frame_len
        &&& self.filling ==> self.frames_read < self.frame_limit
        &&& !self.filling ==> self.buf@.len() == 0
    }

    /// A stream of `width` by `height` frames that ends after `frame_limit`
    /// frames at most.
    pub fn new(width: u32, height: u32, frame_limit: u32) -> (r: Self)
        requires
            width > 0,
            height > 0,
            frame_len_spec(width, height) <= usize::MAX,
        ensures
            r.wf(),
            r.spec_width() == width,
            r.spec_height() == height,
            r.spec_frame_len() == frame_len_spec(width, height),
            r.spec_frame_limit() == frame_limit,
            r.spec_frames_read() == 0,
            !r.spec_finished(),
            !r.spec_filling(),
    {
        proof {
            assert((width as nat) * (height as nat) <= frame_len_spec(width, height))
                by (nonlinear_arith)
                requires
                    frame_len_spec(width, height) == (width as nat) * (height as nat) * 3,
            ;
            assert(frame_len_spec(width, height) > 0) by (nonlinear_arith)
                requires
                    frame_len_spec(width, height) == (width as nat) * (height as nat) * 3,
                    width > 0,
                    height > 0,
            ;
        }
        let area: usize = (width as usize) * (height as usize);
        let len: usize = area * 3;
        FrameSession {
            width,
            height,
            frame_len: len,
            frame_limit,
            frames_read: 0,
            finished: false,
            filling: false,
            buf: Vec::new(),
        }
    }

    pub fn width(&self) -> (r: u32)
        ensures
            r == self.spec_width(),
    {
        self.width
    }

    pub fn height(&self) -> (r: u32)
        ensures
            r == self.spec_height(),
    {
        self.height
    }

    /// The byte length of one frame.
    pub fn frame_len(&self) -> (r: usize)
        ensures
            r == self.spec_frame_len(),
    {
        self.frame_len
    }

    pub fn frames_read(&self) -> (r: u32)
        ensures
            r == self.spec_frames_read(),
    {
        self.frames_read
    }

    pub fn is_finished(&self) -> (r: bool)
        ensures
            r == self.spec_finished(),
    {
        self.finished
    }

    /// How many bytes the frame being filled still lacks.
    pub fn remaining(&self) -> (r: usize)
        requires
            self.wf(),
        ensures
            self.spec_filling() ==> r == self.spec_frame_len() - self.spec_partial().len(),
            self.spec_filling() ==> r > 0,
            !self.spec_filling() ==> r == 0,
    {
        if self.filling {
            self.frame_len - self.buf.len()
        } else {
            0
        }
    }

    /// The next frame is asked for. The stream finishes, for good, when it
    /// had finished, has given its frame limit, or its deadline has passed;
    /// otherwise a fresh frame starts to fill.
    pub fn begin_frame(&mut self, past_deadline: bool) -> (r: FrameStart)
        requires
            old(self).wf(),
            !old(self).spec_filling(),
        ensures
            final(self).wf(),
            final(self).spec_width() == old(self).spec_width(),
            final(self).spec_height() == old(self).spec_height(),
            final(self).spec_frame_len() == old(self).spec_frame_len(),
            final(self).spec_frame_limit() == old(self).spec_frame_limit(),
            final(self).spec_frames_read() == old(self).spec_frames_read(),
            ({
                let stop = old(self).spec_finished() || old(self).spec_frames_read()
                    >= old(self).spec_frame_limit() || past_deadline;
                &&& stop ==> r == FrameStart::Stop && final(self).spec_finished()
                    && !final(self).spec_filling()
                &&& !stop ==> r == FrameStart::Fill && !final(self).spec_finished()
                    && final(self).spec_filling() && final(self).spec_partial().len() == 0
            }),
    {
        if self.finished || self.frames_read >= self.frame_limit || past_deadline {
            self.finished = true;
            FrameStart::Stop
        } else {
            self.buf = Vec::new();
            self.filling = true;
            FrameStart::Fill
        }
    }

    /// The stream finished on this step, short of its frame limit, with the
    /// frame count kept.
    pub open spec fn ended_after(self, before: Self, r: FillStep) -> bool {
        &&& r == FillStep::Ended
        &&& self.spec_finished()
        &&& self.spec_frames_read() == before.spec_frames_read()
        &&& self.spec_frames_read() < self.spec_frame_limit()
    }

    /// The bytes `chunk` were appended to the frame on this step, and the
    /// frame was handed out if that filled it.
    pub open spec fn appended_after(self, before: Self, chunk: Seq<u8>, r: FillStep) -> bool {
        let data = before.spec_partial() + chunk;
        &&& !self.spec_finished()
        &&& data.len() < before.spec_frame_len() ==> {
            &&& r == FillStep::NeedMore
            &&& self.spec_filling()
            &&& self.spec_partial() == data
            &&& self.spec_frames_read() == before.spec_frames_read()
        }
        &&& data.len() == before.spec_frame_len() ==> {
            &&& r matches FillStep::Frame(f) && f@ == data
            &&& !self.spec_filling()
            &&& self.spec_frames_read() == before.spec_frames_read() + 1
        }
    }

    /// One read attempt while a frame fills. A passed deadline, a failed
    /// read or an empty read finish the stream and drop the partial frame;
    /// bytes are appended, and a frame that becomes full is handed out and
    /// counted.
    pub fn on_fill_event(&mut self, event: FillEvent) -> (r: FillStep)
        requires
            old(self).wf(),
            old(self).spec_filling(),
            event matches FillEvent::Chunk(c) ==> c@.len() <= old(self).spec_frame_len()
                - old(self).spec_partial().len(),
        ensures
            final(self).wf(),
            final(self).spec_width() == old(self).spec_width(),
            final(self).spec_height() == old(self).spec_height(),
            final(self).spec_frame_len() == old(self).spec_frame_len(),
            final(self).spec_frame_limit() == old(self).spec_frame_limit(),
            match event {
                FillEvent::Chunk(c) => if c@.len() == 0 {
                    final(self).ended_after(*old(self), r)
                } else {
                    final(self).appended_after(*old(self), c@, r)
                },
                _ => final(self).ended_after(*old(self), r),
            },
    {
        match event {
            FillEvent::DeadlinePassed | FillEvent::Failed => {
                self.abandon();
                FillStep::Ended
            },
            FillEvent::Chunk(chunk) => {
                if chunk.len() == 0 {
                    self.abandon();
                    return FillStep::Ended;
                }
                let ghost start = self.buf@;
                let ghost before = *self;
                let mut i: usize = 0;
                while i < chunk.len()
                    invariant
                        i <= chunk@.len(),
                        self.width == before.width,
                        self.height == before.height,
                        self.frame_len == before.frame_len,
                        self.frame_limit == before.frame_limit,
                        self.frames_read == before.frames_read,
                        self.finished == before.finished,
                        self.filling == before.filling,
                        self.buf@ == start + chunk@.subrange(0, i as int),
                    decreases chunk@.len() - i,
                {
                    self.buf.push(chunk[i]);
                    proof {
                        assert(chunk@.subrange(0, i + 1) == chunk@.subrange(0, i as int).push(
                            chunk@[i as int],
                        ));
                    }
                    i = i + 1;
                }
                proof {
                    assert(chunk@.subrange(0, chunk@.len() as int) == chunk@);
                }
                if self.buf.len() == self.frame_len {
                    self.frames_read = self.frames_read + 1;
                    self.filling = false;
                    let frame = self.buf.split_off(0);
                assert(frame@ =~= start + chunk@);
                    FillStep::Frame(frame)
                } else {
                    FillStep::NeedMore
                }
            },
        }
    }

    fn abandon(&mut self)
        requires
            old(self).wf(),
        ensures
            final(self).wf(),
            final(self).spec_finished(),
            !final(self).spec_filling(),
            final(self).spec_width() == old(self).spec_width(),
            final(self).spec_height() == old(self).spec_height(),
            final(self).spec_frame_len() == old(self).spec_frame_len(),
            final(self).spec_frame_limit() == old(self).spec_frame_limit(),
            final(self).spec_frames_read() == old(self).spec_frames_read(),
    {
        self.finished = true;
        self.filling = false;
        self.buf = Vec::new();
    }
}

fn copy_range(v: &Vec<u8>, from: usize, to: usize) -> (r: Vec<u8>)
    requires
        from <= to <= v@.len(),
    ensures
        r@ == v@.subrange(from as int, to as int),
{
    let mut r: Vec<u8> = Vec::new();
    let mut i: usize = from;
    while i < to
        invariant
            from <= i <= to,
            to <= v@.len(),
            r@ == v@.subrange(from as int, i as int),
        decreases to - i,
    {
        r.push(v[i]);
        proof {
            assert(v@.subrange(from as int, i + 1) =~= v@.subrange(from as int, i as int).push(
                v@[i as int],
            ));
        }
        i = i + 1;
    }
    r
}

pub open spec fn min_u32_nat(a: u32, b: nat) -> nat {
    if (a as nat) <= b { a as nat } else { b }
}

/// The frames in a decoder's complete output, read `chunk` bytes at a time
/// through a frame stream with this geometry and frame limit and no
/// deadline: as many whole frames as the output holds, up to the limit, each
/// the next `width * height * 3` bytes; a trailing partial frame is dropped.
pub fn frames_from_output(width: u32, height: u32, frame_limit: u32, output: &Vec<u8>, chunk: usize)
    -> (r: Vec<Vec<u8>>)
    requires
        width > 0,
        height > 0,
        frame_len_spec(width, height) <= usize::MAX,
        chunk > 0,
    ensures
        r@.len() == min_u32_nat(frame_limit, output@.len() / frame_len_spec(width, height)),
        forall|i: int|
            0 <= i < r@.len() ==> (#[trigger] r@[i])@ == output@.subrange(
                i * frame_len_spec(width, height),
                (i + 1) * frame_len_spec(width, height),
            ),
{
    let mut session = FrameSession::new(width, height, frame_limit);
    let len = session.frame_len();
    let ghost l = len as int;
    let mut frames: Vec<Vec<u8>> = Vec::new();
    let mut pos: usize = 0;
    let mut done = false;
    while !done
        invariant
            session.wf(),
            !session.spec_filling(),
            session.spec_frame_len() == l,
            l == frame_len_spec(width, height),
            l > 0,
            len == l,
            chunk > 0,
            session.spec_frame_limit() == frame_limit,
            session.spec_frames_read() == frames@.len(),
            pos == frames@.len() * l,
            pos <= output@.len(),
            !done ==> !session.spec_finished(),
            done ==> (frames@.len() == frame_limit || output@.len() - pos < l),
            forall|i: int|
                0 <= i < frames@.len() ==> (#[trigger] frames@[i])@ == output@.subrange(
                    i * l,
                    (i + 1) * l,
                ),
        decreases output@.len() - pos + (if done { 0int } else { 1int }),
    {
        match session.begin_frame(false) {
            FrameStart::Stop => {
                done = true;
            },
            FrameStart::Fill => {
                let mut got: usize = 0;
                let mut filling = true;
                let ghost pos0 = pos as int;
                while filling
                    invariant
                        session.wf(),
                        session.spec_frame_len() == l,
                        len == l,
                        l > 0,
                        chunk > 0,
                        session.spec_frame_limit() == frame_limit,
                        pos <= output@.len(),
                        filling ==> session.spec_filling(),
                        filling ==> !done,
                        filling ==> !session.spec_finished(),
                        filling ==> session.spec_frames_read() == frames@.len(),
                        filling ==> pos == frames@.len() * l,
                        filling ==> pos == pos0,
                        !filling && !done ==> pos == pos0 + l,
                        done ==> pos == pos0,
                        !filling && !done ==> got == 0,
                        pos + got <= output@.len(),
                        filling ==> pos + got <= output@.len(),
                        filling ==> got < l,
                        filling ==> session.spec_partial() == output@.subrange(
                            pos as int,
                            pos + got,
                        ),
                        !filling ==> !session.spec_filling(),
                        !filling ==> session.spec_frames_read() == frames@.len(),
                        !filling ==> pos == frames@.len() * l,
                        !filling && !done ==> !session.spec_finished(),
                        !filling && done ==> output@.len() - pos < l,
                        forall|i: int|
                            0 <= i < frames@.len() ==> (#[trigger] frames@[i])@
                                == output@.subrange(i * l, (i + 1) * l),
                    decreases (if filling { 1int } else { 0int }) + output@.len() - pos - got,
                {
                    let avail = output.len() - pos - got;
                    let need = session.remaining();
                    let mut take = if chunk < need { chunk } else { need };
                    if avail < take {
                        take = avail;
                    }
                    let c = copy_range(output, pos + got, pos + got + take);
                    let ghost before = session;
                    match session.on_fill_event(FillEvent::Chunk(c)) {
                        FillStep::NeedMore => {
                            assert(session.spec_partial() =~= output@.subrange(
                                pos as int,
                                pos + got + take,
                            ));
                            got = got + take;
                        },
                        FillStep::Frame(f) => {
                            proof {
                                assert(f@ =~= output@.subrange(pos as int, pos + l));
                                assert((frames@.len() + 1) * l == frames@.len() * l + l)
                                    by (nonlinear_arith);
                            }
                            frames.push(f);
                            pos = pos + len;
                            got = 0;
                            filling = false;
                        },
                        FillStep::Ended => {
                            filling = false;
                            done = true;
                        },
                    }
                }
            },
        }
    }
    proof {
        let n = output@.len() as int;
        let k = frames@.len() as int;
        if k == frame_limit as int {
            assert(k <= n / l) by (nonlinear_arith)
                requires
                    k * l <= n,
                    l > 0,
                    k >= 0,
            ;
        } else {
            assert(n / l == k) by (nonlinear_arith)
                requires
                    k * l <= n,
                    n - k * l < l,
                    l > 0,
                    k >= 0,
            ;
        }
    }
    frames
}

} // verus!
