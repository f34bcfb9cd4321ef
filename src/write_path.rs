//! Progress of one pass of the write path: how much of a request the data
//! callback has been offered, and where in the input data the next offer starts.
use vstd::prelude::*;

verus! {

/// One pass of the write path over `total_frames` frames of output.
#[derive(Clone, Copy, Debug, PartialEq, Eq, Structural)]
pub struct WritePath {
    /// Frames the pass was asked for.
    pub total_frames: usize,
    /// Frames offered to the callback so far.
    pub frames_done: usize,
    /// Bytes still to write.
    pub remaining: usize,
    /// Byte offset of the next offer's input data.
    pub read_offset: usize,
    /// Bytes per output frame.
    pub out_frame_size: usize,
    /// Bytes per input frame; zero where the pass has no input data.
    pub in_frame_size: usize,
}

/// Offering frames that the pass still needs keeps it well formed.
pub proof fn lemma_advanced_wf(p: WritePath, frames: nat)
    requires
        p.wf(),
        frames <= p.total_frames - p.frames_done,
    ensures
        p.advanced(frames).wf(),
        p.advanced(frames).frames_done == p.frames_done + frames,
        p.advanced(frames).read_offset == (p.frames_done + frames) * p.in_frame_size,
        frames * p.out_frame_size <= p.remaining,
        (p.frames_done + frames) * p.in_frame_size <= usize::MAX,
        p.read_offset + frames * p.in_frame_size == (p.frames_done + frames) * p.in_frame_size,
{
    let done = p.frames_done as int;
    let total = p.total_frames as int;
    let f = frames as int;
    let ofs = p.out_frame_size as int;
    let ifs = p.in_frame_size as int;
    assert((total - done) * ofs - f * ofs == (total - (done + f)) * ofs) by (nonlinear_arith);
    assert(f * ofs <= (total - done) * ofs) by (nonlinear_arith)
        requires
            f <= total - done,
            ofs > 0,
    ;
    assert(done * ifs + f * ifs == (done + f) * ifs) by (nonlinear_arith);
    assert((done + f) * ifs <= total * ifs) by (nonlinear_arith)
        requires
            done + f <= total,
            ifs >= 0,
    ;
}

impl WritePath {
    pub open spec fn wf(self) -> bool {
        &&& self.out_frame_size > 0
        &&& self.frames_done <= self.total_frames
        &&& self.remaining == (self.total_frames - self.frames_done) * self.out_frame_size
        &&& self.read_offset == self.frames_done * self.in_frame_size
        &&& self.total_frames * self.out_frame_size <= usize::MAX
        &&& self.total_frames * self.in_frame_size <= usize::MAX
    }

    /// The state after the callback was offered `frames` more frames.
    pub open spec fn advanced(self, frames: nat) -> WritePath {
        WritePath {
            frames_done: (self.frames_done + frames) as usize,
            remaining: (self.remaining - frames * self.out_frame_size) as usize,
            read_offset: (self.read_offset + frames * self.in_frame_size) as usize,
            ..self
        }
    }

    /// A pass over `frames` frames of output, reading input frames of
    /// `in_frame_size` bytes alongside (none where it is zero).
    pub fn new(frames: usize, out_frame_size: usize, in_frame_size: usize) -> (r: WritePath)
        requires
            out_frame_size > 0,
            frames * out_frame_size <= usize::MAX,
            frames * in_frame_size <= usize::MAX,
        ensures
            r.wf(),
            r.total_frames == frames,
            r.frames_done == 0,
            r.read_offset == 0,
            r.remaining == frames * out_frame_size,
            r.out_frame_size == out_frame_size,
            r.in_frame_size == in_frame_size,
    {
        WritePath {
            total_frames: frames,
            frames_done: 0,
            remaining: frames * out_frame_size,
            read_offset: 0,
            out_frame_size,
            in_frame_size,
        }
    }

    /// Whether bytes are left to write.
    pub fn pending(&self) -> (r: bool)
        ensures
            r == (self.remaining > 0),
    {
        self.remaining > 0
    }

    /// Frames to offer for a buffer of `buffer_bytes`: whole frames of the
    /// buffer, and no more than the pass still needs.
    pub fn offer(&self, buffer_bytes: usize) -> (r: usize)
        requires
            self.wf(),
        ensures
            r == (if buffer_bytes < self.remaining {
                buffer_bytes
            } else {
                self.remaining
            }) / self.out_frame_size,
            r <= self.total_frames - self.frames_done,
            r * self.out_frame_size <= self.remaining,
    {
        let b = if buffer_bytes < self.remaining {
            buffer_bytes
        } else {
            self.remaining
        };
        let r = b / self.out_frame_size;
        proof {
            let fs = self.out_frame_size as int;
            let left = (self.total_frames - self.frames_done) as int;
            let bi = b as int;
            assert(r * fs <= bi) by (nonlinear_arith)
                requires
                    r == bi / fs,
                    fs > 0,
                    bi >= 0,
            ;
            assert(r <= left) by (nonlinear_arith)
                requires
                    r * fs <= left * fs,
                    fs > 0,
            ;
        }
        r
    }

    /// Records that `frames` frames were offered.
    pub fn advance(&mut self, frames: usize)
        requires
            old(self).wf(),
            frames <= old(self).total_frames - old(self).frames_done,
        ensures
            final(self).wf(),
            *final(self) == old(self).advanced(frames as nat),
    {
        proof {
            lemma_advanced_wf(*self, frames as nat);
        }
        self.frames_done = self.frames_done + frames;
        self.remaining = self.remaining - frames * self.out_frame_size;
        self.read_offset = self.read_offset + frames * self.in_frame_size;
    }
}

} // verus!
