use vstd::arithmetic::div_mod::lemma_fundamental_div_mod;
use vstd::arithmetic::mul::lemma_mul_inequality;
use vstd::pervasive::unreached;
use vstd::prelude::*;

use crate::fonts::glyph_frame_ok;
use crate::frame::{
    blank_view, merged, shifted_left, shifted_right, Frame,
};

verus! {

/// An effect filter to apply for an animation.
#[derive(Clone, Copy, Debug, PartialEq, Eq)]
pub enum AnimationEffect {
    /// No effect: each source frame is shown as it is.
    NoEffect,
    /// Sliding effect: frames scroll in from the right, column by column.
    Slide,
}

/// Errors produced when running animations.
#[derive(Clone, Copy, Debug, PartialEq, Eq)]
pub enum AnimationError {
    /// No animation frames were supplied.
    NoFrames,
    /// The animation is too fast for the tick resolution: the duration
    /// cannot be evenly divided into a positive per-step wait.
    TooFast,
}

/// The source material of an animation: either pre-built frames or raw
/// bytes, each resolved to a glyph frame through the font table.
#[derive(Clone, Copy)]
pub enum AnimationData<'a> {
    /// Pre-built frames, shown as they are.
    Frames(&'a [Frame]),
    /// Raw byte values, each rendered as a 5x5 character glyph.
    Bytes(&'a [u8]),
}

impl<'a> AnimationData<'a> {
    /// Number of source elements.
    pub open spec fn spec_len(self) -> nat {
        match self {
            AnimationData::Frames(f) => f@.len(),
            AnimationData::Bytes(b) => b@.len(),
        }
    }

    /// Rows of every resolved frame.
    pub open spec fn spec_rows(self) -> nat {
        match self {
            AnimationData::Frames(f) => f@[0].spec_rows(),
            AnimationData::Bytes(_) => 5,
        }
    }

    /// Columns of every resolved frame.
    pub open spec fn spec_cols(self) -> nat {
        match self {
            AnimationData::Frames(f) => f@[0].spec_cols(),
            AnimationData::Bytes(_) => 5,
        }
    }

    /// Pre-built frames must all share the dimensions of the first; a byte
    /// source always resolves to 5x5 glyphs.
    pub open spec fn wf(self) -> bool {
        match self {
            AnimationData::Frames(f) => forall|i: int|
                0 <= i < f@.len() ==> {
                    &&& (#[trigger] f@[i]).wf()
                    &&& f@[i].spec_rows() == f@[0].spec_rows()
                    &&& f@[i].spec_cols() == f@[0].spec_cols()
                },
            AnimationData::Bytes(_) => true,
        }
    }

    /// What holds of the frame resolved for position `i`: a pre-built frame
    /// is handed out unchanged; a byte resolves to its glyph frame.
    pub open spec fn frame_ok(self, i: int, f: Seq<Seq<u8>>) -> bool {
        match self {
            AnimationData::Frames(fs) => f == fs@[i]@,
            AnimationData::Bytes(bs) => glyph_frame_ok(bs@[i] as u32, f),
        }
    }

    /// Element count of the source.
    pub fn len(&self) -> (n: usize)
        ensures
            n == self.spec_len(),
    {
        match *self {
            AnimationData::Frames(f) => f.len(),
            AnimationData::Bytes(b) => b.len(),
        }
    }

    /// The frame for position `idx`: the pre-built frame itself, or the
    /// glyph frame rendered from the byte at that position.
    pub fn frame(&self, idx: usize) -> (f: Frame)
        requires
            self.wf(),
            idx < self.spec_len(),
        ensures
            f.wf(),
            f.spec_rows() == self.spec_rows(),
            f.spec_cols() == self.spec_cols(),
            self.frame_ok(idx as int, f@),
    {
        match *self {
            AnimationData::Frames(fs) => fs[idx].copy_of(),
            AnimationData::Bytes(bs) => {
                let cf = crate::fonts::ascii_frame(bs[idx]);
                match cf.try_5x5(5, 5) {
                    Ok(f) => f,
                    Err(_) => unreached(),
                }
            },
        }
    }
}

/// One frame of output from polling the engine.
#[derive(Debug, PartialEq)]
pub enum AnimationState {
    /// The next step is not due yet; nothing to do.
    Wait,
    /// Display this frame before the next physical refresh.
    Apply(Frame),
    /// The run is complete; stop polling and clear the display.
    Done,
}

/// The engine that turns a sequence of source frames into a time-paced
/// sequence of rendered frames. Construction resolves the source and fixes
/// the schedule; each successful poll advances the state by exactly one
/// step.
pub struct Animation {
    /// The resolved source frames, all of dimensions `rows` x `cols`.
    pub frames: Vec<Frame>,
    /// Columns already shifted out of the current source frame, or `cols`
    /// as a sentinel once a no-effect slot has run its course.
    pub sequence: usize,
    /// Index of the current source frame.
    pub frame_index: usize,
    /// Steps emitted so far.
    pub index: usize,
    /// Total number of steps of the run.
    pub length: usize,
    /// The effect applied between source frames.
    pub effect: AnimationEffect,
    /// Ticks between consecutive steps.
    pub wait: u64,
    /// Tick at which the next step falls due.
    pub next: u64,
    /// Columns of every frame.
    pub cols: usize,
    /// Rows of every frame.
    pub rows: usize,
}

impl Animation {
    /// Total step count of a run: one step per source element without an
    /// effect, one step per column of every source element for a slide.
    pub open spec fn spec_step_total(effect: AnimationEffect, n: nat, cols: nat) -> nat {
        match effect {
            AnimationEffect::Slide => n * cols,
            AnimationEffect::NoEffect => n,
        }
    }

    /// A duration can pace `total` steps only if it splits evenly into a
    /// positive per-step wait.
    pub open spec fn spec_wait_ok(duration: u64, total: nat) -> bool {
        &&& total >= 1
        &&& duration as int % total as int == 0
        &&& duration >= total
    }

    /// The resolved frames are rectangular and share one set of dimensions.
    pub open spec fn frames_wf(self) -> bool {
        &&& self.frames@.len() >= 1
        &&& self.cols >= 1
        &&& self.rows >= 1
        &&& forall|i: int|
            0 <= i < self.frames@.len() ==> {
                &&& (#[trigger] self.frames@[i]).wf()
                &&& self.frames@[i].spec_rows() == self.rows
                &&& self.frames@[i].spec_cols() == self.cols
            }
    }

    /// How `frame_index` and `sequence` track `index`, per effect.
    pub open spec fn progress_wf(self) -> bool {
        match self.effect {
            AnimationEffect::Slide => {
                &&& self.sequence < self.cols
                &&& self.index == self.frame_index * self.cols + self.sequence
            },
            AnimationEffect::NoEffect => {
                if self.index < self.cols {
                    &&& self.sequence == self.index
                    &&& self.frame_index == 0
                } else {
                    &&& self.sequence == self.cols
                    &&& self.frame_index == self.index - (self.cols - 1)
                }
            },
        }
    }

    /// The remaining schedule fits the tick counter.
    pub open spec fn no_overflow(self) -> bool {
        self.next + (self.length - self.index) * self.wait <= u64::MAX
    }

    /// Well-formedness of an engine state: every state a successful
    /// construction hands out satisfies it, and every poll preserves it.
    pub open spec fn inv(self) -> bool {
        &&& self.frames_wf()
        &&& self.length == Self::spec_step_total(
            self.effect,
            self.frames@.len(),
            self.cols as nat,
        )
        &&& self.index <= self.length
        &&& self.progress_wf()
        &&& self.no_overflow()
    }

    /// The frame sliding in after the current one: the next source frame,
    /// or an all-off frame when the current one is the last.
    pub open spec fn incoming_view(self) -> Seq<Seq<u8>> {
        if self.frame_index + 1 < self.frames@.len() {
            self.frames@[self.frame_index + 1]@
        } else {
            blank_view(self.rows as nat, self.cols as nat)
        }
    }

    /// The frame owed for the current position: the current source frame as
    /// it is without an effect; for a slide, the current frame shifted left
    /// by `sequence` columns merged with the incoming frame shifted right by
    /// the remaining columns.
    pub open spec fn current_view(self) -> Seq<Seq<u8>> {
        match self.effect {
            AnimationEffect::NoEffect => self.frames@[self.frame_index as int]@,
            AnimationEffect::Slide => merged(
                shifted_left(self.frames@[self.frame_index as int]@, self.sequence as nat),
                shifted_right(self.incoming_view(), (self.cols - self.sequence) as nat),
            ),
        }
    }

    /// Law: at the start of a slide transition (no columns shifted out yet)
    /// the emitted frame is the current source frame unchanged: the
    /// incoming frame is still shifted fully off, so the merge adds
    /// nothing.
    pub proof fn lemma_slide_transition_start(self)
        requires
            self.inv(),
            self.effect == AnimationEffect::Slide,
            self.sequence == 0,
            self.index < self.length,
        ensures
            self.current_view() == self.frames@[self.frame_index as int]@,
    {
        self.lemma_frame_index_in_range();
        let cur = self.frames@[self.frame_index as int]@;
        let inc = self.incoming_view();
        crate::frame::lemma_shift_zero(cur);
        assert(crate::frame::grid_wf(inc)) by {
            if self.frame_index + 1 >= self.frames@.len() {
                assert(inc =~~= blank_view(self.rows as nat, self.cols as nat));
                assert(inc[0].len() == self.cols);
            }
        }
        crate::frame::lemma_shift_past_width(inc, self.cols as nat);
        assert(shifted_right(inc, self.cols as nat) =~~= blank_view(
            cur.len(),
            cur[0].len(),
        ));
        crate::frame::lemma_merge_blank(cur);
    }

    proof fn lemma_frame_index_in_range(self)
        requires
            self.inv(),
            self.index < self.length,
        ensures
            self.frame_index < self.frames@.len(),
    {
        let n = self.frames@.len() as int;
        match self.effect {
            AnimationEffect::Slide => {
                if self.frame_index >= n {
                    lemma_mul_inequality(n, self.frame_index as int, self.cols as int);
                    assert(false);
                }
            },
            AnimationEffect::NoEffect => {},
        }
    }

    /// Create an animation run over the given source. `now` is the current
    /// tick; the first step falls due immediately. An empty source and a
    /// duration that cannot pace the computed step count are rejected.
    #[verifier::rlimit(50)]
    pub fn new(frames: AnimationData, effect: AnimationEffect, duration: u64, now: u64) -> (r:
        Result<Animation, AnimationError>)
        requires
            frames.wf(),
            now + duration <= u64::MAX,
            frames.spec_len() * frames.spec_cols() <= usize::MAX,
        ensures
            match r {
                Ok(a) => {
                    &&& frames.spec_len() >= 1
                    &&& Self::spec_wait_ok(
                        duration,
                        Self::spec_step_total(effect, frames.spec_len(), frames.spec_cols()),
                    )
                    &&& a.inv()
                    &&& a.effect == effect
                    &&& a.index == 0
                    &&& a.sequence == 0
                    &&& a.frame_index == 0
                    &&& a.next == now
                    &&& a.cols == frames.spec_cols()
                    &&& a.rows == frames.spec_rows()
                    &&& a.length == Self::spec_step_total(
                        effect,
                        frames.spec_len(),
                        frames.spec_cols(),
                    )
                    &&& a.wait as int * a.length as int == duration as int
                    &&& a.wait as int == duration as int / (a.length as int)
                    &&& a.wait >= 1
                    &&& a.frames@.len() == frames.spec_len()
                    &&& forall|i: int|
                        0 <= i < frames.spec_len() ==> frames.frame_ok(
                            i,
                            (#[trigger] a.frames@[i])@,
                        )
                },
                Err(e) => {
                    match e {
                        AnimationError::NoFrames => frames.spec_len() == 0,
                        AnimationError::TooFast => {
                            &&& frames.spec_len() >= 1
                            &&& !Self::spec_wait_ok(
                                duration,
                                Self::spec_step_total(
                                    effect,
                                    frames.spec_len(),
                                    frames.spec_cols(),
                                ),
                            )
                        },
                    }
                },
            },
    {
        let n = frames.len();
        if n == 0 {
            return Err(AnimationError::NoFrames);
        }
        let (rows, cols): (usize, usize) = match frames {
            AnimationData::Frames(fs) => (fs[0].rows(), fs[0].cols()),
            AnimationData::Bytes(_) => (5, 5),
        };
        let length: usize = match effect {
            AnimationEffect::Slide => {
                proof {
                    lemma_mul_inequality(1, n as int, cols as int);
                }
                n * cols
            },
            AnimationEffect::NoEffect => n,
        };
        let lu: u64 = length as u64;
        if duration % lu != 0 || duration < lu {
            return Err(AnimationError::TooFast);
        }
        let wait: u64 = duration / lu;
        proof {
            lemma_fundamental_div_mod(duration as int, lu as int);
            assert(duration as int == lu as int * (wait as int));
            assert(lu as int == length as int);
            assert(lu as int * (wait as int) == wait as int * (length as int)) by (nonlinear_arith)
                requires
                    lu as int == length as int,
            ;
            assert(wait as int * (length as int) == duration as int);
            if wait == 0 {
                assert(lu as int * 0int == 0int) by (nonlinear_arith);
                assert(false);
            }
        }
        let mut resolved: Vec<Frame> = Vec::new();
        let mut i: usize = 0;
        while i < n
            invariant
                i <= n,
                n == frames.spec_len(),
                frames.wf(),
                cols == frames.spec_cols(),
                rows == frames.spec_rows(),
                resolved@.len() == i,
                forall|k: int|
                    0 <= k < i ==> {
                        &&& (#[trigger] resolved@[k]).wf()
                        &&& resolved@[k].spec_rows() == rows
                        &&& resolved@[k].spec_cols() == cols
                        &&& frames.frame_ok(k, resolved@[k]@)
                    },
            decreases n - i,
        {
            resolved.push(frames.frame(i));
            i = i + 1;
        }
        let a = Animation {
            frames: resolved,
            sequence: 0,
            frame_index: 0,
            index: 0,
            length,
            effect,
            wait,
            next: now,
            cols,
            rows,
        };
        proof {
            assert(0int * (cols as int) == 0int) by (nonlinear_arith);
            assert(a.inv());
        }
        Ok(a)
    }

    /// Shift a frame's pixels sideways: a negative amount shifts left, a
    /// positive one shifts right. Pixels shifted over the edge are
    /// discarded and vacated columns are filled with zeros; an amount of 0
    /// leaves the frame unchanged.
    pub fn shift(frame: &mut Frame, shift: isize)
        requires
            old(frame).wf(),
            shift != isize::MIN,
        ensures
            final(frame).wf(),
            final(frame).spec_rows() == old(frame).spec_rows(),
            final(frame).spec_cols() == old(frame).spec_cols(),
            shift == 0 ==> final(frame)@ == old(frame)@,
            shift < 0 ==> final(frame)@ == shifted_left(old(frame)@, (-shift) as nat),
            shift > 0 ==> final(frame)@ == shifted_right(old(frame)@, shift as nat),
    {
        if shift == 0 {
            return ;
        }
        if shift < 0 {
            let k: usize = (-shift) as usize;
            Self::shift_left_by(frame, k);
        } else {
            let k: usize = shift as usize;
            Self::shift_right_by(frame, k);
        }
    }

    fn shift_left_by(frame: &mut Frame, k: usize)
        requires
            old(frame).wf(),
        ensures
            final(frame).wf(),
            final(frame).spec_rows() == old(frame).spec_rows(),
            final(frame).spec_cols() == old(frame).spec_cols(),
            final(frame)@ == shifted_left(old(frame)@, k as nat),
    {
        let rows = frame.grid.len();
        let cols = frame.grid[0].len();
        let mut out: Vec<Vec<u8>> = Vec::new();
        let mut r: usize = 0;
        while r < rows
            invariant
                old(frame).wf(),
                frame.grid@ == old(frame).grid@,
                rows == frame@.len(),
                cols == frame@[0].len(),
                r <= rows,
                out@.len() == r,
                forall|i: int|
                    0 <= i < r ==> (#[trigger] out@[i])@ == crate::frame::row_shifted_left(
                        frame@[i],
                        k as nat,
                    ),
            decreases rows - r,
        {
            let src: &Vec<u8> = &frame.grid[r];
            proof {
                assert(src@ == frame@[r as int]);
                assert(frame@[r as int].len() == frame@[0].len());
            }
            let mut row: Vec<u8> = Vec::new();
            let mut c: usize = 0;
            while c < cols
                invariant
                    cols == src@.len(),
                    c <= cols,
                    row@.len() == c,
                    forall|j: int|
                        0 <= j < c ==> (#[trigger] row@[j]) == crate::frame::row_shifted_left(
                            src@,
                            k as nat,
                        )[j],
                decreases cols - c,
            {
                let val: u8 = if k < cols && c < cols - k {
                    src[c + k]
                } else {
                    0
                };
                row.push(val);
                c = c + 1;
            }
            proof {
                assert(row@ =~= crate::frame::row_shifted_left(src@, k as nat));
            }
            out.push(row);
            r = r + 1;
        }
        frame.grid = out;
        proof {
            assert(frame@ =~~= shifted_left(old(frame)@, k as nat));
        }
    }

    fn shift_right_by(frame: &mut Frame, k: usize)
        requires
            old(frame).wf(),
        ensures
            final(frame).wf(),
            final(frame).spec_rows() == old(frame).spec_rows(),
            final(frame).spec_cols() == old(frame).spec_cols(),
            final(frame)@ == shifted_right(old(frame)@, k as nat),
    {
        let rows = frame.grid.len();
        let cols = frame.grid[0].len();
        let mut out: Vec<Vec<u8>> = Vec::new();
        let mut r: usize = 0;
        while r < rows
            invariant
                old(frame).wf(),
                frame.grid@ == old(frame).grid@,
                rows == frame@.len(),
                cols == frame@[0].len(),
                r <= rows,
                out@.len() == r,
                forall|i: int|
                    0 <= i < r ==> (#[trigger] out@[i])@ == crate::frame::row_shifted_right(
                        frame@[i],
                        k as nat,
                    ),
            decreases rows - r,
        {
            let src: &Vec<u8> = &frame.grid[r];
            proof {
                assert(src@ == frame@[r as int]);
                assert(frame@[r as int].len() == frame@[0].len());
            }
            let mut row: Vec<u8> = Vec::new();
            let mut c: usize = 0;
            while c < cols
                invariant
                    cols == src@.len(),
                    c <= cols,
                    row@.len() == c,
                    forall|j: int|
                        0 <= j < c ==> (#[trigger] row@[j]) == crate::frame::row_shifted_right(
                            src@,
                            k as nat,
                        )[j],
                decreases cols - c,
            {
                let val: u8 = if c >= k {
                    src[c - k]
                } else {
                    0
                };
                row.push(val);
                c = c + 1;
            }
            proof {
                assert(row@ =~= crate::frame::row_shifted_right(src@, k as nat));
            }
            out.push(row);
            r = r + 1;
        }
        frame.grid = out;
        proof {
            assert(frame@ =~~= shifted_right(old(frame)@, k as nat));
        }
    }

    /// Merge `source` into `frame`: every pixel becomes the brighter of the
    /// two levels at its position.
    pub fn merge(frame: &mut Frame, source: &Frame)
        requires
            old(frame).wf(),
            source.wf(),
            old(frame)@.len() == source@.len(),
            old(frame)@[0].len() == source@[0].len(),
        ensures
            final(frame).wf(),
            final(frame).spec_rows() == old(frame).spec_rows(),
            final(frame).spec_cols() == old(frame).spec_cols(),
            final(frame)@ == merged(old(frame)@, source@),
    {
        let rows = frame.grid.len();
        let cols = frame.grid[0].len();
        let mut out: Vec<Vec<u8>> = Vec::new();
        let mut r: usize = 0;
        while r < rows
            invariant
                old(frame).wf(),
                source.wf(),
                frame.grid@ == old(frame).grid@,
                rows == frame@.len(),
                cols == frame@[0].len(),
                frame@.len() == source@.len(),
                frame@[0].len() == source@[0].len(),
                r <= rows,
                out@.len() == r,
                forall|i: int|
                    0 <= i < r ==> (#[trigger] out@[i])@ == merged(frame@, source@)[i],
            decreases rows - r,
        {
            let src: &Vec<u8> = &frame.grid[r];
            let other: &Vec<u8> = &source.grid[r];
            proof {
                assert(src@ == frame@[r as int]);
                assert(frame@[r as int].len() == frame@[0].len());
                assert(other@ == source@[r as int]);
                assert(source@[r as int].len() == source@[0].len());
            }
            let mut row: Vec<u8> = Vec::new();
            let mut c: usize = 0;
            while c < cols
                invariant
                    cols == src@.len(),
                    cols == other@.len(),
                    c <= cols,
                    row@.len() == c,
                    forall|j: int|
                        0 <= j < c ==> (#[trigger] row@[j]) == crate::frame::pixel_max(
                            src@[j],
                            other@[j],
                        ),
                decreases cols - c,
            {
                let a = src[c];
                let b = other[c];
                let val: u8 = if a >= b {
                    a
                } else {
                    b
                };
                row.push(val);
                c = c + 1;
            }
            proof {
                assert(row@ =~= merged(frame@, source@)[r as int]);
            }
            out.push(row);
            r = r + 1;
        }
        frame.grid = out;
        proof {
            assert(frame@ =~~= merged(old(frame)@, source@));
        }
    }

    /// The frame owed for the current position, per the effect.
    pub fn current(&self) -> (f: Frame)
        requires
            self.inv(),
            self.index < self.length,
        ensures
            f.wf(),
            f.spec_rows() == self.rows,
            f.spec_cols() == self.cols,
            f@ == self.current_view(),
    {
        proof {
            self.lemma_frame_index_in_range();
        }
        match self.effect {
            AnimationEffect::NoEffect => self.frames[self.frame_index].copy_of(),
            AnimationEffect::Slide => {
                let flen = self.frames.len();
                let mut cur = self.frames[self.frame_index].copy_of();
                let mut nxt = if self.frame_index < flen - 1 {
                    self.frames[self.frame_index + 1].copy_of()
                } else {
                    Frame::blank(self.rows, self.cols)
                };
                Self::shift_left_by(&mut cur, self.sequence);
                Self::shift_right_by(&mut nxt, self.cols - self.sequence);
                Self::merge(&mut cur, &nxt);
                cur
            },
        }
    }

    /// Poll the engine at tick `now`.
    ///
    /// Before the next step falls due the poll reports `Wait` and changes
    /// nothing, however often it is repeated. A due poll with steps
    /// remaining emits `Apply` with the current frame, advances the
    /// progress counters by exactly one step and moves the due tick forward
    /// by one wait, accumulating rather than restarting so slow callers do
    /// not drift. Once all steps are emitted every due poll reports `Done`.
    pub fn next(&mut self, now: u64) -> (r: AnimationState)
        requires
            old(self).inv(),
        ensures
            final(self).inv(),
            now < old(self).next ==> r == AnimationState::Wait && *final(self) == *old(self),
            old(self).next <= now && old(self).index >= old(self).length ==> r
                == AnimationState::Done && *final(self) == *old(self),
            old(self).next <= now && old(self).index < old(self).length ==> {
                &&& match r {
                    AnimationState::Apply(f) => f@ == old(self).current_view(),
                    _ => false,
                }
                &&& final(self).frames == old(self).frames
                &&& final(self).effect == old(self).effect
                &&& final(self).wait == old(self).wait
                &&& final(self).length == old(self).length
                &&& final(self).cols == old(self).cols
                &&& final(self).rows == old(self).rows
                &&& final(self).index == old(self).index + 1
                &&& final(self).next == old(self).next + old(self).wait
                &&& (old(self).sequence >= old(self).cols - 1 ==> {
                    &&& final(self).frame_index == old(self).frame_index + 1
                    &&& final(self).sequence == (match old(self).effect {
                        AnimationEffect::NoEffect => old(self).cols as int,
                        AnimationEffect::Slide => 0int,
                    })
                })
                &&& (old(self).sequence < old(self).cols - 1 ==> {
                    &&& final(self).frame_index == old(self).frame_index
                    &&& final(self).sequence == old(self).sequence + 1
                })
            },
    {
        if self.next <= now {
            if self.index < self.length {
                let current = self.current();
                proof {
                    self.lemma_frame_index_in_range();
                    match self.effect {
                        AnimationEffect::Slide => {
                            lemma_mul_inequality(1, self.cols as int, self.frame_index as int);
                        },
                        AnimationEffect::NoEffect => {},
                    }
                    assert(self.frame_index < self.length);
                    assert((self.length - self.index) * self.wait >= 1 * self.wait)
                        by (nonlinear_arith)
                        requires
                            self.length - self.index >= 1,
                            self.wait >= 0,
                    ;
                }
                if self.sequence >= self.cols - 1 {
                    self.sequence = match self.effect {
                        AnimationEffect::NoEffect => self.cols,
                        AnimationEffect::Slide => 0,
                    };
                    self.frame_index = self.frame_index + 1;
                } else {
                    self.sequence = self.sequence + 1;
                }
                self.index = self.index + 1;
                self.next = self.next + self.wait;
                proof {
                    let o = *old(self);
                    assert((o.length - o.index) * o.wait == (o.length - o.index - 1) * o.wait
                        + o.wait) by (nonlinear_arith);
                    match o.effect {
                        AnimationEffect::Slide => {
                            if o.sequence >= o.cols - 1 {
                                assert((o.frame_index + 1) * o.cols == o.frame_index * o.cols
                                    + o.cols) by (nonlinear_arith);
                            }
                        },
                        AnimationEffect::NoEffect => {},
                    }
                }
                AnimationState::Apply(current)
            } else {
                AnimationState::Done
            }
        } else {
            AnimationState::Wait
        }
    }
}

/// One poll of the schedule that `next` keeps: at tick `now` a state with
/// `next <= now` and steps remaining counts one Apply and advances by one
/// step; any other poll leaves the state alone. `sched_apply_count` is the
/// number of Apply results over a whole sequence of poll ticks.
pub open spec fn sched_apply_count(
    index: nat,
    length: nat,
    next: int,
    wait: int,
    nows: Seq<u64>,
) -> nat
    decreases nows.len(),
{
    if nows.len() == 0 {
        0
    } else if next <= nows[0] as int && index < length {
        1 + sched_apply_count((index + 1) as nat, length, next + wait, wait, nows.drop_first())
    } else {
        sched_apply_count(index, length, next, wait, nows.drop_first())
    }
}

/// Whether a sequence of poll ticks drives the schedule all the way to a
/// poll that reports Done.
pub open spec fn sched_done_in(
    index: nat,
    length: nat,
    next: int,
    wait: int,
    nows: Seq<u64>,
) -> bool
    decreases nows.len(),
{
    if nows.len() == 0 {
        false
    } else if next <= nows[0] as int && index >= length {
        true
    } else if next <= nows[0] as int && index < length {
        sched_done_in((index + 1) as nat, length, next + wait, wait, nows.drop_first())
    } else {
        sched_done_in(index, length, next, wait, nows.drop_first())
    }
}

proof fn lemma_sched_no_applies(index: nat, length: nat, next: int, wait: int, nows: Seq<u64>)
    requires
        index >= length,
    ensures
        sched_apply_count(index, length, next, wait, nows) == 0,
    decreases nows.len(),
{
    if nows.len() > 0 {
        lemma_sched_no_applies(index, length, next, wait, nows.drop_first());
    }
}

proof fn lemma_sched_exact(index: nat, length: nat, next: int, wait: int, nows: Seq<u64>)
    requires
        index <= length,
        sched_done_in(index, length, next, wait, nows),
    ensures
        sched_apply_count(index, length, next, wait, nows) == length - index,
    decreases nows.len(),
{
    if nows.len() > 0 {
        if next <= nows[0] as int && index >= length {
            lemma_sched_no_applies(index, length, next, wait, nows.drop_first());
        } else if next <= nows[0] as int && index < length {
            lemma_sched_exact((index + 1) as nat, length, next + wait, wait, nows.drop_first());
        } else {
            lemma_sched_exact(index, length, next, wait, nows.drop_first());
        }
    }
}

/// Law: over any sequence of poll ticks that eventually reports Done,
/// exactly one Apply occurs per remaining step — `length - index` of them,
/// so exactly `length` from a fresh construction — however many Wait polls
/// intervene. The schedule arguments mirror the fields of [`Animation`],
/// which `next` advances in exactly this way.
pub proof fn lemma_exact_applies_before_done(a: Animation, nows: Seq<u64>)
    requires
        a.inv(),
        sched_done_in(a.index as nat, a.length as nat, a.next as int, a.wait as int, nows),
    ensures
        sched_apply_count(a.index as nat, a.length as nat, a.next as int, a.wait as int, nows)
            == a.length - a.index,
{
    lemma_sched_exact(a.index as nat, a.length as nat, a.next as int, a.wait as int, nows);
}

} // verus!
