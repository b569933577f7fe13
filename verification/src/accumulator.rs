use vstd::prelude::*;

use vstd::arithmetic::div_mod::lemma_fundamental_div_mod_converse;

use crate::FRAME_LEN;

verus! {

/// Interleaved frame length as a spec-level natural.
pub open spec fn spec_frame_len() -> nat {
    FRAME_LEN as nat
}

/// How many frames a stream of `total` interleaved samples yields once the
/// final partial remainder is zero-padded: the total divided by the frame
/// length, rounded up.
pub open spec fn frame_count_for(total: nat) -> nat {
    if total % spec_frame_len() == 0 {
        total / spec_frame_len()
    } else {
        total / spec_frame_len() + 1
    }
}

/// `s` extended with zero samples up to the next whole frame boundary.
pub open spec fn zero_padded(s: Seq<i16>) -> Seq<i16> {
    s + Seq::new((frame_count_for(s.len()) * spec_frame_len() - s.len()) as nat, |i: int| 0i16)
}

/// Reshapes irregularly sized device buffers into fixed-size codec frames.
///
/// Samples arrive interleaved in whatever buffer sizes the audio subsystem
/// chooses; complete frames of exactly `FRAME_LEN` samples leave in arrival
/// order as soon as they are available, and leftovers stay buffered. At
/// stream end the partial remainder is zero-padded into one last frame and
/// the accumulator becomes inert. Over a whole stream of `n` samples the
/// accumulator therefore emits exactly `frame_count_for(n)` frames.
pub struct FrameAccumulator {
    buf: Vec<i16>,
    finished: bool,
    pushed: u64,
    emitted: u64,
}

impl FrameAccumulator {
    /// The samples currently buffered, oldest first.
    pub closed spec fn buffered(self) -> Seq<i16> {
        self.buf@
    }

    /// Whether the stream has ended and the accumulator is inert.
    pub closed spec fn is_finished(self) -> bool {
        self.finished
    }

    /// Samples accepted over the whole stream.
    pub closed spec fn samples_pushed(self) -> u64 {
        self.pushed
    }

    /// Frames handed out over the whole stream.
    pub closed spec fn frames_emitted(self) -> u64 {
        self.emitted
    }

    /// Every accepted sample is either buffered or part of an emitted
    /// frame; once finished, nothing is buffered and the emitted frames
    /// cover the whole zero-padded stream.
    pub open spec fn wf(self) -> bool {
        &&& if self.is_finished() {
            self.buffered().len() == 0 && self.frames_emitted() == frame_count_for(
                self.samples_pushed() as nat,
            )
        } else {
            self.samples_pushed() == self.frames_emitted() * spec_frame_len()
                + self.buffered().len()
        }
    }

    pub fn new() -> (r: Self)
        ensures
            r.buffered() == Seq::<i16>::empty(),
            !r.is_finished(),
            r.samples_pushed() == 0,
            r.frames_emitted() == 0,
            r.wf(),
    {
        FrameAccumulator { buf: Vec::new(), finished: false, pushed: 0, emitted: 0 }
    }

    /// Number of samples currently buffered.
    pub fn buffered_len(&self) -> (n: usize)
        ensures
            n == self.buffered().len(),
    {
        self.buf.len()
    }

    pub fn finished(&self) -> (r: bool)
        ensures
            r == self.is_finished(),
    {
        self.finished
    }

    /// Frames handed out so far.
    pub fn frames_out(&self) -> (n: u64)
        ensures
            n == self.frames_emitted(),
    {
        self.emitted
    }

    /// Samples accepted so far.
    pub fn samples_in(&self) -> (n: u64)
        ensures
            n == self.samples_pushed(),
    {
        self.pushed
    }

    /// Append one device buffer; the samples queue behind what is already
    /// buffered, in arrival order.
    pub fn push(&mut self, chunk: &[i16])
        requires
            !old(self).is_finished(),
            old(self).wf(),
            old(self).samples_pushed() + chunk@.len() <= u64::MAX,
        ensures
            final(self).buffered() == old(self).buffered() + chunk@,
            !final(self).is_finished(),
            final(self).samples_pushed() == old(self).samples_pushed() + chunk@.len(),
            final(self).frames_emitted() == old(self).frames_emitted(),
            final(self).wf(),
    {
        self.buf.extend_from_slice(chunk);
        self.pushed = self.pushed + chunk.len() as u64;
    }

    /// Hand out the oldest complete frame, if one is available: exactly the
    /// first `FRAME_LEN` buffered samples, which leave the buffer.
    pub fn pop_frame(&mut self) -> (r: Option<Vec<i16>>)
        requires
            old(self).wf(),
            !old(self).is_finished(),
        ensures
            final(self).wf(),
            old(self).buffered().len() >= spec_frame_len() ==> (r matches Some(f)
                && f@ == old(self).buffered().take(FRAME_LEN as int)
                && final(self).buffered() == old(self).buffered().skip(FRAME_LEN as int)
                && final(self).frames_emitted() == old(self).frames_emitted() + 1),
            old(self).buffered().len() < spec_frame_len() ==> (r is None
                && *final(self) == *old(self)),
            final(self).is_finished() == old(self).is_finished(),
            final(self).samples_pushed() == old(self).samples_pushed(),
    {
        if self.buf.len() < FRAME_LEN {
            return None;
        }
        proof {
            lemma_emitted_bounded(self.emitted as nat, self.buf@.len(), self.pushed as nat);
        }
        let mut rest = self.buf.split_off(FRAME_LEN);
        core::mem::swap(&mut self.buf, &mut rest);
        self.emitted = self.emitted + 1;
        proof {
            let e = old(self).frames_emitted() as nat;
            assert((e + 1) * spec_frame_len() == e * spec_frame_len() + spec_frame_len())
                by (nonlinear_arith);
        }
        Some(rest)
    }

    /// End the stream: zero-pad any partial remainder into one final full
    /// frame, emit it, and leave the accumulator drained and inert. Callers
    /// take complete frames with `pop_frame` first, so only a partial
    /// remainder can be present. Afterwards the total number of emitted
    /// frames is exactly the accepted sample count divided by the frame
    /// length, rounded up.
    pub fn finish(&mut self) -> (r: Option<Vec<i16>>)
        requires
            old(self).wf(),
            !old(self).is_finished(),
            old(self).buffered().len() < spec_frame_len(),
        ensures
            final(self).wf(),
            final(self).is_finished(),
            final(self).buffered() == Seq::<i16>::empty(),
            final(self).samples_pushed() == old(self).samples_pushed(),
            final(self).frames_emitted() == frame_count_for(old(self).samples_pushed() as nat),
            old(self).buffered().len() == 0 ==> (r is None && final(self).frames_emitted() == old(self).frames_emitted()),
            old(self).buffered().len() > 0 ==> (r matches Some(f) && f@ == zero_padded(
                old(self).buffered(),
            ) && f@.len() == spec_frame_len() && final(self).frames_emitted() == old(self).frames_emitted() + 1),
    {
        proof {
            lemma_fundamental_div_mod_converse(
                self.pushed as int,
                spec_frame_len() as int,
                self.emitted as int,
                self.buf@.len() as int,
            );
        }
        self.finished = true;
        if self.buf.is_empty() {
            return None;
        }
        proof {
            lemma_frame_count_partial(self.buf@.len());
            lemma_emitted_bounded(self.emitted as nat, self.buf@.len(), self.pushed as nat);
        }
        self.buf.resize(FRAME_LEN, 0i16);
        let mut frame = Vec::new();
        core::mem::swap(&mut self.buf, &mut frame);
        self.emitted = self.emitted + 1;
        proof {
            assert(frame@ =~= zero_padded(old(self).buffered()));
        }
        Some(frame)
    }
}

/// A nonempty partial remainder pads to exactly one frame.
proof fn lemma_frame_count_partial(n: nat)
    requires
        0 < n < spec_frame_len(),
    ensures
        frame_count_for(n) == 1,
        frame_count_for(n) * spec_frame_len() - n == spec_frame_len() - n,
{
    assert(n % spec_frame_len() == n) by (nonlinear_arith)
        requires
            0 < n < spec_frame_len(),
    ;
    assert(n / spec_frame_len() == 0) by (nonlinear_arith)
        requires
            0 < n < spec_frame_len(),
    ;
}

/// The emitted-frame counter cannot reach the integer limit while the
/// sample counter still fits in it.
proof fn lemma_emitted_bounded(emitted: nat, buffered: nat, pushed: nat)
    requires
        pushed == emitted * spec_frame_len() + buffered,
        pushed <= u64::MAX,
    ensures
        emitted < u64::MAX,
{
    assert(emitted + emitted <= emitted * spec_frame_len()) by (nonlinear_arith)
        requires
            spec_frame_len() >= 2,
    ;
}

} // verus!
