pub mod decoded;
pub mod file;
pub mod mapped;
pub mod mixed;
pub mod resampled;
pub mod synth;

use vstd::prelude::*;

verus! {

/// Timing info for `AudioSource` buffers: the absolute output stream frame
/// index that the first frame of the buffer being written corresponds to.
#[derive(Debug, Copy, Clone)]
pub struct AudioSourceTime {
    /// Time in absolute sample frames.
    pub pos_in_frames: u64,
}

impl AudioSourceTime {
    /// The time `frames` frames later.
    pub fn with_added_frames(&self, frames: u64) -> (r: AudioSourceTime)
        requires
            self.pos_in_frames + frames <= u64::MAX,
        ensures
            r.pos_in_frames == self.pos_in_frames + frames,
    {
        AudioSourceTime { pos_in_frames: self.pos_in_frames + frames }
    }
}

/// A linear volume factor, carried as the raw bit pattern of an IEEE 754
/// single-precision float. The engine schedules where and when a volume is
/// applied; the numeric multiplication itself is performed by the `Sample`
/// implementation of the embedding application.
#[derive(Debug, Copy, Clone, PartialEq, Eq, Structural)]
pub struct Volume {
    /// Raw bit pattern of the single-precision linear volume factor.
    pub bits: u32,
}

impl Volume {
    /// The unity volume factor 1.0: bit pattern of 1.0f32.
    pub fn unity() -> (r: Volume)
        ensures
            r.bits == 0x3F800000u32,
    {
        Volume { bits: 0x3F800000u32 }
    }
}

/// One interleaved audio sample value.
///
/// The engine is generic over the sample representation: it decides which
/// samples are mixed, scaled or faded and at which buffer positions, while
/// the numeric operations themselves are supplied by the implementor
/// (typically a single-precision float wrapper in the embedding
/// application). None of the methods carry a contract: the engine promises
/// nothing about sample values, only about where they are placed.
pub trait Sample: Copy {
    /// The sum of `self` and `other`, used when mixing sources together.
    fn mixed_with(self, other: Self) -> Self;

    /// `self` scaled by the linear volume factor `volume`.
    fn amplified(self, volume: Volume) -> Self;

    /// `self` scaled by the linear fade factor `num / den`.
    fn faded(self, num: u64, den: u64) -> Self;
}

/// The uniform pull interface every producing or transforming node of the
/// engine implements.
///
/// `write` fills the interleaved `output` buffer and returns the number of
/// written samples (not frames). The channel count and sample rate are
/// constants for the source's lifetime, and exhaustion is sticky: once a
/// source reports itself exhausted, every subsequent `write` returns 0.
pub trait AudioSource<S: Sample>: Sized {
    /// Whether the source has finished playback for good. Verified
    /// implementations override this with their actual exhaustion state;
    /// the default only spares unverified implementations the ghost item.
    open spec fn exhausted(&self) -> bool {
        false
    }

    /// The source's output channel count, as a spec-level constant.
    /// Verified implementations override this.
    open spec fn spec_channel_count(&self) -> int {
        0
    }

    /// The source's output sample rate, as a spec-level constant.
    /// Verified implementations override this.
    open spec fn spec_sample_rate(&self) -> int {
        0
    }

    /// Write at most `output.len()` samples into the interleaved `output`.
    /// `time` names the absolute stream time of the buffer's first frame.
    /// Returns the number of written samples (not frames).
    fn write(&mut self, output: &mut Vec<S>, time: &AudioSourceTime) -> (written: usize)
        ensures
            final(output)@.len() == old(output)@.len(),
            written <= old(output)@.len(),
            old(self).exhausted() ==> written == 0 && final(self).exhausted(),
            final(self).spec_channel_count() == old(self).spec_channel_count(),
            final(self).spec_sample_rate() == old(self).spec_sample_rate(),
    ;

    /// The source's output channel count.
    fn channel_count(&self) -> (r: usize)
        ensures
            r as int == self.spec_channel_count(),
    ;

    /// The source's output sample rate.
    fn sample_rate(&self) -> (r: u32)
        ensures
            r as int == self.spec_sample_rate(),
    ;

    /// Whether the source finished playback. Exhausted sources only return
    /// 0 from `write` and can be removed from a render graph.
    fn is_exhausted(&self) -> (r: bool)
        ensures
            r == self.exhausted(),
    ;
}

} // verus!
