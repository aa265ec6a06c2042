use vstd::prelude::*;

use crate::source::Sample;

verus! {

/// State of a `VolumeFader`.
#[derive(Debug, Copy, Clone, PartialEq, Eq, Structural)]
pub enum FaderState {
    /// No fade was started yet: samples pass through unchanged.
    Stopped,
    /// A fade is running and has not yet reached its target.
    IsFadingIn,
    /// A fade-out is running and has not yet reached silence.
    IsFadingOut,
    /// The fade ramp reached its target and the target is latched.
    Finished,
}

/// Direction of the most recently started fade.
#[derive(Debug, Copy, Clone, PartialEq, Eq, Structural)]
pub enum FadeDirection {
    /// Ramp from silence up to full volume.
    FadeIn,
    /// Ramp from full volume down to silence.
    FadeOut,
}

/// Law: the fade ramp is attenuating, never amplifying. At every frame
/// `p` of a ramp over `total` frames, the applied gain numerator stays at
/// most the denominator: a fade-in applies `p + 1` over `total`, a
/// fade-out applies `total - (p + 1)` over `total`, and both quotients lie
/// in the unit interval. Together with a non-amplifying volume factor the
/// faded output is therefore bounded by the volume times the input peak.
pub proof fn lemma_fade_gain_bounded(p: int, total: int)
    requires
        0 <= p < total,
    ensures
        0 < p + 1 <= total,
        0 <= total - (p + 1) < total,
{
}

/// A cooperative linear volume fade, applied in place to sample blocks.
///
/// The fade ramp is linear in amplitude and is measured on the source's own
/// frame clock: a fade over `total_frames` frames applies the factor
/// `p / total_frames` (fade-in) or `(total_frames - p) / total_frames`
/// (fade-out) to the `p`-th frame of the ramp. Once the ramp has run its
/// course the state latches to `Finished`; a finished fade-out keeps
/// silencing every further frame.
#[derive(Debug, Clone, PartialEq, Eq, Structural)]
pub struct VolumeFader {
    /// Current state of the fade ramp.
    pub state: FaderState,
    /// Direction of the current ramp; meaningful unless state is `Stopped`.
    pub direction: FadeDirection,
    /// Channel count of the processed signal.
    pub channel_count: usize,
    /// Sample rate of the processed signal, used to convert durations.
    pub sample_rate: u32,
    /// Length of the ramp in frames.
    pub total_frames: u64,
    /// Number of ramp frames already processed; at most `total_frames`.
    pub frames_done: u64,
}

impl VolumeFader {
    /// Well-formedness: the ramp position never passes the ramp length,
    /// the signal spec is sane, and `Finished` means the ramp has run out.
    pub open spec fn wf(&self) -> bool {
        &&& self.channel_count >= 1
        &&& self.frames_done <= self.total_frames
        &&& (self.state == FaderState::Finished ==> self.frames_done == self.total_frames)
    }

    /// A new idle fader for the given signal spec.
    pub fn new(channel_count: usize, sample_rate: u32) -> (r: VolumeFader)
        requires
            channel_count >= 1,
        ensures
            r.wf(),
            r.state == FaderState::Stopped,
            r.channel_count == channel_count,
            r.sample_rate == sample_rate,
    {
        VolumeFader {
            state: FaderState::Stopped,
            direction: FadeDirection::FadeIn,
            channel_count,
            sample_rate,
            total_frames: 0,
            frames_done: 0,
        }
    }

    /// The number of ramp frames for a fade over `duration_ms` milliseconds.
    pub open spec fn spec_fade_frames(&self, duration_ms: u64) -> int {
        duration_ms * self.sample_rate / 1000
    }

    /// Start fading in over the given duration. A zero-length ramp
    /// completes immediately.
    pub fn start_fade_in(&mut self, duration_ms: u64)
        requires
            old(self).wf(),
            duration_ms * old(self).sample_rate <= u64::MAX,
        ensures
            final(self).wf(),
            final(self).direction == FadeDirection::FadeIn,
            final(self).total_frames == old(self).spec_fade_frames(duration_ms),
            final(self).frames_done == 0 || final(self).state == FaderState::Finished,
            final(self).state == (if final(self).total_frames == 0 {
                FaderState::Finished
            } else {
                FaderState::IsFadingIn
            }),
            final(self).channel_count == old(self).channel_count,
            final(self).sample_rate == old(self).sample_rate,
    {
        self.start_fade(FadeDirection::FadeIn, duration_ms);
    }

    /// Start fading out over the given duration. A zero-length ramp
    /// completes immediately, silencing everything processed afterwards.
    pub fn start_fade_out(&mut self, duration_ms: u64)
        requires
            old(self).wf(),
            duration_ms * old(self).sample_rate <= u64::MAX,
        ensures
            final(self).wf(),
            final(self).direction == FadeDirection::FadeOut,
            final(self).total_frames == old(self).spec_fade_frames(duration_ms),
            final(self).frames_done == 0 || final(self).state == FaderState::Finished,
            final(self).state == (if final(self).total_frames == 0 {
                FaderState::Finished
            } else {
                FaderState::IsFadingOut
            }),
            final(self).channel_count == old(self).channel_count,
            final(self).sample_rate == old(self).sample_rate,
    {
        self.start_fade(FadeDirection::FadeOut, duration_ms);
    }

    fn start_fade(&mut self, direction: FadeDirection, duration_ms: u64)
        requires
            old(self).wf(),
            duration_ms * old(self).sample_rate <= u64::MAX,
        ensures
            final(self).wf(),
            final(self).direction == direction,
            final(self).total_frames == old(self).spec_fade_frames(duration_ms),
            final(self).frames_done == 0 || final(self).state == FaderState::Finished,
            final(self).state == (if final(self).total_frames == 0 {
                FaderState::Finished
            } else if direction == FadeDirection::FadeIn {
                FaderState::IsFadingIn
            } else {
                FaderState::IsFadingOut
            }),
            final(self).channel_count == old(self).channel_count,
            final(self).sample_rate == old(self).sample_rate,
    {
        let total: u64 = duration_ms * (self.sample_rate as u64) / 1000;
        self.total_frames = total;
        self.frames_done = 0;
        self.direction = direction;
        if total == 0 {
            self.state = FaderState::Finished;
        } else if matches!(direction, FadeDirection::FadeIn) {
            self.state = FaderState::IsFadingIn;
        } else {
            self.state = FaderState::IsFadingOut;
        }
    }

    /// Executable well-formedness check, mirroring `wf` exactly.
    pub fn check_wf(&self) -> (r: bool)
        ensures
            r == self.wf(),
    {
        self.channel_count >= 1 && self.frames_done <= self.total_frames && (!matches!(
            self.state,
            FaderState::Finished,
        ) || self.frames_done == self.total_frames)
    }

    /// Current state of the ramp.
    pub fn state(&self) -> (r: FaderState)
        ensures
            r == self.state,
    {
        self.state
    }

    /// Whether the latched fade target is silence, i.e. the last started
    /// ramp was a fade-out.
    pub fn target_is_silence(&self) -> (r: bool)
        ensures
            r == (self.direction == FadeDirection::FadeOut),
    {
        matches!(self.direction, FadeDirection::FadeOut)
    }

    /// The ramp position after processing `frames` more frames.
    pub open spec fn spec_advanced(&self, frames: int) -> int {
        if self.frames_done + frames >= self.total_frames {
            self.total_frames as int
        } else {
            self.frames_done + frames
        }
    }

    /// Apply the fade ramp in place to the first `written` samples of
    /// `output`, advancing the ramp by the corresponding frame count and
    /// latching `Finished` when the ramp runs out. Samples beyond
    /// `written` are untouched; an idle fader and a finished fade-in leave
    /// the buffer unchanged.
    pub fn process<S: Sample>(&mut self, output: &mut Vec<S>, written: usize)
        requires
            old(self).wf(),
            written <= old(output)@.len(),
        ensures
            final(self).wf(),
            final(output)@.len() == old(output)@.len(),
            forall|i: int|
                written <= i < old(output)@.len() ==> final(output)@[i] == old(output)@[i],
            final(self).channel_count == old(self).channel_count,
            final(self).sample_rate == old(self).sample_rate,
            final(self).direction == old(self).direction,
            final(self).total_frames == old(self).total_frames,
            (old(self).state == FaderState::Stopped || old(self).state == FaderState::Finished)
                ==> final(self).state == old(self).state
                    && final(self).frames_done == old(self).frames_done,
            (old(self).state == FaderState::Stopped || (old(self).state == FaderState::Finished
                && old(self).direction == FadeDirection::FadeIn)) ==> final(output)@ == old(
                output,
            )@,
            (old(self).state == FaderState::IsFadingIn || old(self).state
                == FaderState::IsFadingOut) ==> {
                &&& final(self).frames_done == old(self).spec_advanced(
                    written as int / old(self).channel_count as int,
                )
                &&& final(self).state == (if final(self).frames_done == old(self).total_frames {
                    FaderState::Finished
                } else {
                    old(self).state
                })
            },
    {
        if matches!(self.state, FaderState::Stopped) {
            return ;
        }
        if matches!(self.state, FaderState::Finished) && matches!(
            self.direction,
            FadeDirection::FadeIn,
        ) {
            return ;
        }
        let ghost prefix_len = written as int;
        let cc = self.channel_count;
        let mut i: usize = 0;
        while i < written
            invariant
                *self == *old(self),
                i <= written,
                written <= output@.len(),
                output@.len() == old(output)@.len(),
                cc == self.channel_count,
                self.wf(),
                forall|j: int| i <= j < old(output)@.len() ==> output@[j] == old(output)@[j],
            decreases written - i,
        {
            let frame: usize = i / cc;
            let p: u64 = if (frame as u64) >= u64::MAX - self.frames_done {
                u64::MAX
            } else {
                self.frames_done + (frame as u64)
            };
            let s = output[i];
            let faded_sample = if p < self.total_frames {
                let num = if matches!(self.direction, FadeDirection::FadeIn) {
                    p + 1
                } else {
                    self.total_frames - (p + 1)
                };
                s.faded(num, self.total_frames)
            } else {
                // ramp has run out within this block: a fade-in passes the
                // sample through, a fade-out keeps silencing
                if matches!(self.direction, FadeDirection::FadeOut) {
                    s.faded(0, 1)
                } else {
                    s
                }
            };
            output.set(i, faded_sample);
            i = i + 1;
        }
        if matches!(self.state, FaderState::IsFadingIn) || matches!(
            self.state,
            FaderState::IsFadingOut,
        ) {
            let frames: usize = written / cc;
            if (frames as u64) >= self.total_frames - self.frames_done {
                self.frames_done = self.total_frames;
                self.state = FaderState::Finished;
            } else {
                self.frames_done = self.frames_done + (frames as u64);
            }
        }
    }
}

} // verus!
