use vstd::prelude::*;

use crate::source::{AudioSource, AudioSourceTime, Sample};
use crate::utils::lemma_div_mul_le;

verus! {

/// The input channel that feeds output channel `c` when mapping a frame of
/// `ic` input channels onto `oc` output channels, or `None` when the output
/// channel is filled with silence.
///
/// Equal layouts map one to one. A mono input is duplicated onto the first
/// two output channels. Any other input feeds its first channel to a mono
/// output, and its first two channels to the first two output channels of a
/// wider output; remaining output channels are silence.
pub open spec fn mapped_input_channel(ic: int, oc: int, c: int) -> Option<int> {
    if ic == oc {
        Some(c)
    } else if ic == 1 {
        if c < 2 {
            Some(0)
        } else {
            None
        }
    } else if oc == 1 {
        Some(0)
    } else {
        if c < 2 {
            Some(c)
        } else {
            None
        }
    }
}

/// The sample that belongs at interleaved output index `j` when mapping
/// `buffer` (interleaved with `ic` channels) onto an output interleaved
/// with `oc` channels.
pub open spec fn spec_mapped_sample<S>(buffer: Seq<S>, silence: S, ic: int, oc: int, j: int) -> S {
    match mapped_input_channel(ic, oc, j % oc) {
        Some(i) => buffer[(j / oc) * ic + i],
        None => silence,
    }
}

/// A source which changes the channel layout of another source to a fixed
/// output channel count, pulling the wrapped source through an internal
/// staging buffer.
pub struct ChannelMappedSource<S: Sample, T: AudioSource<S>> {
    /// The wrapped source.
    pub source: T,
    /// Channel count of the wrapped source.
    pub input_channels: usize,
    /// Channel count this source exposes.
    pub output_channels: usize,
    /// Staging buffer the wrapped source is pulled into.
    pub buffer: Vec<S>,
    /// The silence sample value used to fill unmapped output channels.
    pub silence: S,
    /// Number of samples the wrapped source produced on the last pull:
    /// every full input frame of them becomes one output frame.
    pub last_pulled_samples: usize,
}

/// Number of samples in the staging buffer of a `ChannelMappedSource`.
pub const MAPPED_BUFFER_SIZE: usize = 16 * 1024;

impl<S: Sample, T: AudioSource<S>> ChannelMappedSource<S, T> {
    /// Sanity of the fixed fields: non-degenerate channel counts that the
    /// staging buffer can hold at least one frame of.
    pub open spec fn wf(&self) -> bool {
        &&& self.input_channels >= 1
        &&& self.output_channels >= 1
        &&& self.input_channels == self.source.spec_channel_count()
        &&& self.buffer@.len() == MAPPED_BUFFER_SIZE
        &&& self.input_channels <= self.buffer@.len()
    }

    /// Wrap `source` so it plays back with `output_channels` channels,
    /// filling unmapped channels with the `silence` sample value.
    pub fn new(source: T, output_channels: usize, silence: S) -> (r: ChannelMappedSource<S, T>)
        requires
            1 <= source.spec_channel_count() <= MAPPED_BUFFER_SIZE,
            output_channels >= 1,
        ensures
            r.wf(),
            r.source == source,
            r.output_channels == output_channels,
            r.silence == silence,
            r.exhausted() == source.exhausted(),
    {
        let input_channels = source.channel_count();
        let mut buffer: Vec<S> = Vec::new();
        let mut i: usize = 0;
        while i < MAPPED_BUFFER_SIZE
            invariant
                i <= MAPPED_BUFFER_SIZE,
                buffer@.len() == i,
            decreases MAPPED_BUFFER_SIZE - i,
        {
            buffer.push(silence);
            i = i + 1;
        }
        ChannelMappedSource {
            source,
            input_channels,
            output_channels,
            buffer,
            silence,
            last_pulled_samples: 0,
        }
    }
}

impl<S: Sample, T: AudioSource<S>> AudioSource<S> for ChannelMappedSource<S, T> {
    open spec fn exhausted(&self) -> bool {
        self.source.exhausted()
    }

    open spec fn spec_channel_count(&self) -> int {
        self.output_channels as int
    }

    open spec fn spec_sample_rate(&self) -> int {
        self.source.spec_sample_rate()
    }

    /// Pull the wrapped source for as many full input frames as fit, then
    /// route every produced frame onto the output channel layout: output
    /// index `j` receives exactly the sample `spec_mapped_sample` names,
    /// taken from the staging buffer the wrapped source just filled.
    fn write(&mut self, output: &mut Vec<S>, time: &AudioSourceTime) -> (written: usize)
        ensures
            old(self).wf() ==> written as int % old(self).output_channels as int == 0,
            !old(self).wf() ==> written == 0 && final(output)@ == old(output)@ && *final(self)
                == *old(self),
            old(self).wf() ==> written as int == (final(self).last_pulled_samples as int / old(
                self,
            ).input_channels as int) * old(self).output_channels as int,
            old(self).wf() ==> forall|j: int|
                0 <= j < written ==> final(output)@[j] == spec_mapped_sample(
                    final(self).buffer@,
                    old(self).silence,
                    old(self).input_channels as int,
                    old(self).output_channels as int,
                    j,
                ),
            forall|j: int|
                written <= j < old(output)@.len() ==> final(output)@[j] == old(output)@[j],
            final(self).output_channels == old(self).output_channels,
            final(self).input_channels == old(self).input_channels,
            final(self).silence == old(self).silence,
            old(self).wf() ==> final(self).wf(),
    {
        let oc = self.output_channels;
        let ic = self.input_channels;
        if oc == 0 || ic == 0 || self.buffer.len() != MAPPED_BUFFER_SIZE || self.buffer.len() < ic
            || self.source.channel_count() != ic {
            // degenerate state: produce nothing
            return 0;
        }
        let full_len = self.buffer.len();
        let frames_wanted = output.len() / oc;
        let frames_cap = self.buffer.len() / ic;
        let ask_frames = if frames_wanted < frames_cap {
            frames_wanted
        } else {
            frames_cap
        };
        proof {
            lemma_div_mul_le(ask_frames as int, self.buffer@.len() as int, ic as int);
        }
        let ask = ask_frames * ic;
        self.buffer.truncate(ask);
        let src_written = self.source.write(&mut self.buffer, time);
        self.last_pulled_samples = src_written;
        proof {
            vstd::arithmetic::div_mod::lemma_div_is_ordered(
                src_written as int,
                ask as int,
                ic as int,
            );
            vstd::arithmetic::div_mod::lemma_div_multiples_vanish(ask_frames as int, ic as int);
            vstd::arithmetic::mul::lemma_mul_is_commutative(ask_frames as int, ic as int);
        }
        let frames = src_written / ic;
        proof {
            lemma_div_mul_le(frames as int, src_written as int, ic as int);
            lemma_div_mul_le(frames as int, output@.len() as int, oc as int);
        }
        let written = frames * oc;
        let ghost bufw = self.buffer@;
        let ghost out0 = output@;
        let mut f: usize = 0;
        while f < frames
            invariant
                f <= frames,
                ic >= 1,
                oc >= 1,
                self.buffer@ == bufw,
                self.silence == old(self).silence,
                frames * ic <= bufw.len(),
                bufw.len() <= usize::MAX,
                frames * oc <= output@.len(),
                output@.len() <= usize::MAX,
                output@.len() == out0.len(),
                forall|j: int|
                    0 <= j < f * oc ==> output@[j] == spec_mapped_sample(
                        bufw,
                        old(self).silence,
                        ic as int,
                        oc as int,
                        j,
                    ),
                forall|j: int| f * oc <= j < out0.len() ==> output@[j] == out0[j],
            decreases frames - f,
        {
            proof {
                vstd::arithmetic::mul::lemma_mul_inequality(f + 1, frames as int, oc as int);
                vstd::arithmetic::mul::lemma_mul_inequality(f + 1, frames as int, ic as int);
                vstd::arithmetic::mul::lemma_mul_is_distributive_add_other_way(
                    oc as int,
                    f as int,
                    1,
                );
                vstd::arithmetic::mul::lemma_mul_is_distributive_add_other_way(
                    ic as int,
                    f as int,
                    1,
                );
            }
            let mut c: usize = 0;
            while c < oc
                invariant
                    c <= oc,
                    f < frames,
                    ic >= 1,
                    oc >= 1,
                    self.buffer@ == bufw,
                    self.silence == old(self).silence,
                    (f + 1) * oc == f * oc + oc,
                    (f + 1) * ic == f * ic + ic,
                    (f + 1) * oc <= frames * oc,
                    (f + 1) * ic <= frames * ic,
                    frames * ic <= bufw.len(),
                    bufw.len() <= usize::MAX,
                    frames * oc <= output@.len(),
                    output@.len() <= usize::MAX,
                    output@.len() == out0.len(),
                    forall|j: int|
                        0 <= j < f * oc + c ==> output@[j] == spec_mapped_sample(
                            bufw,
                            old(self).silence,
                            ic as int,
                            oc as int,
                            j,
                        ),
                    forall|j: int| f * oc + c <= j < out0.len() ==> output@[j] == out0[j],
                decreases oc - c,
            {
                let j = f * oc + c;
                let input_channel: Option<usize> = if ic == oc {
                    Some(c)
                } else if ic == 1 {
                    if c < 2 {
                        Some(0)
                    } else {
                        None
                    }
                } else if oc == 1 {
                    Some(0)
                } else {
                    if c < 2 {
                        Some(c)
                    } else {
                        None
                    }
                };
                let value = match input_channel {
                    Some(i) => self.buffer[f * ic + i],
                    None => self.silence,
                };
                proof {
                    vstd::arithmetic::div_mod::lemma_fundamental_div_mod_converse(
                        j as int,
                        oc as int,
                        f as int,
                        c as int,
                    );
                }
                output.set(j, value);
                c = c + 1;
            }
            f = f + 1;
        }
        // restore the staging buffer to its full size for the next pull;
        // capacity is retained by truncate, so this does not reallocate
        let ghost source_after = self.source;
        while self.buffer.len() < full_len
            invariant
                bufw.len() <= self.buffer@.len(),
                self.buffer@.len() <= full_len,
                self.buffer@.subrange(0, bufw.len() as int) == bufw,
                self.silence == old(self).silence,
                self.source == source_after,
                self.input_channels == old(self).input_channels,
                self.output_channels == old(self).output_channels,
                self.last_pulled_samples == src_written,
            decreases full_len - self.buffer@.len(),
        {
            self.buffer.push(self.silence);
        }
        proof {
            assert forall|k: int| 0 <= k < bufw.len() implies self.buffer@[k] == bufw[k] by {
                assert(self.buffer@.subrange(0, bufw.len() as int)[k] == self.buffer@[k]);
            }
            vstd::arithmetic::div_mod::lemma_mod_multiples_basic(frames as int, oc as int);
            assert forall|j: int| 0 <= j < written implies output@[j] == spec_mapped_sample(
                self.buffer@,
                old(self).silence,
                ic as int,
                oc as int,
                j,
            ) by {
                vstd::arithmetic::div_mod::lemma_remainder_upper(j, oc as int);
                vstd::arithmetic::div_mod::lemma_remainder_lower(j, oc as int);
                vstd::arithmetic::div_mod::lemma_div_pos_is_pos(j, oc as int);
                assert(j / (oc as int) < frames as int) by {
                    if j / (oc as int) >= frames as int {
                        vstd::arithmetic::mul::lemma_mul_inequality(
                            frames as int,
                            j / (oc as int),
                            oc as int,
                        );
                        vstd::arithmetic::div_mod::lemma_fundamental_div_mod(j, oc as int);
                        vstd::arithmetic::div_mod::lemma_remainder_lower(j, oc as int);
                    }
                };
                assert((j / (oc as int)) * (ic as int) + ic as int <= (frames as int) * (ic as int)) by {
                    vstd::arithmetic::mul::lemma_mul_inequality(
                        j / (oc as int) + 1,
                        frames as int,
                        ic as int,
                    );
                    vstd::arithmetic::mul::lemma_mul_is_distributive_add_other_way(
                        ic as int,
                        j / (oc as int),
                        1,
                    );
                };
            }
        }
        written
    }

    fn channel_count(&self) -> (r: usize)
        ensures
            r as int == self.spec_channel_count(),
    {
        self.output_channels
    }

    fn sample_rate(&self) -> (r: u32)
        ensures
            r as int == self.spec_sample_rate(),
    {
        self.source.sample_rate()
    }

    fn is_exhausted(&self) -> (r: bool)
        ensures
            r == self.exhausted(),
    {
        self.source.is_exhausted()
    }
}

} // verus!
