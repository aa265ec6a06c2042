use vstd::prelude::*;

use crate::source::{AudioSource, AudioSourceTime, Sample};

verus! {

/// The interface of a resampler kernel: it consumes interleaved input
/// samples and produces interleaved output samples at the target rate.
/// Kernels (polynomial, windowed-sinc, ...) are external collaborators;
/// only this interface is part of the engine. The engine relies on the
/// stated bounds alone and promises nothing about produced sample values.
pub trait AudioResampler<S: Sample>: Sized {
    /// Consume samples from `input[in_start..in_end]` and write resampled
    /// samples to the front of `output`. Returns the pair of (consumed
    /// input samples, produced output samples). Samples of `output` at and
    /// beyond the produced count are untouched.
    fn process(&mut self, input: &Vec<S>, in_start: usize, in_end: usize, output: &mut Vec<S>) -> (r
        : (usize, usize))
        requires
            in_start <= in_end,
            in_end <= input@.len(),
        ensures
            r.0 <= in_end - in_start,
            r.1 <= old(output)@.len(),
            final(output)@.len() == old(output)@.len(),
            forall|j: int|
                r.1 <= j < old(output)@.len() ==> final(output)@[j] == old(output)@[j],
    ;

    /// Drop all internal kernel state, e.g. after a seek, to avoid ringing
    /// artifacts from stale history.
    fn reset(&mut self);
}

/// A trivial kernel for equal input and output rates: it copies samples
/// through unchanged, consuming exactly as many samples as it produces.
pub struct IdentityResampler {
    /// Block size used for both input and output buffers.
    pub block_len: usize,
}

impl IdentityResampler {
    /// A pass-through kernel with the given block size.
    pub fn new(block_len: usize) -> (r: IdentityResampler)
        requires
            block_len >= 1,
        ensures
            r.block_len == block_len,
            r.block_len >= 1,
    {
        IdentityResampler { block_len }
    }
}

impl<S: Sample> AudioResampler<S> for IdentityResampler {
    /// Copies `min(in_end - in_start, output.len())` samples through
    /// unchanged.
    fn process(&mut self, input: &Vec<S>, in_start: usize, in_end: usize, output: &mut Vec<S>) -> (r
        : (usize, usize))
        ensures
            r.0 == r.1,
            r.0 == vstd::math::min((in_end - in_start) as int, old(output)@.len() as int),
            forall|j: int| 0 <= j < r.1 ==> final(output)@[j] == input@[in_start + j],
    {
        let avail = in_end - in_start;
        let n = if avail < output.len() {
            avail
        } else {
            output.len()
        };
        let mut k: usize = 0;
        while k < n
            invariant
                k <= n,
                n <= output@.len(),
                output@.len() <= usize::MAX,
                in_start + n <= in_end,
                in_start + n <= input@.len(),
                output@.len() == old(output)@.len(),
                forall|j: int| 0 <= j < k ==> output@[j] == input@[in_start + j],
                forall|j: int| k <= j < output@.len() ==> output@[j] == old(output)@[j],
            decreases n - k,
        {
            let v = input[in_start + k];
            output.set(k, v);
            k = k + 1;
        }
        (n, n)
    }

    fn reset(&mut self) {
    }
}

/// A source which resamples another source, either to adjust the source's
/// sample rate to a target rate or to play it back at a different speed.
/// The wrapped source is pulled into an input staging buffer, run through
/// the kernel into an output staging buffer, and drained from there.
pub struct ResampledSource<S: Sample, T: AudioSource<S>, R: AudioResampler<S>> {
    /// The wrapped source.
    pub source: T,
    /// The resampler kernel.
    pub resampler: R,
    /// The sample rate this source exposes.
    pub output_sample_rate: u32,
    /// Staging buffer holding input pulled from the wrapped source.
    pub in_buffer: Vec<S>,
    /// First unconsumed sample of `in_buffer`.
    pub in_start: usize,
    /// End of the filled part of `in_buffer`.
    pub in_end: usize,
    /// Staging buffer holding output produced by the kernel.
    pub out_buffer: Vec<S>,
    /// First undrained sample of `out_buffer`.
    pub out_start: usize,
    /// End of the produced part of `out_buffer`.
    pub out_end: usize,
}

impl<S: Sample, T: AudioSource<S>, R: AudioResampler<S>> ResampledSource<S, T, R> {
    /// Validity of the staging buffer spans.
    pub open spec fn wf(&self) -> bool {
        &&& self.in_start <= self.in_end <= self.in_buffer@.len()
        &&& self.out_start <= self.out_end <= self.out_buffer@.len()
    }

    /// Wrap `source` so it is resampled through the given kernel and plays
    /// back at `output_sample_rate`. The kernel is fed through staging
    /// buffers of the kernel's preferred block sizes `in_len` and
    /// `out_len`, initially filled with `silence`.
    pub fn new(
        source: T,
        resampler: R,
        output_sample_rate: u32,
        in_len: usize,
        out_len: usize,
        silence: S,
    ) -> (r: ResampledSource<S, T, R>)
        ensures
            r.wf(),
            r.source == source,
            r.output_sample_rate == output_sample_rate,
            r.exhausted() == source.exhausted(),
    {
        let mut in_buffer: Vec<S> = Vec::new();
        let mut i: usize = 0;
        while i < in_len
            invariant
                in_buffer@.len() == i,
            decreases in_len - i,
        {
            in_buffer.push(silence);
            i = i + 1;
        }
        let mut out_buffer: Vec<S> = Vec::new();
        let mut k: usize = 0;
        while k < out_len
            invariant
                out_buffer@.len() == k,
            decreases out_len - k,
        {
            out_buffer.push(silence);
            k = k + 1;
        }
        ResampledSource {
            source,
            resampler,
            output_sample_rate,
            in_buffer,
            in_start: 0,
            in_end: 0,
            out_buffer,
            out_start: 0,
            out_end: 0,
        }
    }
}

impl<S: Sample, T: AudioSource<S>, R: AudioResampler<S>> AudioSource<S> for ResampledSource<
    S,
    T,
    R,
> {
    /// The resampled source is exhausted once the wrapped source is and
    /// both staging buffers have been drained.
    open spec fn exhausted(&self) -> bool {
        self.source.exhausted() && self.in_start >= self.in_end && self.out_start >= self.out_end
    }

    open spec fn spec_channel_count(&self) -> int {
        self.source.spec_channel_count()
    }

    open spec fn spec_sample_rate(&self) -> int {
        self.output_sample_rate as int
    }

    /// Fill `output` with resampled source samples: drain the staged kernel
    /// output, refilling it from the kernel (and the kernel's input from
    /// the wrapped source) as needed. Stops early when the wrapped source
    /// runs dry or the kernel makes no progress. Samples beyond the
    /// returned count are untouched.
    fn write(&mut self, output: &mut Vec<S>, time: &AudioSourceTime) -> (written: usize)
        ensures
            forall|j: int|
                written <= j < old(output)@.len() ==> final(output)@[j] == old(output)@[j],
            old(self).wf() ==> final(self).wf(),
            !old(self).wf() ==> written == 0 && final(output)@ == old(output)@ && *final(self)
                == *old(self),
            final(self).output_sample_rate == old(self).output_sample_rate,
    {
        if self.in_start > self.in_end || self.in_end > self.in_buffer.len() || self.out_start
            > self.out_end || self.out_end > self.out_buffer.len() {
            // degenerate spans: nothing sensible can be produced
            return 0;
        }
        let out_cap = output.len();
        let in_buf_cap = self.in_buffer.len();
        let out_buf_cap = self.out_buffer.len();
        let mut total_written: usize = 0;
        loop
            invariant
                total_written <= out_cap,
                output@.len() == old(output)@.len(),
                output@.len() == out_cap,
                self.wf(),
                self.in_buffer@.len() == in_buf_cap,
                self.out_buffer@.len() == out_buf_cap,
                self.output_sample_rate == old(self).output_sample_rate,
                self.spec_channel_count() == old(self).spec_channel_count(),
                self.spec_sample_rate() == old(self).spec_sample_rate(),
                old(self).exhausted() ==> total_written == 0 && self.exhausted(),
                forall|j: int|
                    total_written <= j < old(output)@.len() ==> output@[j] == old(output)@[j],
            decreases
                    out_cap - total_written,
                    (if self.out_start >= self.out_end {
                        1int
                    } else {
                        0int
                    }),
        {
            if total_written >= output.len() {
                break ;
            }
            if self.out_start >= self.out_end {
                // the staged kernel output is drained: run the kernel again
                if self.in_start >= self.in_end {
                    // the kernel consumed all staged input: pull the source
                    let n = self.source.write(&mut self.in_buffer, time);
                    self.in_start = 0;
                    self.in_end = n;
                    if n == 0 {
                        // the wrapped source is exhausted or momentarily
                        // out of data: hand back what was produced so far
                        break ;
                    }
                }
                let (consumed, produced) = self.resampler.process(
                    &self.in_buffer,
                    self.in_start,
                    self.in_end,
                    &mut self.out_buffer,
                );
                self.in_start = self.in_start + consumed;
                self.out_start = 0;
                self.out_end = produced;
                if produced == 0 {
                    // a kernel that produces nothing is starving the
                    // output: hand back what was written rather than
                    // spinning on the real-time thread
                    break ;
                }
            } else {
                // drain staged kernel output into the caller's buffer
                let avail = self.out_end - self.out_start;
                let remaining = output.len() - total_written;
                let w = if avail < remaining {
                    avail
                } else {
                    remaining
                };
                let mut k: usize = 0;
                while k < w
                    invariant
                        k <= w,
                        total_written + w <= out_cap,
                        output@.len() == out_cap,
                        self.out_start + w <= self.out_buffer@.len(),
                        self.out_buffer@.len() == out_buf_cap,
                        output@.len() == old(output)@.len(),
                        forall|j: int|
                            total_written + k <= j < old(output)@.len() ==> output@[j] == old(
                                output,
                            )@[j],
                    decreases w - k,
                {
                    let v = self.out_buffer[self.out_start + k];
                    output.set(total_written + k, v);
                    k = k + 1;
                }
                self.out_start = self.out_start + w;
                total_written = total_written + w;
            }
        }
        total_written
    }

    fn channel_count(&self) -> (r: usize)
        ensures
            r as int == self.spec_channel_count(),
    {
        self.source.channel_count()
    }

    fn sample_rate(&self) -> (r: u32)
        ensures
            r as int == self.spec_sample_rate(),
    {
        self.output_sample_rate
    }

    fn is_exhausted(&self) -> (r: bool)
        ensures
            r == self.exhausted(),
    {
        self.source.is_exhausted() && self.in_start >= self.in_end && self.out_start >= self.out_end
    }
}

} // verus!
