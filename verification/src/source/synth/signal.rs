use vstd::prelude::*;

use crate::error::Error;
use crate::player::{AudioFilePlaybackId, AudioFilePlaybackStatusEvent};
use crate::source::synth::{SynthPlaybackMessage, SynthPlaybackOptions, SynthSource};
use crate::source::{AudioSource, AudioSourceTime, Sample, Volume};
use crate::utils::channels::{channel_unbounded, try_recv, try_send};
use crate::utils::clock::{elapsed_ms, instant_now};
use crate::utils::fader::{FadeDirection, FaderState, VolumeFader};
use crate::utils::{unique_usize_id, UniqueIdSource};

verus! {

/// The bit pattern of the unity volume factor 1.0.
pub const SYNTH_UNITY_VOLUME_BITS: u32 = 0x3F800000;

/// An externally supplied pull-style mono sample generator: the engine
/// drains it one sample at a time until it reports exhaustion. Generators
/// are external collaborators (oscillators, DSP graphs, ...); the engine
/// promises nothing about the produced sample values.
pub trait SynthSignal<S: Sample> {
    /// The next mono sample of the signal, or `None` once the signal ran
    /// out for good.
    fn next_sample(&mut self) -> Option<S>;
}

/// A synth source which runs a mono sample generator until it is
/// exhausted, with the same volume, fade and stop semantics as the file
/// sources. Rate and channel adaptation is left to the converter chain.
pub struct SignalSynthSource<G> {
    /// The wrapped sample generator.
    pub signal: G,
    /// Sample rate the generator is declared to produce at.
    pub sample_rate: u32,
    /// Linear playback volume factor.
    pub volume: Volume,
    /// Fader applying fade-in on start and fade-out on stop.
    pub stop_fader: VolumeFader,
    /// Sending side of the playback control channel, handed to the player.
    pub playback_message_send: crossbeam_channel::Sender<SynthPlaybackMessage>,
    /// Receiving side of the playback control channel, drained on `write`.
    pub playback_message_receive: crossbeam_channel::Receiver<SynthPlaybackMessage>,
    /// Optional channel for position and stopped status events.
    pub playback_status_send: Option<crossbeam_channel::Sender<AudioFilePlaybackStatusEvent>>,
    /// Unique playback id of this source.
    pub playback_id: AudioFilePlaybackId,
    /// Name of the tone, echoed in status events in place of a file path.
    pub playback_name: String,
    /// Number of samples produced so far.
    pub playback_pos: u64,
    /// Wall-clock reading of the last position report.
    pub playback_pos_report_instant: std::time::Instant,
    /// When set, emit a position event at most once per this many
    /// milliseconds.
    pub playback_pos_emit_rate_ms: Option<u64>,
    /// Latched once playback finished for good.
    pub playback_finished: bool,
    /// Whether the terminal Stopped event was emitted; tracks
    /// `playback_finished` exactly, so it is emitted exactly once.
    pub stopped_event_sent: bool,
}

impl<G> SignalSynthSource<G> {
    /// Well-formedness: a well-formed fader on the synth's own clock and
    /// the Stopped event emitted exactly when playback has finished.
    pub open spec fn wf(&self) -> bool {
        &&& self.stop_fader.wf()
        &&& self.stop_fader.sample_rate == self.sample_rate
        &&& self.stopped_event_sent == self.playback_finished
    }

    /// Wrap a mono sample generator as a playable source. Fails with
    /// `Error::ParameterError` exactly when the options are invalid.
    pub fn new(
        signal: G,
        signal_name: String,
        options: SynthPlaybackOptions,
        sample_rate: u32,
        playback_status_send: Option<crossbeam_channel::Sender<AudioFilePlaybackStatusEvent>>,
        ids: &mut UniqueIdSource,
    ) -> (r: Result<SignalSynthSource<G>, Error>)
        requires
            old(ids).next_id < usize::MAX,
        ensures
            r is Ok <==> crate::source::file::volume_is_valid(options.volume),
            r is Err ==> r == Result::<SignalSynthSource<G>, Error>::Err(Error::ParameterError),
            r is Ok ==> final(ids).next_id == old(ids).next_id + 1,
            r is Err ==> *final(ids) == *old(ids),
            r matches Ok(s) ==> {
                &&& s.wf()
                &&& s.playback_id == old(ids).next_id
                &&& s.volume == options.volume
                &&& s.sample_rate == sample_rate
                &&& s.playback_pos == 0
                &&& !s.playback_finished
                &&& (s.stop_fader.state == FaderState::Stopped <==> options.fade_in_ms == 0)
                &&& (options.fade_in_ms > 0 ==> s.stop_fader.direction == FadeDirection::FadeIn)
            },
    {
        if let Err(err) = options.validate() {
            return Err(err);
        }
        let (playback_message_send, playback_message_receive) = channel_unbounded::<
            SynthPlaybackMessage,
        >();
        let mut stop_fader = VolumeFader::new(1, sample_rate);
        if options.fade_in_ms > 0 {
            let rate = sample_rate as u64;
            let fade_ms = if rate > 0 && options.fade_in_ms > u64::MAX / rate {
                u64::MAX / rate
            } else {
                options.fade_in_ms
            };
            proof {
                if rate > 0 {
                    crate::utils::lemma_div_mul_le(fade_ms as int, u64::MAX as int, rate as int);
                }
            }
            stop_fader.start_fade_in(fade_ms);
        }
        Ok(
            SignalSynthSource {
                signal,
                sample_rate,
                volume: options.volume,
                stop_fader,
                playback_message_send,
                playback_message_receive,
                playback_status_send,
                playback_id: unique_usize_id(ids),
                playback_name: signal_name,
                playback_pos: 0,
                playback_pos_report_instant: instant_now(),
                playback_pos_emit_rate_ms: options.playback_pos_emit_rate_ms,
                playback_finished: false,
                stopped_event_sent: false,
            },
        )
    }

    /// Emit the terminal Stopped status event and latch playback as
    /// finished. `exhausted` tells whether the generator ran out on its
    /// own rather than being stopped by request.
    fn emit_stopped(&mut self, exhausted: bool)
        requires
            old(self).wf(),
            !old(self).playback_finished,
        ensures
            final(self).wf(),
            *final(self) == (SignalSynthSource {
                playback_finished: true,
                stopped_event_sent: true,
                ..*old(self)
            }),
    {
        if let Some(sender) = &self.playback_status_send {
            let event = AudioFilePlaybackStatusEvent::Stopped {
                id: self.playback_id,
                path: self.playback_name.clone(),
                exhausted,
            };
            // a full or disconnected status channel drops the event
            let _accepted = try_send(sender, event);
        }
        self.stopped_event_sent = true;
        self.playback_finished = true;
    }

    /// Whether a position event is due.
    fn should_report_pos(&self) -> bool {
        if let Some(report_ms) = self.playback_pos_emit_rate_ms {
            elapsed_ms(&self.playback_pos_report_instant) >= report_ms
        } else {
            false
        }
    }

    /// The playback duration of `samples` mono samples in milliseconds.
    fn samples_to_duration_ms(&self, samples: u64) -> (r: u64)
        ensures
            self.sample_rate > 0 && samples * 1000 <= u64::MAX ==> r == samples * 1000
                / self.sample_rate as int,
    {
        let rate = self.sample_rate as u64;
        if rate == 0 {
            return 0;
        }
        if samples > u64::MAX / 1000 {
            proof {
                crate::utils::lemma_div_mul_gt(samples as int, u64::MAX as int, 1000);
                vstd::arithmetic::mul::lemma_mul_is_commutative(samples as int, 1000);
            }
            return u64::MAX / rate;
        }
        proof {
            crate::utils::lemma_div_mul_le(samples as int, u64::MAX as int, 1000);
            vstd::arithmetic::mul::lemma_mul_is_commutative(samples as int, 1000);
        }
        samples * 1000 / rate
    }
}

impl<S: Sample, G: SynthSignal<S>> SynthSource<S> for SignalSynthSource<G> {
    fn playback_message_sender(&self) -> crossbeam_channel::Sender<SynthPlaybackMessage> {
        self.playback_message_send.clone()
    }

    fn playback_id(&self) -> (r: AudioFilePlaybackId)
        ensures
            r == self.playback_id,
    {
        self.playback_id
    }
}

impl<S: Sample, G: SynthSignal<S>> AudioSource<S> for SignalSynthSource<G> {
    open spec fn exhausted(&self) -> bool {
        self.playback_finished
    }

    open spec fn spec_channel_count(&self) -> int {
        1
    }

    open spec fn spec_sample_rate(&self) -> int {
        self.sample_rate as int
    }

    /// Pull the generator sample by sample into `output` after consuming a
    /// pending stop message, applying volume and the stop fade; emit a
    /// rate-limited position event, and the terminal Stopped event once
    /// the generator ran out, a stop was requested, or a fade-out
    /// completed. A finished source is left entirely untouched: it returns
    /// 0 and neither the generator nor the playback position moves, and the
    /// position otherwise advances by exactly the written count
    /// (saturating).
    fn write(&mut self, output: &mut Vec<S>, time: &AudioSourceTime) -> (written: usize)
        ensures
            old(self).wf() ==> final(self).wf(),
            !old(self).wf() ==> written == 0 && final(output)@ == old(output)@ && *final(self)
                == *old(self),
            old(self).playback_finished ==> written == 0 && final(output)@ == old(output)@
                && *final(self) == *old(self),
            forall|j: int|
                written <= j < old(output)@.len() ==> final(output)@[j] == old(output)@[j],
            final(self).volume == old(self).volume,
            final(self).playback_pos == (if old(self).playback_pos + written <= u64::MAX {
                old(self).playback_pos + written
            } else {
                u64::MAX as int
            }),
            old(self).wf() && written == 0 ==> final(self).playback_finished,
    {
        if !self.stop_fader.check_wf() || self.stop_fader.sample_rate != self.sample_rate
            || self.stopped_event_sent != self.playback_finished {
            // degenerate state: produce nothing
            return 0;
        }
        // a finished source is terminal: return empty handed and leave all
        // state, the generator included, untouched
        if self.playback_finished {
            return 0;
        }
        // receive playback events
        let mut stop_playing = false;
        match try_recv(&self.playback_message_receive) {
            Some(SynthPlaybackMessage::Stop(fade_out_ms)) => {
                if fade_out_ms == 0 {
                    stop_playing = true;
                } else {
                    let rate = self.sample_rate as u64;
                    let fade_ms = if rate > 0 && fade_out_ms > u64::MAX / rate {
                        u64::MAX / rate
                    } else {
                        fade_out_ms
                    };
                    proof {
                        if rate > 0 {
                            crate::utils::lemma_div_mul_le(
                                fade_ms as int,
                                u64::MAX as int,
                                rate as int,
                            );
                        }
                    }
                    self.stop_fader.start_fade_out(fade_ms);
                }
            },
            None => {},
        }
        // run the signal on the output until it is exhausted
        let out_cap = output.len();
        let mut written: usize = 0;
        let mut signal_ended = false;
        let ghost pre = *self;
        while written < out_cap && !signal_ended
            invariant
                written <= out_cap,
                output@.len() == out_cap,
                output@.len() == old(output)@.len(),
                *self == (SignalSynthSource { signal: self.signal, ..pre }),
                forall|j: int| written <= j < old(output)@.len() ==> output@[j] == old(output)@[j],
            decreases
                    out_cap - written,
                    (if signal_ended {
                        0int
                    } else {
                        1int
                    }),
        {
            match self.signal.next_sample() {
                Some(v) => {
                    output.set(written, v);
                    written = written + 1;
                },
                None => {
                    signal_ended = true;
                },
            }
        }
        // apply the volume factor, unless it is exactly unity
        if self.volume.bits != SYNTH_UNITY_VOLUME_BITS {
            let mut k: usize = 0;
            let vol = self.volume;
            while k < written
                invariant
                    k <= written,
                    written <= output@.len(),
                    output@.len() == old(output)@.len(),
                    forall|j: int|
                        written <= j < old(output)@.len() ==> output@[j] == old(output)@[j],
                decreases written - k,
            {
                let scaled = output[k].amplified(vol);
                output.set(k, scaled);
                k = k + 1;
            }
        }
        // apply the stop fade ramp
        self.stop_fader.process(output, written);
        // update the playback position
        self.playback_pos = if (written as u64) > u64::MAX - self.playback_pos {
            u64::MAX
        } else {
            self.playback_pos + written as u64
        };
        // send a rate-limited position change event
        if self.playback_status_send.is_some() && self.should_report_pos() {
            self.playback_pos_report_instant = instant_now();
            let position_ms = self.samples_to_duration_ms(self.playback_pos);
            let event = AudioFilePlaybackStatusEvent::Position {
                id: self.playback_id,
                path: self.playback_name.clone(),
                position_ms,
            };
            if let Some(sender) = &self.playback_status_send {
                // a full status channel drops position events
                let _accepted = try_send(sender, event);
            }
        }
        // emit the one Stopped event when the generator ran out, a stop
        // was requested, or the stop fade-out completed
        let is_exhausted_now = written == 0;
        let fadeout_completed = self.stop_fader.state() == FaderState::Finished
            && self.stop_fader.target_is_silence();
        if stop_playing || is_exhausted_now || fadeout_completed {
            self.emit_stopped(is_exhausted_now);
        }
        written
    }

    fn channel_count(&self) -> (r: usize)
        ensures
            r as int == self.spec_channel_count(),
    {
        1
    }

    fn sample_rate(&self) -> (r: u32)
        ensures
            r as int == self.spec_sample_rate(),
    {
        self.sample_rate
    }

    fn is_exhausted(&self) -> (r: bool)
        ensures
            r == self.exhausted(),
    {
        self.playback_finished
    }
}

} // verus!
