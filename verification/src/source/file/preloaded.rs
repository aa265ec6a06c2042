use std::sync::Arc;
use vstd::prelude::*;

use crate::error::Error;
use crate::player::{AudioFilePlaybackId, AudioFilePlaybackStatusEvent};
use crate::source::file::{volume_is_valid, FilePlaybackMessage, FilePlaybackOptions, FileSource};
use crate::source::resampled::AudioResampler;
use crate::source::{AudioSource, AudioSourceTime, Sample, Volume};
use crate::utils::channels::{arc_clone, channel_unbounded, try_recv, try_send};
use crate::utils::clock::{elapsed_ms, instant_now};
use crate::utils::fader::{FadeDirection, FaderState, VolumeFader};
use crate::utils::{unique_usize_id, UniqueIdSource};

verus! {

/// The bit pattern of the unity volume factor 1.0: a volume with exactly
/// this pattern bypasses the scaling loop.
pub const UNITY_VOLUME_BITS: u32 = 0x3F800000;

/// Number of samples in the resampler scratch buffer of a preloaded source.
pub const PRELOADED_SCRATCH_SIZE: usize = 8 * 1024;

/// Most control messages consumed per `write` call: the drain is bounded so
/// a single callback does a bounded amount of work; leftovers are consumed
/// by the next callback.
pub const MESSAGE_DRAIN_LIMIT: usize = 64;


/// The playback position in samples a seek to `position_ms` milliseconds
/// lands on, for a buffer of `len` samples with `rate` frames per second
/// and `cc` channels: the position in whole frames converted to samples,
/// clamped to the end of the buffer (absurdly large positions that cannot
/// even be computed in 64 bits clamp to the end as well).
pub open spec fn spec_seek_target(position_ms: u64, rate: u64, cc: u64, len: usize) -> int {
    if rate > 0 && position_ms > u64::MAX as int / (rate as int) {
        len as int
    } else {
        let frames = position_ms * rate / 1000;
        if cc > 0 && frames > u64::MAX as int / (cc as int) {
            len as int
        } else if frames * cc >= len {
            len as int
        } else {
            frames * cc
        }
    }
}

/// The number of input samples a preloaded source still has to play when
/// standing at `buffer_pos` with `repeat` remaining repeats: the rest of
/// the current pass plus one full pass per remaining repeat.
pub open spec fn remaining_input_samples(buffer_pos: int, repeat: int, buffer_len: int) -> int {
    (buffer_len - buffer_pos) + repeat * buffer_len
}

/// Law: a preloaded source started with `repeat` repeats plays its buffer
/// `repeat + 1` times over before it exhausts naturally: from the start of
/// playback exactly `(repeat + 1) * buffer_len` input samples are consumed
/// in total.
pub proof fn lemma_repeat_total_input(repeat: int, buffer_len: int)
    requires
        0 <= repeat,
        0 <= buffer_len,
    ensures
        remaining_input_samples(0, repeat, buffer_len) == (repeat + 1) * buffer_len,
{
    vstd::arithmetic::mul::lemma_mul_is_distributive_add_other_way(buffer_len, repeat, 1);
}

/// Law: wrapping around at the end of the buffer conserves the remaining
/// input. Consuming the `len - pos` samples up to the end of the buffer
/// and then restarting at position 0 with one repeat less leaves exactly
/// the remaining input that the consumed span accounts for, so every
/// consumed input sample decreases the remaining total by exactly one,
/// across passes.
pub proof fn lemma_wrap_conserves_remaining(pos: int, repeat: int, len: int)
    requires
        0 <= pos <= len,
        1 <= repeat,
    ensures
        remaining_input_samples(0, repeat - 1, len) == remaining_input_samples(pos, repeat, len) - (
        len - pos),
{
    vstd::arithmetic::mul::lemma_mul_is_distributive_sub_other_way(len, repeat, 1);
}

/// Law (seek idempotence): two consecutive seeks to the same position
/// yield the same playback position as one. A seek only moves the playback
/// position (and resets the resampler kernel), and the seek target depends
/// solely on the buffer's immutable signal spec and length, so recomputing
/// the target on the seeked source lands on the very same position.
pub proof fn lemma_seek_idempotent<S: Sample, R: AudioResampler<S>>(
    source: PreloadedFileSource<S, R>,
    seeked_pos: usize,
    position_ms: u64,
)
    ensures
        spec_seek_target(
            position_ms,
            (PreloadedFileSource { buffer_pos: seeked_pos, ..source }).buffer_sample_rate as u64,
            (PreloadedFileSource { buffer_pos: seeked_pos, ..source }).buffer_channel_count as u64,
            (PreloadedFileSource { buffer_pos: seeked_pos, ..source }).buffer@.len() as usize,
        ) == spec_seek_target(
            position_ms,
            source.buffer_sample_rate as u64,
            source.buffer_channel_count as u64,
            source.buffer@.len() as usize,
        ),
{
}

/// Law (one Stopped event per source): a well-formed source has emitted
/// its terminal Stopped event exactly when playback has finished, and
/// playback, once finished, stays finished. So across any sequence of
/// `write` calls the event is emitted exactly once: at the single step on
/// which `playback_finished` flips, and never again, since a finished
/// source returns early. The streamed and synth sources maintain the same
/// invariant. The player removes the id when it receives the event, so
/// stopping an already finished source reports that the id is unknown.
pub proof fn lemma_stopped_event_once<S: Sample, R: AudioResampler<S>>(
    pre: PreloadedFileSource<S, R>,
    post: PreloadedFileSource<S, R>,
)
    requires
        pre.wf(),
        post.wf(),
        pre.playback_finished ==> post.playback_finished,
    ensures
        pre.stopped_event_sent ==> post.stopped_event_sent,
{
}

/// A buffered, clonable file source, which decodes the entire file into a
/// buffer before it is played back.
///
/// Buffers of preloaded file sources are shared, so cloning a source is
/// cheap: it copies a buffer reference and not the buffer itself. This way
/// a file can be preloaded once and reused as often as necessary.
pub struct PreloadedFileSource<S: Sample, R: AudioResampler<S>> {
    /// Unique playback id of this source.
    pub file_id: AudioFilePlaybackId,
    /// Path of the decoded file, echoed in status events.
    pub file_path: String,
    /// Linear playback volume factor.
    pub volume: Volume,
    /// Fader applying fade-in on start and fade-out on stop.
    pub volume_fader: VolumeFader,
    /// Fade-out duration applied when the source is stopped; 0 stops
    /// immediately.
    pub fade_out_on_stop_ms: u64,
    /// Number of remaining repeats; `usize::MAX` repeats forever.
    pub repeat: usize,
    /// Sending side of the playback control channel, handed to the player.
    pub playback_message_send: crossbeam_channel::Sender<FilePlaybackMessage>,
    /// Receiving side of the playback control channel, drained on `write`.
    pub playback_message_receive: crossbeam_channel::Receiver<FilePlaybackMessage>,
    /// Optional channel for position and stopped status events.
    pub playback_status_send: Option<crossbeam_channel::Sender<AudioFilePlaybackStatusEvent>>,
    /// The shared, immutable, interleaved sample buffer of the whole file.
    pub buffer: Arc<Vec<S>>,
    /// Native sample rate of the buffer.
    pub buffer_sample_rate: u32,
    /// Channel count of the buffer.
    pub buffer_channel_count: usize,
    /// Current playback position in the buffer, in samples.
    pub buffer_pos: usize,
    /// Resampler kernel converting the buffer to the output rate.
    pub resampler: R,
    /// Sample rate this source plays back at.
    pub output_sample_rate: u32,
    /// Scratch buffer the kernel output is staged in.
    pub scratch: Vec<S>,
    /// The silence sample value, used to re-fill the scratch buffer.
    pub silence: S,
    /// Wall-clock reading of the last position report.
    pub playback_pos_report_instant: std::time::Instant,
    /// When set, emit a position event at most once per this many
    /// milliseconds.
    pub playback_pos_emit_rate_ms: Option<u64>,
    /// Latched once playback finished for good.
    pub playback_finished: bool,
    /// Whether the terminal Stopped event was emitted; tracks
    /// `playback_finished` exactly, so it is emitted exactly once.
    pub stopped_event_sent: bool,
}

impl<S: Sample, R: AudioResampler<S>> PreloadedFileSource<S, R> {
    /// Well-formedness: a sane signal spec, a valid playback position, a
    /// full scratch buffer, a well-formed fader, and the Stopped event
    /// emitted exactly when playback has finished.
    pub open spec fn wf(&self) -> bool {
        &&& self.buffer_channel_count >= 1
        &&& self.volume_fader.wf()
        &&& self.volume_fader.sample_rate == self.buffer_sample_rate
        &&& self.buffer_pos <= self.buffer@.len()
        &&& self.scratch@.len() == PRELOADED_SCRATCH_SIZE
        &&& self.stopped_event_sent == self.playback_finished
    }

    /// Create a preloaded source from an already decoded, possibly shared
    /// sample buffer. The kernel `resampler` converts from the buffer's
    /// rate to `output_sample_rate`; `silence` is the silent sample value.
    /// Fails with `Error::ParameterError` exactly when the options are
    /// invalid.
    pub fn with_buffer(
        buffer: Arc<Vec<S>>,
        buffer_sample_rate: u32,
        buffer_channel_count: usize,
        file_path: String,
        playback_status_send: Option<crossbeam_channel::Sender<AudioFilePlaybackStatusEvent>>,
        options: FilePlaybackOptions,
        output_sample_rate: u32,
        resampler: R,
        silence: S,
        ids: &mut UniqueIdSource,
    ) -> (r: Result<PreloadedFileSource<S, R>, Error>)
        requires
            buffer_channel_count >= 1,
            old(ids).next_id < usize::MAX,
        ensures
            r is Ok <==> volume_is_valid(options.volume),
            r is Err ==> r == Result::<PreloadedFileSource<S, R>, Error>::Err(
                Error::ParameterError,
            ),
            r is Ok ==> final(ids).next_id == old(ids).next_id + 1,
            r is Err ==> *final(ids) == *old(ids),
            r matches Ok(s) ==> {
                &&& s.wf()
                &&& s.buffer == buffer
                &&& s.file_id == old(ids).next_id
                &&& s.volume == options.volume
                &&& s.repeat == options.repeat
                &&& s.fade_out_on_stop_ms == options.fade_out_on_stop_ms
                &&& s.buffer_pos == 0
                &&& !s.playback_finished
                &&& s.buffer_sample_rate == buffer_sample_rate
                &&& s.buffer_channel_count == buffer_channel_count
                &&& s.output_sample_rate == output_sample_rate
                &&& s.playback_pos_emit_rate_ms == options.playback_pos_emit_rate_ms
                &&& (s.volume_fader.state == FaderState::Stopped <==> options.fade_in_ms == 0)
                &&& (options.fade_in_ms > 0 ==> s.volume_fader.direction
                    == FadeDirection::FadeIn)
            },
    {
        if let Err(err) = options.validate() {
            return Err(err);
        }
        let (playback_message_send, playback_message_receive) = channel_unbounded::<
            FilePlaybackMessage,
        >();
        let mut volume_fader = VolumeFader::new(buffer_channel_count, buffer_sample_rate);
        if options.fade_in_ms > 0 {
            let rate = buffer_sample_rate as u64;
            let fade_ms = if rate > 0 && options.fade_in_ms > u64::MAX / rate {
                u64::MAX / rate
            } else {
                options.fade_in_ms
            };
            proof {
                if rate > 0 {
                    crate::utils::lemma_div_mul_le(fade_ms as int, u64::MAX as int, rate as int);
                }
            }
            volume_fader.start_fade_in(fade_ms);
        }
        let file_id = unique_usize_id(ids);
        let mut scratch: Vec<S> = Vec::new();
        let mut i: usize = 0;
        while i < PRELOADED_SCRATCH_SIZE
            invariant
                i <= PRELOADED_SCRATCH_SIZE,
                scratch@.len() == i,
            decreases PRELOADED_SCRATCH_SIZE - i,
        {
            scratch.push(silence);
            i = i + 1;
        }
        Ok(
            PreloadedFileSource {
                file_id,
                file_path,
                volume: options.volume,
                volume_fader,
                fade_out_on_stop_ms: options.fade_out_on_stop_ms,
                repeat: options.repeat,
                playback_message_send,
                playback_message_receive,
                playback_status_send,
                buffer,
                buffer_sample_rate,
                buffer_channel_count,
                buffer_pos: 0,
                resampler,
                output_sample_rate,
                scratch,
                silence,
                playback_pos_report_instant: instant_now(),
                playback_pos_emit_rate_ms: options.playback_pos_emit_rate_ms,
                playback_finished: false,
                stopped_event_sent: false,
            },
        )
    }

    /// Create a copy of this preloaded source with the given playback
    /// options: the copy shares this source's decoded buffer instead of
    /// decoding the file again, and starts playing from the beginning.
    pub fn clone(
        &self,
        options: FilePlaybackOptions,
        output_sample_rate: u32,
        resampler: R,
        ids: &mut UniqueIdSource,
    ) -> (r: Result<PreloadedFileSource<S, R>, Error>)
        requires
            self.wf(),
            old(ids).next_id < usize::MAX,
        ensures
            r is Ok <==> volume_is_valid(options.volume),
            r is Ok ==> final(ids).next_id == old(ids).next_id + 1,
            r is Err ==> *final(ids) == *old(ids),
            r matches Ok(s) ==> {
                &&& s.wf()
                &&& s.buffer@ == self.buffer@
                &&& s.buffer_sample_rate == self.buffer_sample_rate
                &&& s.buffer_channel_count == self.buffer_channel_count
                &&& s.buffer_pos == 0
                &&& !s.playback_finished
                &&& s.volume == options.volume
                &&& s.repeat == options.repeat
                &&& s.file_id == old(ids).next_id
            },
    {
        let status_send = match &self.playback_status_send {
            Some(sender) => Some(sender.clone()),
            None => None,
        };
        PreloadedFileSource::with_buffer(
            arc_clone(&self.buffer),
            self.buffer_sample_rate,
            self.buffer_channel_count,
            self.file_path.clone(),
            status_send,
            options,
            output_sample_rate,
            resampler,
            self.silence,
            ids,
        )
    }

    /// Access to the playback volume option.
    pub fn volume(&self) -> (r: Volume)
        ensures
            r == self.volume,
    {
        self.volume
    }

    /// Set a new playback volume option.
    pub fn set_volume(&mut self, volume: Volume)
        ensures
            *final(self) == (PreloadedFileSource { volume, ..*old(self) }),
    {
        self.volume = volume;
    }

    /// Sample rate of the raw preloaded file buffer.
    pub fn buffer_sample_rate(&self) -> (r: u32)
        ensures
            r == self.buffer_sample_rate,
    {
        self.buffer_sample_rate
    }

    /// Number of channels in the raw preloaded file buffer.
    pub fn buffer_channel_count(&self) -> (r: usize)
        ensures
            r == self.buffer_channel_count,
    {
        self.buffer_channel_count
    }

    /// Shared read-only access to the raw preloaded file buffer.
    pub fn buffer(&self) -> (r: Arc<Vec<S>>)
        ensures
            r@ == self.buffer@,
    {
        arc_clone(&self.buffer)
    }

    /// The playback position in the buffer after seeking to `position_ms`
    /// milliseconds: the position in whole frames, converted to samples and
    /// clamped to the buffer length.
    pub fn seek_buffer_pos(&self, position_ms: u64) -> (r: usize)
        requires
            self.wf(),
        ensures
            r <= self.buffer@.len(),
            r as int == spec_seek_target(
                position_ms,
                self.buffer_sample_rate as u64,
                self.buffer_channel_count as u64,
                self.buffer@.len() as usize,
            ),
    {
        let rate = self.buffer_sample_rate as u64;
        let cc = self.buffer_channel_count as u64;
        let len = self.buffer.len();
        if rate > 0 && position_ms > u64::MAX / rate {
            // the position is astronomically far past the end: clamp
            proof {
                crate::utils::lemma_div_mul_gt(position_ms as int, u64::MAX as int, rate as int);
            }
            return len;
        }
        proof {
            if rate > 0 {
                crate::utils::lemma_div_mul_le(position_ms as int, u64::MAX as int, rate as int);
            }
        }
        let frames = position_ms * rate / 1000;
        if cc > 0 && frames > u64::MAX / cc {
            // likewise: the sample index cannot even be represented
            proof {
                crate::utils::lemma_div_mul_gt(frames as int, u64::MAX as int, cc as int);
            }
            return len;
        }
        proof {
            if cc > 0 {
                crate::utils::lemma_div_mul_le(frames as int, u64::MAX as int, cc as int);
            }
        }
        let samples = frames * cc;
        if samples >= len as u64 {
            len
        } else {
            samples as usize
        }
    }

    /// The playback duration of `samples` interleaved samples in
    /// milliseconds, on the output clock: whole frames divided by the
    /// output rate.
    pub fn samples_to_duration_ms(&self, samples: usize) -> (r: u64)
        requires
            self.wf(),
        ensures
            self.output_sample_rate > 0 && (samples as int / self.buffer_channel_count as int)
                * 1000 <= u64::MAX ==> r == (samples as int / self.buffer_channel_count as int)
                * 1000 / self.output_sample_rate as int,
    {
        let rate = self.output_sample_rate as u64;
        if rate == 0 {
            return 0;
        }
        let frames = (samples / self.buffer_channel_count) as u64;
        if frames > u64::MAX / 1000 {
            proof {
                vstd::arithmetic::div_mod::lemma_fundamental_div_mod(u64::MAX as int, 1000);
                vstd::arithmetic::mul::lemma_mul_strict_inequality(
                    (u64::MAX as int) / 1000,
                    frames as int,
                    1000,
                );
                vstd::arithmetic::mul::lemma_mul_is_commutative(frames as int, 1000);
            }
            return u64::MAX / rate;
        }
        frames * 1000 / rate
    }

    /// Emit the terminal Stopped status event and latch playback as
    /// finished. `exhausted` tells whether the source ran to its natural
    /// end rather than being stopped by request.
    fn emit_stopped(&mut self, exhausted: bool)
        requires
            old(self).wf(),
            !old(self).playback_finished,
        ensures
            final(self).wf(),
            *final(self) == (PreloadedFileSource {
                playback_finished: true,
                stopped_event_sent: true,
                ..*old(self)
            }),
    {
        if let Some(sender) = &self.playback_status_send {
            let event = AudioFilePlaybackStatusEvent::Stopped {
                id: self.file_id,
                path: self.file_path.clone(),
                exhausted,
            };
            // a full or disconnected status channel drops the event
            let _accepted = try_send(sender, event);
        }
        self.stopped_event_sent = true;
        self.playback_finished = true;
    }

    /// Handle a single Stop control message: start the configured fade-out,
    /// or stop immediately (emitting the Stopped event) when the fade-out
    /// duration is zero.
    fn on_stop_message(&mut self, fade_out_ms: u64)
        requires
            old(self).wf(),
        ensures
            final(self).wf(),
            old(self).playback_finished ==> *final(self) == *old(self),
            final(self).playback_finished ==> old(self).playback_finished || fade_out_ms == 0,
            final(self).buffer@ == old(self).buffer@,
            final(self).buffer_pos == old(self).buffer_pos,
            final(self).repeat == old(self).repeat,
            final(self).volume == old(self).volume,
            final(self).buffer_sample_rate == old(self).buffer_sample_rate,
            final(self).buffer_channel_count == old(self).buffer_channel_count,
            final(self).output_sample_rate == old(self).output_sample_rate,
            final(self).scratch@.len() == old(self).scratch@.len(),
            old(self).playback_finished ==> final(self).playback_finished,
    {
        if self.playback_finished {
            return ;
        }
        if fade_out_ms > 0 {
            let rate = self.buffer_sample_rate as u64;
            let fade_ms = if rate > 0 && fade_out_ms > u64::MAX / rate {
                u64::MAX / rate
            } else {
                fade_out_ms
            };
            proof {
                if rate > 0 {
                    crate::utils::lemma_div_mul_le(fade_ms as int, u64::MAX as int, rate as int);
                }
            }
            self.volume_fader.start_fade_out(fade_ms);
        } else {
            self.emit_stopped(false);
        }
    }

    /// Drain pending control messages, up to the per-callback budget:
    /// seeks move the playback position (resetting the kernel), stops start
    /// the fade-out or finish playback.
    fn consume_messages(&mut self)
        requires
            old(self).wf(),
        ensures
            final(self).wf(),
            final(self).buffer@ == old(self).buffer@,
            final(self).repeat == old(self).repeat,
            final(self).volume == old(self).volume,
            final(self).buffer_sample_rate == old(self).buffer_sample_rate,
            final(self).buffer_channel_count == old(self).buffer_channel_count,
            final(self).output_sample_rate == old(self).output_sample_rate,
            old(self).playback_finished ==> *final(self) == *old(self),
    {
        let mut budget: usize = MESSAGE_DRAIN_LIMIT;
        while budget > 0
            invariant
                self.wf(),
                self.buffer@ == old(self).buffer@,
                self.repeat == old(self).repeat,
                self.volume == old(self).volume,
                self.buffer_sample_rate == old(self).buffer_sample_rate,
                self.buffer_channel_count == old(self).buffer_channel_count,
                self.output_sample_rate == old(self).output_sample_rate,
                old(self).playback_finished ==> *self == *old(self),
            decreases budget,
        {
            budget = budget - 1;
            let message = try_recv(&self.playback_message_receive);
            match message {
                Some(FilePlaybackMessage::Seek(position_ms)) => {
                    // a finished source is terminal: late seeks are ignored
                    if !self.playback_finished {
                        let new_pos = self.seek_buffer_pos(position_ms);
                        self.buffer_pos = new_pos;
                        self.resampler.reset();
                    }
                },
                Some(FilePlaybackMessage::Read) => (),
                Some(FilePlaybackMessage::Stop(fade_out_ms)) => {
                    self.on_stop_message(fade_out_ms);
                },
                None => {
                    break ;
                },
            }
        }
    }

    /// Whether a position event is due: an emit rate is configured and at
    /// least that much wall-clock time passed since the last report.
    fn should_report_pos(&self) -> bool {
        if let Some(report_ms) = self.playback_pos_emit_rate_ms {
            elapsed_ms(&self.playback_pos_report_instant) >= report_ms
        } else {
            false
        }
    }
}

impl<S: Sample, R: AudioResampler<S>> FileSource<S> for PreloadedFileSource<S, R> {
    fn playback_message_sender(&self) -> crossbeam_channel::Sender<FilePlaybackMessage> {
        self.playback_message_send.clone()
    }

    fn playback_id(&self) -> (r: AudioFilePlaybackId)
        ensures
            r == self.file_id,
    {
        self.file_id
    }

    /// The buffer length in frames is always known for a preloaded file.
    fn total_frames(&self) -> (r: Option<u64>)
        ensures
            self.wf() ==> r == Some((self.buffer@.len() as u64 / self.buffer_channel_count as u64)),
    {
        if self.buffer_channel_count == 0 {
            Some(0u64)
        } else {
            Some(self.buffer.len() as u64 / self.buffer_channel_count as u64)
        }
    }

    fn current_frame_position(&self) -> (r: u64)
        ensures
            self.wf() ==> r == self.buffer_pos as u64 / self.buffer_channel_count as u64,
    {
        if self.buffer_channel_count == 0 {
            0u64
        } else {
            self.buffer_pos as u64 / self.buffer_channel_count as u64
        }
    }

    fn end_of_track(&self) -> (r: bool)
        ensures
            r == self.playback_finished,
    {
        self.playback_finished
    }
}

impl<S: Sample, R: AudioResampler<S>> AudioSource<S> for PreloadedFileSource<S, R> {
    open spec fn exhausted(&self) -> bool {
        self.playback_finished
    }

    open spec fn spec_channel_count(&self) -> int {
        self.buffer_channel_count as int
    }

    open spec fn spec_sample_rate(&self) -> int {
        self.output_sample_rate as int
    }

    /// Consume pending control messages, then fill `output` from the
    /// buffer at the current position through the resampler kernel,
    /// applying volume and fades and wrapping around for repeats; emit a
    /// rate-limited position event, and the terminal Stopped event when the
    /// end of the buffer is reached or a fade-out completed.
    fn write(&mut self, output: &mut Vec<S>, time: &AudioSourceTime) -> (written: usize)
        ensures
            old(self).wf() ==> final(self).wf(),
            !old(self).wf() ==> written == 0 && final(output)@ == old(output)@ && *final(self)
                == *old(self),
            old(self).playback_finished ==> written == 0 && final(output)@ == old(output)@
                && *final(self) == *old(self),
            forall|j: int|
                written <= j < old(output)@.len() ==> final(output)@[j] == old(output)@[j],
            final(self).buffer@ == old(self).buffer@,
            final(self).volume == old(self).volume,
            final(self).repeat <= old(self).repeat,
            old(self).repeat == usize::MAX ==> final(self).repeat == usize::MAX,
    {
        if self.buffer_pos > self.buffer.len() || self.buffer_channel_count == 0
            || self.scratch.len() != PRELOADED_SCRATCH_SIZE || !self.volume_fader.check_wf()
            || self.volume_fader.sample_rate != self.buffer_sample_rate
            || self.stopped_event_sent != self.playback_finished {
            // degenerate state: produce nothing
            return 0;
        }
        self.consume_messages();
        if self.playback_finished {
            return 0;
        }
        let out_cap = output.len();
        let mut total_written: usize = 0;
        loop
            invariant
                self.wf(),
                !self.playback_finished,
                total_written <= out_cap,
                output@.len() == out_cap,
                output@.len() == old(output)@.len(),
                self.buffer@ == old(self).buffer@,
                self.volume == old(self).volume,
                self.buffer_sample_rate == old(self).buffer_sample_rate,
                self.buffer_channel_count == old(self).buffer_channel_count,
                self.output_sample_rate == old(self).output_sample_rate,
                self.repeat <= old(self).repeat,
                old(self).repeat == usize::MAX ==> self.repeat == usize::MAX,
                forall|j: int|
                    total_written <= j < old(output)@.len() ==> output@[j] == old(output)@[j],
            decreases out_cap - total_written,
        {
            if total_written >= out_cap {
                break ;
            }
            let buffer_len = self.buffer.len();
            // stage at most the remaining output through the scratch buffer
            let want = out_cap - total_written;
            let ask = if want < PRELOADED_SCRATCH_SIZE {
                want
            } else {
                PRELOADED_SCRATCH_SIZE
            };
            self.scratch.truncate(ask);
            let buffer_ref: &Vec<S> = &*self.buffer;
            let (consumed, produced) = self.resampler.process(
                buffer_ref,
                self.buffer_pos,
                buffer_len,
                &mut self.scratch,
            );
            let ghost pre = *self;
            // apply the volume factor, unless it is exactly unity
            if self.volume.bits != UNITY_VOLUME_BITS {
                let mut k: usize = 0;
                while k < produced
                    invariant
                        k <= produced,
                        produced <= self.scratch@.len(),
                        self.scratch@.len() == pre.scratch@.len(),
                        *self == (PreloadedFileSource { scratch: self.scratch, ..pre }),
                    decreases produced - k,
                {
                    let scaled = self.scratch[k].amplified(self.volume);
                    self.scratch.set(k, scaled);
                    k = k + 1;
                }
            }
            // apply the fade ramp
            self.volume_fader.process(&mut self.scratch, produced);
            // mix the staged samples into the caller's buffer
            let mut k: usize = 0;
            while k < produced
                invariant
                    k <= produced,
                    produced <= self.scratch@.len(),
                    total_written + produced <= out_cap,
                    output@.len() == out_cap,
                    output@.len() == old(output)@.len(),
                    forall|j: int|
                        total_written + k <= j < old(output)@.len() ==> output@[j] == old(
                            output,
                        )@[j],
                decreases produced - k,
            {
                let v = self.scratch[k];
                output.set(total_written + k, v);
                k = k + 1;
            }
            let ghost pre_restore = *self;
            // restore the scratch buffer to its full size; capacity is
            // retained by truncate, so this does not reallocate
            while self.scratch.len() < PRELOADED_SCRATCH_SIZE
                invariant
                    self.scratch@.len() <= PRELOADED_SCRATCH_SIZE,
                    *self == (PreloadedFileSource { scratch: self.scratch, ..pre_restore }),
                decreases PRELOADED_SCRATCH_SIZE - self.scratch@.len(),
            {
                let s = self.silence;
                self.scratch.push(s);
            }
            self.buffer_pos = self.buffer_pos + consumed;
            total_written = total_written + produced;
            // loop or stop when reaching the end of the file
            if self.buffer_pos >= buffer_len {
                if self.repeat > 0 {
                    if self.repeat != usize::MAX {
                        self.repeat = self.repeat - 1;
                    }
                    self.buffer_pos = 0;
                } else {
                    break ;
                }
            }
            if produced == 0 {
                // the kernel is not producing: hand back what was written
                // rather than spinning on the real-time thread
                break ;
            }
        }
        // send a rate-limited position change event
        if self.playback_status_send.is_some() && self.should_report_pos() {
            self.playback_pos_report_instant = instant_now();
            let position_ms = self.samples_to_duration_ms(self.buffer_pos);
            let event = AudioFilePlaybackStatusEvent::Position {
                id: self.file_id,
                path: self.file_path.clone(),
                position_ms,
            };
            if let Some(sender) = &self.playback_status_send {
                // a full status channel drops position events
                let _accepted = try_send(sender, event);
            }
        }
        // emit the one Stopped event when playback finished: either the
        // buffer ran out with no repeats left, or a stop fade-out completed
        let end_of_file = self.buffer_pos >= self.buffer.len();
        let fade_out_completed = self.volume_fader.state() == FaderState::Finished
            && self.volume_fader.target_is_silence();
        if end_of_file || fade_out_completed {
            self.emit_stopped(end_of_file);
        }
        total_written
    }

    fn channel_count(&self) -> (r: usize)
        ensures
            r as int == self.spec_channel_count(),
    {
        self.buffer_channel_count
    }

    fn sample_rate(&self) -> (r: u32)
        ensures
            r as int == self.spec_sample_rate(),
    {
        self.output_sample_rate
    }

    fn is_exhausted(&self) -> (r: bool)
        ensures
            r == self.exhausted(),
    {
        self.playback_finished
    }
}

} // verus!
