use core::sync::atomic::{AtomicBool, AtomicU64, Ordering};
use std::sync::Arc;
use vstd::prelude::*;

use crate::player::{AudioFilePlaybackId, AudioFilePlaybackStatusEvent};
use crate::source::file::{FilePlaybackMessage, FileSource};
use crate::source::{AudioSource, AudioSourceTime, Sample, Volume};
use crate::utils::channels::try_send;
use crate::utils::fader::{FaderState, VolumeFader};
use crate::utils::ring::ring_read;

verus! {

/// The bit pattern of the unity volume factor 1.0.
pub const STREAMED_UNITY_VOLUME_BITS: u32 = 0x3F800000;

/// State shared between a streamed source (audio thread) and its decoder
/// worker (actor thread). All fields are atomics: loads observe whatever
/// the other thread last stored, so nothing is assumed about their values.
pub struct SharedFileWorkerState {
    /// Current position in samples; the consumer adds what it read, the
    /// worker stores absolute positions on seek.
    pub position: Arc<AtomicU64>,
    /// Total number of samples of the stream; set by the worker on end of
    /// file, `u64::MAX` while still unknown.
    pub total_samples: Arc<AtomicU64>,
    /// True once the worker decoded up to the end of the file.
    pub end_of_file: Arc<AtomicBool>,
    /// False once the source was stopped; the worker shuts down on it.
    pub is_playing: Arc<AtomicBool>,
    /// True once a stop fade-out was requested.
    pub is_fading_out: Arc<AtomicBool>,
    /// The requested stop fade-out duration in milliseconds.
    pub fade_out_duration_ms: Arc<AtomicU64>,
}

/// A source which streams and decodes an audio file asynchronously: a
/// decoder worker fills a single-producer/single-consumer ring buffer
/// under backpressure, and this source drains it on the audio thread.
#[verifier::reject_recursive_types(S)]
pub struct StreamedFileSource<S: Sample> {
    /// Unique playback id of this source.
    pub file_id: AudioFilePlaybackId,
    /// Path of the streamed file, echoed in status events.
    pub file_path: String,
    /// Linear playback volume factor.
    pub volume: Volume,
    /// Fader applying the stop fade-out.
    pub stop_fader: VolumeFader,
    /// Consumer side of the decoded-sample ring buffer.
    pub consumer: rb::Consumer<S>,
    /// State shared with the decoder worker.
    pub worker_state: SharedFileWorkerState,
    /// Control channel of the decoder worker, handed to the player.
    pub worker_send: crossbeam_channel::Sender<FilePlaybackMessage>,
    /// Optional channel for position and stopped status events.
    pub playback_status_send: Option<crossbeam_channel::Sender<AudioFilePlaybackStatusEvent>>,
    /// Native sample rate of the decoded signal.
    pub signal_sample_rate: u32,
    /// Channel count of the decoded signal.
    pub signal_channel_count: usize,
    /// Emit a position report at most once per this many samples.
    pub report_precision_samples: u64,
    /// The position of the last emitted report, if any.
    pub reported_pos: Option<u64>,
    /// Latched once playback finished for good.
    pub playback_finished: bool,
    /// Whether the terminal Stopped event was emitted; tracks
    /// `playback_finished` exactly, so it is emitted exactly once.
    pub stopped_event_sent: bool,
}

impl<S: Sample> StreamedFileSource<S> {
    /// Well-formedness: a sane signal spec, a well-formed fader on the
    /// signal clock and the Stopped event emitted exactly when playback
    /// has finished.
    pub open spec fn wf(&self) -> bool {
        &&& self.signal_channel_count >= 1
        &&& self.stop_fader.wf()
        &&& self.stop_fader.sample_rate == self.signal_sample_rate
        &&& self.stopped_event_sent == self.playback_finished
    }

    /// Create the audio-thread side of a streamed source from an already
    /// opened decoder's signal spec, the ring-buffer consumer and the
    /// state shared with the spawned decoder worker.
    pub fn new(
        file_id: AudioFilePlaybackId,
        file_path: String,
        volume: Volume,
        consumer: rb::Consumer<S>,
        worker_state: SharedFileWorkerState,
        worker_send: crossbeam_channel::Sender<FilePlaybackMessage>,
        playback_status_send: Option<crossbeam_channel::Sender<AudioFilePlaybackStatusEvent>>,
        signal_sample_rate: u32,
        signal_channel_count: usize,
        report_precision_samples: u64,
    ) -> (r: StreamedFileSource<S>)
        requires
            signal_channel_count >= 1,
        ensures
            r.wf(),
            r.file_id == file_id,
            r.volume == volume,
            r.signal_sample_rate == signal_sample_rate,
            r.signal_channel_count == signal_channel_count,
            !r.playback_finished,
            r.reported_pos is None,
    {
        StreamedFileSource {
            file_id,
            file_path,
            volume,
            stop_fader: VolumeFader::new(signal_channel_count, signal_sample_rate),
            consumer,
            worker_state,
            worker_send,
            playback_status_send,
            signal_sample_rate,
            signal_channel_count,
            report_precision_samples,
            reported_pos: None,
            playback_finished: false,
            stopped_event_sent: false,
        }
    }

    /// Add `read` samples to the shared position counter and return the
    /// resulting absolute position. The counter is shared with the worker,
    /// so the observed base value is arbitrary; the sum saturates.
    fn written_samples(&self, read: u64) -> u64 {
        let prior = (&*self.worker_state.position).fetch_add(read, Ordering::Relaxed);
        if prior > u64::MAX - read {
            u64::MAX
        } else {
            prior + read
        }
    }

    /// Whether a position report is due: none was sent yet, the stream
    /// seeked backwards, or the position advanced by at least the report
    /// precision.
    fn should_report_pos(&self, pos: u64) -> (r: bool)
        ensures
            r == match self.reported_pos {
                Some(reported) => reported > pos || pos - reported
                    >= self.report_precision_samples,
                None => true,
            },
    {
        match self.reported_pos {
            Some(reported) => reported > pos || pos - reported >= self.report_precision_samples,
            None => true,
        }
    }

    /// The playback duration of `samples` interleaved samples in
    /// milliseconds on the signal clock.
    fn samples_to_duration_ms(&self, samples: u64) -> (r: u64)
        requires
            self.wf(),
    {
        let rate = self.signal_sample_rate as u64;
        if rate == 0 {
            return 0;
        }
        let frames = samples / (self.signal_channel_count as u64);
        if frames > u64::MAX / 1000 {
            proof {
                crate::utils::lemma_div_mul_gt(frames as int, u64::MAX as int, 1000);
                vstd::arithmetic::mul::lemma_mul_is_commutative(frames as int, 1000);
            }
            return u64::MAX / rate;
        }
        proof {
            crate::utils::lemma_div_mul_le(frames as int, u64::MAX as int, 1000);
            vstd::arithmetic::mul::lemma_mul_is_commutative(frames as int, 1000);
        }
        frames * 1000 / rate
    }

    /// Emit the terminal Stopped status event, tell the worker to stop and
    /// latch playback as finished.
    fn emit_stopped(&mut self, exhausted: bool)
        requires
            old(self).wf(),
            !old(self).playback_finished,
        ensures
            final(self).wf(),
            final(self).playback_finished,
            final(self).stopped_event_sent,
            final(self).volume == old(self).volume,
            final(self).signal_sample_rate == old(self).signal_sample_rate,
            final(self).signal_channel_count == old(self).signal_channel_count,
    {
        if let Some(sender) = &self.playback_status_send {
            let event = AudioFilePlaybackStatusEvent::Stopped {
                id: self.file_id,
                path: self.file_path.clone(),
                exhausted,
            };
            // a full or disconnected status channel drops the event
            let _accepted = try_send(sender, event);
        }
        // stop the worker
        (&*self.worker_state.is_playing).store(false, Ordering::Relaxed);
        self.stopped_event_sent = true;
        self.playback_finished = true;
    }
}

impl<S: Sample> FileSource<S> for StreamedFileSource<S> {
    fn playback_message_sender(&self) -> crossbeam_channel::Sender<FilePlaybackMessage> {
        self.worker_send.clone()
    }

    fn playback_id(&self) -> (r: AudioFilePlaybackId)
        ensures
            r == self.file_id,
    {
        self.file_id
    }

    /// The total frame count is unknown until the worker reached the end
    /// of the file; the shared counter holds `u64::MAX` until then.
    fn total_frames(&self) -> Option<u64> {
        let total = (&*self.worker_state.total_samples).load(Ordering::Relaxed);
        if total == u64::MAX || self.signal_channel_count == 0 {
            None
        } else {
            Some(total / self.signal_channel_count as u64)
        }
    }

    fn current_frame_position(&self) -> u64 {
        if self.signal_channel_count == 0 {
            0u64
        } else {
            (&*self.worker_state.position).load(Ordering::Relaxed)
                / self.signal_channel_count as u64
        }
    }

    fn end_of_track(&self) -> bool {
        self.playback_finished && (&*self.worker_state.end_of_file).load(Ordering::Relaxed)
    }
}

impl<S: Sample> AudioSource<S> for StreamedFileSource<S> {
    open spec fn exhausted(&self) -> bool {
        self.playback_finished
    }

    open spec fn spec_channel_count(&self) -> int {
        self.signal_channel_count as int
    }

    open spec fn spec_sample_rate(&self) -> int {
        self.signal_sample_rate as int
    }

    /// Drain up to a buffer of decoded samples from the ring, apply volume
    /// and a pending stop fade-out, emit a rate-limited position event,
    /// and emit the terminal Stopped event once the source was stopped,
    /// the stream ran dry after end of file, or the fade-out completed.
    fn write(&mut self, output: &mut Vec<S>, time: &AudioSourceTime) -> (written: usize)
        ensures
            old(self).wf() ==> final(self).wf(),
            !old(self).wf() ==> written == 0 && final(output)@ == old(output)@ && *final(self)
                == *old(self),
            old(self).playback_finished ==> written == 0 && final(output)@ == old(output)@
                && *final(self) == *old(self),
            forall|j: int|
                written <= j < old(output)@.len() ==> final(output)@[j] == old(output)@[j],
            final(self).volume == old(self).volume,
    {
        if self.signal_channel_count == 0 || !self.stop_fader.check_wf()
            || self.stop_fader.sample_rate != self.signal_sample_rate || self.stopped_event_sent
            != self.playback_finished {
            // degenerate state: produce nothing
            return 0;
        }
        // return empty handed when playback already finished
        if self.playback_finished {
            return 0;
        }
        // consume as much as available from the ring buffer
        let max = output.len();
        let written = ring_read(&self.consumer, output, max);
        let position = self.written_samples(written as u64);
        // apply the volume factor, unless it is exactly unity
        if self.volume.bits != STREAMED_UNITY_VOLUME_BITS {
            let mut k: usize = 0;
            let vol = self.volume;
            while k < written
                invariant
                    k <= written,
                    written <= output@.len(),
                    output@.len() == old(output)@.len(),
                    forall|j: int|
                        written <= j < old(output)@.len() ==> output@[j] == old(output)@[j],
                decreases written - k,
            {
                let scaled = output[k].amplified(vol);
                output.set(k, scaled);
                k = k + 1;
            }
        }
        // apply the stop fade-out while one is pending
        let is_stopping = (&*self.worker_state.is_fading_out).load(Ordering::Relaxed);
        if is_stopping {
            if self.stop_fader.state() == FaderState::Stopped {
                let duration_ms = (&*self.worker_state.fade_out_duration_ms).load(
                    Ordering::Relaxed,
                );
                let rate = self.signal_sample_rate as u64;
                let fade_ms = if rate > 0 && duration_ms > u64::MAX / rate {
                    u64::MAX / rate
                } else {
                    duration_ms
                };
                proof {
                    if rate > 0 {
                        crate::utils::lemma_div_mul_le(fade_ms as int, u64::MAX as int, rate as int);
                    }
                }
                self.stop_fader.start_fade_out(fade_ms);
            }
            self.stop_fader.process(output, written);
        }
        // send a rate-limited position change event
        if self.playback_status_send.is_some() && self.should_report_pos(position) {
            self.reported_pos = Some(position);
            let position_ms = self.samples_to_duration_ms(position);
            let event = AudioFilePlaybackStatusEvent::Position {
                id: self.file_id,
                path: self.file_path.clone(),
                position_ms,
            };
            if let Some(sender) = &self.playback_status_send {
                // a full status channel drops position events
                let _accepted = try_send(sender, event);
            }
        }
        // emit the one Stopped event when the worker stopped, the stream
        // ran dry after end of file, or the stop fade-out completed
        let is_playing = (&*self.worker_state.is_playing).load(Ordering::Relaxed);
        let is_exhausted_now = written == 0 && (&*self.worker_state.end_of_file).load(
            Ordering::Relaxed,
        );
        let fadeout_completed = is_stopping && self.stop_fader.state() == FaderState::Finished;
        if !is_playing || is_exhausted_now || fadeout_completed {
            self.emit_stopped(is_exhausted_now);
        }
        written
    }

    fn channel_count(&self) -> (r: usize)
        ensures
            r as int == self.spec_channel_count(),
    {
        self.signal_channel_count
    }

    fn sample_rate(&self) -> (r: u32)
        ensures
            r as int == self.spec_sample_rate(),
    {
        self.signal_sample_rate
    }

    fn is_exhausted(&self) -> (r: bool)
        ensures
            r == self.exhausted(),
    {
        self.playback_finished
    }
}

/// Decision state of the decoder worker: everything the read loop needs to
/// remember between messages. The worker itself runs on its own thread and
/// owns the decoder and the producer side of the ring buffer; this state
/// machine makes all of its decisions, so the thread only performs them.
#[derive(Debug, Copy, Clone, PartialEq, Eq, Structural)]
pub struct StreamedFileWorkerDecisions {
    /// Start of the samples of the last decoded packet still to be written
    /// into the ring buffer.
    pub samples_to_write_start: usize,
    /// End of the samples of the last decoded packet still to be written.
    pub samples_to_write_end: usize,
    /// Number of samples written into the ring buffer in the current pass.
    pub samples_written: u64,
    /// Whether the automatic read loop is currently running.
    pub is_reading: bool,
    /// Number of times the stream should still be repeated;
    /// `usize::MAX` repeats forever.
    pub repeat: usize,
}

/// What the worker thread must do after handling a stop message.
#[derive(Debug, Copy, Clone, PartialEq, Eq, Structural)]
pub enum WorkerStopAction {
    /// Mark the shared state as stopped and shut the worker down.
    ShutdownNow,
    /// Store the fade-out request in the shared state and keep running, so
    /// the consumer can apply the fade against live audio.
    FadeOut {
        /// Fade-out duration in milliseconds to store.
        fade_out_ms: u64,
    },
}

/// What the worker thread must do after handling a read message.
#[derive(Debug, Copy, Clone, PartialEq, Eq, Structural)]
pub enum WorkerReadAction {
    /// The source was stopped: shut the worker down.
    ShutdownNow,
    /// Try a non-blocking ring-buffer write of the pending packet samples,
    /// then report the outcome via `on_ring_write_result`.
    WriteLeftover {
        /// Start of the pending samples within the packet buffer.
        start: usize,
        /// End of the pending samples within the packet buffer.
        end: usize,
    },
    /// Read the next packet from the decoder, then report the outcome via
    /// `on_packet_result`.
    ReadPacket,
}

/// What the worker thread must do after a ring-buffer write attempt.
#[derive(Debug, Copy, Clone, PartialEq, Eq, Structural)]
pub enum WorkerWriteOutcomeAction {
    /// Keep the read loop running: send a read message to the own channel.
    ContinueReading,
    /// The ring is full: wait the given number of milliseconds, then read
    /// again; a seek may interleave meanwhile.
    WaitThenRead {
        /// Milliseconds to wait before retrying.
        timeout_ms: u64,
    },
}

/// What the worker thread must do after a decoder packet read.
#[derive(Debug, Copy, Clone, PartialEq, Eq, Structural)]
pub enum WorkerPacketAction {
    /// Keep the read loop running: send a read message to the own channel.
    ContinueReading,
    /// End of file with repeats left: seek the decoder back to the start,
    /// store position 0 in the shared state, and keep reading.
    SeekToStartAndContinue,
    /// End of file with no repeats left: mark end of file and publish the
    /// total sample count in the shared state, and go idle.
    MarkEndOfFile {
        /// The total number of samples written in the final pass.
        total_samples: u64,
    },
}

/// Milliseconds the worker waits before retrying a write into a full ring.
pub const WORKER_RING_FULL_RETRY_MS: u64 = 500;

impl StreamedFileWorkerDecisions {
    /// Validity of the pending packet span.
    pub open spec fn wf(&self) -> bool {
        self.samples_to_write_start <= self.samples_to_write_end
    }

    /// The initial worker state for a stream repeated `repeat` more times.
    pub fn new(repeat: usize) -> (r: StreamedFileWorkerDecisions)
        ensures
            r.wf(),
            r == (StreamedFileWorkerDecisions {
                samples_to_write_start: 0,
                samples_to_write_end: 0,
                samples_written: 0,
                is_reading: false,
                repeat,
            }),
    {
        StreamedFileWorkerDecisions {
            samples_to_write_start: 0,
            samples_to_write_end: 0,
            samples_written: 0,
            is_reading: false,
            repeat,
        }
    }

    /// Decide what to do for a stop message: a zero fade stops the worker
    /// immediately, anything else requests a fade-out from the consumer
    /// and keeps the worker running until it completes.
    pub fn on_stop(&mut self, fade_out_ms: u64) -> (action: WorkerStopAction)
        ensures
            fade_out_ms == 0 ==> action == WorkerStopAction::ShutdownNow && *final(self) == (
            StreamedFileWorkerDecisions { is_reading: false, ..*old(self) }),
            fade_out_ms > 0 ==> action == (WorkerStopAction::FadeOut { fade_out_ms }) && *final(self) == *old(self),
    {
        if fade_out_ms == 0 {
            self.is_reading = false;
            WorkerStopAction::ShutdownNow
        } else {
            WorkerStopAction::FadeOut { fade_out_ms }
        }
    }

    /// Decide what to do for a read message, given whether the source is
    /// still playing: shut down when stopped, flush leftover packet
    /// samples first, and only then decode the next packet.
    pub fn on_read(&self, is_playing: bool) -> (action: WorkerReadAction)
        ensures
            !is_playing ==> action == WorkerReadAction::ShutdownNow,
            is_playing && self.samples_to_write_start < self.samples_to_write_end ==> action == (
            WorkerReadAction::WriteLeftover {
                start: self.samples_to_write_start,
                end: self.samples_to_write_end,
            }),
            is_playing && self.samples_to_write_start >= self.samples_to_write_end ==> action
                == WorkerReadAction::ReadPacket,
    {
        if !is_playing {
            WorkerReadAction::ShutdownNow
        } else if self.samples_to_write_start < self.samples_to_write_end {
            WorkerReadAction::WriteLeftover {
                start: self.samples_to_write_start,
                end: self.samples_to_write_end,
            }
        } else {
            WorkerReadAction::ReadPacket
        }
    }

    /// Account a ring-buffer write attempt of the pending packet samples:
    /// on success the span and total advance and reading continues; on a
    /// full ring the loop pauses for a bounded wait, during which a seek
    /// can interleave.
    pub fn on_ring_write_result(&mut self, written: Option<usize>) -> (action:
        WorkerWriteOutcomeAction)
        requires
            old(self).wf(),
            written matches Some(n) ==> n <= old(self).samples_to_write_end - old(self).samples_to_write_start,
        ensures
            final(self).wf(),
            match written {
                Some(n) => {
                    &&& action == WorkerWriteOutcomeAction::ContinueReading
                    &&& final(self).samples_to_write_start == old(self).samples_to_write_start + n
                    &&& final(self).samples_written == (if old(self).samples_written + n
                        <= u64::MAX {
                        old(self).samples_written + n
                    } else {
                        u64::MAX as int
                    })
                    &&& final(self).is_reading
                    &&& final(self).samples_to_write_end == old(self).samples_to_write_end
                    &&& final(self).repeat == old(self).repeat
                },
                None => {
                    &&& action == (WorkerWriteOutcomeAction::WaitThenRead {
                        timeout_ms: WORKER_RING_FULL_RETRY_MS,
                    })
                    &&& *final(self) == (StreamedFileWorkerDecisions {
                        is_reading: false,
                        ..*old(self)
                    })
                },
            },
    {
        match written {
            Some(n) => {
                self.samples_to_write_start = self.samples_to_write_start + n;
                self.samples_written = if (n as u64) > u64::MAX - self.samples_written {
                    u64::MAX
                } else {
                    self.samples_written + n as u64
                };
                self.is_reading = true;
                WorkerWriteOutcomeAction::ContinueReading
            },
            None => {
                // the ring is full: wait a bit and try again, and note
                // that the read loop is paused so a seek restarts it
                self.is_reading = false;
                WorkerWriteOutcomeAction::WaitThenRead { timeout_ms: WORKER_RING_FULL_RETRY_MS }
            },
        }
    }

    /// Account a decoder packet read: a packet schedules its samples for
    /// the ring; end of file either consumes a repeat and starts the next
    /// pass at the beginning, or marks the stream as fully decoded and
    /// publishes the total sample count.
    pub fn on_packet_result(&mut self, packet_len: Option<usize>) -> (action: WorkerPacketAction)
        requires
            old(self).wf(),
        ensures
            final(self).wf(),
            match packet_len {
                Some(n) => {
                    &&& action == WorkerPacketAction::ContinueReading
                    &&& *final(self) == (StreamedFileWorkerDecisions {
                        samples_to_write_start: 0,
                        samples_to_write_end: n,
                        is_reading: true,
                        ..*old(self)
                    })
                },
                None => {
                    if old(self).repeat > 0 {
                        &&& action == WorkerPacketAction::SeekToStartAndContinue
                        &&& final(self).repeat == (if old(self).repeat == usize::MAX {
                            usize::MAX as int
                        } else {
                            old(self).repeat - 1
                        })
                        &&& final(self).samples_written == 0
                        &&& final(self).samples_to_write_start == final(self).samples_to_write_end
                        &&& final(self).is_reading
                    } else {
                        &&& action == (WorkerPacketAction::MarkEndOfFile {
                            total_samples: old(self).samples_written,
                        })
                        &&& *final(self) == (StreamedFileWorkerDecisions {
                            is_reading: false,
                            ..*old(self)
                        })
                    }
                },
            },
    {
        match packet_len {
            Some(n) => {
                self.samples_to_write_start = 0;
                self.samples_to_write_end = n;
                self.is_reading = true;
                WorkerPacketAction::ContinueReading
            },
            None => {
                if self.repeat > 0 {
                    // seek back to the start and play the next pass
                    if self.repeat != usize::MAX {
                        self.repeat = self.repeat - 1;
                    }
                    self.samples_written = 0;
                    self.samples_to_write_start = 0;
                    self.samples_to_write_end = 0;
                    self.is_reading = true;
                    WorkerPacketAction::SeekToStartAndContinue
                } else {
                    // fully decoded: publish the total and go idle
                    self.is_reading = false;
                    let total = self.samples_written;
                    WorkerPacketAction::MarkEndOfFile { total_samples: total }
                }
            },
        }
    }

    /// Account a decoder seek: the pending packet samples are discarded,
    /// the written count restarts at the new absolute position, and the
    /// read loop must be kicked again if it was paused. Returns whether
    /// the worker has to send itself a read message.
    pub fn on_seek_done(&mut self, position_samples: u64) -> (kick_read: bool)
        ensures
            kick_read == !old(self).is_reading,
            *final(self) == (StreamedFileWorkerDecisions {
                samples_to_write_start: 0,
                samples_to_write_end: 0,
                samples_written: position_samples,
                ..*old(self)
            }),
    {
        let kick_read = !self.is_reading;
        self.samples_to_write_start = 0;
        self.samples_to_write_end = 0;
        self.samples_written = position_samples;
        kick_read
    }
}

} // verus!
