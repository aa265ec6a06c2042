use std::sync::atomic::{AtomicBool, AtomicU64, Ordering};
use std::sync::Arc;

use afplay::error::Error;
use afplay::player::{AudioFilePlaybackStatusEvent, AudioFilePlayer};
use afplay::source::file::preloaded::PreloadedFileSource;
use afplay::source::file::streamed::{
    SharedFileWorkerState, StreamedFileSource, StreamedFileWorkerDecisions, WorkerPacketAction,
    WorkerReadAction, WorkerStopAction, WorkerWriteOutcomeAction,
};
use afplay::source::file::{FilePlaybackMessage, FilePlaybackOptions, FileSource};
use afplay::source::mapped::ChannelMappedSource;
use afplay::source::mixed::{MixedSource, MixedSourceMsg};
use afplay::source::resampled::IdentityResampler;
use afplay::source::synth::signal::{SignalSynthSource, SynthSignal};
use afplay::source::synth::{SynthPlaybackOptions, SynthSource};
use afplay::source::{AudioSource, AudioSourceTime, Sample, Volume};
use afplay::utils::channels::queue_push;
use afplay::utils::UniqueIdSource;
use rb::{RbProducer, SpscRb, RB};

/// Sample type used by the tests: a plain single-precision float.
#[derive(Debug, Clone, Copy, PartialEq, Default)]
struct Smp(f32);

impl Sample for Smp {
    fn mixed_with(self, other: Self) -> Self {
        Smp(self.0 + other.0)
    }
    fn amplified(self, volume: Volume) -> Self {
        Smp(self.0 * f32::from_bits(volume.bits))
    }
    fn faded(self, num: u64, den: u64) -> Self {
        Smp(self.0 * (num as f32 / den as f32))
    }
}

fn vol(v: f32) -> Volume {
    Volume { bits: v.to_bits() }
}

fn time_zero() -> AudioSourceTime {
    AudioSourceTime { pos_in_frames: 0 }
}

fn buf(n: usize) -> Vec<Smp> {
    vec![Smp(0.0); n]
}

type Preloaded = PreloadedFileSource<Smp, IdentityResampler>;

fn preloaded(
    samples: &[f32],
    channels: usize,
    rate: u32,
    options: FilePlaybackOptions,
    status: Option<crossbeam_channel::Sender<AudioFilePlaybackStatusEvent>>,
    ids: &mut UniqueIdSource,
) -> Preloaded {
    let buffer: Vec<Smp> = samples.iter().map(|v| Smp(*v)).collect();
    PreloadedFileSource::with_buffer(
        Arc::new(buffer),
        rate,
        channels,
        "test.wav".to_string(),
        status,
        options,
        rate,
        IdentityResampler::new(256),
        Smp(0.0),
        ids,
    )
    .expect("valid options")
}

/// The playable sources of these tests, so the mixer can own either kind.
enum Node {
    Plain(Preloaded),
    Mapped(ChannelMappedSource<Smp, Preloaded>),
}

impl AudioSource<Smp> for Node {
    fn write(&mut self, output: &mut Vec<Smp>, time: &AudioSourceTime) -> usize {
        match self {
            Node::Plain(s) => s.write(output, time),
            Node::Mapped(s) => s.write(output, time),
        }
    }
    fn channel_count(&self) -> usize {
        match self {
            Node::Plain(s) => s.channel_count(),
            Node::Mapped(s) => s.channel_count(),
        }
    }
    fn sample_rate(&self) -> u32 {
        match self {
            Node::Plain(s) => s.sample_rate(),
            Node::Mapped(s) => s.sample_rate(),
        }
    }
    fn is_exhausted(&self) -> bool {
        match self {
            Node::Plain(s) => s.is_exhausted(),
            Node::Mapped(s) => s.is_exhausted(),
        }
    }
}

fn mixer_with_queue(
    channel_count: usize,
    sample_rate: u32,
) -> (
    MixedSource<Smp, Node>,
    Arc<crossbeam_queue::ArrayQueue<MixedSourceMsg<Node>>>,
    crossbeam_channel::Receiver<afplay::player::AudioSourceDropEvent<Node>>,
) {
    let (drop_send, drop_recv) = crossbeam_channel::unbounded();
    let mixer = MixedSource::new(channel_count, sample_rate, drop_send, Smp(0.0));
    let queue = mixer.event_queue();
    (mixer, queue, drop_recv)
}

fn add_source(
    queue: &crossbeam_queue::ArrayQueue<MixedSourceMsg<Node>>,
    source: Node,
    playback_id: usize,
    sender: crossbeam_channel::Sender<FilePlaybackMessage>,
    start: u64,
) {
    let ok = queue_push(
        queue,
        MixedSourceMsg::AddSource {
            playback_id,
            playback_message_sender: afplay::player::PlaybackMessageSender::File {
                sender,
                fade_out_ms: 0,
            },
            source,
            sample_time: start,
        },
    );
    assert!(ok);
}

#[test]
fn preloaded_plays_buffer_and_stops_exhausted() {
    let mut ids = UniqueIdSource::new();
    let (status_send, status_recv) = crossbeam_channel::unbounded();
    let mut source = preloaded(
        &[0.1, 0.2, 0.3, 0.4],
        1,
        48000,
        FilePlaybackOptions::new(),
        Some(status_send),
        &mut ids,
    );
    let mut out = buf(8);
    let written = source.write(&mut out, &time_zero());
    assert_eq!(written, 4);
    assert_eq!(
        out[..4].iter().map(|s| s.0).collect::<Vec<f32>>(),
        vec![0.1, 0.2, 0.3, 0.4]
    );
    assert!(source.is_exhausted());
    // the terminal event arrives exactly once, with exhausted = true
    match status_recv.try_recv().expect("stopped event") {
        AudioFilePlaybackStatusEvent::Stopped { exhausted, .. } => assert!(exhausted),
        other => panic!("unexpected event {other:?}"),
    }
    assert!(status_recv.try_recv().is_err());
    // exhaustion is sticky: further writes return 0 and emit nothing
    let again = source.write(&mut out, &time_zero());
    assert_eq!(again, 0);
    assert!(source.is_exhausted());
    assert!(status_recv.try_recv().is_err());
}

#[test]
fn preloaded_applies_volume_factor() {
    let mut ids = UniqueIdSource::new();
    let mut source = preloaded(
        &[1.0, -1.0],
        1,
        48000,
        FilePlaybackOptions::new().with_volume(vol(0.5)),
        None,
        &mut ids,
    );
    let mut out = buf(2);
    let written = source.write(&mut out, &time_zero());
    assert_eq!(written, 2);
    assert_eq!(out[0].0, 0.5);
    assert_eq!(out[1].0, -0.5);
}

#[test]
fn preloaded_repeats_buffer_for_each_repeat() {
    // two repeats produce exactly three full passes of the content
    let mut ids = UniqueIdSource::new();
    let mut source = preloaded(
        &[1.0, 2.0],
        1,
        48000,
        FilePlaybackOptions::new().repeat(2),
        None,
        &mut ids,
    );
    let mut out = buf(10);
    let written = source.write(&mut out, &time_zero());
    assert_eq!(written, 6);
    assert_eq!(
        out[..6].iter().map(|s| s.0).collect::<Vec<f32>>(),
        vec![1.0, 2.0, 1.0, 2.0, 1.0, 2.0]
    );
    assert!(source.is_exhausted());
}

#[test]
fn preloaded_continues_across_buffer_boundaries() {
    // successive short writes resume where the previous one ended
    let mut ids = UniqueIdSource::new();
    let samples: Vec<f32> = (0..10).map(|k| k as f32).collect();
    let mut source = preloaded(&samples, 1, 48000, FilePlaybackOptions::new(), None, &mut ids);
    let mut first = buf(4);
    let mut second = buf(4);
    assert_eq!(source.write(&mut first, &time_zero()), 4);
    assert_eq!(source.write(&mut second, &time_zero()), 4);
    assert_eq!(first.iter().map(|s| s.0).collect::<Vec<f32>>(), vec![0.0, 1.0, 2.0, 3.0]);
    assert_eq!(second.iter().map(|s| s.0).collect::<Vec<f32>>(), vec![4.0, 5.0, 6.0, 7.0]);
    assert_eq!(source.current_frame_position(), 8);
    assert_eq!(source.total_frames(), Some(10));
    assert!(!source.is_exhausted());
}

#[test]
fn preloaded_seek_clamps_to_end_and_exhausts() {
    let mut ids = UniqueIdSource::new();
    let source = preloaded(
        &[1.0, 2.0, 3.0, 4.0],
        2,
        1000,
        FilePlaybackOptions::new(),
        None,
        &mut ids,
    );
    let sender = source.playback_message_sender();
    let mut source = source;
    // seek far past the end: the position clamps to the buffer end and
    // the source exhausts naturally on the next write
    sender.send(FilePlaybackMessage::Seek(10_000)).unwrap();
    let mut out = buf(4);
    let written = source.write(&mut out, &time_zero());
    assert_eq!(written, 0);
    assert!(source.is_exhausted());
}

#[test]
fn preloaded_seek_is_idempotent() {
    let mut ids = UniqueIdSource::new();
    let samples: Vec<f32> = (0..64).map(|k| k as f32).collect();
    let mut once = preloaded(&samples, 1, 1000, FilePlaybackOptions::new(), None, &mut ids);
    let mut twice = preloaded(&samples, 1, 1000, FilePlaybackOptions::new(), None, &mut ids);
    once.playback_message_sender().send(FilePlaybackMessage::Seek(10)).unwrap();
    twice.playback_message_sender().send(FilePlaybackMessage::Seek(10)).unwrap();
    twice.playback_message_sender().send(FilePlaybackMessage::Seek(10)).unwrap();
    let mut out_once = buf(16);
    let mut out_twice = buf(16);
    let w1 = once.write(&mut out_once, &time_zero());
    let w2 = twice.write(&mut out_twice, &time_zero());
    assert_eq!(w1, w2);
    assert_eq!(out_once, out_twice);
    // 10 ms at 1000 frames/sec, mono: position 10
    assert_eq!(out_once[0].0, 10.0);
}

#[test]
fn preloaded_clone_shares_buffer_without_redecoding() {
    let mut ids = UniqueIdSource::new();
    let source = preloaded(
        &[0.25, 0.75],
        1,
        48000,
        FilePlaybackOptions::new(),
        None,
        &mut ids,
    );
    let clone = source
        .clone(
            FilePlaybackOptions::new().with_volume(vol(2.0)),
            48000,
            IdentityResampler::new(256),
            &mut ids,
        )
        .expect("valid options");
    // the clone shares the same decoded samples and gets a fresh id
    assert_eq!(source.buffer().len(), clone.buffer().len());
    assert_ne!(source.playback_id(), clone.playback_id());
    let shared_before = Arc::strong_count(&source.buffer());
    assert!(shared_before >= 2, "buffer is shared, not re-decoded");
    let mut out = buf(2);
    let mut clone = clone;
    clone.write(&mut out, &time_zero());
    assert_eq!(out[0].0, 0.5);
    assert_eq!(out[1].0, 1.5);
}

#[test]
fn preloaded_stop_with_fade_ramps_out_and_reports_stopped() {
    let mut ids = UniqueIdSource::new();
    let (status_send, status_recv) = crossbeam_channel::unbounded();
    // constant 1.0 at 1000 frames/sec mono with a 50 ms stop fade
    let samples = vec![1.0f32; 1000];
    let mut source = preloaded(
        &samples,
        1,
        1000,
        FilePlaybackOptions::new().fade_out_on_stop(50),
        Some(status_send),
        &mut ids,
    );
    let sender = source.playback_message_sender();
    // play a bit at full volume
    let mut out = buf(10);
    source.write(&mut out, &time_zero());
    assert_eq!(out[0].0, 1.0);
    // ask for a stop: the configured 50 ms fade (50 frames) is applied
    sender.send(FilePlaybackMessage::Stop(50)).unwrap();
    let mut out = buf(100);
    let written = source.write(&mut out, &time_zero());
    assert_eq!(written, 100);
    // amplitude decays linearly to zero within 50 frames
    assert!(out[0].0 > 0.9);
    assert!(out[20].0 < out[0].0);
    assert_eq!(out[50].0, 0.0);
    assert_eq!(out[99].0, 0.0);
    assert!(source.is_exhausted());
    // the terminal event reports a requested stop, not natural exhaustion
    let mut saw_stopped = false;
    while let Ok(event) = status_recv.try_recv() {
        if let AudioFilePlaybackStatusEvent::Stopped { exhausted, .. } = event {
            assert!(!exhausted);
            assert!(!saw_stopped, "Stopped must be emitted exactly once");
            saw_stopped = true;
        }
    }
    assert!(saw_stopped);
}

#[test]
fn mixer_sums_two_sources_with_aligned_start() {
    // sink 48 kHz stereo; source A is an up-mixed mono tone, source B is
    // stereo silence; both start at frame 0
    let mut ids = UniqueIdSource::new();
    let (status_send, status_recv) = crossbeam_channel::unbounded();
    let tone: Vec<f32> = (0..480)
        .map(|k| 0.5 * (k as f32 * 0.05).sin())
        .collect();
    let a = preloaded(
        &tone,
        1,
        48000,
        FilePlaybackOptions::new(),
        Some(status_send.clone()),
        &mut ids,
    );
    let a_sender = a.playback_message_sender();
    let a_mapped = ChannelMappedSource::new(a, 2, Smp(0.0));
    let silence = vec![0.0f32; 960];
    let b = preloaded(
        &silence,
        2,
        48000,
        FilePlaybackOptions::new(),
        Some(status_send),
        &mut ids,
    );
    let b_sender = b.playback_message_sender();
    let (mut mixer, queue, _drop_recv) = mixer_with_queue(2, 48000);
    add_source(&queue, Node::Mapped(a_mapped), 1, a_sender, 0);
    add_source(&queue, Node::Plain(b), 2, b_sender, 0);
    let mut out = buf(2 * 480);
    let written = mixer.write(&mut out, &time_zero());
    assert_eq!(written, 960);
    for k in 0..480usize {
        let expected = tone[k];
        assert!((out[2 * k].0 - expected).abs() < 1e-6, "left frame {k}");
        assert!((out[2 * k + 1].0 - expected).abs() < 1e-6, "right frame {k}");
    }
    // run once more so both exhausted sources are retired and report
    let mut out2 = buf(64);
    mixer.write(&mut out2, &AudioSourceTime { pos_in_frames: 480 });
    let mut stopped = 0;
    while let Ok(event) = status_recv.try_recv() {
        if let AudioFilePlaybackStatusEvent::Stopped { exhausted, .. } = event {
            assert!(exhausted);
            stopped += 1;
        }
    }
    assert_eq!(stopped, 2);
}

#[test]
fn mixer_honors_scheduled_start_frame() {
    // a constant 1.0 mono source of 0.1 s scheduled at frame 24000 on a
    // mono 48 kHz mix: frames before the start stay exact silence
    let mut ids = UniqueIdSource::new();
    let samples = vec![1.0f32; 4800];
    let source = preloaded(&samples, 1, 48000, FilePlaybackOptions::new(), None, &mut ids);
    let sender = source.playback_message_sender();
    let (mut mixer, queue, _drop_recv) = mixer_with_queue(1, 48000);
    add_source(&queue, Node::Plain(source), 1, sender, 24000);
    let mut out = buf(48000);
    let written = mixer.write(&mut out, &time_zero());
    assert_eq!(written, 48000);
    for k in 0..24000usize {
        assert_eq!(out[k].0, 0.0, "pre-start frame {k}");
    }
    for k in 24000..28800usize {
        assert_eq!(out[k].0, 1.0, "playing frame {k}");
    }
    for k in 28800..48000usize {
        assert_eq!(out[k].0, 0.0, "post-end frame {k}");
    }
}

#[test]
fn mixer_dispatches_scheduled_stop_sample_accurately() {
    let mut ids = UniqueIdSource::new();
    let samples = vec![1.0f32; 1000];
    // no stop fade configured: the stop applies immediately when reached
    let source = preloaded(&samples, 1, 48000, FilePlaybackOptions::new(), None, &mut ids);
    let sender = source.playback_message_sender();
    let (mut mixer, queue, _drop_recv) = mixer_with_queue(1, 48000);
    add_source(&queue, Node::Plain(source), 7, sender, 0);
    let ok = queue_push(
        &queue,
        MixedSourceMsg::StopSource { playback_id: 7, sample_time: 10 },
    );
    assert!(ok);
    let mut out = buf(40);
    let written = mixer.write(&mut out, &time_zero());
    assert_eq!(written, 40);
    for k in 0..10usize {
        assert_eq!(out[k].0, 1.0, "frame {k} before the stop");
    }
    for k in 10..40usize {
        assert_eq!(out[k].0, 0.0, "frame {k} after the stop");
    }
}

#[test]
fn mixer_without_sources_emits_silence() {
    // the mixer is never exhausted: with nothing to play it hands back a
    // full buffer of exact silence
    let (mut mixer, _queue, _drop_recv) = mixer_with_queue(2, 48000);
    let mut out = vec![Smp(7.0); 16];
    let written = mixer.write(&mut out, &time_zero());
    assert_eq!(written, 16);
    for s in &out {
        assert_eq!(s.0, 0.0);
    }
    assert!(!mixer.is_exhausted());
}

#[test]
fn mixer_removes_pending_sources_on_request() {
    let mut ids = UniqueIdSource::new();
    // one source already playing, one scheduled far in the future
    let playing = preloaded(&[1.0f32; 64], 1, 48000, FilePlaybackOptions::new(), None, &mut ids);
    let playing_sender = playing.playback_message_sender();
    let pending = preloaded(&[1.0f32; 64], 1, 48000, FilePlaybackOptions::new(), None, &mut ids);
    let pending_sender = pending.playback_message_sender();
    let (mut mixer, queue, drop_recv) = mixer_with_queue(1, 48000);
    add_source(&queue, Node::Plain(playing), 1, playing_sender, 0);
    add_source(&queue, Node::Plain(pending), 2, pending_sender, 1_000_000);
    let ok = queue_push(&queue, MixedSourceMsg::RemoveAllPendingSources);
    assert!(ok);
    let mut out = buf(32);
    let written = mixer.write(&mut out, &time_zero());
    // the playing source still plays; the scheduled one was culled and
    // shipped to the drop channel
    assert_eq!(written, 32);
    assert_eq!(out[0].0, 1.0);
    assert!(drop_recv.try_recv().is_ok());
    assert!(drop_recv.try_recv().is_err());
}

#[test]
fn mixer_removes_all_sources_on_request() {
    let mut ids = UniqueIdSource::new();
    let a = preloaded(&[1.0f32; 64], 1, 48000, FilePlaybackOptions::new(), None, &mut ids);
    let a_sender = a.playback_message_sender();
    let (mut mixer, queue, drop_recv) = mixer_with_queue(1, 48000);
    add_source(&queue, Node::Plain(a), 1, a_sender, 0);
    let ok = queue_push(&queue, MixedSourceMsg::RemoveAllSources);
    assert!(ok);
    let mut out = vec![Smp(3.0); 8];
    let written = mixer.write(&mut out, &time_zero());
    // nothing is left to play: the full buffer comes back as silence and
    // the source was handed to the drop channel
    assert_eq!(written, 8);
    assert_eq!(out[0].0, 0.0);
    assert!(drop_recv.try_recv().is_ok());
}

#[test]
fn streamed_source_applies_requested_fade_out() {
    let ring: SpscRb<Smp> = SpscRb::new(256);
    let producer = ring.producer();
    let consumer = ring.consumer();
    let shared = SharedFileWorkerState {
        position: Arc::new(AtomicU64::new(0)),
        total_samples: Arc::new(AtomicU64::new(u64::MAX)),
        end_of_file: Arc::new(AtomicBool::new(false)),
        is_playing: Arc::new(AtomicBool::new(true)),
        is_fading_out: Arc::new(AtomicBool::new(false)),
        fade_out_duration_ms: Arc::new(AtomicU64::new(0)),
    };
    let (worker_send, _worker_recv) = crossbeam_channel::unbounded();
    let (status_send, status_recv) = crossbeam_channel::unbounded();
    // mono at 1000 frames/sec so a 50 ms fade is 50 frames
    let mut source: StreamedFileSource<Smp> = StreamedFileSource::new(
        1,
        "stream.ogg".to_string(),
        vol(1.0),
        consumer,
        shared,
        worker_send,
        Some(status_send),
        1000,
        1,
        1000,
    );
    producer.write(&vec![Smp(1.0); 100]).unwrap();
    // the worker acknowledged a stop with a 50 ms fade
    source.worker_state.fade_out_duration_ms.store(50, Ordering::Relaxed);
    source.worker_state.is_fading_out.store(true, Ordering::Relaxed);
    let mut out = buf(100);
    let written = source.write(&mut out, &time_zero());
    assert_eq!(written, 100);
    // amplitude decays linearly and reaches silence within the fade
    assert!(out[0].0 > 0.9);
    assert!(out[20].0 < out[0].0);
    assert_eq!(out[50].0, 0.0);
    // the fade completed: the source stopped by request, not exhaustion
    assert!(source.is_exhausted());
    let mut stopped = 0;
    while let Ok(event) = status_recv.try_recv() {
        if let AudioFilePlaybackStatusEvent::Stopped { exhausted, .. } = event {
            assert!(!exhausted);
            stopped += 1;
        }
    }
    assert_eq!(stopped, 1);
}

#[test]
fn mixer_retires_sources_with_mismatched_specs() {
    // the converter chain guarantees matching specs; a stray mismatched
    // source is retired instead of corrupting the frame arithmetic
    let mut ids = UniqueIdSource::new();
    let wrong_rate = preloaded(&[1.0f32; 8], 1, 22050, FilePlaybackOptions::new(), None, &mut ids);
    let sender = wrong_rate.playback_message_sender();
    let (mut mixer, queue, drop_recv) = mixer_with_queue(1, 48000);
    add_source(&queue, Node::Plain(wrong_rate), 1, sender, 0);
    let mut out = buf(8);
    let written = mixer.write(&mut out, &time_zero());
    assert_eq!(written, 8);
    assert_eq!(out[0].0, 0.0);
    assert!(drop_recv.try_recv().is_ok());
}

#[test]
fn preloaded_ignores_seek_after_finish() {
    // a finished source is terminal: late control messages change nothing
    let mut ids = UniqueIdSource::new();
    let mut source = preloaded(&[1.0, 2.0], 1, 1000, FilePlaybackOptions::new(), None, &mut ids);
    let sender = source.playback_message_sender();
    let mut out = buf(4);
    assert_eq!(source.write(&mut out, &time_zero()), 2);
    assert!(source.is_exhausted());
    let finished_position = source.current_frame_position();
    sender.send(FilePlaybackMessage::Seek(1)).unwrap();
    assert_eq!(source.write(&mut out, &time_zero()), 0);
    assert!(source.is_exhausted());
    assert_eq!(source.current_frame_position(), finished_position);
}

#[test]
fn preloaded_clone_gets_a_fresh_id_from_the_id_source() {
    let mut ids = UniqueIdSource::new();
    let source = preloaded(&[0.5; 4], 1, 48000, FilePlaybackOptions::new(), None, &mut ids);
    let next_before_clone = ids.next_id;
    let clone = source
        .clone(FilePlaybackOptions::new(), 48000, IdentityResampler::new(256), &mut ids)
        .expect("valid options");
    assert_eq!(clone.playback_id(), next_before_clone);
    assert_eq!(ids.next_id, next_before_clone + 1);
    assert_ne!(clone.playback_id(), source.playback_id());
}

#[test]
fn streamed_source_drains_ring_and_stops_once() {
    let ring: SpscRb<Smp> = SpscRb::new(64);
    let producer = ring.producer();
    let consumer = ring.consumer();
    let shared = SharedFileWorkerState {
        position: Arc::new(AtomicU64::new(0)),
        total_samples: Arc::new(AtomicU64::new(u64::MAX)),
        end_of_file: Arc::new(AtomicBool::new(false)),
        is_playing: Arc::new(AtomicBool::new(true)),
        is_fading_out: Arc::new(AtomicBool::new(false)),
        fade_out_duration_ms: Arc::new(AtomicU64::new(0)),
    };
    let (worker_send, _worker_recv) = crossbeam_channel::unbounded();
    let (status_send, status_recv) = crossbeam_channel::unbounded();
    let mut source: StreamedFileSource<Smp> = StreamedFileSource::new(
        1,
        "stream.ogg".to_string(),
        vol(1.0),
        consumer,
        shared,
        worker_send,
        Some(status_send),
        44100,
        2,
        44100,
    );
    producer.write(&[Smp(0.1), Smp(0.2), Smp(0.3), Smp(0.4)]).unwrap();
    let mut out = buf(4);
    let written = source.write(&mut out, &time_zero());
    assert_eq!(written, 4);
    assert_eq!(
        out.iter().map(|s| s.0).collect::<Vec<f32>>(),
        vec![0.1, 0.2, 0.3, 0.4]
    );
    assert!(!source.is_exhausted());
    // the worker reports end of file; the ring runs dry on the next write
    source.worker_state.end_of_file.store(true, Ordering::Relaxed);
    let written = source.write(&mut out, &time_zero());
    assert_eq!(written, 0);
    assert!(source.is_exhausted());
    let mut stopped = 0;
    while let Ok(event) = status_recv.try_recv() {
        if let AudioFilePlaybackStatusEvent::Stopped { exhausted, .. } = event {
            assert!(exhausted);
            stopped += 1;
        }
    }
    assert_eq!(stopped, 1);
    // exhaustion is sticky and nothing further is emitted
    assert_eq!(source.write(&mut out, &time_zero()), 0);
    assert!(status_recv.try_recv().is_err());
}

#[test]
fn worker_decisions_repeat_one_full_extra_pass() {
    // a two-packet stream with repeat = 1 is written to the ring twice
    let mut worker = StreamedFileWorkerDecisions::new(1);
    let mut ring_samples_total: u64 = 0;
    let mut passes = 0;
    loop {
        match worker.on_read(true) {
            WorkerReadAction::ShutdownNow => panic!("unexpected shutdown"),
            WorkerReadAction::WriteLeftover { start, end } => {
                let n = end - start;
                ring_samples_total += n as u64;
                let action = worker.on_ring_write_result(Some(n));
                assert_eq!(action, WorkerWriteOutcomeAction::ContinueReading);
            }
            WorkerReadAction::ReadPacket => {
                // the decoder produces two packets of 3 samples per pass
                let packet = if worker.samples_written < 6 { Some(3) } else { None };
                match worker.on_packet_result(packet) {
                    WorkerPacketAction::ContinueReading => {}
                    WorkerPacketAction::SeekToStartAndContinue => {
                        passes += 1;
                    }
                    WorkerPacketAction::MarkEndOfFile { total_samples } => {
                        passes += 1;
                        assert_eq!(total_samples, 6);
                        break;
                    }
                }
            }
        }
    }
    assert_eq!(passes, 2, "repeat = 1 plays the content twice");
    assert_eq!(ring_samples_total, 12, "both passes reach the ring");
}

#[test]
fn worker_decisions_pause_on_full_ring_and_stop() {
    let mut worker = StreamedFileWorkerDecisions::new(0);
    let _ = worker.on_packet_result(Some(4));
    match worker.on_read(true) {
        WorkerReadAction::WriteLeftover { start, end } => {
            assert_eq!((start, end), (0, 4));
        }
        other => panic!("unexpected action {other:?}"),
    }
    // the ring is full: the worker waits with a bounded timeout
    let action = worker.on_ring_write_result(None);
    assert_eq!(action, WorkerWriteOutcomeAction::WaitThenRead { timeout_ms: 500 });
    // a seek discards the pending samples and restarts the read loop
    let kick = worker.on_seek_done(80);
    assert!(kick);
    assert_eq!(worker.samples_written, 80);
    // a stop without fade shuts the worker down at once
    assert_eq!(worker.on_stop(0), WorkerStopAction::ShutdownNow);
    // a stop with a fade keeps it running and hands the fade on
    let mut other = StreamedFileWorkerDecisions::new(0);
    assert_eq!(other.on_stop(120), WorkerStopAction::FadeOut { fade_out_ms: 120 });
    // a stopped source shuts the read loop down
    assert_eq!(worker.on_read(false), WorkerReadAction::ShutdownNow);
}

/// A test generator: a short ramp of known samples.
struct RampSignal {
    next: usize,
    len: usize,
}

impl SynthSignal<Smp> for RampSignal {
    fn next_sample(&mut self) -> Option<Smp> {
        if self.next >= self.len {
            None
        } else {
            let v = self.next as f32;
            self.next += 1;
            Some(Smp(v))
        }
    }
}

#[test]
fn synth_source_plays_generator_until_exhausted() {
    let mut ids = UniqueIdSource::new();
    let (status_send, status_recv) = crossbeam_channel::unbounded();
    let mut synth: SignalSynthSource<RampSignal> = SignalSynthSource::new(
        RampSignal { next: 0, len: 5 },
        "ramp".to_string(),
        SynthPlaybackOptions::new().volume(vol(2.0)),
        48000,
        Some(status_send),
        &mut ids,
    )
    .expect("valid options");
    assert_eq!(synth.channel_count(), 1);
    let mut out = buf(8);
    let written = synth.write(&mut out, &time_zero());
    assert_eq!(written, 5);
    assert_eq!(
        out[..5].iter().map(|s| s.0).collect::<Vec<f32>>(),
        vec![0.0, 2.0, 4.0, 6.0, 8.0]
    );
    assert!(!synth.is_exhausted());
    // the generator is done: the next write produces nothing and reports
    // natural exhaustion exactly once
    let written = synth.write(&mut out, &time_zero());
    assert_eq!(written, 0);
    assert!(synth.is_exhausted());
    // a finished synth is terminal: the playback position stays put and
    // the generator is not advanced any further
    let position_after_finish = synth.playback_pos;
    assert_eq!(synth.write(&mut out, &time_zero()), 0);
    assert_eq!(synth.playback_pos, position_after_finish);
    assert_eq!(synth.signal.next, 5);
    let mut stopped = 0;
    while let Ok(event) = status_recv.try_recv() {
        if let AudioFilePlaybackStatusEvent::Stopped { exhausted, .. } = event {
            assert!(exhausted);
            stopped += 1;
        }
    }
    assert_eq!(stopped, 1);
}

#[test]
fn player_seek_on_synth_reports_not_supported() {
    let mut ids = UniqueIdSource::new();
    let (status_send, _status_recv) = crossbeam_channel::unbounded();
    let (mixer, queue, _drop_recv) = mixer_with_queue(1, 48000);
    drop(mixer);
    let mut player: AudioFilePlayer<Node> = AudioFilePlayer::new(status_send.clone(), queue);
    // play a synth tone
    let synth: SignalSynthSource<RampSignal> = SignalSynthSource::new(
        RampSignal { next: 0, len: 10 },
        "tone".to_string(),
        SynthPlaybackOptions::new(),
        48000,
        Some(status_send.clone()),
        &mut ids,
    )
    .expect("valid options");
    let synth_id = SynthSource::playback_id(&synth);
    let synth_sender = SynthSource::playback_message_sender(&synth);
    // the test only exercises the control surface: hand the mixer a file
    // node in place of the synth's converted chain
    let dummy = preloaded(&[0.0], 1, 48000, FilePlaybackOptions::new(), None, &mut ids);
    let id = player
        .play_synth(synth_id, synth_sender, 0, Node::Plain(dummy), 0)
        .expect("mixer accepts");
    assert_eq!(id, synth_id);
    // seeking a synth source is not supported, but it stays playing
    assert_eq!(player.seek_source(synth_id, 1000), Err(Error::NotSupported));
    // stopping it succeeds once, then the id is gone
    assert_eq!(player.stop_source(synth_id), Ok(()));
    assert_eq!(player.stop_source(synth_id), Err(Error::NotFound));
    assert_eq!(player.seek_source(synth_id, 0), Err(Error::NotFound));
}

#[test]
fn player_tracks_file_sources_and_stops_all() {
    let mut ids = UniqueIdSource::new();
    let (status_send, _status_recv) = crossbeam_channel::unbounded();
    let (mixer, queue, _drop_recv) = mixer_with_queue(1, 48000);
    drop(mixer);
    let mut player: AudioFilePlayer<Node> = AudioFilePlayer::new(status_send, queue);
    let a = preloaded(&[0.0; 4], 1, 48000, FilePlaybackOptions::new(), None, &mut ids);
    let a_id = a.playback_id();
    let a_sender = a.playback_message_sender();
    let b = preloaded(&[0.0; 4], 1, 48000, FilePlaybackOptions::new(), None, &mut ids);
    let b_id = b.playback_id();
    let b_sender = b.playback_message_sender();
    player
        .play_file_source(a_id, a_sender, 0, Node::Plain(a), 0)
        .expect("mixer accepts");
    player
        .play_file_source(b_id, b_sender, 50, Node::Plain(b), 1000)
        .expect("mixer accepts");
    // file sources may seek
    assert_eq!(player.seek_source(a_id, 0), Ok(()));
    // scheduling a stop keeps the id known
    assert_eq!(player.stop_source_at_sample_time(a_id, 500), Ok(()));
    assert_eq!(player.seek_source(a_id, 0), Ok(()));
    // unknown ids are reported as such
    assert_eq!(player.seek_source(123456, 0), Err(Error::NotFound));
    assert_eq!(player.stop_source_at_sample_time(123456, 1), Err(Error::NotFound));
    // stop everything: no id remains known
    assert_eq!(player.stop_all_sources(), Ok(()));
    assert_eq!(player.stop_source(a_id), Err(Error::NotFound));
    assert_eq!(player.stop_source(b_id), Err(Error::NotFound));
}

#[test]
fn player_forgets_sources_on_stopped_events() {
    let mut ids = UniqueIdSource::new();
    let (status_send, _status_recv) = crossbeam_channel::unbounded();
    let (mixer, queue, _drop_recv) = mixer_with_queue(1, 48000);
    drop(mixer);
    let mut player: AudioFilePlayer<Node> = AudioFilePlayer::new(status_send, queue);
    let a = preloaded(&[0.0; 4], 1, 48000, FilePlaybackOptions::new(), None, &mut ids);
    let a_id = a.playback_id();
    let a_sender = a.playback_message_sender();
    player
        .play_file_source(a_id, a_sender, 0, Node::Plain(a), 0)
        .expect("mixer accepts");
    // the message thread saw the source's Stopped event
    player.on_stopped_event(a_id);
    assert_eq!(player.stop_source(a_id), Err(Error::NotFound));
}
