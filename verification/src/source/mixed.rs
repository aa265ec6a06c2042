use std::sync::Arc;
use vstd::prelude::*;

use crate::player::{AudioFilePlaybackId, AudioSourceDropEvent, PlaybackMessageSender};
use crate::source::{AudioSource, AudioSourceTime, Sample};
use crate::utils::channels::{arc_clone, queue_pop, queue_with_capacity, try_send};
use crate::utils::lemma_div_mul_le;

verus! {

/// Number of samples in the mixer's per-source scratch buffer.
pub const MIX_BUFFER_SIZE: usize = 8 * 1024;

/// Initial capacity of the playing-source list, reserved up front so the
/// audio thread does not allocate when sources are added.
pub const PLAYING_EVENTS_CAPACITY: usize = 1024;

/// Most control events consumed per `write` call: the drain is bounded so
/// a single callback does a bounded amount of work; leftovers are consumed
/// by the next callback.
pub const EVENT_DRAIN_LIMIT: usize = 1024;

/// Mixer internal bookkeeping for one currently playing source.
pub struct MixedPlayingSource<E> {
    /// False once the source reported exhaustion; the entry is then
    /// retired.
    pub is_active: bool,
    /// Unique playback id of the source.
    pub playback_id: AudioFilePlaybackId,
    /// Control channel of the source, used to dispatch scheduled stops.
    pub playback_message_sender: PlaybackMessageSender,
    /// The source itself; the mixer is its exclusive owner.
    pub source: E,
    /// Absolute output frame at which the source starts playing.
    pub start_time: u64,
    /// Absolute output frame at which the source was asked to stop, if any.
    pub stop_time: Option<u64>,
}

/// Messages sent from the player to the mixer to start or stop playing
/// sources.
pub enum MixedSourceMsg<E> {
    /// Hand a new source to the mixer, scheduled at the given absolute
    /// output frame.
    AddSource {
        /// Unique playback id of the source.
        playback_id: AudioFilePlaybackId,
        /// Control channel of the source.
        playback_message_sender: PlaybackMessageSender,
        /// The source; ownership moves to the mixer.
        source: E,
        /// Absolute output frame at which the source starts playing.
        sample_time: u64,
    },
    /// Ask a playing source to stop at the given absolute output frame.
    StopSource {
        /// Unique playback id of the source to stop.
        playback_id: AudioFilePlaybackId,
        /// Absolute output frame at which the source should stop.
        sample_time: u64,
    },
    /// Drop every playing and scheduled source.
    RemoveAllSources,
    /// Drop only the sources which did not start playing yet.
    RemoveAllPendingSources,
}

/// Whether the entries are ordered by ascending start time.
pub open spec fn sorted_by_start<E>(s: Seq<MixedPlayingSource<E>>) -> bool {
    forall|i: int| 0 <= i < s.len() - 1 ==> #[trigger] s[i].start_time <= s[i + 1].start_time
}

/// Adjacent ordering gives ordering of arbitrary pairs.
pub proof fn lemma_sorted_pair<E>(s: Seq<MixedPlayingSource<E>>, i: int, j: int)
    requires
        sorted_by_start(s),
        0 <= i <= j < s.len(),
    ensures
        s[i].start_time <= s[j].start_time,
    decreases j - i,
{
    if i < j {
        lemma_sorted_pair(s, i, j - 1);
        assert(s[j - 1].start_time <= s[j].start_time);
    }
}

/// The number of entries with a start time at or before `now`.
pub open spec fn count_started<E>(s: Seq<MixedPlayingSource<E>>, now: u64) -> int
    decreases s.len(),
{
    if s.len() == 0 {
        0
    } else {
        count_started(s.drop_last(), now) + if s.last().start_time <= now {
            1int
        } else {
            0int
        }
    }
}

/// The interleaved sample offset within an output buffer starting at frame
/// `now` at which a source scheduled for frame `start_time` begins to
/// contribute.
pub open spec fn start_offset_samples(start_time: u64, now: u64, cc: int) -> int {
    if start_time > now {
        (start_time - now) * cc
    } else {
        0
    }
}

/// A source which mixes other sources together, retiring them as they run
/// out. The mixer is controlled through a lock-free event queue, owns every
/// playing source, schedules their start and stop on the absolute output
/// frame clock, and hands retired sources to a drop channel so they are
/// never deallocated on the audio thread.
#[verifier::reject_recursive_types(E)]
pub struct MixedSource<S: Sample, E: AudioSource<S>> {
    /// Currently playing and scheduled sources, ordered by start time.
    pub playing_sources: Vec<MixedPlayingSource<E>>,
    /// Lock-free control event queue; producers push from any thread.
    pub event_queue: Arc<crossbeam_queue::ArrayQueue<MixedSourceMsg<E>>>,
    /// Channel that retired sources are shipped on for deallocation.
    pub drop_send: crossbeam_channel::Sender<AudioSourceDropEvent<E>>,
    /// Channel count of the mixed output.
    pub channel_count: usize,
    /// Sample rate of the mixed output.
    pub sample_rate: u32,
    /// Per-source scratch buffer.
    pub temp_out: Vec<S>,
    /// The silence sample value the output is cleared with.
    pub silence: S,
    /// Total number of sources retired or removed so far.
    pub dropped_count: u64,
}

impl<S: Sample, E: AudioSource<S>> MixedSource<S, E> {
    /// Well-formedness: a sane output spec, a full scratch buffer and the
    /// playing list ordered by start time.
    pub open spec fn wf(&self) -> bool {
        &&& self.channel_count >= 1
        &&& self.temp_out@.len() == MIX_BUFFER_SIZE
        &&& sorted_by_start(self.playing_sources@)
    }

    /// Create a new mixer with the given output signal specs. Retired
    /// sources are shipped on `drop_send`; `silence` is the silent sample
    /// value the output is cleared with.
    pub fn new(
        channel_count: usize,
        sample_rate: u32,
        drop_send: crossbeam_channel::Sender<AudioSourceDropEvent<E>>,
        silence: S,
    ) -> (r: MixedSource<S, E>)
        requires
            channel_count >= 1,
        ensures
            r.wf(),
            r.channel_count == channel_count,
            r.sample_rate == sample_rate,
            r.silence == silence,
            r.playing_sources@.len() == 0,
            r.dropped_count == 0,
    {
        // one event per sample for two seconds: producers never block
        let queue_size = if sample_rate == 0 || sample_rate as usize > usize::MAX / 2 {
            1024usize
        } else {
            sample_rate as usize * 2
        };
        let event_queue = Arc::new(
            queue_with_capacity(
                if queue_size >= 1 {
                    queue_size
                } else {
                    1024usize
                },
            ),
        );
        let mut temp_out: Vec<S> = Vec::new();
        let mut i: usize = 0;
        while i < MIX_BUFFER_SIZE
            invariant
                i <= MIX_BUFFER_SIZE,
                temp_out@.len() == i,
            decreases MIX_BUFFER_SIZE - i,
        {
            temp_out.push(silence);
            i = i + 1;
        }
        MixedSource {
            playing_sources: Vec::with_capacity(PLAYING_EVENTS_CAPACITY),
            event_queue,
            drop_send,
            channel_count,
            sample_rate,
            temp_out,
            silence,
            dropped_count: 0,
        }
    }

    /// A handle on the control event queue: pushing messages into it
    /// controls the mixer. Sources added this way must already match the
    /// mixer's sample rate and channel layout.
    pub fn event_queue(&self) -> (r: Arc<crossbeam_queue::ArrayQueue<MixedSourceMsg<E>>>)
        ensures
            r == self.event_queue,
    {
        arc_clone(&self.event_queue)
    }

    /// Ask the first entry with the given playback id, if any, to stop at
    /// the given absolute output frame. Start times, activity, order and
    /// all other entries are untouched.
    fn set_stop_time(&mut self, playback_id: AudioFilePlaybackId, sample_time: u64)
        ensures
            final(self).playing_sources@.len() == old(self).playing_sources@.len(),
            forall|i: int|
                0 <= i < old(self).playing_sources@.len() ==> (#[trigger] final(self).playing_sources@[i]).start_time == old(self).playing_sources@[i].start_time
                    && final(self).playing_sources@[i].playback_id == old(self).playing_sources@[i].playback_id && final(self).playing_sources@[i].is_active
                    == old(self).playing_sources@[i].is_active,
            (exists|k: int|
                0 <= k < old(self).playing_sources@.len() && old(self).playing_sources@[k].playback_id == playback_id) ==> exists|k: int|
                {
                    &&& 0 <= k < old(self).playing_sources@.len()
                    &&& old(self).playing_sources@[k].playback_id == playback_id
                    &&& final(self).playing_sources@ == old(self).playing_sources@.update(
                        k,
                        (MixedPlayingSource {
                            stop_time: Some(sample_time),
                            ..old(self).playing_sources@[k]
                        }),
                    )
                },
            !(exists|k: int|
                0 <= k < old(self).playing_sources@.len() && old(self).playing_sources@[k].playback_id == playback_id) ==> final(self).playing_sources@
                == old(self).playing_sources@,
            final(self).channel_count == old(self).channel_count,
            final(self).sample_rate == old(self).sample_rate,
            final(self).silence == old(self).silence,
            final(self).temp_out@ == old(self).temp_out@,
            final(self).dropped_count == old(self).dropped_count,
            final(self).event_queue == old(self).event_queue,
            final(self).drop_send == old(self).drop_send,
    {
        let len = self.playing_sources.len();
        let mut i: usize = 0;
        while i < len
            invariant
                i <= len,
                len == self.playing_sources@.len(),
                *self == *old(self),
                forall|k: int|
                    0 <= k < i ==> (#[trigger] self.playing_sources@[k]).playback_id != playback_id,
            decreases len - i,
        {
            if self.playing_sources[i].playback_id == playback_id {
                let entry = self.playing_sources.remove(i);
                let updated = MixedPlayingSource { stop_time: Some(sample_time), ..entry };
                self.playing_sources.insert(i, updated);
                proof {
                    assert(self.playing_sources@ =~= old(self).playing_sources@.update(
                        i as int,
                        (MixedPlayingSource {
                            stop_time: Some(sample_time),
                            ..old(self).playing_sources@[i as int]
                        }),
                    ));
                }
                return ;
            }
            i = i + 1;
        }
    }

    /// Remove entries according to `keep_started`: either every entry
    /// (`RemoveAllSources`) or only those which did not start playing by
    /// frame `now` (`RemoveAllPendingSources`). Removed entries are shipped
    /// on the drop channel so their sources are deallocated elsewhere.
    #[verifier::rlimit(50)]
    fn remove_sources(&mut self, keep_started: bool, now: u64)
        ensures
            final(self).playing_sources@.len() == (if keep_started {
                count_started(old(self).playing_sources@, now)
            } else {
                0int
            }),
            forall|i: int|
                0 <= i < final(self).playing_sources@.len() ==> (#[trigger] final(self).playing_sources@[i]).start_time <= now,
            sorted_by_start(old(self).playing_sources@) ==> sorted_by_start(
                final(self).playing_sources@,
            ),
            final(self).dropped_count >= old(self).dropped_count,
            final(self).channel_count == old(self).channel_count,
            final(self).sample_rate == old(self).sample_rate,
            final(self).silence == old(self).silence,
            final(self).temp_out@ == old(self).temp_out@,
            final(self).event_queue == old(self).event_queue,
            final(self).drop_send == old(self).drop_send,
    {
        let ghost orig = self.playing_sources@;
        let mut kept: Vec<MixedPlayingSource<E>> = Vec::new();
        let mut i: usize = 0;
        let len = self.playing_sources.len();
        while i < len
            invariant
                i <= len,
                len == orig.len(),
                self.playing_sources@ == orig.skip(i as int),
                self.channel_count == old(self).channel_count,
                self.sample_rate == old(self).sample_rate,
                self.silence == old(self).silence,
                self.temp_out@ == old(self).temp_out@,
                self.event_queue == old(self).event_queue,
                self.drop_send == old(self).drop_send,
                kept@.len() == (if keep_started {
                    count_started(orig.take(i as int), now)
                } else {
                    0int
                }),
                forall|k: int| 0 <= k < kept@.len() ==> (#[trigger] kept@[k]).start_time <= now,
                sorted_by_start(orig) ==> sorted_by_start(kept@),
                sorted_by_start(orig) ==> (forall|k: int, r: int|
                    0 <= k < kept@.len() && 0 <= r < self.playing_sources@.len() ==> (
                    #[trigger] kept@[k]).start_time <= (
                    #[trigger] self.playing_sources@[r]).start_time),
                self.dropped_count >= old(self).dropped_count,
            decreases len - i,
        {
            proof {
                assert(orig.skip(i as int)[0] == orig[i as int]);
                assert(orig.take(i as int + 1).drop_last() =~= orig.take(i as int));
                assert(orig.take(i as int + 1).last() == orig[i as int]);
            }
            let entry = self.playing_sources.remove(0);
            if keep_started && entry.start_time <= now {
                kept.push(entry);
            } else {
                let _accepted = try_send(&self.drop_send, AudioSourceDropEvent::new(entry.source));
                if self.dropped_count < u64::MAX {
                    self.dropped_count = self.dropped_count + 1;
                }
            }
            proof {
                assert(self.playing_sources@ =~= orig.skip(i as int + 1));
                if sorted_by_start(orig) {
                    assert forall|r: int|
                        0 <= r < self.playing_sources@.len() implies orig[i as int].start_time <= (
                    #[trigger] self.playing_sources@[r]).start_time by {
                        lemma_sorted_pair(orig, i as int, i as int + 1 + r);
                    }
                }
            }
            i = i + 1;
        }
        proof {
            assert(orig.take(len as int) =~= orig);
        }
        self.playing_sources = kept;
    }

    /// Apply one control event to the playing list: add a source (the
    /// caller re-sorts afterwards), schedule a stop, or remove sources
    /// wholesale.
    fn handle_event(&mut self, event: MixedSourceMsg<E>, now: u64)
        ensures
            !(event matches MixedSourceMsg::AddSource { .. }) && sorted_by_start(
                old(self).playing_sources@,
            ) ==> sorted_by_start(final(self).playing_sources@),
            final(self).dropped_count >= old(self).dropped_count,
            final(self).channel_count == old(self).channel_count,
            final(self).sample_rate == old(self).sample_rate,
            final(self).silence == old(self).silence,
            final(self).temp_out@ == old(self).temp_out@,
            final(self).event_queue == old(self).event_queue,
            final(self).drop_send == old(self).drop_send,
    {
        match event {
            MixedSourceMsg::AddSource {
                playback_id,
                playback_message_sender,
                source,
                sample_time,
            } => {
                if source.channel_count() == self.channel_count && source.sample_rate()
                    == self.sample_rate {
                    self.playing_sources.push(
                        MixedPlayingSource {
                            is_active: true,
                            playback_id,
                            playback_message_sender,
                            source,
                            start_time: sample_time,
                            stop_time: None,
                        },
                    );
                } else {
                    // the converter chain adjusts every source to the
                    // mixer's signal specs before it is added; a stray
                    // mismatched source would corrupt the frame
                    // arithmetic, so it is retired instead of played
                    let _accepted = try_send(
                        &self.drop_send,
                        AudioSourceDropEvent::new(source),
                    );
                    if self.dropped_count < u64::MAX {
                        self.dropped_count = self.dropped_count + 1;
                    }
                }
            },
            MixedSourceMsg::StopSource { playback_id, sample_time } => {
                self.set_stop_time(playback_id, sample_time);
            },
            MixedSourceMsg::RemoveAllPendingSources => {
                self.remove_sources(true, now);
            },
            MixedSourceMsg::RemoveAllSources => {
                self.remove_sources(false, now);
            },
        }
    }

    /// Re-sort the playing list by ascending start time (a stable
    /// selection sort: the first minimal entry is taken first). The list
    /// afterwards holds exactly the same entries, ordered.
    fn sort_playing_sources(&mut self)
        ensures
            sorted_by_start(final(self).playing_sources@),
            final(self).playing_sources@.len() == old(self).playing_sources@.len(),
            final(self).playing_sources@.to_multiset() == old(self).playing_sources@.to_multiset(),
            final(self).channel_count == old(self).channel_count,
            final(self).sample_rate == old(self).sample_rate,
            final(self).silence == old(self).silence,
            final(self).temp_out@ == old(self).temp_out@,
            final(self).event_queue == old(self).event_queue,
            final(self).drop_send == old(self).drop_send,
            final(self).dropped_count == old(self).dropped_count,
    {
        let ghost orig = self.playing_sources@;
        let mut out: Vec<MixedPlayingSource<E>> = Vec::new();
        proof {
            out@.to_multiset_ensures();
            assert forall|a: MixedPlayingSource<E>| out@.to_multiset().count(a) == 0 by {
                if out@.to_multiset().count(a) > 0 {
                    assert(out@.contains(a));
                }
            }
            assert(out@.to_multiset().add(orig.to_multiset()) =~= orig.to_multiset());
        }
        while self.playing_sources.len() > 0
            invariant
                self.channel_count == old(self).channel_count,
                self.sample_rate == old(self).sample_rate,
                self.silence == old(self).silence,
                self.temp_out@ == old(self).temp_out@,
                self.event_queue == old(self).event_queue,
                self.drop_send == old(self).drop_send,
                self.dropped_count == old(self).dropped_count,
                out@.len() + self.playing_sources@.len() == orig.len(),
                sorted_by_start(out@),
                forall|a: int, b: int|
                    0 <= a < out@.len() && 0 <= b < self.playing_sources@.len() ==> (
                    #[trigger] out@[a]).start_time <= (
                    #[trigger] self.playing_sources@[b]).start_time,
                out@.to_multiset().add(self.playing_sources@.to_multiset()) =~= orig.to_multiset(),
            decreases self.playing_sources@.len(),
        {
            // find the first entry with the minimal start time
            let mut min_i: usize = 0;
            let mut k: usize = 1;
            let n = self.playing_sources.len();
            while k < n
                invariant
                    n == self.playing_sources@.len(),
                    min_i < n,
                    k <= n,
                    forall|j: int|
                        0 <= j < k ==> (#[trigger] self.playing_sources@[min_i as int]).start_time
                            <= self.playing_sources@[j].start_time,
                decreases n - k,
            {
                if self.playing_sources[k].start_time < self.playing_sources[min_i].start_time {
                    min_i = k;
                }
                k = k + 1;
            }
            proof {
                let s = self.playing_sources@;
                s.to_multiset_ensures();
                assert(s.contains(s[min_i as int]));
                assert(s.to_multiset().count(s[min_i as int]) > 0);
            }
            let ghost out_before = out@;
            let ghost taken = self.playing_sources@[min_i as int];
            let entry = self.playing_sources.remove(min_i);
            out.push(entry);
            proof {
                out_before.to_multiset_ensures();
                assert(out@.to_multiset() =~= out_before.to_multiset().insert(taken));
                assert(out@.to_multiset().add(self.playing_sources@.to_multiset())
                    =~= orig.to_multiset());
            }
        }
        proof {
            let e: Seq<MixedPlayingSource<E>> = self.playing_sources@;
            e.to_multiset_ensures();
            assert(e.to_multiset().len() == 0);
            assert(out@.to_multiset().add(e.to_multiset()) =~= out@.to_multiset());
            orig.to_multiset_ensures();
            out@.to_multiset_ensures();
        }
        self.playing_sources = out;
    }

    /// Executable check that the playing list is ordered by start time.
    fn check_sorted(&self) -> (r: bool)
        ensures
            r == sorted_by_start(self.playing_sources@),
    {
        let len = self.playing_sources.len();
        if len == 0 {
            return true;
        }
        let mut i: usize = 0;
        while i < len - 1
            invariant
                len >= 1,
                i <= len - 1,
                len == self.playing_sources@.len(),
                forall|k: int|
                    0 <= k < i ==> (#[trigger] self.playing_sources@[k]).start_time
                        <= self.playing_sources@[k + 1].start_time,
            decreases len - i,
        {
            if self.playing_sources[i].start_time > self.playing_sources[i + 1].start_time {
                return false;
            }
            i = i + 1;
        }
        true
    }
}

impl<S: Sample, E: AudioSource<S>> AudioSource<S> for MixedSource<S, E> {
    /// The mixer never exhausts: new sources may be added at any time.
    open spec fn exhausted(&self) -> bool {
        false
    }

    open spec fn spec_channel_count(&self) -> int {
        self.channel_count as int
    }

    open spec fn spec_sample_rate(&self) -> int {
        self.sample_rate as int
    }

    /// Drain the control event queue, re-sort the playing list when sources
    /// were added, then clear the output and mix every playing source
    /// additively into it, honoring each source's scheduled start frame and
    /// dispatching scheduled stops; retired sources are shipped to the drop
    /// channel. A well-formed mixer always returns the full buffer length:
    /// with nothing to play the cleared buffer is handed back as silence.
    ///
    /// Scheduled starts are sample-accurate: as long as no source was
    /// retired in this call, the output is exact silence up to the start
    /// offset of the earliest retained source; with no source retained it
    /// is exact silence throughout.
    #[verifier::rlimit(100)]
    fn write(&mut self, output: &mut Vec<S>, time: &AudioSourceTime) -> (written: usize)
        ensures
            old(self).wf() ==> final(self).wf(),
            old(self).wf() ==> written == old(output)@.len(),
            !old(self).wf() ==> written == 0 && final(output)@ == old(output)@ && *final(self)
                == *old(self),
            forall|j: int|
                written <= j < old(output)@.len() ==> final(output)@[j] == old(output)@[j],
            final(self).channel_count == old(self).channel_count,
            final(self).sample_rate == old(self).sample_rate,
            final(self).silence == old(self).silence,
            final(self).dropped_count >= old(self).dropped_count,
            (old(self).wf() && old(self).dropped_count < u64::MAX && final(self).dropped_count
                == old(self).dropped_count && final(self).playing_sources@.len() == 0) ==> forall|
                j: int,
            |
                0 <= j < old(output)@.len() ==> final(output)@[j] == old(self).silence,
            (old(self).wf() && old(self).dropped_count < u64::MAX && final(self).dropped_count == old(self).dropped_count && final(self).playing_sources@.len() > 0)
                ==> forall|j: int|
                0 <= j < old(output)@.len() && j < start_offset_samples(
                    final(self).playing_sources@[0].start_time,
                    time.pos_in_frames,
                    old(self).channel_count as int,
                ) ==> final(output)@[j] == old(self).silence,
    {
        let cc = self.channel_count;
        if cc == 0 || self.temp_out.len() != MIX_BUFFER_SIZE || !self.check_sorted() {
            // degenerate state: produce nothing
            return 0;
        }
        let now = time.pos_in_frames;
        // process control events, with a bounded per-callback budget
        let mut budget: usize = EVENT_DRAIN_LIMIT;
        let mut got_new_sources = false;
        while budget > 0
            invariant
                self.channel_count == cc,
                self.sample_rate == old(self).sample_rate,
                self.silence == old(self).silence,
                self.temp_out@ == old(self).temp_out@,
                self.dropped_count >= old(self).dropped_count,
                got_new_sources || sorted_by_start(self.playing_sources@),
            decreases budget,
        {
            budget = budget - 1;
            match queue_pop(&self.event_queue) {
                None => {
                    break ;
                },
                Some(event) => {
                    if matches!(event, MixedSourceMsg::AddSource { .. }) {
                        got_new_sources = true;
                    }
                    self.handle_event(event, now);
                },
            }
        }
        // keep sources sorted by start time: this makes batch processing
        // easier and makes scheduled starts of later sources skippable
        if got_new_sources {
            self.sort_playing_sources();
        }
        let out_cap = output.len();
        // clear the entire output first, as sources only add into it below
        let mut z: usize = 0;
        while z < out_cap
            invariant
                z <= out_cap,
                output@.len() == out_cap,
                output@.len() == old(output)@.len(),
                self.silence == old(self).silence,
                forall|j: int| 0 <= j < z ==> output@[j] == old(self).silence,
            decreases out_cap - z,
        {
            let sil = self.silence;
            output.set(z, sil);
            z = z + 1;
        }
        // with nothing to play the cleared buffer is the mix: pure silence
        if self.playing_sources.len() == 0 {
            return out_cap;
        }
        let ghost orig = self.playing_sources@;
        let ghost head_start = orig[0].start_time;
        let ghost head_off = start_offset_samples(head_start, now, cc as int);
        let ghost dropped0 = self.dropped_count;
        proof {
            assert(sorted_by_start(orig));
            assert forall|k: int| 0 <= k < orig.len() implies head_start <= (
            #[trigger] orig[k]).start_time by {
                lemma_sorted_pair(orig, 0, k);
            }
        }
        // take the list out and walk the entries in start-time order
        let mut src_list: Vec<MixedPlayingSource<E>> = Vec::new();
        core::mem::swap(&mut src_list, &mut self.playing_sources);
        proof {
            assert(orig.take(orig.len() as int) =~= orig);
        }
        let mut rev: Vec<MixedPlayingSource<E>> = Vec::new();
        while src_list.len() > 0
            invariant
                src_list@ == orig.take(src_list@.len() as int),
                rev@.len() + src_list@.len() == orig.len(),
                forall|k: int|
                    0 <= k < rev@.len() ==> #[trigger] rev@[k] == orig[orig.len() - 1 - k],
            decreases src_list@.len(),
        {
            proof {
                assert(orig.take(src_list@.len() as int).last() == orig[src_list@.len() - 1]);
                assert(orig.take(src_list@.len() as int).drop_last() =~= orig.take(
                    src_list@.len() - 1,
                ));
            }
            let entry = src_list.pop().unwrap();
            rev.push(entry);
        }
        let mut processed: Vec<MixedPlayingSource<E>> = Vec::new();
        while rev.len() > 0
            invariant
                cc >= 1,
                out_cap == output@.len(),
                output@.len() == old(output)@.len(),
                self.channel_count == cc,
                self.sample_rate == old(self).sample_rate,
                self.silence == old(self).silence,
                self.temp_out@.len() == MIX_BUFFER_SIZE,
                self.dropped_count >= dropped0,
                dropped0 >= old(self).dropped_count,
                sorted_by_start(orig),
                orig.len() > 0,
                head_start == orig[0].start_time,
                head_off == start_offset_samples(head_start, now, cc as int),
                forall|k: int|
                    0 <= k < rev@.len() ==> #[trigger] rev@[k] == orig[orig.len() - 1 - k],
                rev@.len() <= orig.len(),
                sorted_by_start(processed@),
                forall|a: int, b: int|
                    0 <= a < processed@.len() && 0 <= b < rev@.len() ==> (
                    #[trigger] processed@[a]).start_time <= (#[trigger] rev@[b]).start_time,
                dropped0 < u64::MAX && self.dropped_count == dropped0 ==> processed@.len()
                    + rev@.len() == orig.len(),
                dropped0 < u64::MAX && self.dropped_count == dropped0 && processed@.len() > 0
                    ==> processed@[0].start_time == orig[0].start_time,
                forall|j: int|
                    0 <= j < out_cap && j < head_off ==> #[trigger] output@[j] == old(self).silence,
            decreases rev@.len(),
        {
            let ghost idx = orig.len() - rev@.len();
            let ghost rev_pre = rev@;
            let mut entry = rev.pop().unwrap();
            proof {
                assert(entry == orig[idx]);
                lemma_sorted_pair(orig, 0, idx);
                assert(head_start <= entry.start_time);
                assert forall|a: int|
                    0 <= a < processed@.len() implies (#[trigger] processed@[a]).start_time
                        <= entry.start_time by {
                    assert(processed@[a].start_time <= rev_pre[rev_pre.len() - 1].start_time);
                }
                assert forall|b: int| 0 <= b < rev@.len() implies entry.start_time <= (
                #[trigger] rev@[b]).start_time by {
                    lemma_sorted_pair(orig, idx, orig.len() - 1 - b);
                }
                if entry.start_time > now {
                    vstd::arithmetic::mul::lemma_mul_nonnegative(
                        entry.start_time - now,
                        cc as int,
                    );
                    if head_start > now {
                        vstd::arithmetic::mul::lemma_mul_inequality(
                            head_start - now,
                            entry.start_time - now,
                            cc as int,
                        );
                    }
                }
            }
            let ghost entry_off = start_offset_samples(entry.start_time, now, cc as int);
            let ghost entry_start = entry.start_time;
            proof {
                assert(head_off <= entry_off);
            }
            let mut total_written: usize = 0;
            let mut skip_remaining = false;
            // check the source's scheduled start frame
            if entry.start_time > now {
                let frames_until_start = entry.start_time - now;
                let out_frame_count = out_cap / cc;
                if frames_until_start >= out_frame_count as u64 {
                    // sources are sorted by start time: all following
                    // sources start even later and are skipped as well
                    skip_remaining = true;
                } else {
                    proof {
                        lemma_div_mul_le(frames_until_start as int, out_cap as int, cc as int);
                    }
                    // move the write offset to the source's start position
                    total_written = (frames_until_start as usize) * cc;
                }
            }
            if skip_remaining {
                processed.push(entry);
                // keep all following entries untouched as well
                while rev.len() > 0
                    invariant
                        self.channel_count == cc,
                        self.sample_rate == old(self).sample_rate,
                        self.silence == old(self).silence,
                        self.temp_out@.len() == MIX_BUFFER_SIZE,
                        self.dropped_count >= dropped0,
                        sorted_by_start(orig),
                        forall|k: int|
                            0 <= k < rev@.len() ==> #[trigger] rev@[k] == orig[orig.len() - 1 - k],
                        rev@.len() <= orig.len(),
                        sorted_by_start(processed@),
                        forall|a: int, b: int|
                            0 <= a < processed@.len() && 0 <= b < rev@.len() ==> (
                            #[trigger] processed@[a]).start_time <= (
                            #[trigger] rev@[b]).start_time,
                        dropped0 < u64::MAX && self.dropped_count == dropped0 ==> processed@.len()
                            + rev@.len() == orig.len(),
                        dropped0 < u64::MAX && self.dropped_count == dropped0 && processed@.len()
                            > 0 ==> processed@[0].start_time == orig[0].start_time,
                    decreases rev@.len(),
                {
                    let ghost idx2 = orig.len() - rev@.len();
                    let ghost rev_pre2 = rev@;
                    let e = rev.pop().unwrap();
                    proof {
                        assert(e == orig[idx2]);
                        assert forall|a: int|
                            0 <= a < processed@.len() implies (
                        #[trigger] processed@[a]).start_time <= e.start_time by {
                            assert(processed@[a].start_time <= rev_pre2[rev_pre2.len()
                                - 1].start_time);
                        }
                        assert forall|b: int| 0 <= b < rev@.len() implies e.start_time <= (
                        #[trigger] rev@[b]).start_time by {
                            lemma_sorted_pair(orig, idx2, orig.len() - 1 - b);
                        }
                    }
                    processed.push(e);
                }
                continue ;
            }
            proof {
                assert(total_written as int == entry_off);
            }
            let ghost dc_inner = self.dropped_count;
            // run the source and mix it additively into the output
            loop
                invariant
                    cc >= 1,
                    out_cap == output@.len(),
                    output@.len() == old(output)@.len(),
                    total_written <= out_cap,
                    entry_off <= total_written as int,
                    entry.start_time == entry_start,
                    self.channel_count == cc,
                    self.sample_rate == old(self).sample_rate,
                    self.silence == old(self).silence,
                    self.temp_out@.len() == MIX_BUFFER_SIZE,
                    self.dropped_count == dc_inner,
                    head_off <= entry_off,
                    forall|j: int|
                        0 <= j < out_cap && j < head_off ==> #[trigger] output@[j] == old(self).silence,
                decreases out_cap - total_written,
            {
                if total_written >= out_cap {
                    break ;
                }
                // the absolute stream time of the next sample to write;
                // saturates at the end of representable time
                let add_frames = (total_written / cc) as u64;
                let pos2 = if add_frames > u64::MAX - now {
                    u64::MAX
                } else {
                    now + add_frames
                };
                let source_time = AudioSourceTime { pos_in_frames: pos2 };
                // check for a pending scheduled stop of this source
                let mut samples_until_stop: u64 = u64::MAX;
                match entry.stop_time {
                    Some(stop_frame) => {
                        if stop_frame <= pos2 {
                            // the stop frame was reached: ask the source to
                            // stop (it applies its configured fade-out) and
                            // clear the schedule
                            let _accepted = entry.playback_message_sender.try_send_stop();
                            entry.stop_time = None;
                        } else {
                            let d = stop_frame - pos2;
                            samples_until_stop = if d > u64::MAX / (cc as u64) {
                                u64::MAX
                            } else {
                                proof {
                                    lemma_div_mul_le(d as int, u64::MAX as int, cc as int);
                                }
                                d * (cc as u64)
                            };
                        }
                    },
                    None => {},
                }
                let remaining = out_cap - total_written;
                let until = if samples_until_stop >= remaining as u64 {
                    remaining
                } else {
                    samples_until_stop as usize
                };
                let to_write = if until < MIX_BUFFER_SIZE {
                    until
                } else {
                    MIX_BUFFER_SIZE
                };
                self.temp_out.truncate(to_write);
                let w = entry.source.write(&mut self.temp_out, &source_time);
                // add the source's output into the final output
                let mut k: usize = 0;
                while k < w
                    invariant
                        k <= w,
                        w <= self.temp_out@.len(),
                        total_written + w <= out_cap,
                        out_cap == output@.len(),
                        output@.len() == old(output)@.len(),
                        entry_off <= total_written as int,
                        head_off <= entry_off,
                        self.silence == old(self).silence,
                        forall|j: int|
                            0 <= j < out_cap && j < head_off ==> #[trigger] output@[j] == old(self).silence,
                    decreases w - k,
                {
                    let mixed = output[total_written + k].mixed_with(self.temp_out[k]);
                    output.set(total_written + k, mixed);
                    k = k + 1;
                }
                let ghost pre_restore = *self;
                while self.temp_out.len() < MIX_BUFFER_SIZE
                    invariant
                        self.temp_out@.len() <= MIX_BUFFER_SIZE,
                        *self == (MixedSource { temp_out: self.temp_out, ..pre_restore }),
                    decreases MIX_BUFFER_SIZE - self.temp_out@.len(),
                {
                    let sil = self.silence;
                    self.temp_out.push(sil);
                }
                total_written = total_written + w;
                if entry.source.is_exhausted() {
                    // the source finished playing: retire it after its
                    // last samples were mixed
                    entry.is_active = false;
                    break ;
                }
                if w == 0 {
                    // the source is momentarily out of data: move on rather
                    // than spinning on the real-time thread
                    break ;
                }
            }
            if entry.is_active {
                processed.push(entry);
            } else {
                // drop the retired source on the player's thread
                let _accepted = try_send(&self.drop_send, AudioSourceDropEvent::new(entry.source));
                if self.dropped_count < u64::MAX {
                    self.dropped_count = self.dropped_count + 1;
                }
            }
        }
        self.playing_sources = processed;
        out_cap
    }

    fn channel_count(&self) -> (r: usize)
        ensures
            r as int == self.spec_channel_count(),
    {
        self.channel_count
    }

    fn sample_rate(&self) -> (r: u32)
        ensures
            r as int == self.spec_sample_rate(),
    {
        self.sample_rate
    }

    fn is_exhausted(&self) -> (r: bool)
        ensures
            r == self.exhausted(),
    {
        false
    }
}

} // verus!
