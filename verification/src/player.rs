use std::collections::HashMap;
use std::sync::Arc;
use vstd::prelude::*;

use crate::error::Error;
use crate::source::file::FilePlaybackMessage;
use crate::source::mixed::MixedSourceMsg;
use crate::source::synth::SynthPlaybackMessage;
use crate::utils::channels::{queue_push, send, try_send};

verus! {

broadcast use vstd::std_specs::hash::group_hash_axioms;

/// A unique id for a newly created file or synth source.
pub type AudioFilePlaybackId = usize;

/// Events sent back from file or synth sources via the player to the user.
#[derive(Debug, Clone, PartialEq, Eq)]
pub enum AudioFilePlaybackStatusEvent {
    /// A rate-limited progress report for a playing source.
    Position {
        /// Unique id to resolve played back sources.
        id: AudioFilePlaybackId,
        /// The file path for file based sources, else a name to somewhat
        /// identify the source.
        path: String,
        /// The source's actual playback position in milliseconds.
        position_ms: u64,
    },
    /// The terminal event of a source: emitted exactly once per id.
    Stopped {
        /// Unique id to resolve played back sources.
        id: AudioFilePlaybackId,
        /// The file path for file based sources, else a name to somewhat
        /// identify the source.
        path: String,
        /// True when the source finished playing on its own (e.g. reached
        /// the end of file), false when it was stopped by request.
        exhausted: bool,
    },
}

/// Event sent from the mixer back to the player to drop retired sources,
/// so that their destructors never run on the mixer's real-time thread.
pub struct AudioSourceDropEvent<E> {
    /// The retired source, carried along only so it is dropped elsewhere.
    pub source: E,
}

impl<E> AudioSourceDropEvent<E> {
    /// Wrap a retired source for the drop channel.
    pub fn new(source: E) -> (r: AudioSourceDropEvent<E>)
        ensures
            r.source == source,
    {
        AudioSourceDropEvent { source }
    }
}

/// Wraps file and synth playback control senders into one object, together
/// with the source's configured stop fade-out, allowing to stop either
/// source family the same way.
pub enum PlaybackMessageSender {
    /// Control channel of a file source.
    File {
        /// Sending side of the source's control channel.
        sender: crossbeam_channel::Sender<FilePlaybackMessage>,
        /// The source's configured stop fade-out in milliseconds.
        fade_out_ms: u64,
    },
    /// Control channel of a synth source.
    Synth {
        /// Sending side of the source's control channel.
        sender: crossbeam_channel::Sender<SynthPlaybackMessage>,
        /// The source's configured stop fade-out in milliseconds.
        fade_out_ms: u64,
    },
}

impl PlaybackMessageSender {
    /// Whether this controls a file source (synth sources cannot seek).
    pub fn is_file(&self) -> (r: bool)
        ensures
            r == (self is File),
    {
        matches!(self, PlaybackMessageSender::File { .. })
    }

    /// Send the source a stop message with its configured fade-out,
    /// without blocking. Returns whether the message was accepted.
    pub fn try_send_stop(&self) -> bool {
        match self {
            PlaybackMessageSender::File { sender, fade_out_ms } => {
                try_send(sender, FilePlaybackMessage::Stop(*fade_out_ms))
            },
            PlaybackMessageSender::Synth { sender, fade_out_ms } => {
                try_send(sender, SynthPlaybackMessage::Stop(*fade_out_ms))
            },
        }
    }
}

/// The playback control surface: it keeps the map from playback id to each
/// live source's control channel, registers sources with the mixer, and
/// dispatches seek and stop requests. The embedding application drives the
/// output device, decodes files, wraps this core behind its lock, and
/// feeds Stopped events back into `on_stopped_event`.
#[verifier::reject_recursive_types(E)]
pub struct AudioFilePlayer<E> {
    /// Control channels of the currently playing sources, by playback id.
    pub playing_sources: HashMap<AudioFilePlaybackId, PlaybackMessageSender>,
    /// Ids ever registered and not yet cleared; may contain ids of sources
    /// which already stopped (those are skipped), but always covers every
    /// key of `playing_sources`.
    pub playing_ids: Vec<AudioFilePlaybackId>,
    /// The proxy channel sources report their status events on.
    pub playback_status_send: crossbeam_channel::Sender<AudioFilePlaybackStatusEvent>,
    /// The mixer's control event queue.
    pub mixer_event_queue: Arc<crossbeam_queue::ArrayQueue<MixedSourceMsg<E>>>,
}

impl<E> AudioFilePlayer<E> {
    /// Well-formedness: every id the map knows is covered by the id list.
    pub open spec fn wf(&self) -> bool {
        forall|id: AudioFilePlaybackId| #[trigger]
            self.playing_sources@.contains_key(id) ==> self.playing_ids@.contains(id)
    }

    /// Create a player core around the given status event proxy channel
    /// and mixer event queue.
    pub fn new(
        playback_status_send: crossbeam_channel::Sender<AudioFilePlaybackStatusEvent>,
        mixer_event_queue: Arc<crossbeam_queue::ArrayQueue<MixedSourceMsg<E>>>,
    ) -> (r: AudioFilePlayer<E>)
        ensures
            r.wf(),
            r.playing_sources@ == Map::<AudioFilePlaybackId, PlaybackMessageSender>::empty(),
            r.playing_ids@.len() == 0,
    {
        let playing_sources: HashMap<AudioFilePlaybackId, PlaybackMessageSender> = HashMap::new();
        AudioFilePlayer {
            playing_sources,
            playing_ids: Vec::new(),
            playback_status_send,
            mixer_event_queue,
        }
    }

    /// A clone of the proxy status channel, to be handed to new sources.
    pub fn playback_status_sender(&self) -> crossbeam_channel::Sender<
        AudioFilePlaybackStatusEvent,
    > {
        self.playback_status_send.clone()
    }

    /// Register a source's control channel under its playback id.
    fn register_source(&mut self, playback_id: AudioFilePlaybackId, entry: PlaybackMessageSender)
        requires
            old(self).wf(),
        ensures
            final(self).wf(),
            final(self).playing_sources@ == old(self).playing_sources@.insert(playback_id, entry),
            final(self).playback_status_send == old(self).playback_status_send,
            final(self).mixer_event_queue == old(self).mixer_event_queue,
    {
        self.playing_sources.insert(playback_id, entry);
        self.playing_ids.push(playback_id);
        proof {
            assert(self.playing_ids@.last() == playback_id);
            assert(self.playing_ids@.contains(playback_id));
            assert forall|id: AudioFilePlaybackId| #[trigger]
                self.playing_sources@.contains_key(id) implies self.playing_ids@.contains(id) by {
                if id != playback_id {
                    assert(old(self).playing_sources@.contains_key(id));
                    assert(old(self).playing_ids@.contains(id));
                    let i = choose|i: int|
                        0 <= i < old(self).playing_ids@.len() && old(self).playing_ids@[i] == id;
                    assert(self.playing_ids@[i] == id);
                }
            }
        }
    }

    /// Start playing an already converted file source: remember its
    /// control channel under its playback id and hand the source to the
    /// mixer, scheduled at `start_time_frames`. Fails with
    /// `Error::SendError` exactly when the mixer event queue rejects the
    /// source.
    pub fn play_file_source(
        &mut self,
        playback_id: AudioFilePlaybackId,
        playback_message_sender: crossbeam_channel::Sender<FilePlaybackMessage>,
        fade_out_on_stop_ms: u64,
        source: E,
        start_time_frames: u64,
    ) -> (r: Result<AudioFilePlaybackId, Error>)
        requires
            old(self).wf(),
        ensures
            final(self).wf(),
            r is Ok ==> r == Result::<AudioFilePlaybackId, Error>::Ok(playback_id),
            r is Err ==> r == Result::<AudioFilePlaybackId, Error>::Err(Error::SendError),
            final(self).playing_sources@.contains_key(playback_id),
            final(self).playing_sources@[playback_id] is File,
            forall|id: AudioFilePlaybackId|
                id != playback_id ==> #[trigger] final(self).playing_sources@.contains_key(id)
                    == old(self).playing_sources@.contains_key(id),
    {
        let map_entry = PlaybackMessageSender::File {
            sender: playback_message_sender.clone(),
            fade_out_ms: fade_out_on_stop_ms,
        };
        self.register_source(playback_id, map_entry);
        let mixer_entry = PlaybackMessageSender::File {
            sender: playback_message_sender,
            fade_out_ms: fade_out_on_stop_ms,
        };
        let accepted = queue_push(
            &*self.mixer_event_queue,
            MixedSourceMsg::AddSource {
                playback_id,
                playback_message_sender: mixer_entry,
                source,
                sample_time: start_time_frames,
            },
        );
        if accepted {
            Ok(playback_id)
        } else {
            Err(Error::SendError)
        }
    }

    /// Start playing an already converted synth source, like
    /// `play_file_source`.
    pub fn play_synth(
        &mut self,
        playback_id: AudioFilePlaybackId,
        playback_message_sender: crossbeam_channel::Sender<SynthPlaybackMessage>,
        fade_out_on_stop_ms: u64,
        source: E,
        start_time_frames: u64,
    ) -> (r: Result<AudioFilePlaybackId, Error>)
        requires
            old(self).wf(),
        ensures
            final(self).wf(),
            r is Ok ==> r == Result::<AudioFilePlaybackId, Error>::Ok(playback_id),
            r is Err ==> r == Result::<AudioFilePlaybackId, Error>::Err(Error::SendError),
            final(self).playing_sources@.contains_key(playback_id),
            final(self).playing_sources@[playback_id] is Synth,
            forall|id: AudioFilePlaybackId|
                id != playback_id ==> #[trigger] final(self).playing_sources@.contains_key(id)
                    == old(self).playing_sources@.contains_key(id),
    {
        let map_entry = PlaybackMessageSender::Synth {
            sender: playback_message_sender.clone(),
            fade_out_ms: fade_out_on_stop_ms,
        };
        self.register_source(playback_id, map_entry);
        let mixer_entry = PlaybackMessageSender::Synth {
            sender: playback_message_sender,
            fade_out_ms: fade_out_on_stop_ms,
        };
        let accepted = queue_push(
            &*self.mixer_event_queue,
            MixedSourceMsg::AddSource {
                playback_id,
                playback_message_sender: mixer_entry,
                source,
                sample_time: start_time_frames,
            },
        );
        if accepted {
            Ok(playback_id)
        } else {
            Err(Error::SendError)
        }
    }

    /// Change the playback position of a playing source to `position_ms`
    /// milliseconds. Seeking succeeds exactly for known file sources:
    /// unknown ids report `Error::NotFound`, synth sources cannot seek and
    /// report `Error::NotSupported`.
    pub fn seek_source(&mut self, playback_id: AudioFilePlaybackId, position_ms: u64) -> (r: Result<
        (),
        Error,
    >)
        ensures
            *final(self) == *old(self),
            r is Ok <==> old(self).playing_sources@.contains_key(playback_id) && old(
                self,
            ).playing_sources@[playback_id] is File,
            r == Result::<(), Error>::Err(Error::NotSupported) <==> old(
                self,
            ).playing_sources@.contains_key(playback_id) && !(old(
                self,
            ).playing_sources@[playback_id] is File),
            r == Result::<(), Error>::Err(Error::NotFound) <==> !old(
                self,
            ).playing_sources@.contains_key(playback_id),
    {
        match self.playing_sources.get(&playback_id) {
            Some(PlaybackMessageSender::File { sender, .. }) => {
                // a failed send only means the source just finished
                let _accepted = send(sender, FilePlaybackMessage::Seek(position_ms));
                Ok(())
            },
            Some(PlaybackMessageSender::Synth { .. }) => Err(Error::NotSupported),
            None => Err(Error::NotFound),
        }
    }

    /// Immediately stop a playing file or synth source; it fades out over
    /// its configured stop fade-out. The id is removed right away, so all
    /// following attempts to stop this source report `Error::NotFound`.
    pub fn stop_source(&mut self, playback_id: AudioFilePlaybackId) -> (r: Result<(), Error>)
        requires
            old(self).wf(),
        ensures
            final(self).wf(),
            r is Ok <==> old(self).playing_sources@.contains_key(playback_id),
            r is Err ==> r == Result::<(), Error>::Err(Error::NotFound),
            final(self).playing_sources@ == old(self).playing_sources@.remove(playback_id),
            final(self).playback_status_send == old(self).playback_status_send,
            final(self).mixer_event_queue == old(self).mixer_event_queue,
    {
        let found = match self.playing_sources.get(&playback_id) {
            Some(entry) => {
                // the source applies its configured fade-out on this
                let _accepted = entry.try_send_stop();
                true
            },
            None => false,
        };
        if found {
            // remove the id now, so further stop attempts report NotFound
            self.playing_sources.remove(&playback_id);
            proof {
                assert(self.playing_sources@ =~= old(self).playing_sources@.remove(playback_id));
            }
            Ok(())
        } else {
            proof {
                assert(self.playing_sources@ =~= old(self).playing_sources@.remove(playback_id));
            }
            Err(Error::NotFound)
        }
    }

    /// Stop a playing file or synth source at a given output frame in the
    /// future. The id stays registered: the scheduled stop may apply a
    /// long time from now.
    pub fn stop_source_at_sample_time(
        &mut self,
        playback_id: AudioFilePlaybackId,
        stop_time_frames: u64,
    ) -> (r: Result<(), Error>)
        ensures
            *final(self) == *old(self),
            !old(self).playing_sources@.contains_key(playback_id) <==> r == Result::<
                (),
                Error,
            >::Err(Error::NotFound),
            r is Err ==> r == Result::<(), Error>::Err(Error::NotFound) || r == Result::<
                (),
                Error,
            >::Err(Error::SendError),
    {
        let known = match self.playing_sources.get(&playback_id) {
            Some(_) => true,
            None => false,
        };
        if known {
            let accepted = queue_push(
                &*self.mixer_event_queue,
                MixedSourceMsg::StopSource { playback_id, sample_time: stop_time_frames },
            );
            if accepted {
                Ok(())
            } else {
                Err(Error::SendError)
            }
        } else {
            Err(Error::NotFound)
        }
    }

    /// Immediately stop every playing source and remove all scheduled
    /// sources which did not start yet. Afterwards no source is known to
    /// the player anymore. Fails with `Error::SendError` exactly when the
    /// mixer event queue rejects the removal of pending sources.
    pub fn stop_all_sources(&mut self) -> (r: Result<(), Error>)
        requires
            old(self).wf(),
        ensures
            final(self).wf(),
            forall|id: AudioFilePlaybackId|
                !#[trigger] final(self).playing_sources@.contains_key(id),
            final(self).playing_ids@.len() == 0,
            r is Err ==> r == Result::<(), Error>::Err(Error::SendError),
    {
        // stop everything which is playing or scheduled right now
        let n = self.playing_ids.len();
        let mut i: usize = 0;
        while i < n
            invariant
                i <= n,
                n == self.playing_ids@.len(),
                self.playing_ids@ == old(self).playing_ids@,
                self.playback_status_send == old(self).playback_status_send,
                self.mixer_event_queue == old(self).mixer_event_queue,
                forall|id: AudioFilePlaybackId| #[trigger]
                    self.playing_sources@.contains_key(id) ==> exists|j: int|
                        i <= j < n && self.playing_ids@[j] == id,
            decreases n - i,
        {
            let id = self.playing_ids[i];
            let found = match self.playing_sources.get(&id) {
                Some(entry) => {
                    let _accepted = entry.try_send_stop();
                    true
                },
                None => false,
            };
            if found {
                self.playing_sources.remove(&id);
            }
            proof {
                assert forall|k: AudioFilePlaybackId| #[trigger]
                    self.playing_sources@.contains_key(k) implies exists|j: int|
                    i + 1 <= j < n && self.playing_ids@[j] == k by {
                    let j = choose|j: int| i <= j < n && self.playing_ids@[j] == k;
                    assert(k != id);
                    assert(j != i);
                }
            }
            i = i + 1;
        }
        self.playing_ids.clear();
        // remove all upcoming, scheduled sources in the mixer too
        let accepted = queue_push(
            &*self.mixer_event_queue,
            MixedSourceMsg::RemoveAllPendingSources,
        );
        if accepted {
            Ok(())
        } else {
            Err(Error::SendError)
        }
    }

    /// Forget a source that reported its terminal Stopped event: the
    /// player's message thread calls this for every received Stopped
    /// event, so stopping an already finished source reports `NotFound`.
    pub fn on_stopped_event(&mut self, playback_id: AudioFilePlaybackId)
        requires
            old(self).wf(),
        ensures
            final(self).wf(),
            final(self).playing_sources@ == old(self).playing_sources@.remove(playback_id),
    {
        self.playing_sources.remove(&playback_id);
        proof {
            assert(self.playing_sources@ =~= old(self).playing_sources@.remove(playback_id));
        }
    }
}

} // verus!
