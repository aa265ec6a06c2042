pub mod signal;

use vstd::prelude::*;

use crate::error::Error;
use crate::source::file::volume_is_valid;
use crate::source::Volume;

verus! {

/// Options to control playback of a synth source.
#[derive(Debug, Copy, Clone, PartialEq, Eq, Structural)]
pub struct SynthPlaybackOptions {
    /// By default unity. Customize to lower or raise the volume of the
    /// tone.
    pub volume: Volume,
    /// Absolute output frame at which playback should start; 0 starts
    /// immediately.
    pub start_time_frames: u64,
    /// Fade-in duration in milliseconds applied when playback starts;
    /// 0 disables the fade-in.
    pub fade_in_ms: u64,
    /// Fade-out duration in milliseconds applied when the source is
    /// stopped; 0 stops immediately.
    pub fade_out_on_stop_ms: u64,
    /// When set, emit a position event at most once per this many
    /// milliseconds.
    pub playback_pos_emit_rate_ms: Option<u64>,
}

impl SynthPlaybackOptions {
    /// The default options: unity volume, immediate start, no fades and no
    /// position reports.
    pub fn new() -> (r: SynthPlaybackOptions)
        ensures
            r == SynthPlaybackOptions::spec_default(),
    {
        SynthPlaybackOptions {
            volume: Volume::unity(),
            start_time_frames: 0,
            fade_in_ms: 0,
            fade_out_on_stop_ms: 0,
            playback_pos_emit_rate_ms: None,
        }
    }

    /// The default option values.
    pub open spec fn spec_default() -> SynthPlaybackOptions {
        SynthPlaybackOptions {
            volume: Volume { bits: 0x3F800000u32 },
            start_time_frames: 0,
            fade_in_ms: 0,
            fade_out_on_stop_ms: 0,
            playback_pos_emit_rate_ms: None,
        }
    }

    /// Play the tone at the given linear volume factor.
    pub fn volume(self, volume: Volume) -> (r: SynthPlaybackOptions)
        ensures
            r == (SynthPlaybackOptions { volume, ..self }),
    {
        SynthPlaybackOptions { volume, ..self }
    }

    /// Validate all parameters: the volume factor must not be NaN or below
    /// zero. Returns `Error::ParameterError` exactly on invalid options.
    pub fn validate(&self) -> (r: Result<(), Error>)
        ensures
            r is Ok <==> volume_is_valid(self.volume),
            r is Err ==> r == Result::<(), Error>::Err(Error::ParameterError),
    {
        if self.volume.bits <= 0x7F800000u32 || self.volume.bits == 0x80000000u32 {
            Ok(())
        } else {
            Err(Error::ParameterError)
        }
    }
}

impl Default for SynthPlaybackOptions {
    /// The default options, as `SynthPlaybackOptions::new` builds them.
    fn default() -> (r: SynthPlaybackOptions)
        ensures
            r == SynthPlaybackOptions::spec_default(),
    {
        SynthPlaybackOptions::new()
    }
}

/// Events to control playback of a synth source.
#[derive(Debug, Clone, PartialEq, Eq, Structural)]
pub enum SynthPlaybackMessage {
    /// Stop the synth source with the given fade-out duration in
    /// milliseconds; 0 stops immediately.
    Stop(u64),
}

/// A source which creates samples from a synthesized signal.
pub trait SynthSource<S: crate::source::Sample>: crate::source::AudioSource<S> {
    /// Channel to control this source's playback.
    fn playback_message_sender(&self) -> crossbeam_channel::Sender<SynthPlaybackMessage>;

    /// A unique id, which identifies this source in status events.
    fn playback_id(&self) -> crate::player::AudioFilePlaybackId;
}

} // verus!
