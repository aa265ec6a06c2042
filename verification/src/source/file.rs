pub mod preloaded;
pub mod streamed;

use vstd::prelude::*;

use crate::error::Error;
use crate::source::Volume;

verus! {

/// Resampler quality selector: a low-latency default kernel or a
/// higher-quality, higher-latency one.
#[derive(Debug, Copy, Clone, PartialEq, Eq, Structural)]
pub enum ResamplingQuality {
    /// Low-latency polynomial interpolation kernel.
    Default,
    /// Higher-quality windowed-sinc kernel.
    HighQuality,
}

/// Whether a linear volume factor is acceptable as a playback volume: its
/// single-precision bit pattern must not denote a NaN or a value below zero
/// (negative zero counts as zero). Every non-negative finite value and
/// positive infinity lies at or below the positive-infinity bit pattern
/// `0x7F80_0000`; every NaN and every negative value other than negative
/// zero (`0x8000_0000`) lies above it.
pub open spec fn volume_is_valid(v: Volume) -> bool {
    v.bits <= 0x7F800000u32 || v.bits == 0x80000000u32
}

/// Options to control playback of a file source.
#[derive(Debug, Copy, Clone, PartialEq, Eq, Structural)]
pub struct FilePlaybackOptions {
    /// By default false: when true, the file will be decoded and streamed
    /// on the fly. This should be enabled for very long files only,
    /// especially when a lot of files are going to be played at once.
    pub stream: bool,
    /// By default unity. Customize to lower or raise the volume of the file.
    pub volume: Volume,
    /// By default 0: when > 0 the number of times the file should be
    /// looped. Set to `usize::MAX` to repeat forever.
    pub repeat: usize,
    /// Absolute output frame at which playback should start; 0 starts
    /// immediately.
    pub start_time_frames: u64,
    /// Fade-in duration in milliseconds applied when playback starts;
    /// 0 disables the fade-in.
    pub fade_in_ms: u64,
    /// Fade-out duration in milliseconds applied when the source is
    /// stopped; 0 stops immediately.
    pub fade_out_on_stop_ms: u64,
    /// Interpolation quality of the resampler.
    pub resampling_quality: ResamplingQuality,
    /// When set, emit a position event at most once per this many
    /// milliseconds of wall-clock time.
    pub playback_pos_emit_rate_ms: Option<u64>,
}

impl FilePlaybackOptions {
    /// The default options: preloaded playback at unity volume, no repeat,
    /// immediate start, no fades, default resampling quality and no
    /// position reports.
    pub fn new() -> (r: FilePlaybackOptions)
        ensures
            r == FilePlaybackOptions::spec_default(),
    {
        FilePlaybackOptions {
            stream: false,
            volume: Volume::unity(),
            repeat: 0,
            start_time_frames: 0,
            fade_in_ms: 0,
            fade_out_on_stop_ms: 0,
            resampling_quality: ResamplingQuality::Default,
            playback_pos_emit_rate_ms: None,
        }
    }

    /// The default option values.
    pub open spec fn spec_default() -> FilePlaybackOptions {
        FilePlaybackOptions {
            stream: false,
            volume: Volume { bits: 0x3F800000u32 },
            repeat: 0,
            start_time_frames: 0,
            fade_in_ms: 0,
            fade_out_on_stop_ms: 0,
            resampling_quality: ResamplingQuality::Default,
            playback_pos_emit_rate_ms: None,
        }
    }

    /// Decode the file up front into a buffer, then play it from there.
    pub fn preloaded(self) -> (r: FilePlaybackOptions)
        ensures
            r == (FilePlaybackOptions { stream: false, ..self }),
    {
        FilePlaybackOptions { stream: false, ..self }
    }

    /// Decode and stream the file on the fly from a worker thread.
    pub fn streamed(self) -> (r: FilePlaybackOptions)
        ensures
            r == (FilePlaybackOptions { stream: true, ..self }),
    {
        FilePlaybackOptions { stream: true, ..self }
    }

    /// Play the file at the given linear volume factor.
    pub fn with_volume(self, volume: Volume) -> (r: FilePlaybackOptions)
        ensures
            r == (FilePlaybackOptions { volume, ..self }),
    {
        FilePlaybackOptions { volume, ..self }
    }

    /// Repeat (loop) the file the given number of times after the first
    /// pass.
    pub fn repeat(self, count: usize) -> (r: FilePlaybackOptions)
        ensures
            r == (FilePlaybackOptions { repeat: count, ..self }),
    {
        FilePlaybackOptions { repeat: count, ..self }
    }

    /// Repeat (loop) the file forever.
    pub fn repeat_forever(self) -> (r: FilePlaybackOptions)
        ensures
            r == (FilePlaybackOptions { repeat: usize::MAX, ..self }),
    {
        FilePlaybackOptions { repeat: usize::MAX, ..self }
    }

    /// Start playback at the given absolute output frame.
    pub fn start_at_time(self, start_time_frames: u64) -> (r: FilePlaybackOptions)
        ensures
            r == (FilePlaybackOptions { start_time_frames, ..self }),
    {
        FilePlaybackOptions { start_time_frames, ..self }
    }

    /// Fade the playback in over the given number of milliseconds.
    pub fn fade_in(self, fade_in_ms: u64) -> (r: FilePlaybackOptions)
        ensures
            r == (FilePlaybackOptions { fade_in_ms, ..self }),
    {
        FilePlaybackOptions { fade_in_ms, ..self }
    }

    /// Fade the playback out over the given number of milliseconds when the
    /// source is stopped.
    pub fn fade_out_on_stop(self, fade_out_on_stop_ms: u64) -> (r: FilePlaybackOptions)
        ensures
            r == (FilePlaybackOptions { fade_out_on_stop_ms, ..self }),
    {
        FilePlaybackOptions { fade_out_on_stop_ms, ..self }
    }

    /// Validate all parameters: the volume factor must not be NaN or below
    /// zero. Returns `Error::ParameterError` exactly on invalid options.
    pub fn validate(&self) -> (r: Result<(), Error>)
        ensures
            r is Ok <==> volume_is_valid(self.volume),
            r is Err ==> r == Result::<(), Error>::Err(Error::ParameterError),
    {
        if self.volume.bits <= 0x7F800000u32 || self.volume.bits == 0x80000000u32 {
            Ok(())
        } else {
            Err(Error::ParameterError)
        }
    }
}

impl Default for FilePlaybackOptions {
    /// The default options, as `FilePlaybackOptions::new` builds them.
    fn default() -> (r: FilePlaybackOptions)
        ensures
            r == FilePlaybackOptions::spec_default(),
    {
        FilePlaybackOptions::new()
    }
}

/// Events to control playback of a file source.
#[derive(Debug, Clone, PartialEq, Eq, Structural)]
pub enum FilePlaybackMessage {
    /// Seek the file source to a new position, given in milliseconds.
    Seek(u64),
    /// Start reading streamed sources (internally used only).
    Read,
    /// Stop the source with the given fade-out duration in milliseconds;
    /// 0 stops immediately.
    Stop(u64),
}

/// A source which plays back a decoded audio file.
pub trait FileSource<S: crate::source::Sample>: crate::source::AudioSource<S> {
    /// Channel to control file playback.
    fn playback_message_sender(&self) -> crossbeam_channel::Sender<FilePlaybackMessage>;

    /// A unique id, which identifies this source in status events.
    fn playback_id(&self) -> crate::player::AudioFilePlaybackId;

    /// Total number of sample frames in the decoded file; may not be known
    /// before playback finished.
    fn total_frames(&self) -> Option<u64>;

    /// Current playback position in frames.
    fn current_frame_position(&self) -> u64;

    /// True when the source played through the entire file, else false.
    fn end_of_track(&self) -> bool;
}

} // verus!
