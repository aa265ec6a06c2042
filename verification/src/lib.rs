//! A low-latency audio playback engine core: sources of interleaved samples
//! are scheduled on an absolute frame clock, faded, looped, resampled,
//! channel-mapped and mixed into a single output stream, while playback
//! progress and end-of-source events are reported back to the host.
//!
//! The engine is generic over the numeric sample representation (see
//! [`source::Sample`]): it is responsible for which samples end up where,
//! for the lifecycle of every playing source and for the control surface,
//! while sample arithmetic, decoding, resampler kernels and the output
//! device are supplied by the embedding application.
pub mod error;
pub mod player;
pub mod source;
pub mod utils;

pub use error::Error;
pub use player::{AudioFilePlaybackId, AudioFilePlaybackStatusEvent, AudioFilePlayer};
pub use source::file::FilePlaybackOptions;
pub use source::synth::SynthPlaybackOptions;
pub use source::{AudioSource, AudioSourceTime};
