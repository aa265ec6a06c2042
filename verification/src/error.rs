use vstd::prelude::*;

verus! {

/// Errors surfaced by the playback engine.
///
/// Construction errors propagate to the caller; the real-time path never
/// surfaces errors synchronously.
#[derive(Clone, Debug, PartialEq, Eq, Structural)]
pub enum Error {
    /// A file could not be opened, probed or decoded, or produced an empty
    /// stream.
    DecodeError,
    /// Playback options failed validation (negative volume, NaN volume,
    /// non-positive speed).
    ParameterError,
    /// The playback id is unknown to the player: the source never existed
    /// or already terminated.
    NotFound,
    /// The operation was applied to the wrong source family, e.g. a seek on
    /// a synth source.
    NotSupported,
    /// An internal channel or event queue rejected a message.
    SendError,
    /// A resampler could not be constructed from the given signal specs.
    ResamplerError,
}

impl Error {
    /// A short human-readable description of the error.
    pub fn description(&self) -> (r: &'static str)
        ensures
            r@.len() > 0,
    {
        let r: &'static str = match self {
            Error::DecodeError => "failed to decode audio file",
            Error::ParameterError => "invalid playback options",
            Error::NotFound => "playback id is not known or no longer playing",
            Error::NotSupported => "operation is not supported for this source",
            Error::SendError => "failed to send an internal playback message",
            Error::ResamplerError => "failed to create a resampler",
        };
        proof {
            reveal_strlit("failed to decode audio file");
            reveal_strlit("invalid playback options");
            reveal_strlit("playback id is not known or no longer playing");
            reveal_strlit("operation is not supported for this source");
            reveal_strlit("failed to send an internal playback message");
            reveal_strlit("failed to create a resampler");
        }
        r
    }
}

} // verus!
