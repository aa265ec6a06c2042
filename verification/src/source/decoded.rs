use vstd::prelude::*;

verus! {

/// A unique id for a decoded file stream.
pub type DecodedFileId = usize;

/// Status events sent back from a decoded file stream to the user.
#[derive(Debug, Clone, PartialEq, Eq)]
pub enum DecodedFilePlaybackStatusMsg {
    /// A rate-limited progress report for a decoded stream.
    Position {
        /// Unique id of the decoded file stream.
        file_id: DecodedFileId,
        /// Path of the decoded file.
        file_path: String,
        /// The stream's playback position in milliseconds.
        position_ms: u64,
    },
    /// The decoded stream was read to its very end.
    EndOfFile {
        /// Unique id of the decoded file stream.
        file_id: DecodedFileId,
        /// Path of the decoded file.
        file_path: String,
    },
}

/// Control messages of a decoded file stream's worker.
#[derive(Debug, Clone, PartialEq, Eq, Structural)]
pub enum DecodedFileMsg {
    /// Seek the stream to a new position, given in milliseconds.
    Seek(u64),
    /// Decode and buffer more of the stream.
    Read,
    /// Shut the stream's worker down.
    Stop,
}

} // verus!
