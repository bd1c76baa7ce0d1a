use vstd::prelude::*;

verus! {

/// Everything that can go wrong in an operation on the wallpaper record.
#[derive(Clone, Debug, PartialEq, Eq)]
pub enum WallpError {
    /// No access key is configured; nothing was sent to the provider.
    MissingCredential,
    /// The provider answered with a failure status, or with a body that could not be read.
    ProviderError { status: u16, body: String },
    /// Reading or writing a file failed.
    IoError { path: String, message: String },
    /// The persisted record, or a timestamp in it, could not be read.
    CorruptRecord(String),
    /// A history entry names a file that is no longer on disk.
    MissingArtifact(String),
    /// A history position past the end of the history was asked for.
    IndexOutOfRange { index: usize, len: usize },
    /// The cursor already stands on the oldest entry.
    NoPreviousEntry,
    /// An instant falls outside the range that can be written as a timestamp.
    TimeOutOfRange,
}

} // verus!
