use vstd::prelude::*;

verus! {

/// Why a lifecycle operation was refused or failed.
#[derive(Clone, Debug, PartialEq, Eq)]
pub enum Error {
    /// `start` was called on a torrent that is already live.
    AlreadyLive,
    /// `pause` was called while the torrent is still being verified.
    Initializing,
    /// `pause` was called on a torrent that is already paused.
    AlreadyPaused,
    /// `pause` was called on a torrent that has failed.
    InErrorState,
    /// `start` or `pause` found the phase empty: a transition took the phase
    /// out and never installed its successor.
    EmptyState,
    /// Someone who waits for the download to complete found the phase empty.
    EmptyStateWhileWaiting,
    /// The chunk state was asked for while the torrent is neither paused nor live.
    NoChunkTracker,
    /// The metadata names both a single length and a file list, or neither.
    AmbiguousFiles,
    /// The metadata holds a file list without a file.
    NoFiles,
    /// The files of the torrent hold no byte at all.
    ZeroLength,
    /// The metadata gives pieces a length of zero.
    ZeroPieceLength,
    /// The sizes in the metadata are beyond what the layout can count.
    TooLarge,
    /// A collaborator (verification or the live session) reported this failure.
    Failed(String),
}

impl Error {
    /// The text that describes this error to a person.
    pub fn message(&self) -> (text: String)
        ensures
            text@ == self.spec_message(),
    {
        match self {
            Error::AlreadyLive => "torrent is already live".to_owned(),
            Error::Initializing => "torrent is initializing, can't pause".to_owned(),
            Error::AlreadyPaused => "torrent is already paused".to_owned(),
            Error::InErrorState => "can't pause torrent in error state".to_owned(),
            Error::EmptyState => "bug: torrent is in empty state".to_owned(),
            Error::EmptyStateWhileWaiting => "bug: torrent state is None".to_owned(),
            Error::NoChunkTracker => "no chunk tracker, torrent neither paused nor live".to_owned(),
            Error::AmbiguousFiles => "torrent can't be both in single and multi-file mode".to_owned(),
            Error::NoFiles => "expected multi-file torrent to have at least one file".to_owned(),
            Error::ZeroLength => "torrent with 0 length is useless".to_owned(),
            Error::ZeroPieceLength => "torrent with piece length 0 is useless".to_owned(),
            Error::TooLarge => "torrent is too large to lay out".to_owned(),
            Error::Failed(cause) => cause.clone(),
        }
    }

    /// The characters of [`Error::message`].
    pub open spec fn spec_message(&self) -> Seq<char> {
        match *self {
            Error::AlreadyLive => "torrent is already live"@,
            Error::Initializing => "torrent is initializing, can't pause"@,
            Error::AlreadyPaused => "torrent is already paused"@,
            Error::InErrorState => "can't pause torrent in error state"@,
            Error::EmptyState => "bug: torrent is in empty state"@,
            Error::EmptyStateWhileWaiting => "bug: torrent state is None"@,
            Error::NoChunkTracker => "no chunk tracker, torrent neither paused nor live"@,
            Error::AmbiguousFiles => "torrent can't be both in single and multi-file mode"@,
            Error::NoFiles => "expected multi-file torrent to have at least one file"@,
            Error::ZeroLength => "torrent with 0 length is useless"@,
            Error::ZeroPieceLength => "torrent with piece length 0 is useless"@,
            Error::TooLarge => "torrent is too large to lay out"@,
            Error::Failed(cause) => cause@,
        }
    }
}

} // verus!
