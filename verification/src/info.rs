use crate::lengths::Lengths;
use crate::metainfo::Id20;
use crate::metainfo::TorrentMetaV1Info;
use std::path::PathBuf;
use std::sync::Arc;
use std::time::Duration;
use vstd::prelude::*;

verus! {

/// `std::path::PathBuf`, carried as it is: nothing is said of what a path
/// holds.
#[verifier::external_type_specification]
#[verifier::external_body]
pub struct ExPathBuf(std::path::PathBuf);

/// `tracing::Span`, carried as it is: nothing is said of what a span holds.
#[verifier::external_type_specification]
#[verifier::external_body]
pub struct ExSpan(tracing::Span);

/// `Arc::clone`: one more handle to the value that `handle` shares.
#[verifier::external_body]
pub(crate) fn share<T>(handle: &Arc<T>) -> (shared: Arc<T>)
    ensures
        shared == *handle,
{
    Arc::clone(handle)
}

/// The file indices of a selection, or `None` for every file.
pub open spec fn selection(only_files: Option<Vec<usize>>) -> Option<Seq<usize>> {
    match only_files {
        Some(files) => Some(files@),
        None => None,
    }
}

/// A copy of a selection of files.
pub fn clone_selection(only_files: &Option<Vec<usize>>) -> (copy: Option<Vec<usize>>)
    ensures
        selection(copy) == selection(*only_files),
{
    match only_files {
        Some(files) => {
            let mut copy: Vec<usize> = Vec::new();
            let mut i: usize = 0;
            while i < files.len()
                invariant
                    0 <= i <= files.len(),
                    copy@ == files@.take(i as int),
                decreases files.len() - i,
            {
                copy.push(files[i]);
                i = i + 1;
            }
            assert(files@.take(i as int) =~= files@);
            Some(copy)
        },
        None => None,
    }
}

/// How the blocking work of a torrent, such as reading and hashing files,
/// is run.
#[derive(Clone, Copy, Debug, PartialEq, Eq, Structural)]
pub struct BlockingSpawner {
    /// Whether blocking work may run in place, on the thread that asked for
    /// it, while the scheduler moves the other tasks of that thread away.
    pub allow_block_in_place: bool,
}

/// How a torrent treats its trackers, its peers and the files already on disk.
pub struct ManagedTorrentOptions {
    pub force_tracker_interval: Option<Duration>,
    pub peer_connect_timeout: Option<Duration>,
    pub peer_read_write_timeout: Option<Duration>,
    pub overwrite: bool,
}

impl Default for ManagedTorrentOptions {
    /// No interval, no timeout, nothing overwritten.
    fn default() -> (options: Self)
        ensures
            options.force_tracker_interval is None,
            options.peer_connect_timeout is None,
            options.peer_read_write_timeout is None,
            !options.overwrite,
    {
        ManagedTorrentOptions {
            force_tracker_interval: None,
            peer_connect_timeout: None,
            peer_read_write_timeout: None,
            overwrite: false,
        }
    }
}

/// What a torrent is, whatever phase it is in. Made once, by the builder,
/// and shared read-only from then on.
pub struct ManagedTorrentInfo {
    pub info: TorrentMetaV1Info,
    pub info_hash: Id20,
    pub out_dir: PathBuf,
    pub spawner: BlockingSpawner,
    /// The trackers, each once.
    pub trackers: Vec<String>,
    pub peer_id: Id20,
    pub lengths: Lengths,
    /// What ties the diagnostics of this torrent together.
    pub span: tracing::Span,
    pub options: ManagedTorrentOptions,
}

/// No text stands twice in `texts`.
pub open spec fn each_once(texts: Seq<String>) -> bool {
    forall|i: int, j: int| 0 <= i < j < texts.len() ==> texts[i]@ != texts[j]@
}

/// `text` stands in `texts`.
pub open spec fn holds_text(texts: Seq<String>, text: Seq<char>) -> bool {
    exists|i: int| 0 <= i < texts.len() && texts[i]@ == text
}

impl ManagedTorrentInfo {
    /// The layout is the one that the metadata describes, and no tracker
    /// stands twice.
    pub open spec fn wf(&self) -> bool {
        &&& self.lengths.wf()
        &&& self.info.spec_total_length() == Ok::<nat, crate::error::Error>(
            self.lengths.spec_total_length() as nat,
        )
        &&& self.lengths.spec_default_piece_length() == self.info.piece_length
        &&& each_once(self.trackers@)
    }
}

} // verus!
