use crate::error::Error;
use crate::info::each_once;
use crate::info::holds_text;
use crate::info::selection;
use crate::info::BlockingSpawner;
use crate::info::ManagedTorrentInfo;
use crate::info::ManagedTorrentOptions;
use crate::lengths::layout_of_torrent;
use crate::lengths::Lengths;
use crate::metainfo::Id20;
use crate::metainfo::TorrentMetaV1Info;
use crate::torrent::ManagedTorrent;
use std::path::PathBuf;
use std::sync::Arc;
use std::time::Duration;
use vstd::prelude::*;

verus! {

/// Collects what a torrent is made from, then makes it.
pub struct ManagedTorrentBuilder {
    pub info: TorrentMetaV1Info,
    pub info_hash: Id20,
    pub output_folder: PathBuf,
    pub force_tracker_interval: Option<Duration>,
    pub peer_connect_timeout: Option<Duration>,
    pub peer_read_write_timeout: Option<Duration>,
    pub only_files: Option<Vec<usize>>,
    pub trackers: Vec<String>,
    pub peer_id: Option<Id20>,
    pub overwrite: bool,
    pub spawner: Option<BlockingSpawner>,
}

/// `text` stands among the first `n` of `texts`.
pub open spec fn holds_text_before(texts: Seq<String>, n: int, text: Seq<char>) -> bool {
    exists|i: int| 0 <= i < n && i < texts.len() && texts[i]@ == text
}

/// Whether `text` stands in `texts`.
pub fn contains_text(texts: &Vec<String>, text: &String) -> (found: bool)
    ensures
        found == holds_text(texts@, text@),
{
    let mut i: usize = 0;
    while i < texts.len()
        invariant
            0 <= i <= texts.len(),
            !holds_text_before(texts@, i as int, text@),
        decreases texts.len() - i,
    {
        if texts[i] == *text {
            return true;
        }
        i = i + 1;
    }
    false
}

/// The texts of `texts`, each once.
pub fn dedup_texts(texts: &Vec<String>) -> (kept: Vec<String>)
    ensures
        each_once(kept@),
        forall|text: Seq<char>| holds_text(kept@, text) <==> holds_text(texts@, text),
{
    let mut kept: Vec<String> = Vec::new();
    let mut i: usize = 0;
    while i < texts.len()
        invariant
            0 <= i <= texts.len(),
            each_once(kept@),
            forall|text: Seq<char>|
                holds_text(kept@, text) <==> holds_text_before(texts@, i as int, text),
        decreases texts.len() - i,
    {
        let ghost before = kept@;
        let found = contains_text(&kept, &texts[i]);
        if !found {
            kept.push(texts[i].clone());
            assert(kept@[before.len() as int]@ == texts@[i as int]@);
        }
        assert forall|text: Seq<char>|
            holds_text(kept@, text) <==> holds_text_before(texts@, i + 1, text) by {
            if holds_text(kept@, text) {
                let k = choose|k: int| 0 <= k < kept@.len() && kept@[k]@ == text;
                if k < before.len() {
                    assert(before[k]@ == text);
                    assert(holds_text(before, text));
                    let j = choose|j: int| 0 <= j < i && j < texts@.len() && texts@[j]@ == text;
                    assert(holds_text_before(texts@, i + 1, text));
                } else {
                    assert(texts@[i as int]@ == text);
                }
            }
            if holds_text_before(texts@, i + 1, text) {
                let j = choose|j: int| 0 <= j < i + 1 && j < texts@.len() && texts@[j]@ == text;
                if j < i {
                    assert(holds_text_before(texts@, i as int, text));
                    assert(holds_text(before, text));
                    let k = choose|k: int| 0 <= k < before.len() && before[k]@ == text;
                    assert(kept@[k]@ == text);
                } else {
                    if found {
                        let k = choose|k: int| 0 <= k < before.len() && before[k]@ == text;
                        assert(kept@[k]@ == text);
                    } else {
                        assert(kept@[before.len() as int]@ == text);
                    }
                }
            }
        }
        i = i + 1;
    }
    assert forall|text: Seq<char>| holds_text(kept@, text) <==> holds_text(texts@, text) by {
        if holds_text(texts@, text) {
            let j = choose|j: int| 0 <= j < texts@.len() && texts@[j]@ == text;
            assert(holds_text_before(texts@, i as int, text));
        }
    }
    kept
}

impl ManagedTorrentBuilder {
    /// A builder with nothing chosen yet: every file, no tracker, no
    /// timeout, a peer id and a spawner made at build time, nothing
    /// overwritten.
    pub fn new(info: TorrentMetaV1Info, info_hash: Id20, output_folder: PathBuf) -> (builder: Self)
        ensures
            builder.info == info,
            builder.info_hash == info_hash,
            builder.output_folder == output_folder,
            builder.force_tracker_interval is None,
            builder.peer_connect_timeout is None,
            builder.peer_read_write_timeout is None,
            builder.only_files is None,
            builder.trackers@.len() == 0,
            builder.peer_id is None,
            !builder.overwrite,
            builder.spawner is None,
    {
        ManagedTorrentBuilder {
            info,
            info_hash,
            output_folder,
            force_tracker_interval: None,
            peer_connect_timeout: None,
            peer_read_write_timeout: None,
            only_files: None,
            trackers: Vec::new(),
            peer_id: None,
            overwrite: false,
            spawner: None,
        }
    }

    /// Wants these files only.
    pub fn only_files(&mut self, only_files: Vec<usize>) -> (builder: &mut Self)
        ensures
            *builder == (ManagedTorrentBuilder { only_files: Some(only_files), ..*old(self) }),
            *final(self) == *final(builder),
    {
        self.only_files = Some(only_files);
        self
    }

    /// Announces to these trackers, in place of those chosen before.
    pub fn trackers(&mut self, trackers: Vec<String>) -> (builder: &mut Self)
        ensures
            *builder == (ManagedTorrentBuilder { trackers, ..*old(self) }),
            *final(self) == *final(builder),
    {
        self.trackers = trackers;
        self
    }

    /// Whether files that exist already are written over.
    pub fn overwrite(&mut self, overwrite: bool) -> (builder: &mut Self)
        ensures
            *builder == (ManagedTorrentBuilder { overwrite, ..*old(self) }),
            *final(self) == *final(builder),
    {
        self.overwrite = overwrite;
        self
    }

    /// Announces at this interval, whatever the trackers ask for.
    pub fn force_tracker_interval(&mut self, force_tracker_interval: Duration) -> (builder:
        &mut Self)
        ensures
            *builder == (ManagedTorrentBuilder {
                force_tracker_interval: Some(force_tracker_interval),
                ..*old(self)
            }),
            *final(self) == *final(builder),
    {
        self.force_tracker_interval = Some(force_tracker_interval);
        self
    }

    /// Runs blocking work this way, in place of the way chosen at build time.
    pub fn spawner(&mut self, spawner: BlockingSpawner) -> (builder: &mut Self)
        ensures
            *builder == (ManagedTorrentBuilder { spawner: Some(spawner), ..*old(self) }),
            *final(self) == *final(builder),
    {
        self.spawner = Some(spawner);
        self
    }

    /// Uses this peer id, in place of one made at build time.
    pub fn peer_id(&mut self, peer_id: Id20) -> (builder: &mut Self)
        ensures
            *builder == (ManagedTorrentBuilder { peer_id: Some(peer_id), ..*old(self) }),
            *final(self) == *final(builder),
    {
        self.peer_id = Some(peer_id);
        self
    }

    /// Gives up on connecting to a peer after this long.
    pub fn peer_connect_timeout(&mut self, timeout: Duration) -> (builder: &mut Self)
        ensures
            *builder == (ManagedTorrentBuilder {
                peer_connect_timeout: Some(timeout),
                ..*old(self)
            }),
            *final(self) == *final(builder),
    {
        self.peer_connect_timeout = Some(timeout);
        self
    }

    /// Gives up on reading from or writing to a peer after this long.
    pub fn peer_read_write_timeout(&mut self, timeout: Duration) -> (builder: &mut Self)
        ensures
            *builder == (ManagedTorrentBuilder {
                peer_read_write_timeout: Some(timeout),
                ..*old(self)
            }),
            *final(self) == *final(builder),
    {
        self.peer_read_write_timeout = Some(timeout);
        self
    }

    /// `info` is the descriptor that this builder makes, where it makes one.
    pub open spec fn describes<G: FnOnce() -> Id20, S: FnOnce() -> BlockingSpawner>(
        self,
        span: tracing::Span,
        generate_peer_id: G,
        default_spawner: S,
        info: ManagedTorrentInfo,
    ) -> bool {
        &&& info.wf()
        &&& info.info == self.info
        &&& info.info_hash == self.info_hash
        &&& info.out_dir == self.output_folder
        &&& info.span == span
        &&& info.options.force_tracker_interval == self.force_tracker_interval
        &&& info.options.peer_connect_timeout == self.peer_connect_timeout
        &&& info.options.peer_read_write_timeout == self.peer_read_write_timeout
        &&& info.options.overwrite == self.overwrite
        &&& match self.peer_id {
            Some(id) => info.peer_id == id,
            None => call_ensures(generate_peer_id, (), info.peer_id),
        }
        &&& match self.spawner {
            Some(spawner) => info.spawner == spawner,
            None => call_ensures(default_spawner, (), info.spawner),
        }
        &&& forall|text: Seq<char>|
            holds_text(info.trackers@, text) <==> holds_text(self.trackers@, text)
    }

    /// The descriptor of the torrent, with `span` for its diagnostics, and
    /// the files that are wanted. Fails
    /// where the metadata has no layout, with the reason. `generate_peer_id`
    /// is called only where no peer id was chosen, `default_spawner` only
    /// where no spawner was.
    pub fn describe<G, S>(
        self,
        span: tracing::Span,
        generate_peer_id: G,
        default_spawner: S,
    ) -> (res: Result<
        (ManagedTorrentInfo, Option<Vec<usize>>),
        Error,
    >) where G: FnOnce() -> Id20, S: FnOnce() -> BlockingSpawner
        requires
            call_requires(generate_peer_id, ()),
            call_requires(default_spawner, ()),
        ensures
            match layout_of_torrent(self.info) {
                Ok(_) => res matches Ok((info, only_files)) && self.describes(
                    span,
                    generate_peer_id,
                    default_spawner,
                    info,
                ) && only_files == self.only_files,
                Err(e) => res == Err::<(ManagedTorrentInfo, Option<Vec<usize>>), Error>(e),
            },
    {
        let lengths = match Lengths::from_torrent(&self.info) {
            Ok(lengths) => lengths,
            Err(e) => {
                return Err(e);
            },
        };
        let peer_id = match self.peer_id {
            Some(id) => id,
            None => generate_peer_id(),
        };
        let spawner = match self.spawner {
            Some(spawner) => spawner,
            None => default_spawner(),
        };
        let trackers = dedup_texts(&self.trackers);
        let info = ManagedTorrentInfo {
            info: self.info,
            info_hash: self.info_hash,
            out_dir: self.output_folder,
            spawner,
            trackers,
            peer_id,
            lengths,
            span,
            options: ManagedTorrentOptions {
                force_tracker_interval: self.force_tracker_interval,
                peer_connect_timeout: self.peer_connect_timeout,
                peer_read_write_timeout: self.peer_read_write_timeout,
                overwrite: self.overwrite,
            },
        };
        Ok((info, self.only_files))
    }

    /// The torrent, in its first phase: initializing. Fails where the
    /// metadata has no layout, with the reason.
    pub fn build<C, L, G, S>(
        self,
        span: tracing::Span,
        generate_peer_id: G,
        default_spawner: S,
    ) -> (res: Result<
        Arc<ManagedTorrent<C, L>>,
        Error,
    >) where G: FnOnce() -> Id20, S: FnOnce() -> BlockingSpawner
        requires
            call_requires(generate_peer_id, ()),
            call_requires(default_spawner, ()),
        ensures
            match layout_of_torrent(self.info) {
                Ok(_) => res matches Ok(torrent) && self.describes(
                    span,
                    generate_peer_id,
                    default_spawner,
                    *torrent.spec_info(),
                ) && torrent.spec_only_files() == selection(self.only_files),
                Err(e) => res == Err::<Arc<ManagedTorrent<C, L>>, Error>(e),
            },
    {
        match self.describe(span, generate_peer_id, default_spawner) {
            Ok((info, only_files)) => Ok(Arc::new(ManagedTorrent::new(Arc::new(info), only_files))),
            Err(e) => Err(e),
        }
    }
}

} // verus!
