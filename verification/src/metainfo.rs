use crate::error::Error;
use vstd::prelude::*;

verus! {

/// A 20-byte identifier: the hash that names a torrent, or the id of a peer.
#[derive(Clone, Copy, Debug, PartialEq, Eq, Hash)]
pub struct Id20(pub [u8; 20]);

/// One file of a multi-file torrent.
#[derive(Clone, Debug, PartialEq, Eq)]
pub struct TorrentMetaV1File {
    pub length: u64,
    pub path: Vec<Vec<u8>>,
}

/// The metadata of a torrent: what its files are and how they are cut into pieces.
#[derive(Clone, Debug, PartialEq, Eq)]
pub struct TorrentMetaV1Info {
    pub name: Option<Vec<u8>>,
    pub pieces: Vec<u8>,
    pub piece_length: u32,
    /// The length of the only file, for a single-file torrent.
    pub length: Option<u64>,
    /// The files, for a multi-file torrent.
    pub files: Option<Vec<TorrentMetaV1File>>,
}

/// The lengths of `files`, added up.
pub open spec fn sum_of_lengths(files: Seq<TorrentMetaV1File>) -> nat
    decreases files.len(),
{
    if files.len() == 0 {
        0
    } else {
        sum_of_lengths(files.drop_last()) + files.last().length as nat
    }
}

/// A longer list of files is at least as long in bytes.
pub proof fn lemma_sum_of_lengths_grows(files: Seq<TorrentMetaV1File>, n: int)
    requires
        0 <= n <= files.len(),
    ensures
        sum_of_lengths(files.take(n)) <= sum_of_lengths(files),
    decreases files.len() - n,
{
    if n == files.len() {
        assert(files.take(n) =~= files);
    } else {
        lemma_sum_of_lengths_grows(files, n + 1);
        assert(files.take(n + 1).drop_last() =~= files.take(n));
    }
}

/// The lengths of `files`, added up, where the sum fits 64 bits.
pub fn sum_file_lengths(files: &Vec<TorrentMetaV1File>) -> (res: Option<u64>)
    ensures
        res == if sum_of_lengths(files@) <= u64::MAX {
            Some(sum_of_lengths(files@) as u64)
        } else {
            None
        },
{
    let mut total: u64 = 0;
    let mut i: usize = 0;
    while i < files.len()
        invariant
            0 <= i <= files.len(),
            total == sum_of_lengths(files@.take(i as int)),
        decreases files.len() - i,
    {
        proof {
            assert(files@.take(i + 1).drop_last() =~= files@.take(i as int));
            assert(files@.take(i + 1).last() == files@[i as int]);
            lemma_sum_of_lengths_grows(files@, i + 1);
        }
        match total.checked_add(files[i].length) {
            Some(next) => {
                total = next;
            },
            None => {
                return None;
            },
        }
        i = i + 1;
    }
    proof {
        assert(files@.take(i as int) =~= files@);
    }
    Some(total)
}

impl TorrentMetaV1Info {
    /// How many bytes the files of the torrent hold together, or why the
    /// metadata does not say.
    pub open spec fn spec_total_length(&self) -> Result<nat, Error> {
        match (self.length, self.files) {
            (Some(length), None) => Ok(length as nat),
            (None, Some(files)) => if files@.len() == 0 {
                Err(Error::NoFiles)
            } else if sum_of_lengths(files@) > u64::MAX {
                Err(Error::TooLarge)
            } else {
                Ok(sum_of_lengths(files@))
            },
            _ => Err(Error::AmbiguousFiles),
        }
    }

    /// How many bytes the files of the torrent hold together.
    pub fn total_length(&self) -> (res: Result<u64, Error>)
        ensures
            match self.spec_total_length() {
                Ok(total) => res == Ok::<u64, Error>(total as u64) && total <= u64::MAX,
                Err(e) => res == Err::<u64, Error>(e),
            },
    {
        match (&self.length, &self.files) {
            (Some(length), None) => Ok(*length),
            (None, Some(files)) => {
                if files.len() == 0 {
                    return Err(Error::NoFiles);
                }
                match sum_file_lengths(files) {
                    Some(total) => Ok(total),
                    None => Err(Error::TooLarge),
                }
            },
            _ => Err(Error::AmbiguousFiles),
        }
    }
}

} // verus!
