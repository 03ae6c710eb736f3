use crate::error::Error;
use crate::metainfo::TorrentMetaV1Info;
use vstd::prelude::*;

verus! {

/// How the bytes of a torrent are laid out in pieces.
#[derive(Clone, Copy, Debug, PartialEq, Eq)]
pub struct Lengths {
    total_length: u64,
    piece_length: u32,
    last_piece_id: u32,
    last_piece_length: u32,
}

/// The layout of `total` bytes in pieces of `piece_length` bytes, or why
/// there is none.
pub open spec fn layout_of(total: nat, piece_length: u32) -> Result<(nat, nat), Error> {
    if piece_length == 0 {
        Err(Error::ZeroPieceLength)
    } else if total == 0 {
        Err(Error::ZeroLength)
    } else if (total - 1) / (piece_length as int) >= u32::MAX {
        Err(Error::TooLarge)
    } else {
        Ok((((total - 1) / (piece_length as int)) as nat, (total - ((total - 1) / (piece_length as int)) * piece_length) as nat))
    }
}

/// The layout that the metadata `info` describes, or why there is none.
pub open spec fn layout_of_torrent(info: TorrentMetaV1Info) -> Result<(nat, nat), Error> {
    match info.spec_total_length() {
        Ok(total) => layout_of(total, info.piece_length),
        Err(e) => Err(e),
    }
}

impl Lengths {
    #[verifier::type_invariant]
    spec fn inv(self) -> bool {
        self.last_piece_id < u32::MAX && self.wf()
    }

    /// The layout is that of its total and its piece length: the number of
    /// the last piece and the length of the last piece are what `layout_of`
    /// gives for them.
    pub open spec fn wf(&self) -> bool {
        &&& self.spec_total_pieces() >= 1
        &&& layout_of(self.spec_total_length() as nat, self.spec_default_piece_length()) == Ok::<
            (nat, nat),
            Error,
        >(((self.spec_total_pieces() - 1) as nat, self.spec_last_piece_length() as nat))
    }

    pub closed spec fn spec_total_length(&self) -> u64 {
        self.total_length
    }

    pub closed spec fn spec_default_piece_length(&self) -> u32 {
        self.piece_length
    }

    pub closed spec fn spec_total_pieces(&self) -> u32 {
        (self.last_piece_id + 1) as u32
    }

    pub closed spec fn spec_last_piece_length(&self) -> u32 {
        self.last_piece_length
    }

    /// The layout of `total_length` bytes in pieces of `piece_length` bytes.
    pub fn new(total_length: u64, piece_length: u32) -> (res: Result<Lengths, Error>)
        ensures
            match layout_of(total_length as nat, piece_length) {
                Ok((last_id, last_length)) => res matches Ok(lengths) && lengths.wf()
                    && lengths.spec_total_length() == total_length
                    && lengths.spec_default_piece_length() == piece_length
                    && lengths.spec_total_pieces() == last_id + 1
                    && lengths.spec_last_piece_length() == last_length,
                Err(e) => res == Err::<Lengths, Error>(e),
            },
    {
        if piece_length == 0 {
            return Err(Error::ZeroPieceLength);
        }
        if total_length == 0 {
            return Err(Error::ZeroLength);
        }
        let last_id: u64 = (total_length - 1) / (piece_length as u64);
        if last_id >= u32::MAX as u64 {
            return Err(Error::TooLarge);
        }
        assert(last_id * piece_length <= total_length - 1) by (nonlinear_arith)
            requires
                last_id == (total_length - 1) / (piece_length as int),
                piece_length > 0,
        ;
        assert(total_length - 1 - last_id * piece_length < piece_length) by (nonlinear_arith)
            requires
                last_id == (total_length - 1) / (piece_length as int),
                piece_length > 0,
                total_length >= 1,
        ;
        let last_length: u64 = total_length - last_id * (piece_length as u64);
        Ok(
            Lengths {
                total_length,
                piece_length,
                last_piece_id: last_id as u32,
                last_piece_length: last_length as u32,
            },
        )
    }

    /// The layout that the metadata of a torrent describes.
    pub fn from_torrent(info: &TorrentMetaV1Info) -> (res: Result<Lengths, Error>)
        ensures
            match info.spec_total_length() {
                Ok(total) => match layout_of(total, info.piece_length) {
                    Ok((last_id, last_length)) => res matches Ok(lengths) && lengths.wf()
                        && lengths.spec_total_length() == total
                        && lengths.spec_default_piece_length() == info.piece_length
                        && lengths.spec_total_pieces() == last_id + 1
                        && lengths.spec_last_piece_length() == last_length,
                    Err(e) => res == Err::<Lengths, Error>(e),
                },
                Err(e) => res == Err::<Lengths, Error>(e),
            },
    {
        match info.total_length() {
            Ok(total) => Lengths::new(total, info.piece_length),
            Err(e) => Err(e),
        }
    }

    /// How many bytes the torrent holds.
    #[verifier::when_used_as_spec(spec_total_length)]
    pub fn total_length(&self) -> (total: u64)
        ensures
            total == self.spec_total_length(),
    {
        self.total_length
    }

    /// The length of every piece but the last.
    #[verifier::when_used_as_spec(spec_default_piece_length)]
    pub fn default_piece_length(&self) -> (length: u32)
        ensures
            length == self.spec_default_piece_length(),
    {
        self.piece_length
    }

    /// How many pieces the torrent has.
    #[verifier::when_used_as_spec(spec_total_pieces)]
    pub fn total_pieces(&self) -> (pieces: u32)
        ensures
            pieces == self.spec_total_pieces(),
            pieces >= 1,
    {
        proof {
            use_type_invariant(self);
        }
        self.last_piece_id + 1
    }

    /// The length of the last piece: between one byte and a full piece.
    #[verifier::when_used_as_spec(spec_last_piece_length)]
    pub fn last_piece_length(&self) -> (length: u32)
        ensures
            length == self.spec_last_piece_length(),
            1 <= length <= self.spec_default_piece_length(),
    {
        proof {
            use_type_invariant(self);
            let total = self.total_length as int;
            let piece = self.piece_length as int;
            assert(((total - 1) / piece) * piece <= total - 1 < ((total - 1) / piece) * piece
                + piece) by (nonlinear_arith)
                requires
                    piece > 0,
                    total >= 1,
            ;
        }
        self.last_piece_length
    }
}

} // verus!
