//! Lifecycle of one torrent: the phase it is in, the transitions between
//! phases, and the read-only projections over the current phase.

pub mod builder;
pub mod error;
pub mod info;
pub mod initializing;
pub mod laws;
pub mod lengths;
pub mod metainfo;
pub mod record;
pub mod state;
pub mod stats;
pub mod tasks;
pub mod torrent;
pub mod usn;
