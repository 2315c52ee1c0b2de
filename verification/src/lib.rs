//! Source-of-truth store for a music-metadata catalog.
//!
//! The store keeps one append-only table per record kind (artists, releases,
//! events). Partial updates go through per-field diff types; each accepted
//! diff advances the record's 128-bit version token by chaining the previous
//! token with the diff's content digest, and is written to an append-only
//! audit log before the mutation commits.
pub mod common;
pub mod defs;
pub mod diffs;
pub mod errors;
pub mod hashes;
pub mod store;
pub mod wal;

pub use common::{
    Birthday, DatePrecision, DateWithPrecision, FileId, Image, LocalId, LocalizedDocument,
    LocalizedDocuments, LocalizedStrings, LocationId, StringWithLocal, Url, UserId,
};
pub use defs::{
    ArtistId, ArtistKind, ArtistMembership, ArtistMetaData, ArtistRole, Event, EventId, Release,
    ReleaseId, ReleaseKind, Song, SongRelationKind, TagId, TrackNum, TrackRef,
};
pub use diffs::{
    apply_artist_meta_data_diff, apply_event_diff, apply_release_diff, apply_song_diff, get_hash,
    release_diff_hash, ArtistMetaDataDiff, EventDiff, ReleaseDiff, SongDiff,
};
pub use errors::InternalErr;
pub use hashes::{chain_tokens, Hash128};
pub use store::States;
pub use wal::{BoundedLogStore, LogEntry, LogPayload, LogStore, NaiveLogStore};
