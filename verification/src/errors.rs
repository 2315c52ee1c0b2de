//! The error taxonomy every mutating call reports through.
use vstd::prelude::*;
use crate::common::LocalId;
use crate::defs::{ArtistId, EventId, ReleaseId, TagId, TrackRef};

verus! {

/// Why a store operation was rejected. Every rejection leaves the store
/// observably unchanged.
#[derive(Debug, PartialEq, Eq)]
pub enum InternalErr {
    InvalidArtistId(ArtistId),
    InvalidEventId(EventId),
    InvalidLocalId(LocalId),
    InvalidTagId(TagId),
    InvalidReleaseId(ReleaseId),
    InvalidTrackRef(TrackRef),
    Poisoned,
    OutdatedUpdate,
    InvalidRelation,
    Other(String),
}

impl From<String> for InternalErr {
    fn from(s: String) -> (r: InternalErr) {
        InternalErr::Other(s)
    }
}

impl vstd::std_specs::convert::FromSpecImpl<String> for InternalErr {
    open spec fn obeys_from_spec() -> bool {
        true
    }

    open spec fn from_spec(s: String) -> InternalErr {
        InternalErr::Other(s)
    }
}

} // verus!
