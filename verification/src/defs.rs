//! The record kinds of the catalog (artists, releases with their songs,
//! events), their identifiers, and their spec-level views.
//!
//! Each record splits its fields into a diffable set, replaceable one field
//! at a time through the tagged diff types of `diffs`, and a managed set,
//! mutated only by dedicated operations. Every record carries a `seq_id`
//! version token guarding optimistic concurrency.
use vstd::prelude::*;
use crate::common::{
    opt_view, seq_view, unique_doc_locals, unique_keys, unique_locals, Birthday,
    DateWithPrecision, Image, ImageView, LocalId, LocalizedDocumentView, LocalizedDocuments,
    LocalizedStrings, LocationId, StringWithLocal, StringWithLocalView, Url, UrlView,
};
use crate::hashes::Hash128;

verus! {

/// Index of an artist record: its insertion position in the artist table.
#[derive(Copy, Clone, Debug, PartialOrd, Ord, PartialEq, Eq, Hash, Structural)]
pub struct ArtistId(pub usize);

/// Index of a release record.
#[derive(Copy, Clone, Debug, PartialOrd, Ord, PartialEq, Eq, Hash, Structural)]
pub struct ReleaseId(pub usize);

/// Index of a tag record.
#[derive(Copy, Clone, Debug, PartialOrd, Ord, PartialEq, Eq, Hash, Structural)]
pub struct TagId(pub usize);

/// Index of an event record.
#[derive(Copy, Clone, Debug, PartialOrd, Ord, PartialEq, Eq, Hash, Structural)]
pub struct EventId(pub usize);

/// Position of a song within a release.
#[derive(Copy, Clone, Debug, PartialOrd, Ord, PartialEq, Eq, Hash, Structural)]
pub struct TrackNum {
    /// 0 if there is no disc, otherwise starts from 1.
    pub disc_num: u16,
    /// Also starts from 1.
    pub track_num: u16,
}

/// Address of one song: a release and a position within it.
#[derive(Copy, Clone, Debug, PartialOrd, Ord, PartialEq, Eq, Hash, Structural)]
pub struct TrackRef {
    pub release_id: ReleaseId,
    pub track_num: TrackNum,
}

#[derive(Copy, Clone, Debug, PartialOrd, PartialEq, Eq, Hash, Structural)]
pub enum ArtistKind {
    Solo,
    Group,
}

/// What an artist contributed to a song or release.
#[derive(Debug, PartialOrd, PartialEq, Eq, Hash)]
pub enum ArtistRole {
    Arranger,
    Vocal,
    Lyricist,
    Other(String),
}

#[verifier::ext_equal]
pub enum ArtistRoleView {
    Arranger,
    Vocal,
    Lyricist,
    Other(Seq<char>),
}

impl View for ArtistRole {
    type V = ArtistRoleView;

    open spec fn view(&self) -> ArtistRoleView {
        match self {
            ArtistRole::Arranger => ArtistRoleView::Arranger,
            ArtistRole::Vocal => ArtistRoleView::Vocal,
            ArtistRole::Lyricist => ArtistRoleView::Lyricist,
            ArtistRole::Other(s) => ArtistRoleView::Other(s@),
        }
    }
}

impl Clone for ArtistRole {
    fn clone(&self) -> (r: Self)
        ensures
            r == *self,
    {
        match self {
            ArtistRole::Arranger => ArtistRole::Arranger,
            ArtistRole::Vocal => ArtistRole::Vocal,
            ArtistRole::Lyricist => ArtistRole::Lyricist,
            ArtistRole::Other(s) => ArtistRole::Other(s.clone()),
        }
    }
}

/// How a song relates to the song it derives from.
#[derive(Debug, PartialOrd, PartialEq, Eq, Hash)]
pub enum SongRelationKind {
    Cover,
    Rearrangement,
    Remix,
    ReRelease,
    Other(String),
}

#[verifier::ext_equal]
pub enum SongRelationKindView {
    Cover,
    Rearrangement,
    Remix,
    ReRelease,
    Other(Seq<char>),
}

impl View for SongRelationKind {
    type V = SongRelationKindView;

    open spec fn view(&self) -> SongRelationKindView {
        match self {
            SongRelationKind::Cover => SongRelationKindView::Cover,
            SongRelationKind::Rearrangement => SongRelationKindView::Rearrangement,
            SongRelationKind::Remix => SongRelationKindView::Remix,
            SongRelationKind::ReRelease => SongRelationKindView::ReRelease,
            SongRelationKind::Other(s) => SongRelationKindView::Other(s@),
        }
    }
}

impl Clone for SongRelationKind {
    fn clone(&self) -> (r: Self)
        ensures
            r == *self,
    {
        match self {
            SongRelationKind::Cover => SongRelationKind::Cover,
            SongRelationKind::Rearrangement => SongRelationKind::Rearrangement,
            SongRelationKind::Remix => SongRelationKind::Remix,
            SongRelationKind::ReRelease => SongRelationKind::ReRelease,
            SongRelationKind::Other(s) => SongRelationKind::Other(s.clone()),
        }
    }
}

#[derive(Copy, Clone, Debug, PartialOrd, PartialEq, Eq, Hash, Structural)]
pub enum ReleaseKind {
    Album,
    Ep,
    Single,
    Compilation,
    Demo,
    Other,
}

/// One artist's membership in a group artist.
#[derive(Debug, PartialOrd, PartialEq, Eq, Hash)]
pub struct ArtistMembership {
    pub group_id: ArtistId,
    pub role: ArtistRole,
    pub start_date: Option<DateWithPrecision>,
    pub end_date: Option<DateWithPrecision>,
}

#[verifier::ext_equal]
pub struct ArtistMembershipView {
    pub group_id: ArtistId,
    pub role: ArtistRoleView,
    pub start_date: Option<DateWithPrecision>,
    pub end_date: Option<DateWithPrecision>,
}

impl View for ArtistMembership {
    type V = ArtistMembershipView;

    open spec fn view(&self) -> ArtistMembershipView {
        ArtistMembershipView {
            group_id: self.group_id,
            role: self.role@,
            start_date: self.start_date,
            end_date: self.end_date,
        }
    }
}

impl Clone for ArtistMembership {
    fn clone(&self) -> (r: Self)
        ensures
            r == *self,
    {
        ArtistMembership {
            group_id: self.group_id,
            role: self.role.clone(),
            start_date: self.start_date,
            end_date: self.end_date,
        }
    }
}

/// The view of a credit list: each artist with the view of their role.
pub open spec fn credits_view(s: Seq<(ArtistId, ArtistRole)>) -> Seq<(ArtistId, ArtistRoleView)> {
    s.map_values(|p: (ArtistId, ArtistRole)| (p.0, p.1@))
}

/// The view of a derivation list: each source track with the relation's view.
pub open spec fn originals_view(s: Seq<(TrackRef, SongRelationKind)>) -> Seq<
    (TrackRef, SongRelationKindView),
> {
    s.map_values(|p: (TrackRef, SongRelationKind)| (p.0, p.1@))
}

/// One artist record. Diffable fields come first; the fields from `seq_id`
/// on form the managed set, mutated only by dedicated operations.
#[derive(Debug, PartialEq, Eq)]
pub struct ArtistMetaData {
    pub name: String,
    pub aliases: Vec<StringWithLocal>,
    pub kind: Option<ArtistKind>,
    pub start_loc: Option<LocationId>,
    pub current_loc: Option<LocationId>,
    pub start_date: Option<DateWithPrecision>,
    pub end_date: Option<DateWithPrecision>,
    pub birthday: Option<Birthday>,
    pub birthyear: Option<u16>,
    pub urls: Vec<Url>,
    pub seq_id: Hash128,
    pub profile_image: Option<Image>,
    pub memberships: Vec<ArtistMembership>,
    pub tags: Vec<TagId>,
    pub descriptions: LocalizedDocuments,
}

#[verifier::ext_equal]
pub struct ArtistMetaDataView {
    pub name: Seq<char>,
    pub aliases: Seq<StringWithLocalView>,
    pub kind: Option<ArtistKind>,
    pub start_loc: Option<Seq<char>>,
    pub current_loc: Option<Seq<char>>,
    pub start_date: Option<DateWithPrecision>,
    pub end_date: Option<DateWithPrecision>,
    pub birthday: Option<Birthday>,
    pub birthyear: Option<u16>,
    pub urls: Seq<UrlView>,
    pub seq_id: Hash128,
    pub profile_image: Option<ImageView>,
    pub memberships: Seq<ArtistMembershipView>,
    pub tags: Seq<TagId>,
    pub descriptions: Seq<LocalizedDocumentView>,
}

impl ArtistMetaDataView {
    /// The map shape of the managed collections: the locale-keyed document
    /// list and the profile image's captions hold one entry per locale.
    pub open spec fn wf(&self) -> bool {
        unique_doc_locals(self.descriptions) && match self.profile_image {
            Some(img) => img.wf(),
            None => true,
        }
    }
}

impl View for ArtistMetaData {
    type V = ArtistMetaDataView;

    open spec fn view(&self) -> ArtistMetaDataView {
        ArtistMetaDataView {
            name: self.name@,
            aliases: seq_view(self.aliases@),
            kind: self.kind,
            start_loc: opt_view(self.start_loc),
            current_loc: opt_view(self.current_loc),
            start_date: self.start_date,
            end_date: self.end_date,
            birthday: self.birthday,
            birthyear: self.birthyear,
            urls: seq_view(self.urls@),
            seq_id: self.seq_id,
            profile_image: opt_view(self.profile_image),
            memberships: seq_view(self.memberships@),
            tags: self.tags@,
            descriptions: seq_view(self.descriptions@),
        }
    }
}

/// The artist record an Add operation creates: the seed name, every other
/// field empty, the version token zero.
pub open spec fn spec_artist_seed(name: Seq<char>) -> ArtistMetaDataView {
    ArtistMetaDataView {
        name,
        aliases: Seq::empty(),
        kind: None,
        start_loc: None,
        current_loc: None,
        start_date: None,
        end_date: None,
        birthday: None,
        birthyear: None,
        urls: Seq::empty(),
        seq_id: Hash128(0),
        profile_image: None,
        memberships: Seq::empty(),
        tags: Seq::empty(),
        descriptions: Seq::empty(),
    }
}

impl ArtistMetaData {
    /// Builds the freshly created record for the given seed name.
    pub fn seeded(name: String) -> (a: ArtistMetaData)
        ensures
            a@ == spec_artist_seed(name@),
            a@.wf(),
    {
        let a = ArtistMetaData {
            name,
            aliases: Vec::new(),
            kind: None,
            start_loc: None,
            current_loc: None,
            start_date: None,
            end_date: None,
            birthday: None,
            birthyear: None,
            urls: Vec::new(),
            seq_id: Hash128(0),
            profile_image: None,
            memberships: Vec::new(),
            tags: Vec::new(),
            descriptions: Vec::new(),
        };
        proof {
            assert(a@ =~= spec_artist_seed(a.name@));
        }
        a
    }
}

/// One song within a release.
#[derive(Debug, PartialEq, Eq)]
pub struct Song {
    pub title: String,
    pub artists: Vec<ArtistId>,
    pub credits: Vec<(ArtistId, ArtistRole)>,
    pub language: Vec<LocalId>,
    pub originals: Vec<(TrackRef, SongRelationKind)>,
    pub duration_s: Option<u32>,
    pub tags: Vec<TagId>,
    pub localized_titles: LocalizedStrings,
    pub lyrics: LocalizedDocuments,
}

#[verifier::ext_equal]
pub struct SongView {
    pub title: Seq<char>,
    pub artists: Seq<ArtistId>,
    pub credits: Seq<(ArtistId, ArtistRoleView)>,
    pub language: Seq<Seq<char>>,
    pub originals: Seq<(TrackRef, SongRelationKindView)>,
    pub duration_s: Option<u32>,
    pub tags: Seq<TagId>,
    pub localized_titles: Seq<StringWithLocalView>,
    pub lyrics: Seq<LocalizedDocumentView>,
}

impl SongView {
    /// The map shape of the managed collections: localized titles and
    /// lyrics hold one entry per locale.
    pub open spec fn wf(&self) -> bool {
        unique_locals(self.localized_titles) && unique_doc_locals(self.lyrics)
    }
}

impl View for Song {
    type V = SongView;

    open spec fn view(&self) -> SongView {
        SongView {
            title: self.title@,
            artists: self.artists@,
            credits: credits_view(self.credits@),
            language: seq_view(self.language@),
            originals: originals_view(self.originals@),
            duration_s: self.duration_s,
            tags: self.tags@,
            localized_titles: seq_view(self.localized_titles@),
            lyrics: seq_view(self.lyrics@),
        }
    }
}

/// The view of a release's track list.
pub open spec fn tracks_view(s: Seq<(TrackNum, Song)>) -> Seq<(TrackNum, SongView)> {
    s.map_values(|p: (TrackNum, Song)| (p.0, p.1@))
}

/// One release record, with its songs keyed by track position.
#[derive(Debug, PartialEq, Eq)]
pub struct Release {
    pub title: String,
    pub release_kind: Option<ReleaseKind>,
    pub catalog_num: Option<String>,
    pub album_artists: Vec<ArtistId>,
    pub cover_art: Option<Image>,
    pub credits: Vec<(ArtistId, ArtistRole)>,
    pub disc_names: Vec<String>,
    pub event: Option<EventId>,
    pub release_date: Option<DateWithPrecision>,
    pub urls: Vec<Url>,
    pub seq_id: Hash128,
    pub localized_titles: LocalizedStrings,
    pub tracks: Vec<(TrackNum, Song)>,
    pub tags: Vec<TagId>,
    pub images: Vec<Image>,
    pub descriptions: LocalizedDocuments,
}

#[verifier::ext_equal]
pub struct ReleaseView {
    pub title: Seq<char>,
    pub release_kind: Option<ReleaseKind>,
    pub catalog_num: Option<Seq<char>>,
    pub album_artists: Seq<ArtistId>,
    pub cover_art: Option<ImageView>,
    pub credits: Seq<(ArtistId, ArtistRoleView)>,
    pub disc_names: Seq<Seq<char>>,
    pub event: Option<EventId>,
    pub release_date: Option<DateWithPrecision>,
    pub urls: Seq<UrlView>,
    pub seq_id: Hash128,
    pub localized_titles: Seq<StringWithLocalView>,
    pub tracks: Seq<(TrackNum, SongView)>,
    pub tags: Seq<TagId>,
    pub images: Seq<ImageView>,
    pub descriptions: Seq<LocalizedDocumentView>,
}

impl ReleaseView {
    /// The map shape of the managed collections: localized titles and
    /// documents one per locale, the track list one song per position, and
    /// each song and attached image well formed in the same sense.
    pub open spec fn wf(&self) -> bool {
        unique_locals(self.localized_titles) && unique_doc_locals(self.descriptions)
            && unique_keys(self.tracks) && (forall|i: int|
            0 <= i < self.tracks.len() ==> (#[trigger] self.tracks[i]).1.wf()) && (forall|i: int|
            0 <= i < self.images.len() ==> (#[trigger] self.images[i]).wf())
    }
}

impl View for Release {
    type V = ReleaseView;

    open spec fn view(&self) -> ReleaseView {
        ReleaseView {
            title: self.title@,
            release_kind: self.release_kind,
            catalog_num: opt_view(self.catalog_num),
            album_artists: self.album_artists@,
            cover_art: opt_view(self.cover_art),
            credits: credits_view(self.credits@),
            disc_names: seq_view(self.disc_names@),
            event: self.event,
            release_date: self.release_date,
            urls: seq_view(self.urls@),
            seq_id: self.seq_id,
            localized_titles: seq_view(self.localized_titles@),
            tracks: tracks_view(self.tracks@),
            tags: self.tags@,
            images: seq_view(self.images@),
            descriptions: seq_view(self.descriptions@),
        }
    }
}

/// The release record an Add operation creates.
pub open spec fn spec_release_seed(title: Seq<char>) -> ReleaseView {
    ReleaseView {
        title,
        release_kind: None,
        catalog_num: None,
        album_artists: Seq::empty(),
        cover_art: None,
        credits: Seq::empty(),
        disc_names: Seq::empty(),
        event: None,
        release_date: None,
        urls: Seq::empty(),
        seq_id: Hash128(0),
        localized_titles: Seq::empty(),
        tracks: Seq::empty(),
        tags: Seq::empty(),
        images: Seq::empty(),
        descriptions: Seq::empty(),
    }
}

impl Release {
    /// Builds the freshly created record for the given seed title.
    pub fn seeded(title: String) -> (r: Release)
        ensures
            r@ == spec_release_seed(title@),
            r@.wf(),
    {
        let r = Release {
            title,
            release_kind: None,
            catalog_num: None,
            album_artists: Vec::new(),
            cover_art: None,
            credits: Vec::new(),
            disc_names: Vec::new(),
            event: None,
            release_date: None,
            urls: Vec::new(),
            seq_id: Hash128(0),
            localized_titles: Vec::new(),
            tracks: Vec::new(),
            tags: Vec::new(),
            images: Vec::new(),
            descriptions: Vec::new(),
        };
        proof {
            assert(r@ =~= spec_release_seed(r.title@));
        }
        r
    }
}

/// One event record (a live show, a convention).
#[derive(Debug, PartialEq, Eq)]
pub struct Event {
    pub name: String,
    pub location: Option<LocationId>,
    pub address: String,
    pub start_date: Option<DateWithPrecision>,
    pub end_date: Option<DateWithPrecision>,
    pub urls: Vec<Url>,
    pub seq_id: Hash128,
    pub localized_names: LocalizedStrings,
    pub descriptions: LocalizedDocuments,
}

#[verifier::ext_equal]
pub struct EventView {
    pub name: Seq<char>,
    pub location: Option<Seq<char>>,
    pub address: Seq<char>,
    pub start_date: Option<DateWithPrecision>,
    pub end_date: Option<DateWithPrecision>,
    pub urls: Seq<UrlView>,
    pub seq_id: Hash128,
    pub localized_names: Seq<StringWithLocalView>,
    pub descriptions: Seq<LocalizedDocumentView>,
}

impl EventView {
    /// The map shape of the managed collections: localized names and
    /// documents hold one entry per locale.
    pub open spec fn wf(&self) -> bool {
        unique_locals(self.localized_names) && unique_doc_locals(self.descriptions)
    }
}

impl View for Event {
    type V = EventView;

    open spec fn view(&self) -> EventView {
        EventView {
            name: self.name@,
            location: opt_view(self.location),
            address: self.address@,
            start_date: self.start_date,
            end_date: self.end_date,
            urls: seq_view(self.urls@),
            seq_id: self.seq_id,
            localized_names: seq_view(self.localized_names@),
            descriptions: seq_view(self.descriptions@),
        }
    }
}

/// The event record an Add operation creates.
pub open spec fn spec_event_seed(name: Seq<char>) -> EventView {
    EventView {
        name,
        location: None,
        address: Seq::empty(),
        start_date: None,
        end_date: None,
        urls: Seq::empty(),
        seq_id: Hash128(0),
        localized_names: Seq::empty(),
        descriptions: Seq::empty(),
    }
}

impl Event {
    /// Builds the freshly created record for the given seed name.
    pub fn seeded(name: String) -> (e: Event)
        ensures
            e@ == spec_event_seed(name@),
            e@.wf(),
    {
        let e = Event {
            name,
            location: None,
            address: String::new(),
            start_date: None,
            end_date: None,
            urls: Vec::new(),
            seq_id: Hash128(0),
            localized_names: Vec::new(),
            descriptions: Vec::new(),
        };
        proof {
            assert(e@ =~= spec_event_seed(e.name@));
        }
        e
    }
}

} // verus!
