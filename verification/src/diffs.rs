//! Per-field diff types and their apply operations.
//!
//! Each record kind has a tagged union with one variant per diffable field,
//! the payload being that field's new value, and an apply operation that
//! overwrites exactly the named field and leaves every other field untouched.
//! Apply is total: it performs no validation, which is deliberately the
//! caller's responsibility.
use vstd::prelude::*;
use crate::common::{
    opt_view, seq_view, Birthday, DateWithPrecision, Image, ImageView, LocalId, LocationId,
    StringWithLocal, StringWithLocalView, Url, UrlView,
};
use crate::defs::{
    credits_view, originals_view, ArtistId, ArtistKind, ArtistMetaData, ArtistMetaDataView,
    ArtistRole, ArtistRoleView, Event, EventId, EventView, Release, ReleaseKind, ReleaseView,
    Song, SongRelationKind, SongRelationKindView, SongView, TrackRef,
};
use crate::hashes::{combine128, Hash128};

verus! {

/// A one-field update to an artist record: one variant per diffable field.
#[derive(Debug, PartialEq, Eq, Hash)]
pub enum ArtistMetaDataDiff {
    Name(String),
    Aliases(Vec<StringWithLocal>),
    Kind(Option<ArtistKind>),
    StartLoc(Option<LocationId>),
    CurrentLoc(Option<LocationId>),
    StartDate(Option<DateWithPrecision>),
    EndDate(Option<DateWithPrecision>),
    Birthday(Option<Birthday>),
    Birthyear(Option<u16>),
    Urls(Vec<Url>),
}

#[verifier::ext_equal]
pub enum ArtistMetaDataDiffView {
    Name(Seq<char>),
    Aliases(Seq<StringWithLocalView>),
    Kind(Option<ArtistKind>),
    StartLoc(Option<Seq<char>>),
    CurrentLoc(Option<Seq<char>>),
    StartDate(Option<DateWithPrecision>),
    EndDate(Option<DateWithPrecision>),
    Birthday(Option<Birthday>),
    Birthyear(Option<u16>),
    Urls(Seq<UrlView>),
}

impl View for ArtistMetaDataDiff {
    type V = ArtistMetaDataDiffView;

    open spec fn view(&self) -> ArtistMetaDataDiffView {
        match self {
            ArtistMetaDataDiff::Name(v) => ArtistMetaDataDiffView::Name(v@),
            ArtistMetaDataDiff::Aliases(v) => ArtistMetaDataDiffView::Aliases(seq_view(v@)),
            ArtistMetaDataDiff::Kind(v) => ArtistMetaDataDiffView::Kind(*v),
            ArtistMetaDataDiff::StartLoc(v) => ArtistMetaDataDiffView::StartLoc(opt_view(*v)),
            ArtistMetaDataDiff::CurrentLoc(v) => ArtistMetaDataDiffView::CurrentLoc(opt_view(*v)),
            ArtistMetaDataDiff::StartDate(v) => ArtistMetaDataDiffView::StartDate(*v),
            ArtistMetaDataDiff::EndDate(v) => ArtistMetaDataDiffView::EndDate(*v),
            ArtistMetaDataDiff::Birthday(v) => ArtistMetaDataDiffView::Birthday(*v),
            ArtistMetaDataDiff::Birthyear(v) => ArtistMetaDataDiffView::Birthyear(*v),
            ArtistMetaDataDiff::Urls(v) => ArtistMetaDataDiffView::Urls(seq_view(v@)),
        }
    }
}

impl Clone for ArtistMetaDataDiff {
    fn clone(&self) -> (r: Self)
        ensures
            r@ == self@,
    {
        match self {
            ArtistMetaDataDiff::Name(v) => ArtistMetaDataDiff::Name(v.clone()),
            ArtistMetaDataDiff::Aliases(v) => {
                let c = v.clone();
                proof {
                    assert(c@ =~= v@);
                }
                ArtistMetaDataDiff::Aliases(c)
            },
            ArtistMetaDataDiff::Kind(v) => ArtistMetaDataDiff::Kind(*v),
            ArtistMetaDataDiff::StartLoc(v) => ArtistMetaDataDiff::StartLoc(
                match v {
                    Some(x) => Some(x.clone()),
                    None => None,
                },
            ),
            ArtistMetaDataDiff::CurrentLoc(v) => ArtistMetaDataDiff::CurrentLoc(
                match v {
                    Some(x) => Some(x.clone()),
                    None => None,
                },
            ),
            ArtistMetaDataDiff::StartDate(v) => ArtistMetaDataDiff::StartDate(*v),
            ArtistMetaDataDiff::EndDate(v) => ArtistMetaDataDiff::EndDate(*v),
            ArtistMetaDataDiff::Birthday(v) => ArtistMetaDataDiff::Birthday(*v),
            ArtistMetaDataDiff::Birthyear(v) => ArtistMetaDataDiff::Birthyear(*v),
            ArtistMetaDataDiff::Urls(v) => {
                let c = v.clone();
                proof {
                    assert(c@ =~= v@);
                }
                ArtistMetaDataDiff::Urls(c)
            },
        }
    }
}

/// The record that applying `d` to `a` yields: exactly the named field is
/// replaced by the payload.
pub open spec fn spec_apply_artist_diff(
    a: ArtistMetaDataView,
    d: ArtistMetaDataDiffView,
) -> ArtistMetaDataView {
    match d {
        ArtistMetaDataDiffView::Name(v) => ArtistMetaDataView { name: v, ..a },
        ArtistMetaDataDiffView::Aliases(v) => ArtistMetaDataView { aliases: v, ..a },
        ArtistMetaDataDiffView::Kind(v) => ArtistMetaDataView { kind: v, ..a },
        ArtistMetaDataDiffView::StartLoc(v) => ArtistMetaDataView { start_loc: v, ..a },
        ArtistMetaDataDiffView::CurrentLoc(v) => ArtistMetaDataView { current_loc: v, ..a },
        ArtistMetaDataDiffView::StartDate(v) => ArtistMetaDataView { start_date: v, ..a },
        ArtistMetaDataDiffView::EndDate(v) => ArtistMetaDataView { end_date: v, ..a },
        ArtistMetaDataDiffView::Birthday(v) => ArtistMetaDataView { birthday: v, ..a },
        ArtistMetaDataDiffView::Birthyear(v) => ArtistMetaDataView { birthyear: v, ..a },
        ArtistMetaDataDiffView::Urls(v) => ArtistMetaDataView { urls: v, ..a },
    }
}

/// Overwrites exactly the field named by the diff's variant; every other
/// field, the version token included, is left untouched.
pub fn apply_artist_meta_data_diff(obj: &mut ArtistMetaData, diff: ArtistMetaDataDiff)
    ensures
        final(obj)@ == spec_apply_artist_diff(old(obj)@, diff@),
        old(obj)@.wf() ==> final(obj)@.wf(),
{
    match diff {
        ArtistMetaDataDiff::Name(v) => obj.name = v,
        ArtistMetaDataDiff::Aliases(v) => obj.aliases = v,
        ArtistMetaDataDiff::Kind(v) => obj.kind = v,
        ArtistMetaDataDiff::StartLoc(v) => obj.start_loc = v,
        ArtistMetaDataDiff::CurrentLoc(v) => obj.current_loc = v,
        ArtistMetaDataDiff::StartDate(v) => obj.start_date = v,
        ArtistMetaDataDiff::EndDate(v) => obj.end_date = v,
        ArtistMetaDataDiff::Birthday(v) => obj.birthday = v,
        ArtistMetaDataDiff::Birthyear(v) => obj.birthyear = v,
        ArtistMetaDataDiff::Urls(v) => obj.urls = v,
    }
    proof {
        assert(obj@ =~= spec_apply_artist_diff(old(obj)@, diff@));
    }
}

/// A one-field update to a song.
#[derive(Debug, PartialEq, Eq, Hash)]
pub enum SongDiff {
    Title(String),
    Artists(Vec<ArtistId>),
    Credits(Vec<(ArtistId, ArtistRole)>),
    Language(Vec<LocalId>),
    Originals(Vec<(TrackRef, SongRelationKind)>),
    DurationS(Option<u32>),
}

#[verifier::ext_equal]
pub enum SongDiffView {
    Title(Seq<char>),
    Artists(Seq<ArtistId>),
    Credits(Seq<(ArtistId, ArtistRoleView)>),
    Language(Seq<Seq<char>>),
    Originals(Seq<(TrackRef, SongRelationKindView)>),
    DurationS(Option<u32>),
}

impl View for SongDiff {
    type V = SongDiffView;

    open spec fn view(&self) -> SongDiffView {
        match self {
            SongDiff::Title(v) => SongDiffView::Title(v@),
            SongDiff::Artists(v) => SongDiffView::Artists(v@),
            SongDiff::Credits(v) => SongDiffView::Credits(credits_view(v@)),
            SongDiff::Language(v) => SongDiffView::Language(seq_view(v@)),
            SongDiff::Originals(v) => SongDiffView::Originals(originals_view(v@)),
            SongDiff::DurationS(v) => SongDiffView::DurationS(*v),
        }
    }
}

/// The song that applying `d` to `s` yields.
pub open spec fn spec_apply_song_diff(s: SongView, d: SongDiffView) -> SongView {
    match d {
        SongDiffView::Title(v) => SongView { title: v, ..s },
        SongDiffView::Artists(v) => SongView { artists: v, ..s },
        SongDiffView::Credits(v) => SongView { credits: v, ..s },
        SongDiffView::Language(v) => SongView { language: v, ..s },
        SongDiffView::Originals(v) => SongView { originals: v, ..s },
        SongDiffView::DurationS(v) => SongView { duration_s: v, ..s },
    }
}

/// Overwrites exactly the field named by the diff's variant.
pub fn apply_song_diff(obj: &mut Song, diff: SongDiff)
    ensures
        final(obj)@ == spec_apply_song_diff(old(obj)@, diff@),
        old(obj)@.wf() ==> final(obj)@.wf(),
{
    match diff {
        SongDiff::Title(v) => obj.title = v,
        SongDiff::Artists(v) => obj.artists = v,
        SongDiff::Credits(v) => obj.credits = v,
        SongDiff::Language(v) => obj.language = v,
        SongDiff::Originals(v) => obj.originals = v,
        SongDiff::DurationS(v) => obj.duration_s = v,
    }
    proof {
        assert(obj@ =~= spec_apply_song_diff(old(obj)@, diff@));
    }
}

/// A one-field update to a release record.
#[derive(Debug, PartialEq, Eq, Hash)]
pub enum ReleaseDiff {
    Title(String),
    ReleaseKind(Option<ReleaseKind>),
    CatalogNum(Option<String>),
    AlbumArtists(Vec<ArtistId>),
    CoverArt(Option<Image>),
    Credits(Vec<(ArtistId, ArtistRole)>),
    DiscNames(Vec<String>),
    Event(Option<EventId>),
    ReleaseDate(Option<DateWithPrecision>),
    Urls(Vec<Url>),
}

#[verifier::ext_equal]
pub enum ReleaseDiffView {
    Title(Seq<char>),
    ReleaseKind(Option<ReleaseKind>),
    CatalogNum(Option<Seq<char>>),
    AlbumArtists(Seq<ArtistId>),
    CoverArt(Option<ImageView>),
    Credits(Seq<(ArtistId, ArtistRoleView)>),
    DiscNames(Seq<Seq<char>>),
    Event(Option<EventId>),
    ReleaseDate(Option<DateWithPrecision>),
    Urls(Seq<UrlView>),
}

impl View for ReleaseDiff {
    type V = ReleaseDiffView;

    open spec fn view(&self) -> ReleaseDiffView {
        match self {
            ReleaseDiff::Title(v) => ReleaseDiffView::Title(v@),
            ReleaseDiff::ReleaseKind(v) => ReleaseDiffView::ReleaseKind(*v),
            ReleaseDiff::CatalogNum(v) => ReleaseDiffView::CatalogNum(opt_view(*v)),
            ReleaseDiff::AlbumArtists(v) => ReleaseDiffView::AlbumArtists(v@),
            ReleaseDiff::CoverArt(v) => ReleaseDiffView::CoverArt(opt_view(*v)),
            ReleaseDiff::Credits(v) => ReleaseDiffView::Credits(credits_view(v@)),
            ReleaseDiff::DiscNames(v) => ReleaseDiffView::DiscNames(seq_view(v@)),
            ReleaseDiff::Event(v) => ReleaseDiffView::Event(*v),
            ReleaseDiff::ReleaseDate(v) => ReleaseDiffView::ReleaseDate(*v),
            ReleaseDiff::Urls(v) => ReleaseDiffView::Urls(seq_view(v@)),
        }
    }
}

impl Clone for ReleaseDiff {
    fn clone(&self) -> (r: Self)
        ensures
            r@ == self@,
    {
        match self {
            ReleaseDiff::Title(v) => ReleaseDiff::Title(v.clone()),
            ReleaseDiff::ReleaseKind(v) => ReleaseDiff::ReleaseKind(*v),
            ReleaseDiff::CatalogNum(v) => ReleaseDiff::CatalogNum(
                match v {
                    Some(x) => Some(x.clone()),
                    None => None,
                },
            ),
            ReleaseDiff::AlbumArtists(v) => ReleaseDiff::AlbumArtists(v.clone()),
            ReleaseDiff::CoverArt(v) => ReleaseDiff::CoverArt(
                match v {
                    Some(x) => Some(x.clone()),
                    None => None,
                },
            ),
            ReleaseDiff::Credits(v) => {
                let mut c: Vec<(ArtistId, ArtistRole)> = Vec::new();
                let mut i: usize = 0;
                while i < v.len()
                    invariant
                        i <= v.len(),
                        c@.len() == i,
                        forall|j: int| 0 <= j < i ==> c@[j] == v@[j],
                    decreases v.len() - i,
                {
                    c.push((v[i].0, v[i].1.clone()));
                    i = i + 1;
                }
                proof {
                    assert(c@ =~= v@);
                }
                ReleaseDiff::Credits(c)
            },
            ReleaseDiff::DiscNames(v) => {
                let c = v.clone();
                proof {
                    assert(c@ =~= v@);
                }
                ReleaseDiff::DiscNames(c)
            },
            ReleaseDiff::Event(v) => ReleaseDiff::Event(*v),
            ReleaseDiff::ReleaseDate(v) => ReleaseDiff::ReleaseDate(*v),
            ReleaseDiff::Urls(v) => {
                let c = v.clone();
                proof {
                    assert(c@ =~= v@);
                }
                ReleaseDiff::Urls(c)
            },
        }
    }
}

/// The release that applying `d` to `r` yields.
pub open spec fn spec_apply_release_diff(r: ReleaseView, d: ReleaseDiffView) -> ReleaseView {
    match d {
        ReleaseDiffView::Title(v) => ReleaseView { title: v, ..r },
        ReleaseDiffView::ReleaseKind(v) => ReleaseView { release_kind: v, ..r },
        ReleaseDiffView::CatalogNum(v) => ReleaseView { catalog_num: v, ..r },
        ReleaseDiffView::AlbumArtists(v) => ReleaseView { album_artists: v, ..r },
        ReleaseDiffView::CoverArt(v) => ReleaseView { cover_art: v, ..r },
        ReleaseDiffView::Credits(v) => ReleaseView { credits: v, ..r },
        ReleaseDiffView::DiscNames(v) => ReleaseView { disc_names: v, ..r },
        ReleaseDiffView::Event(v) => ReleaseView { event: v, ..r },
        ReleaseDiffView::ReleaseDate(v) => ReleaseView { release_date: v, ..r },
        ReleaseDiffView::Urls(v) => ReleaseView { urls: v, ..r },
    }
}

/// Overwrites exactly the field named by the diff's variant; every other
/// field, the version token included, is left untouched.
pub fn apply_release_diff(obj: &mut Release, diff: ReleaseDiff)
    ensures
        final(obj)@ == spec_apply_release_diff(old(obj)@, diff@),
        old(obj)@.wf() ==> final(obj)@.wf(),
{
    match diff {
        ReleaseDiff::Title(v) => obj.title = v,
        ReleaseDiff::ReleaseKind(v) => obj.release_kind = v,
        ReleaseDiff::CatalogNum(v) => obj.catalog_num = v,
        ReleaseDiff::AlbumArtists(v) => obj.album_artists = v,
        ReleaseDiff::CoverArt(v) => obj.cover_art = v,
        ReleaseDiff::Credits(v) => obj.credits = v,
        ReleaseDiff::DiscNames(v) => obj.disc_names = v,
        ReleaseDiff::Event(v) => obj.event = v,
        ReleaseDiff::ReleaseDate(v) => obj.release_date = v,
        ReleaseDiff::Urls(v) => obj.urls = v,
    }
    proof {
        assert(obj@ =~= spec_apply_release_diff(old(obj)@, diff@));
    }
}

/// A one-field update to an event record.
#[derive(Debug, PartialEq, Eq, Hash)]
pub enum EventDiff {
    Name(String),
    Location(Option<LocationId>),
    Address(String),
    StartDate(Option<DateWithPrecision>),
    EndDate(Option<DateWithPrecision>),
    Urls(Vec<Url>),
}

#[verifier::ext_equal]
pub enum EventDiffView {
    Name(Seq<char>),
    Location(Option<Seq<char>>),
    Address(Seq<char>),
    StartDate(Option<DateWithPrecision>),
    EndDate(Option<DateWithPrecision>),
    Urls(Seq<UrlView>),
}

impl View for EventDiff {
    type V = EventDiffView;

    open spec fn view(&self) -> EventDiffView {
        match self {
            EventDiff::Name(v) => EventDiffView::Name(v@),
            EventDiff::Location(v) => EventDiffView::Location(opt_view(*v)),
            EventDiff::Address(v) => EventDiffView::Address(v@),
            EventDiff::StartDate(v) => EventDiffView::StartDate(*v),
            EventDiff::EndDate(v) => EventDiffView::EndDate(*v),
            EventDiff::Urls(v) => EventDiffView::Urls(seq_view(v@)),
        }
    }
}

/// The event that applying `d` to `e` yields.
pub open spec fn spec_apply_event_diff(e: EventView, d: EventDiffView) -> EventView {
    match d {
        EventDiffView::Name(v) => EventView { name: v, ..e },
        EventDiffView::Location(v) => EventView { location: v, ..e },
        EventDiffView::Address(v) => EventView { address: v, ..e },
        EventDiffView::StartDate(v) => EventView { start_date: v, ..e },
        EventDiffView::EndDate(v) => EventView { end_date: v, ..e },
        EventDiffView::Urls(v) => EventView { urls: v, ..e },
    }
}

/// Overwrites exactly the field named by the diff's variant.
pub fn apply_event_diff(obj: &mut Event, diff: EventDiff)
    ensures
        final(obj)@ == spec_apply_event_diff(old(obj)@, diff@),
        old(obj)@.wf() ==> final(obj)@.wf(),
{
    match diff {
        EventDiff::Name(v) => obj.name = v,
        EventDiff::Location(v) => obj.location = v,
        EventDiff::Address(v) => obj.address = v,
        EventDiff::StartDate(v) => obj.start_date = v,
        EventDiff::EndDate(v) => obj.end_date = v,
        EventDiff::Urls(v) => obj.urls = v,
    }
    proof {
        assert(obj@ =~= spec_apply_event_diff(old(obj)@, diff@));
    }
}

/// What the stable hasher returns for an artist diff's content.
pub uninterp spec fn artist_diff_digest(d: ArtistMetaDataDiffView) -> (u64, u64);

/// Relies on rustc_stable_hash's SipHasher128: hashing a diff feeds the bytes
/// of its content, in field order, into a keyed 128-bit SipHash with fixed
/// zero keys, so the result words depend on the diff's content alone, stably
/// across runs.
#[verifier::external_body]
fn sip_digest_of_artist_diff(d: &ArtistMetaDataDiff) -> (r: (u64, u64))
    ensures
        r == artist_diff_digest(d@),
{
    let mut hasher = rustc_stable_hash::hashers::SipHasher128::default();
    std::hash::Hash::hash(d, &mut hasher);
    let rustc_stable_hash::SipHasher128Hash(words) =
        rustc_stable_hash::ExtendedHasher::finish(hasher);
    (words[0], words[1])
}

/// The 128-bit content digest of an artist diff.
pub open spec fn artist_diff_hash128(d: ArtistMetaDataDiffView) -> u128 {
    combine128(artist_diff_digest(d))
}

/// The content digest an accepted artist diff is fingerprinted with before
/// being chained onto the record's version token.
pub fn get_hash(diff: &ArtistMetaDataDiff) -> (r: Hash128)
    ensures
        r.0 == artist_diff_hash128(diff@),
{
    let words = sip_digest_of_artist_diff(diff);
    Hash128(((words.0 as u128) << 64) | (words.1 as u128))
}

/// What the stable hasher returns for a release diff's content.
pub uninterp spec fn release_diff_digest(d: ReleaseDiffView) -> (u64, u64);

/// Relies on rustc_stable_hash's SipHasher128, as for artist diffs: the
/// result words depend on the diff's content alone, stably across runs.
#[verifier::external_body]
fn sip_digest_of_release_diff(d: &ReleaseDiff) -> (r: (u64, u64))
    ensures
        r == release_diff_digest(d@),
{
    let mut hasher = rustc_stable_hash::hashers::SipHasher128::default();
    std::hash::Hash::hash(d, &mut hasher);
    let rustc_stable_hash::SipHasher128Hash(words) =
        rustc_stable_hash::ExtendedHasher::finish(hasher);
    (words[0], words[1])
}

/// The 128-bit content digest of a release diff.
pub open spec fn release_diff_hash128(d: ReleaseDiffView) -> u128 {
    combine128(release_diff_digest(d))
}

/// The content digest an accepted release diff is fingerprinted with.
pub fn release_diff_hash(diff: &ReleaseDiff) -> (r: Hash128)
    ensures
        r.0 == release_diff_hash128(diff@),
{
    let words = sip_digest_of_release_diff(diff);
    Hash128(((words.0 as u128) << 64) | (words.1 as u128))
}

} // verus!
