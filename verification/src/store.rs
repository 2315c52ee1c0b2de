//! The state store: one append-only table per record kind, the derived
//! indices, and the write-ahead audit log, mutated together as one atomic
//! unit per call.
//!
//! Every mutating call either fully commits (field mutation and audit entry
//! both recorded) or fully fails with no observable side effect. The audit
//! entry is written first and the mutation commits only if logging succeeds.
use vstd::prelude::*;
use crate::common::{seq_view, unique_keys, UserId};
use crate::defs::{
    originals_view, spec_artist_seed, spec_event_seed, spec_release_seed, ArtistId,
    ArtistMetaData, ArtistMetaDataView, Event, EventId, EventView, Release, ReleaseId,
    ReleaseView, SongRelationKind, SongRelationKindView, TrackRef,
};
use crate::diffs::{
    apply_artist_meta_data_diff, apply_release_diff, artist_diff_hash128, get_hash,
    release_diff_hash, release_diff_hash128, spec_apply_artist_diff, spec_apply_release_diff,
    ArtistMetaDataDiff, ArtistMetaDataDiffView, ReleaseDiff, ReleaseDiffView,
};
use crate::errors::InternalErr;
use crate::hashes::{chain_tokens, spec_chain, Hash128};
use crate::wal::{LogEntry, LogEntryView, LogPayload, LogPayloadView, LogStore, NaiveLogStore};

verus! {

/// The mathematical state of a store: the three record tables, the derived
/// indices, and the audit log, each in insertion order.
#[verifier::ext_equal]
pub struct StoreModel {
    pub artists: Seq<ArtistMetaDataView>,
    pub releases: Seq<ReleaseView>,
    pub events: Seq<EventView>,
    pub group_members: Seq<(ArtistId, Seq<ArtistId>)>,
    pub artist_discography: Seq<(ArtistId, Seq<TrackRef>)>,
    pub derived_songs: Seq<(TrackRef, Seq<(TrackRef, SongRelationKindView)>)>,
    pub log: Seq<LogEntryView>,
}

/// The state of a freshly created store: everything empty.
pub open spec fn empty_model() -> StoreModel {
    StoreModel {
        artists: Seq::empty(),
        releases: Seq::empty(),
        events: Seq::empty(),
        group_members: Seq::empty(),
        artist_discography: Seq::empty(),
        derived_songs: Seq::empty(),
        log: Seq::empty(),
    }
}

/// Every record keeps the map shape of its managed collections — one entry
/// per key, as the key-addressed collections of the catalog demand — and
/// each derived index holds one row per key.
pub open spec fn records_wf(m: StoreModel) -> bool {
    (forall|i: int| 0 <= i < m.artists.len() ==> (#[trigger] m.artists[i]).wf()) && (forall|i: int|
        0 <= i < m.releases.len() ==> (#[trigger] m.releases[i]).wf()) && (forall|i: int|
        0 <= i < m.events.len() ==> (#[trigger] m.events[i]).wf()) && unique_keys(m.group_members)
        && unique_keys(m.artist_discography) && unique_keys(m.derived_songs)
}

/// The state after a committed `artist_add`: the seeded record appended to
/// the artist table and the seed logged.
pub open spec fn artist_add_model(m: StoreModel, user: UserId, name: Seq<char>) -> StoreModel {
    StoreModel {
        artists: m.artists.push(spec_artist_seed(name)),
        log: m.log.push(
            LogEntryView {
                user,
                api_name: "artist_add"@,
                payload: LogPayloadView::ArtistSeed(spec_artist_seed(name)),
            },
        ),
        ..m
    }
}

/// The state after a committed `release_add`.
pub open spec fn release_add_model(m: StoreModel, user: UserId, title: Seq<char>) -> StoreModel {
    StoreModel {
        releases: m.releases.push(spec_release_seed(title)),
        log: m.log.push(
            LogEntryView {
                user,
                api_name: "release_add"@,
                payload: LogPayloadView::ReleaseSeed(spec_release_seed(title)),
            },
        ),
        ..m
    }
}

/// The state after a committed `event_add`.
pub open spec fn event_add_model(m: StoreModel, user: UserId, name: Seq<char>) -> StoreModel {
    StoreModel {
        events: m.events.push(spec_event_seed(name)),
        log: m.log.push(
            LogEntryView {
                user,
                api_name: "event_add"@,
                payload: LogPayloadView::EventSeed(spec_event_seed(name)),
            },
        ),
        ..m
    }
}

/// Whether an update presenting token `tok` against artist `id` passes both
/// the bounds check and the optimistic-concurrency check.
pub open spec fn artist_update_accepted(m: StoreModel, id: ArtistId, tok: Hash128) -> bool {
    id.0 < m.artists.len() && m.artists[id.0 as int].seq_id == tok
}

/// The token an accepted artist update hands back: the previous token
/// chained with the diff's digest. Every accepted diff advances the token.
pub open spec fn next_artist_token(tok: Hash128, d: ArtistMetaDataDiffView) -> Hash128 {
    Hash128(spec_chain(tok.0, artist_diff_hash128(d)))
}

/// An artist record after an accepted diff: exactly the named field
/// rewritten and the version token advanced.
pub open spec fn artist_after_diff(
    a: ArtistMetaDataView,
    d: ArtistMetaDataDiffView,
) -> ArtistMetaDataView {
    ArtistMetaDataView { seq_id: next_artist_token(a.seq_id, d), ..spec_apply_artist_diff(a, d) }
}

/// The state after a committed `artist_metadata_update`.
pub open spec fn artist_update_model(
    m: StoreModel,
    user: UserId,
    id: ArtistId,
    d: ArtistMetaDataDiffView,
) -> StoreModel {
    StoreModel {
        artists: m.artists.update(id.0 as int, artist_after_diff(m.artists[id.0 as int], d)),
        log: m.log.push(
            LogEntryView {
                user,
                api_name: "artist_metadata_update"@,
                payload: LogPayloadView::ArtistUpdate { id, diff: d },
            },
        ),
        ..m
    }
}

/// Whether an update presenting token `tok` against release `id` passes both
/// checks.
pub open spec fn release_update_accepted(m: StoreModel, id: ReleaseId, tok: Hash128) -> bool {
    id.0 < m.releases.len() && m.releases[id.0 as int].seq_id == tok
}

/// The token an accepted release update hands back.
pub open spec fn next_release_token(tok: Hash128, d: ReleaseDiffView) -> Hash128 {
    Hash128(spec_chain(tok.0, release_diff_hash128(d)))
}

/// A release record after an accepted diff.
pub open spec fn release_after_diff(r: ReleaseView, d: ReleaseDiffView) -> ReleaseView {
    ReleaseView { seq_id: next_release_token(r.seq_id, d), ..spec_apply_release_diff(r, d) }
}

/// The state after a committed `release_metadata_update`.
pub open spec fn release_update_model(
    m: StoreModel,
    user: UserId,
    id: ReleaseId,
    d: ReleaseDiffView,
) -> StoreModel {
    StoreModel {
        releases: m.releases.update(id.0 as int, release_after_diff(m.releases[id.0 as int], d)),
        log: m.log.push(
            LogEntryView {
                user,
                api_name: "release_metadata_update"@,
                payload: LogPayloadView::ReleaseUpdate { id, diff: d },
            },
        ),
        ..m
    }
}

/// The state one audit log entry rebuilds: the committed operation the
/// entry records, re-run against the rebuilt state. An entry whose target
/// id is out of bounds rebuilds nothing (a log written by the store never
/// holds one).
pub open spec fn replay_step(m: StoreModel, e: LogEntryView) -> StoreModel {
    match e.payload {
        LogPayloadView::ArtistSeed(a) => artist_add_model(m, e.user, a.name),
        LogPayloadView::ReleaseSeed(r) => release_add_model(m, e.user, r.title),
        LogPayloadView::EventSeed(ev) => event_add_model(m, e.user, ev.name),
        LogPayloadView::ArtistUpdate { id, diff } => if id.0 < m.artists.len() {
            artist_update_model(m, e.user, id, diff)
        } else {
            m
        },
        LogPayloadView::ReleaseUpdate { id, diff } => if id.0 < m.releases.len() {
            release_update_model(m, e.user, id, diff)
        } else {
            m
        },
    }
}

/// The state that replaying a log from an empty store rebuilds.
pub open spec fn replay_model(entries: Seq<LogEntryView>) -> StoreModel
    decreases entries.len(),
{
    if entries.len() == 0 {
        empty_model()
    } else {
        replay_step(replay_model(entries.drop_last()), entries.last())
    }
}

/// Replaying a log extended by one entry is one step past replaying the log.
pub proof fn lemma_replay_model_push(s: Seq<LogEntryView>, e: LogEntryView)
    ensures
        replay_model(s.push(e)) == replay_step(replay_model(s), e),
{
    assert(s.push(e).drop_last() =~= s);
}

/// A mutable borrow of one element of a vector.
fn vec_at_mut<T>(v: &mut Vec<T>, i: usize) -> (e: &mut T)
    requires
        i < v.len(),
    ensures
        *e == old(v)@[i as int],
        final(v)@ == old(v)@.update(i as int, *final(e)),
{
    &mut v[i]
}

/// The concurrent entity store: one table per record kind, the derived
/// indices, and the audit log collaborator it records every mutation into.
///
/// The derived indices (group membership, discography, song derivation) are
/// fed by managed fields: artist memberships, release tracks and song
/// originals. No diffable field feeds them, so the update operations keep
/// them unchanged; they stay empty until dedicated managed-set operations
/// populate them, and every operation states so in its contract.
pub struct States<L: LogStore> {
    wal: L,
    artists: Vec<ArtistMetaData>,
    releases: Vec<Release>,
    events: Vec<Event>,
    group_members: Vec<(ArtistId, Vec<ArtistId>)>,
    artist_discography: Vec<(ArtistId, Vec<TrackRef>)>,
    derived_songs: Vec<(TrackRef, Vec<(TrackRef, SongRelationKind)>)>,
}

impl<L: LogStore> View for States<L> {
    type V = StoreModel;

    closed spec fn view(&self) -> StoreModel {
        StoreModel {
            artists: seq_view(self.artists@),
            releases: seq_view(self.releases@),
            events: seq_view(self.events@),
            group_members: self.group_members@.map_values(
                |p: (ArtistId, Vec<ArtistId>)| (p.0, p.1@),
            ),
            artist_discography: self.artist_discography@.map_values(
                |p: (ArtistId, Vec<TrackRef>)| (p.0, p.1@),
            ),
            derived_songs: self.derived_songs@.map_values(
                |p: (TrackRef, Vec<(TrackRef, SongRelationKind)>)| (p.0, originals_view(p.1@)),
            ),
            log: self.wal.entries(),
        }
    }
}

impl<L: LogStore> States<L> {
    /// Whether the logging collaborator will accept the next entry; every
    /// mutating call succeeds exactly when the checks pass and this holds.
    pub closed spec fn log_ready(&self) -> bool {
        self.wal.can_record()
    }

    /// The store's fundamental consistency: its state is exactly what
    /// replaying its own audit log rebuilds. It holds of every store created
    /// over an empty log and is preserved by every operation, so the log
    /// alone always reconstructs the sequence of accepted mutations.
    pub open spec fn wf(&self) -> bool {
        self@ == replay_model(self@.log)
    }

    /// A store over the given audit log, with every table empty.
    pub fn new(wal: L) -> (s: States<L>)
        ensures
            s@ == (StoreModel { log: wal.entries(), ..empty_model() }),
            s.log_ready() == wal.can_record(),
            wal.entries() == Seq::<LogEntryView>::empty() ==> s.wf(),
            records_wf(s@),
    {
        let s = States {
            wal,
            artists: Vec::new(),
            releases: Vec::new(),
            events: Vec::new(),
            group_members: Vec::new(),
            artist_discography: Vec::new(),
            derived_songs: Vec::new(),
        };
        proof {
            assert(s@ =~= (StoreModel { log: s.wal.entries(), ..empty_model() }));
            assert(records_wf(s@));
        }
        s
    }

    /// Read access to the audit log collaborator.
    pub fn log_store(&self) -> (r: &L)
        ensures
            r.entries() == self@.log,
            r.can_record() == self.log_ready(),
    {
        &self.wal
    }

    /// Creates an artist record from its seed name. The seed is logged and
    /// the record appended only if logging succeeds; the returned id is the
    /// record's position in the artist table.
    pub fn artist_add(&mut self, user: UserId, name: String) -> (r: Result<ArtistId, InternalErr>)
        ensures
            r is Ok <==> old(self).log_ready(),
            r matches Ok(id) ==> id.0 == old(self)@.artists.len() && final(self)@
                == artist_add_model(old(self)@, user, name@),
            r is Err ==> final(self)@ == old(self)@ && (r matches Err(e) && e matches
                InternalErr::Other(_)),
            old(self).wf() ==> final(self).wf(),
            records_wf(old(self)@) ==> records_wf(final(self)@),
    {
        let seed = ArtistMetaData::seeded(name.clone());
        match self.wal.record(user, "artist_add", LogPayload::ArtistSeed(seed)) {
            Ok(()) => {
                let id = ArtistId(self.artists.len());
                self.artists.push(ArtistMetaData::seeded(name));
                proof {
                    assert(self@ =~= artist_add_model(old(self)@, user, name@));
                    if old(self).wf() {
                        let e = LogEntryView {
                            user,
                            api_name: "artist_add"@,
                            payload: LogPayloadView::ArtistSeed(spec_artist_seed(name@)),
                        };
                        lemma_replay_model_push(old(self)@.log, e);
                        assert(replay_step(old(self)@, e) =~= artist_add_model(
                            old(self)@,
                            user,
                            name@,
                        ));
                    }
                    if records_wf(old(self)@) {
                        assert(spec_artist_seed(name@).wf());
                        assert forall|k: int|
                            0 <= k < self@.artists.len() implies (#[trigger] self@.artists[k]).wf() by {
                            if k < old(self)@.artists.len() {
                                assert(old(self)@.artists[k].wf());
                            }
                        }
                    }
                }
                Ok(id)
            },
            Err(e) => {
                proof {
                    assert(self@ =~= old(self)@);
                }
                Err(InternalErr::Other(e))
            },
        }
    }

    /// Creates a release record from its seed title, as `artist_add` does
    /// for artists.
    pub fn release_add(&mut self, user: UserId, title: String) -> (r: Result<
        ReleaseId,
        InternalErr,
    >)
        ensures
            r is Ok <==> old(self).log_ready(),
            r matches Ok(id) ==> id.0 == old(self)@.releases.len() && final(self)@
                == release_add_model(old(self)@, user, title@),
            r is Err ==> final(self)@ == old(self)@ && (r matches Err(e) && e matches
                InternalErr::Other(_)),
            old(self).wf() ==> final(self).wf(),
            records_wf(old(self)@) ==> records_wf(final(self)@),
    {
        let seed = Release::seeded(title.clone());
        match self.wal.record(user, "release_add", LogPayload::ReleaseSeed(seed)) {
            Ok(()) => {
                let id = ReleaseId(self.releases.len());
                self.releases.push(Release::seeded(title));
                proof {
                    assert(self@ =~= release_add_model(old(self)@, user, title@));
                    if old(self).wf() {
                        let e = LogEntryView {
                            user,
                            api_name: "release_add"@,
                            payload: LogPayloadView::ReleaseSeed(spec_release_seed(title@)),
                        };
                        lemma_replay_model_push(old(self)@.log, e);
                        assert(replay_step(old(self)@, e) =~= release_add_model(
                            old(self)@,
                            user,
                            title@,
                        ));
                    }
                    if records_wf(old(self)@) {
                        assert(spec_release_seed(title@).wf());
                        assert forall|k: int|
                            0 <= k < self@.releases.len() implies (#[trigger] self@.releases[k]).wf() by {
                            if k < old(self)@.releases.len() {
                                assert(old(self)@.releases[k].wf());
                            }
                        }
                    }
                }
                Ok(id)
            },
            Err(e) => {
                proof {
                    assert(self@ =~= old(self)@);
                }
                Err(InternalErr::Other(e))
            },
        }
    }

    /// Updates one field of an artist record under optimistic concurrency.
    ///
    /// The caller presents the version token of the record state its diff
    /// was computed against. A wrong id is rejected as `InvalidArtistId`, a
    /// stale token as `OutdatedUpdate` (retryable after a fresh read), and a
    /// logging failure as `Other`; every rejection leaves the store
    /// unchanged. On success the diff is logged and applied, and the token
    /// advances to the chain of the previous token with the diff's digest.
    pub fn artist_metadata_update(
        &mut self,
        user: UserId,
        id: ArtistId,
        diff: ArtistMetaDataDiff,
        seq_id: Hash128,
    ) -> (r: Result<Hash128, InternalErr>)
        ensures
            r is Ok <==> artist_update_accepted(old(self)@, id, seq_id) && old(self).log_ready(),
            id.0 >= old(self)@.artists.len() ==> r == Err::<Hash128, InternalErr>(
                InternalErr::InvalidArtistId(id),
            ) && final(self)@ == old(self)@,
            id.0 < old(self)@.artists.len() && old(self)@.artists[id.0 as int].seq_id != seq_id
                ==> r == Err::<Hash128, InternalErr>(InternalErr::OutdatedUpdate) && final(self)@
                == old(self)@,
            artist_update_accepted(old(self)@, id, seq_id) && !old(self).log_ready() ==> (
            r matches Err(e) && e matches InternalErr::Other(_)) && final(self)@ == old(self)@,
            r is Ok ==> r == Ok::<Hash128, InternalErr>(next_artist_token(seq_id, diff@))
                && final(self)@ == artist_update_model(old(self)@, user, id, diff@),
            r is Ok ==> final(self)@.artists[id.0 as int].seq_id == Hash128(
                spec_chain(old(self)@.artists[id.0 as int].seq_id.0, artist_diff_hash128(diff@)),
            ),
            old(self).wf() ==> final(self).wf(),
            records_wf(old(self)@) ==> records_wf(final(self)@),
    {
        let hash = get_hash(&diff);
        if id.0 >= self.artists.len() {
            return Err(InternalErr::InvalidArtistId(id));
        }
        if self.artists[id.0].seq_id.0 != seq_id.0 {
            return Err(InternalErr::OutdatedUpdate);
        }
        let new_token = chain_tokens(seq_id, hash);
        let payload = LogPayload::ArtistUpdate { id, diff: diff.clone() };
        match self.wal.record(user, "artist_metadata_update", payload) {
            Ok(()) => {},
            Err(e) => {
                proof {
                    assert(self@ =~= old(self)@);
                }
                return Err(InternalErr::Other(e));
            },
        }
        let record = vec_at_mut(&mut self.artists, id.0);
        apply_artist_meta_data_diff(record, diff);
        record.seq_id = new_token;
        proof {
            assert(self@.artists =~= artist_update_model(old(self)@, user, id, diff@).artists);
            assert(self@ =~= artist_update_model(old(self)@, user, id, diff@));
            if old(self).wf() {
                let e = LogEntryView {
                    user,
                    api_name: "artist_metadata_update"@,
                    payload: LogPayloadView::ArtistUpdate { id, diff: diff@ },
                };
                lemma_replay_model_push(old(self)@.log, e);
                assert(replay_step(old(self)@, e) =~= artist_update_model(
                    old(self)@,
                    user,
                    id,
                    diff@,
                ));
            }
            if records_wf(old(self)@) {
                assert(old(self)@.artists[id.0 as int].wf());
                assert(artist_after_diff(old(self)@.artists[id.0 as int], diff@).wf());
                assert forall|k: int|
                    0 <= k < self@.artists.len() implies (#[trigger] self@.artists[k]).wf() by {
                    if k != id.0 {
                        assert(old(self)@.artists[k].wf());
                    }
                }
            }
        }
        Ok(new_token)
    }

    /// Updates one field of a release record, under the same protocol as
    /// `artist_metadata_update`.
    pub fn release_metadata_update(
        &mut self,
        user: UserId,
        id: ReleaseId,
        diff: ReleaseDiff,
        seq_id: Hash128,
    ) -> (r: Result<Hash128, InternalErr>)
        ensures
            r is Ok <==> release_update_accepted(old(self)@, id, seq_id) && old(self).log_ready(),
            id.0 >= old(self)@.releases.len() ==> r == Err::<Hash128, InternalErr>(
                InternalErr::InvalidReleaseId(id),
            ) && final(self)@ == old(self)@,
            id.0 < old(self)@.releases.len() && old(self)@.releases[id.0 as int].seq_id != seq_id
                ==> r == Err::<Hash128, InternalErr>(InternalErr::OutdatedUpdate) && final(self)@
                == old(self)@,
            release_update_accepted(old(self)@, id, seq_id) && !old(self).log_ready() ==> (
            r matches Err(e) && e matches InternalErr::Other(_)) && final(self)@ == old(self)@,
            r is Ok ==> r == Ok::<Hash128, InternalErr>(next_release_token(seq_id, diff@))
                && final(self)@ == release_update_model(old(self)@, user, id, diff@),
            r is Ok ==> final(self)@.releases[id.0 as int].seq_id == Hash128(
                spec_chain(old(self)@.releases[id.0 as int].seq_id.0, release_diff_hash128(diff@)),
            ),
            old(self).wf() ==> final(self).wf(),
            records_wf(old(self)@) ==> records_wf(final(self)@),
    {
        let hash = release_diff_hash(&diff);
        if id.0 >= self.releases.len() {
            return Err(InternalErr::InvalidReleaseId(id));
        }
        if self.releases[id.0].seq_id.0 != seq_id.0 {
            return Err(InternalErr::OutdatedUpdate);
        }
        let new_token = chain_tokens(seq_id, hash);
        let payload = LogPayload::ReleaseUpdate { id, diff: diff.clone() };
        match self.wal.record(user, "release_metadata_update", payload) {
            Ok(()) => {},
            Err(e) => {
                proof {
                    assert(self@ =~= old(self)@);
                }
                return Err(InternalErr::Other(e));
            },
        }
        let record = vec_at_mut(&mut self.releases, id.0);
        apply_release_diff(record, diff);
        record.seq_id = new_token;
        proof {
            assert(self@.releases =~= release_update_model(old(self)@, user, id, diff@).releases);
            assert(self@ =~= release_update_model(old(self)@, user, id, diff@));
            if old(self).wf() {
                let e = LogEntryView {
                    user,
                    api_name: "release_metadata_update"@,
                    payload: LogPayloadView::ReleaseUpdate { id, diff: diff@ },
                };
                lemma_replay_model_push(old(self)@.log, e);
                assert(replay_step(old(self)@, e) =~= release_update_model(
                    old(self)@,
                    user,
                    id,
                    diff@,
                ));
            }
            if records_wf(old(self)@) {
                assert(old(self)@.releases[id.0 as int].wf());
                assert(release_after_diff(old(self)@.releases[id.0 as int], diff@).wf());
                assert forall|k: int|
                    0 <= k < self@.releases.len() implies (#[trigger] self@.releases[k]).wf() by {
                    if k != id.0 {
                        assert(old(self)@.releases[k].wf());
                    }
                }
            }
        }
        Ok(new_token)
    }

    /// The artist record under `id`, or `InvalidArtistId` when the id is out
    /// of the table's bounds.
    pub fn artist_get(&self, id: ArtistId) -> (r: Result<&ArtistMetaData, InternalErr>)
        ensures
            id.0 < self@.artists.len() ==> (r matches Ok(a) && a@ == self@.artists[id.0 as int]),
            id.0 >= self@.artists.len() ==> (r matches Err(e) && e == InternalErr::InvalidArtistId(
                id,
            )),
    {
        if id.0 < self.artists.len() {
            Ok(&self.artists[id.0])
        } else {
            Err(InternalErr::InvalidArtistId(id))
        }
    }

    /// The release record under `id`, or `InvalidReleaseId`.
    pub fn release_get(&self, id: ReleaseId) -> (r: Result<&Release, InternalErr>)
        ensures
            id.0 < self@.releases.len() ==> (r matches Ok(a) && a@ == self@.releases[id.0 as int]),
            id.0 >= self@.releases.len() ==> (r matches Err(e) && e
                == InternalErr::InvalidReleaseId(id)),
    {
        if id.0 < self.releases.len() {
            Ok(&self.releases[id.0])
        } else {
            Err(InternalErr::InvalidReleaseId(id))
        }
    }

    /// The event record under `id`, or `InvalidEventId`.
    pub fn event_get(&self, id: EventId) -> (r: Result<&Event, InternalErr>)
        ensures
            id.0 < self@.events.len() ==> (r matches Ok(a) && a@ == self@.events[id.0 as int]),
            id.0 >= self@.events.len() ==> (r matches Err(e) && e == InternalErr::InvalidEventId(
                id,
            )),
    {
        if id.0 < self.events.len() {
            Ok(&self.events[id.0])
        } else {
            Err(InternalErr::InvalidEventId(id))
        }
    }

    /// Creates an event record from its seed name, as `artist_add` does for
    /// artists.
    pub fn event_add(&mut self, user: UserId, name: String) -> (r: Result<EventId, InternalErr>)
        ensures
            r is Ok <==> old(self).log_ready(),
            r matches Ok(id) ==> id.0 == old(self)@.events.len() && final(self)@
                == event_add_model(old(self)@, user, name@),
            r is Err ==> final(self)@ == old(self)@ && (r matches Err(e) && e matches
                InternalErr::Other(_)),
            old(self).wf() ==> final(self).wf(),
            records_wf(old(self)@) ==> records_wf(final(self)@),
    {
        let seed = Event::seeded(name.clone());
        match self.wal.record(user, "event_add", LogPayload::EventSeed(seed)) {
            Ok(()) => {
                let id = EventId(self.events.len());
                self.events.push(Event::seeded(name));
                proof {
                    assert(self@ =~= event_add_model(old(self)@, user, name@));
                    if old(self).wf() {
                        let e = LogEntryView {
                            user,
                            api_name: "event_add"@,
                            payload: LogPayloadView::EventSeed(spec_event_seed(name@)),
                        };
                        lemma_replay_model_push(old(self)@.log, e);
                        assert(replay_step(old(self)@, e) =~= event_add_model(
                            old(self)@,
                            user,
                            name@,
                        ));
                    }
                    if records_wf(old(self)@) {
                        assert(spec_event_seed(name@).wf());
                        assert forall|k: int|
                            0 <= k < self@.events.len() implies (#[trigger] self@.events[k]).wf() by {
                            if k < old(self)@.events.len() {
                                assert(old(self)@.events[k].wf());
                            }
                        }
                    }
                }
                Ok(id)
            },
            Err(e) => {
                proof {
                    assert(self@ =~= old(self)@);
                }
                Err(InternalErr::Other(e))
            },
        }
    }
}

impl States<NaiveLogStore> {
    /// Rebuilds a store from a stored audit log by re-running each logged
    /// mutation in order, presenting each update with the rebuilt record's
    /// current token. The rebuilt store is exactly what replaying the log
    /// from the empty state prescribes, its own log included, and it is
    /// consistent with that log.
    pub fn replay(entries: &Vec<LogEntry>) -> (s: States<NaiveLogStore>)
        ensures
            s@ == replay_model(entries@.map_values(|e: LogEntry| e@)),
            s.wf(),
            records_wf(s@),
    {
        let ghost evs = entries@.map_values(|e: LogEntry| e@);
        let mut s = States::new(NaiveLogStore::new());
        proof {
            assert(evs.take(0) =~= Seq::<LogEntryView>::empty());
            assert(s@ =~= replay_model(evs.take(0)));
        }
        let mut i: usize = 0;
        while i < entries.len()
            invariant
                i <= entries.len(),
                evs == entries@.map_values(|e: LogEntry| e@),
                s.log_ready(),
                s.wf(),
                records_wf(s@),
                s@ == replay_model(evs.take(i as int)),
            decreases entries.len() - i,
        {
            let entry = &entries[i];
            let ghost pre = replay_model(evs.take(i as int));
            match &entry.payload {
                LogPayload::ArtistSeed(a) => {
                    let _ = s.artist_add(entry.user, a.name.clone());
                },
                LogPayload::ReleaseSeed(r) => {
                    let _ = s.release_add(entry.user, r.title.clone());
                },
                LogPayload::EventSeed(ev) => {
                    let _ = s.event_add(entry.user, ev.name.clone());
                },
                LogPayload::ArtistUpdate { id, diff } => {
                    let tok_opt = match s.artist_get(*id) {
                        Ok(a) => Some(a.seq_id),
                        Err(_) => None,
                    };
                    match tok_opt {
                        Some(tok) => {
                            let _ = s.artist_metadata_update(entry.user, *id, diff.clone(), tok);
                        },
                        None => {},
                    }
                },
                LogPayload::ReleaseUpdate { id, diff } => {
                    let tok_opt = match s.release_get(*id) {
                        Ok(r) => Some(r.seq_id),
                        Err(_) => None,
                    };
                    match tok_opt {
                        Some(tok) => {
                            let _ = s.release_metadata_update(entry.user, *id, diff.clone(), tok);
                        },
                        None => {},
                    }
                },
            }
            proof {
                assert(evs.take(i as int + 1).drop_last() =~= evs.take(i as int));
                assert(evs.take(i as int + 1).last() == evs[i as int]);
                assert(replay_model(evs.take(i as int + 1)) == replay_step(pre, evs[i as int]));
                assert(s@ =~= replay_step(pre, evs[i as int]));
            }
            i = i + 1;
        }
        proof {
            assert(evs.take(entries@.len() as int) =~= evs);
        }
        s
    }
}

/// The token after a run of accepted diffs whose digests are `hs`, chained
/// in order onto the starting token `t0`.
pub open spec fn chained_tokens(t0: u128, hs: Seq<u128>) -> u128
    decreases hs.len(),
{
    if hs.len() == 0 {
        t0
    } else {
        spec_chain(chained_tokens(t0, hs.drop_last()), hs.last())
    }
}

/// An artist record after a run of accepted diffs.
pub open spec fn artist_after_diffs(
    a: ArtistMetaDataView,
    ds: Seq<ArtistMetaDataDiffView>,
) -> ArtistMetaDataView
    decreases ds.len(),
{
    if ds.len() == 0 {
        a
    } else {
        artist_after_diff(artist_after_diffs(a, ds.drop_last()), ds.last())
    }
}

/// After N sequentially accepted diffs the version token is the digest chain
/// of their hashes onto the starting token; for a record created with the
/// zero token, `chain(chain(...chain(0, h1), h2)..., hN)`.
pub proof fn lemma_token_chain(a: ArtistMetaDataView, ds: Seq<ArtistMetaDataDiffView>)
    ensures
        artist_after_diffs(a, ds).seq_id == Hash128(
            chained_tokens(
                a.seq_id.0,
                ds.map_values(|d: ArtistMetaDataDiffView| artist_diff_hash128(d)),
            ),
        ),
    decreases ds.len(),
{
    let hs = ds.map_values(|d: ArtistMetaDataDiffView| artist_diff_hash128(d));
    if ds.len() == 0 {
    } else {
        lemma_token_chain(a, ds.drop_last());
        assert(ds.drop_last().map_values(|d: ArtistMetaDataDiffView| artist_diff_hash128(d))
            =~= hs.drop_last());
        assert(hs.last() == artist_diff_hash128(ds.last()));
    }
}

/// Of two updates racing on one record with the same token, the one
/// serialized first is accepted and advances the token; the other is then
/// rejected as stale. The second hypothesis rules out the degenerate case
/// of the chained token colliding with the token it was chained from.
pub proof fn lemma_stale_second_update(
    m: StoreModel,
    user: UserId,
    id: ArtistId,
    d1: ArtistMetaDataDiffView,
    t: Hash128,
)
    requires
        artist_update_accepted(m, id, t),
        spec_chain(t.0, artist_diff_hash128(d1)) != t.0,
    ensures
        !artist_update_accepted(artist_update_model(m, user, id, d1), id, t),
{
    let m1 = artist_update_model(m, user, id, d1);
    assert(m1.artists[id.0 as int].seq_id == Hash128(spec_chain(t.0, artist_diff_hash128(d1))));
}

/// An update to one record changes no other record and no other table:
/// writers on distinct ids never disturb each other's state.
pub proof fn lemma_update_independent(
    m: StoreModel,
    user: UserId,
    id: ArtistId,
    d: ArtistMetaDataDiffView,
    j: int,
)
    requires
        id.0 < m.artists.len(),
        0 <= j < m.artists.len(),
        j != id.0,
    ensures
        ({
            let m1 = artist_update_model(m, user, id, d);
            m1.artists[j] == m.artists[j] && m1.releases == m.releases && m1.events == m.events
        }),
{
}

/// Two consistent stores with equal audit logs hold equal state: the log in
/// stored order reconstructs exactly the sequence of accepted mutations.
pub proof fn lemma_log_determines_state<L1: LogStore, L2: LogStore>(
    s1: &States<L1>,
    s2: &States<L2>,
)
    requires
        s1.wf(),
        s2.wf(),
        s1@.log == s2@.log,
    ensures
        s1@ == s2@,
{
}

} // verus!
