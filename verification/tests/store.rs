use catalog_store::{
    chain_tokens, get_hash, ArtistId, ArtistMetaDataDiff, BoundedLogStore, EventId, Hash128,
    InternalErr, LogPayload, NaiveLogStore, ReleaseDiff, ReleaseId, States, UserId,
};

#[test]
fn add_then_update_artist() {
    let mut store = States::new(NaiveLogStore::new());
    let id = store.artist_add(UserId(1), "Aiko".to_string()).unwrap();
    assert_eq!(id, ArtistId(0));
    assert_eq!(store.artist_get(id).unwrap().seq_id, Hash128::zero());
    assert_eq!(store.artist_get(id).unwrap().name, "Aiko");

    let t1 = store
        .artist_metadata_update(
            UserId(1),
            id,
            ArtistMetaDataDiff::Name("Aiko Minami".to_string()),
            Hash128(0),
        )
        .unwrap();
    assert_ne!(t1, Hash128(0));
    assert_eq!(store.artist_get(id).unwrap().name, "Aiko Minami");
    assert_eq!(store.artist_get(id).unwrap().seq_id, t1);
}

#[test]
fn repeating_a_stale_update_is_rejected() {
    let mut store = States::new(NaiveLogStore::new());
    let id = store.artist_add(UserId(1), "Aiko".to_string()).unwrap();
    let t1 = store
        .artist_metadata_update(
            UserId(1),
            id,
            ArtistMetaDataDiff::Name("Aiko Minami".to_string()),
            Hash128(0),
        )
        .unwrap();

    let second = store.artist_metadata_update(
        UserId(1),
        id,
        ArtistMetaDataDiff::Name("Aiko Minami".to_string()),
        Hash128(0),
    );
    assert_eq!(second, Err(InternalErr::OutdatedUpdate));
    assert_eq!(store.artist_get(id).unwrap().name, "Aiko Minami");
    assert_eq!(store.artist_get(id).unwrap().seq_id, t1);
    assert_eq!(store.log_store().len(), 2);
}

#[test]
fn token_is_the_chain_of_diff_hashes() {
    let mut store = States::new(NaiveLogStore::new());
    let id = store.artist_add(UserId(1), "Aiko".to_string()).unwrap();

    let d1 = ArtistMetaDataDiff::Name("Aiko Minami".to_string());
    let d2 = ArtistMetaDataDiff::Birthyear(Some(1990));
    let h1 = get_hash(&d1);
    let h2 = get_hash(&d2);

    let t1 = store.artist_metadata_update(UserId(1), id, d1, Hash128(0)).unwrap();
    let t2 = store.artist_metadata_update(UserId(1), id, d2, t1).unwrap();

    assert_eq!(t1, chain_tokens(Hash128(0), h1));
    assert_eq!(t2, chain_tokens(chain_tokens(Hash128(0), h1), h2));
}

#[test]
fn releases_update_independently() {
    let mut store = States::new(NaiveLogStore::new());
    let debut = store.release_add(UserId(1), "Debut".to_string()).unwrap();
    let sophomore = store.release_add(UserId(1), "Sophomore".to_string()).unwrap();
    assert_eq!(debut, ReleaseId(0));
    assert_eq!(sophomore, ReleaseId(1));

    let t0 = store
        .release_metadata_update(
            UserId(1),
            debut,
            ReleaseDiff::CatalogNum(Some("CAT-001".to_string())),
            Hash128(0),
        )
        .unwrap();
    let t1 = store
        .release_metadata_update(
            UserId(1),
            sophomore,
            ReleaseDiff::CatalogNum(Some("CAT-002".to_string())),
            Hash128(0),
        )
        .unwrap();

    assert_ne!(t0, Hash128(0));
    assert_ne!(t1, Hash128(0));
    assert_ne!(t0, t1);
    assert_eq!(store.release_get(debut).unwrap().catalog_num, Some("CAT-001".to_string()));
    assert_eq!(store.release_get(sophomore).unwrap().catalog_num, Some("CAT-002".to_string()));
    assert_eq!(store.release_get(debut).unwrap().seq_id, t0);
    assert_eq!(store.release_get(sophomore).unwrap().seq_id, t1);
}

#[test]
fn update_with_invalid_id_is_rejected() {
    let mut store = States::new(NaiveLogStore::new());
    let _ = store.artist_add(UserId(1), "Aiko".to_string()).unwrap();
    let r = store.artist_metadata_update(
        UserId(1),
        ArtistId(999),
        ArtistMetaDataDiff::Birthyear(Some(1990)),
        Hash128(0),
    );
    assert_eq!(r, Err(InternalErr::InvalidArtistId(ArtistId(999))));
    assert_eq!(store.log_store().len(), 1);
}

#[test]
fn get_with_invalid_id_is_rejected() {
    let store: States<NaiveLogStore> = States::new(NaiveLogStore::new());
    assert_eq!(
        store.artist_get(ArtistId(3)).unwrap_err(),
        InternalErr::InvalidArtistId(ArtistId(3))
    );
    assert_eq!(
        store.release_get(ReleaseId(3)).unwrap_err(),
        InternalErr::InvalidReleaseId(ReleaseId(3))
    );
    assert_eq!(
        store.event_get(EventId(3)).unwrap_err(),
        InternalErr::InvalidEventId(EventId(3))
    );
}

#[test]
fn updates_to_distinct_ids_do_not_interfere() {
    let mut store = States::new(NaiveLogStore::new());
    let aiko = store.artist_add(UserId(1), "Aiko".to_string()).unwrap();
    let rin = store.artist_add(UserId(1), "Rin".to_string()).unwrap();

    let t_aiko = store
        .artist_metadata_update(
            UserId(1),
            aiko,
            ArtistMetaDataDiff::Birthyear(Some(1990)),
            Hash128(0),
        )
        .unwrap();

    // The other record is untouched: same fields, same (still fresh) token.
    assert_eq!(store.artist_get(rin).unwrap().name, "Rin");
    assert_eq!(store.artist_get(rin).unwrap().seq_id, Hash128(0));
    assert_ne!(store.artist_get(aiko).unwrap().seq_id, store.artist_get(rin).unwrap().seq_id);

    // Two updates racing on one id with the same stale token: exactly one
    // is accepted.
    let winner = store.artist_metadata_update(
        UserId(2),
        aiko,
        ArtistMetaDataDiff::Name("Aiko M.".to_string()),
        t_aiko,
    );
    let loser = store.artist_metadata_update(
        UserId(3),
        aiko,
        ArtistMetaDataDiff::Name("A. Minami".to_string()),
        t_aiko,
    );
    assert!(winner.is_ok());
    assert_eq!(loser, Err(InternalErr::OutdatedUpdate));
    assert_eq!(store.artist_get(aiko).unwrap().name, "Aiko M.");
}

#[test]
fn replaying_the_log_reconstructs_the_store() {
    let mut store = States::new(NaiveLogStore::new());
    let aiko = store.artist_add(UserId(1), "Aiko".to_string()).unwrap();
    let rin = store.artist_add(UserId(2), "Rin".to_string()).unwrap();
    let debut = store.release_add(UserId(1), "Debut".to_string()).unwrap();
    let live = store.event_add(UserId(3), "Summer Live".to_string()).unwrap();

    let t1 = store
        .artist_metadata_update(
            UserId(1),
            aiko,
            ArtistMetaDataDiff::Name("Aiko Minami".to_string()),
            Hash128(0),
        )
        .unwrap();
    let _t2 = store
        .artist_metadata_update(
            UserId(1),
            aiko,
            ArtistMetaDataDiff::Birthyear(Some(1990)),
            t1,
        )
        .unwrap();
    let _t3 = store
        .release_metadata_update(
            UserId(2),
            debut,
            ReleaseDiff::CatalogNum(Some("CAT-001".to_string())),
            Hash128(0),
        )
        .unwrap();

    // A rejected update leaves no trace in the log.
    let rejected = store.artist_metadata_update(
        UserId(9),
        aiko,
        ArtistMetaDataDiff::Name("stale".to_string()),
        Hash128(0),
    );
    assert_eq!(rejected, Err(InternalErr::OutdatedUpdate));
    assert_eq!(store.log_store().len(), 7);

    let rebuilt = States::replay(store.log_store().entries_vec());
    assert_eq!(rebuilt.artist_get(aiko).unwrap(), store.artist_get(aiko).unwrap());
    assert_eq!(rebuilt.artist_get(rin).unwrap(), store.artist_get(rin).unwrap());
    assert_eq!(rebuilt.release_get(debut).unwrap(), store.release_get(debut).unwrap());
    assert_eq!(rebuilt.event_get(live).unwrap(), store.event_get(live).unwrap());
}

#[test]
fn log_records_operations_in_order() {
    let mut store = States::new(NaiveLogStore::new());
    let id = store.artist_add(UserId(7), "Aiko".to_string()).unwrap();
    let _ = store.release_add(UserId(8), "Debut".to_string()).unwrap();
    let _ = store
        .artist_metadata_update(
            UserId(7),
            id,
            ArtistMetaDataDiff::Birthyear(Some(1990)),
            Hash128(0),
        )
        .unwrap();

    let entries = store.log_store().entries_vec();
    assert_eq!(entries.len(), 3);
    assert_eq!(entries[0].api_name.as_str(), "artist_add");
    assert_eq!(entries[0].user, UserId(7));
    assert!(matches!(entries[0].payload, LogPayload::ArtistSeed(_)));
    assert_eq!(entries[1].api_name.as_str(), "release_add");
    assert_eq!(entries[1].user, UserId(8));
    assert!(matches!(entries[1].payload, LogPayload::ReleaseSeed(_)));
    assert_eq!(entries[2].api_name.as_str(), "artist_metadata_update");
    assert!(matches!(
        entries[2].payload,
        LogPayload::ArtistUpdate { id: ArtistId(0), .. }
    ));
}

#[test]
fn log_failure_prevents_the_mutation() {
    let mut store = States::new(BoundedLogStore::with_capacity(1));
    let id = store.artist_add(UserId(1), "Aiko".to_string()).unwrap();

    // The log is full: the add must fail and leave the table unchanged.
    let r = store.artist_add(UserId(1), "Rin".to_string());
    assert!(matches!(r, Err(InternalErr::Other(_))));
    assert!(store.artist_get(ArtistId(1)).is_err());

    // Same for an update that passes every check but cannot be logged.
    let r = store.artist_metadata_update(
        UserId(1),
        id,
        ArtistMetaDataDiff::Name("Aiko Minami".to_string()),
        Hash128(0),
    );
    assert!(matches!(r, Err(InternalErr::Other(_))));
    assert_eq!(store.artist_get(id).unwrap().name, "Aiko");
    assert_eq!(store.artist_get(id).unwrap().seq_id, Hash128(0));
}

#[test]
fn error_from_string_is_other() {
    let e = InternalErr::from("boom".to_string());
    assert_eq!(e, InternalErr::Other("boom".to_string()));
}
