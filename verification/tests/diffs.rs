use catalog_store::{
    apply_artist_meta_data_diff, apply_event_diff, apply_release_diff, apply_song_diff,
    ArtistMetaData, ArtistMetaDataDiff, Event, EventDiff, Release, ReleaseDiff, Song, SongDiff,
    Url,
};

#[test]
fn foo() {
    let mut artist = ArtistMetaData::seeded("Foo".to_string());
    let diff = ArtistMetaDataDiff::Birthyear(Some(4));
    apply_artist_meta_data_diff(&mut artist, diff);
    assert_eq!(artist.birthyear, Some(4));
}

#[test]
fn apply_rewrites_exactly_the_named_field() {
    let mut artist = ArtistMetaData::seeded("Aiko".to_string());
    artist.birthyear = Some(1990);
    artist.urls.push(Url { url: "https://example.test/aiko".to_string(), archived: None });

    let mut expected = ArtistMetaData::seeded("Aiko Minami".to_string());
    expected.birthyear = Some(1990);
    expected.urls.push(Url { url: "https://example.test/aiko".to_string(), archived: None });

    apply_artist_meta_data_diff(
        &mut artist,
        ArtistMetaDataDiff::Name("Aiko Minami".to_string()),
    );
    assert_eq!(artist, expected);
}

#[test]
fn apply_leaves_the_version_token_alone() {
    let mut artist = ArtistMetaData::seeded("Aiko".to_string());
    let token_before = artist.seq_id;
    apply_artist_meta_data_diff(&mut artist, ArtistMetaDataDiff::Birthyear(Some(1990)));
    assert_eq!(artist.seq_id, token_before);
}

#[test]
fn apply_song_diff_rewrites_the_named_field() {
    let mut song = Song {
        title: "Intro".to_string(),
        artists: Vec::new(),
        credits: Vec::new(),
        language: Vec::new(),
        originals: Vec::new(),
        duration_s: None,
        tags: Vec::new(),
        localized_titles: Vec::new(),
        lyrics: Vec::new(),
    };
    apply_song_diff(&mut song, SongDiff::DurationS(Some(183)));
    assert_eq!(song.duration_s, Some(183));
    assert_eq!(song.title, "Intro");
}

#[test]
fn apply_release_diff_rewrites_the_named_field() {
    let mut release = Release::seeded("Debut".to_string());
    apply_release_diff(
        &mut release,
        ReleaseDiff::CatalogNum(Some("CAT-001".to_string())),
    );
    assert_eq!(release.catalog_num, Some("CAT-001".to_string()));
    assert_eq!(release.title, "Debut");
}

#[test]
fn apply_event_diff_rewrites_the_named_field() {
    let mut event = Event::seeded("Summer Live".to_string());
    apply_event_diff(&mut event, EventDiff::Address("1-2-3 Sakura-dori".to_string()));
    assert_eq!(event.address, "1-2-3 Sakura-dori");
    assert_eq!(event.name, "Summer Live");
}
