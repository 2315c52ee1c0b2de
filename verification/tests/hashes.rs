use catalog_store::{chain_tokens, get_hash, release_diff_hash, ArtistMetaDataDiff, Hash128,
    ReleaseDiff};

#[test]
fn content_hash_is_content_addressed() {
    let d1 = ArtistMetaDataDiff::Name("Aiko".to_string());
    let d1_again = ArtistMetaDataDiff::Name("Aiko".to_string());
    let d2 = ArtistMetaDataDiff::Name("Minami".to_string());
    assert_eq!(get_hash(&d1), get_hash(&d1_again));
    assert_ne!(get_hash(&d1), get_hash(&d2));
    assert_ne!(get_hash(&d1), get_hash(&ArtistMetaDataDiff::Birthyear(Some(1990))));
}

#[test]
fn release_diff_hash_is_content_addressed() {
    let d1 = ReleaseDiff::Title("Debut".to_string());
    let d1_again = ReleaseDiff::Title("Debut".to_string());
    let d2 = ReleaseDiff::Title("Sophomore".to_string());
    assert_eq!(release_diff_hash(&d1), release_diff_hash(&d1_again));
    assert_ne!(release_diff_hash(&d1), release_diff_hash(&d2));
}

#[test]
fn chaining_is_deterministic_and_order_sensitive() {
    let a = Hash128(1);
    let b = Hash128(2);
    assert_eq!(chain_tokens(a, b), chain_tokens(a, b));
    assert_ne!(chain_tokens(a, b), chain_tokens(b, a));
    assert_ne!(chain_tokens(Hash128(0), b), Hash128(0));
}
