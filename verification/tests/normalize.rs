use tag_normalizer::metadata::AudioMetadata;
use tag_normalizer::metadata::RawTag;
use tag_normalizer::metadata::StandardKey;
use tag_normalizer::normalize::normalize;

fn std_tag(key: StandardKey, value: &str) -> RawTag {
    RawTag { std_key: Some(key), vendor_key: None, value: value.to_string() }
}

#[test]
fn empty_tags_all_defaults() {
    let tags: Vec<RawTag> = Vec::new();
    let m = normalize(&tags);
    assert_eq!(m, AudioMetadata::default());
    assert_eq!(m.name, "");
    assert_eq!(m.artist, "");
    assert_eq!(m.album, "");
    assert_eq!(m.album_artist, "");
    assert_eq!(m.year, 0);
    assert_eq!(m.disc_number, "");
    assert_eq!(m.composer, "");
    assert_eq!(m.track, 0);
    assert_eq!(m.path, "");
    assert!(!m.lossless);
    assert_eq!(m.duration, 0);
    assert_eq!(m.genres, "");
    assert_eq!(m.comment, "");
}

#[test]
fn track_title_maps_to_name() {
    let tags = vec![std_tag(StandardKey::TrackTitle, "Song X")];
    let m = normalize(&tags);
    assert_eq!(m.name, "Song X");
}

#[test]
fn every_mapped_key_fills_its_field() {
    let tags = vec![
        std_tag(StandardKey::Album, "An Album"),
        std_tag(StandardKey::AlbumArtist, "An Album Artist"),
        std_tag(StandardKey::Artist, "An Artist"),
        std_tag(StandardKey::Comment, "A Comment"),
        std_tag(StandardKey::Composer, "A Composer"),
        std_tag(StandardKey::DiscNumber, "2"),
        std_tag(StandardKey::Genre, "A Genre"),
        std_tag(StandardKey::TrackTitle, "A Title"),
    ];
    let m = normalize(&tags);
    assert_eq!(m.album, "An Album");
    assert_eq!(m.album_artist, "An Album Artist");
    assert_eq!(m.artist, "An Artist");
    assert_eq!(m.comment, "A Comment");
    assert_eq!(m.composer, "A Composer");
    assert_eq!(m.disc_number, "2");
    assert_eq!(m.genres, "A Genre");
    assert_eq!(m.name, "A Title");
}

#[test]
fn later_duplicate_wins() {
    let tags = vec![
        std_tag(StandardKey::Album, "First Album"),
        std_tag(StandardKey::Album, "Second Album"),
    ];
    let m = normalize(&tags);
    assert_eq!(m.album, "Second Album");
}

#[test]
fn later_duplicate_wins_with_tags_between() {
    let tags = vec![
        std_tag(StandardKey::Artist, "First"),
        std_tag(StandardKey::Album, "Somewhere"),
        std_tag(StandardKey::Artist, "Second"),
        std_tag(StandardKey::Genre, "Rock"),
    ];
    let m = normalize(&tags);
    assert_eq!(m.artist, "Second");
    assert_eq!(m.album, "Somewhere");
    assert_eq!(m.genres, "Rock");
}

#[test]
fn unhandled_standard_keys_do_not_fail() {
    let tags = vec![
        std_tag(StandardKey::Bpm, "120"),
        std_tag(StandardKey::Copyright, "someone"),
        std_tag(StandardKey::Lyrics, "la la la"),
        std_tag(StandardKey::MusicBrainzTrackId, "abc-123"),
        std_tag(StandardKey::Url, "http://example.invalid"),
    ];
    let m = normalize(&tags);
    assert_eq!(m, AudioMetadata::default());
}

#[test]
fn date_and_track_number_keys_are_not_mapped() {
    let tags = vec![
        std_tag(StandardKey::Date, "2001-01-01"),
        std_tag(StandardKey::TrackNumber, "7"),
    ];
    let m = normalize(&tags);
    assert_eq!(m.year, 0);
    assert_eq!(m.track, 0);
    assert_eq!(m, AudioMetadata::default());
}

#[test]
fn tag_without_standard_key_is_ignored_by_mapping() {
    let tags = vec![RawTag {
        std_key: None,
        vendor_key: Some("MYFIELD".to_string()),
        value: "whatever".to_string(),
    }];
    let m = normalize(&tags);
    assert_eq!(m, AudioMetadata::default());
}

#[test]
fn with_source_fills_caller_fields() {
    let tags = vec![std_tag(StandardKey::TrackTitle, "Song X")];
    let m = normalize(&tags).with_source("./full_test.flac".to_string(), true, 245, 3);
    assert_eq!(m.name, "Song X");
    assert_eq!(m.path, "./full_test.flac");
    assert!(m.lossless);
    assert_eq!(m.duration, 245);
    assert_eq!(m.track, 3);
}
