use spotify_recorder::{parse_track_info, MetaValue, Metadata, TrackInfo};

fn text(s: &str) -> MetaValue {
    MetaValue::Text(s.to_string())
}

fn names(items: &[&str]) -> MetaValue {
    MetaValue::TextList(items.iter().map(|s| Some(s.to_string())).collect())
}

#[test]
fn test_parse_track_info() {
    let mut metadata = Metadata::new();
    metadata.insert("mpris:trackid".to_string(), text("track1"));
    metadata.insert("xesam:title".to_string(), text("Title"));
    metadata.insert("xesam:album".to_string(), text("Album"));
    metadata.insert("xesam:artist".to_string(), names(&["Artist 1", "Artist 2"]));
    metadata.insert("xesam:albumArtist".to_string(), names(&["Album Artist 1"]));
    metadata.insert("xesam:trackNumber".to_string(), MetaValue::Int32(5));
    metadata.insert("xesam:discNumber".to_string(), MetaValue::Int32(1));
    metadata.insert("mpris:artUrl".to_string(), text("https://example.com/art.jpg"));

    let track = parse_track_info(&metadata);

    assert_eq!(track.track_id, "track1");
    assert_eq!(track.title, Some("Title".to_string()));
    assert_eq!(track.album, Some("Album".to_string()));
    assert_eq!(track.artist, Some("Artist 1, Artist 2".to_string()));
    assert_eq!(track.album_artist, Some("Album Artist 1".to_string()));
    assert_eq!(track.track_number, Some(5));
    assert_eq!(track.disc_number, Some(1));
    assert_eq!(track.art_url, Some("https://example.com/art.jpg".to_string()));
}

#[test]
fn parse_empty_metadata_gives_empty_track() {
    let track = parse_track_info(&Metadata::new());
    assert_eq!(track, TrackInfo::default());
    assert_eq!(track.track_id, "");
}

#[test]
fn parse_ignores_values_of_other_kinds() {
    let mut metadata = Metadata::new();
    metadata.insert("mpris:trackid".to_string(), MetaValue::Int32(7));
    metadata.insert("xesam:title".to_string(), names(&["not a title"]));
    metadata.insert("xesam:artist".to_string(), text("Single Artist"));
    metadata.insert("xesam:trackNumber".to_string(), text("5"));
    metadata.insert("xesam:discNumber".to_string(), MetaValue::Other);
    let track = parse_track_info(&metadata);
    assert_eq!(track.track_id, "");
    assert_eq!(track.title, None);
    assert_eq!(track.artist, None);
    assert_eq!(track.track_number, None);
    assert_eq!(track.disc_number, None);
}

#[test]
fn parse_keeps_only_string_items_of_artist_lists() {
    let mut metadata = Metadata::new();
    metadata.insert(
        "xesam:artist".to_string(),
        MetaValue::TextList(vec![None, Some("A".to_string()), None, Some("B".to_string())]),
    );
    metadata.insert("xesam:albumArtist".to_string(), MetaValue::TextList(vec![]));
    let track = parse_track_info(&metadata);
    assert_eq!(track.artist, Some("A, B".to_string()));
    assert_eq!(track.album_artist, Some("".to_string()));
}

#[test]
fn metadata_read_after_write() {
    let mut metadata = Metadata::new();
    metadata.insert("xesam:title".to_string(), text("First"));
    metadata.insert("xesam:album".to_string(), text("Album"));
    metadata.insert("xesam:title".to_string(), text("Second"));
    assert_eq!(metadata.get(&"xesam:title".to_string()), Some(&text("Second")));
    assert_eq!(metadata.get(&"xesam:album".to_string()), Some(&text("Album")));
    assert_eq!(metadata.get(&"xesam:artist".to_string()), None);
    let track = parse_track_info(&metadata);
    assert_eq!(track.title, Some("Second".to_string()));
}

#[test]
fn track_clone_is_equal() {
    let mut metadata = Metadata::new();
    metadata.insert("mpris:trackid".to_string(), text("id"));
    metadata.insert("xesam:title".to_string(), text("T"));
    let track = parse_track_info(&metadata);
    assert_eq!(track.clone(), track);
}
