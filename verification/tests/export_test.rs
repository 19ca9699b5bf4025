use id3::TagLike;
use spotify_recorder::export::{export_target, rename_needs_copy, ExportTarget};
use spotify_recorder::tagging::build_tag;
use spotify_recorder::{parse_track_info, MetaValue, Metadata, TrackInfo};

#[test]
fn export_target_defaults() {
    let mut track = TrackInfo::default();
    track.title = Some("Song 3".to_string());
    assert_eq!(
        export_target(&track),
        ExportTarget {
            artist: "Unknown Artist".to_string(),
            album: "Unknown Album".to_string(),
            file_name: "00 - Song 3.wav".to_string(),
        }
    );
    assert_eq!(export_target(&TrackInfo::default()).file_name, "00 - Unknown Title.wav");
}

#[test]
fn export_target_numbers() {
    let mut track = TrackInfo::default();
    track.artist = Some("Artist".to_string());
    track.album = Some("Album".to_string());
    track.title = Some("T".to_string());
    for (n, expected) in [(5, "05 - T.wav"), (12, "12 - T.wav"), (123, "123 - T.wav"), (-5, "-5 - T.wav")] {
        track.track_number = Some(n);
        let target = export_target(&track);
        assert_eq!(target.file_name, expected);
        assert_eq!(target.file_name, format!("{:02} - {}.wav", n, "T"));
        assert_eq!(target.artist, "Artist");
        assert_eq!(target.album, "Album");
    }
}

#[test]
fn rename_fallback_only_across_devices() {
    assert!(rename_needs_copy(Some(18)));
    assert!(!rename_needs_copy(Some(2)));
    assert!(!rename_needs_copy(None));
}

#[test]
fn tag_of_full_track() {
    let mut metadata = Metadata::new();
    metadata.insert("mpris:trackid".to_string(), MetaValue::Text("t".to_string()));
    metadata.insert("xesam:title".to_string(), MetaValue::Text("Title".to_string()));
    metadata.insert("xesam:album".to_string(), MetaValue::Text("Album".to_string()));
    metadata.insert(
        "xesam:artist".to_string(),
        MetaValue::TextList(vec![Some("A1".to_string()), Some("A2".to_string())]),
    );
    metadata.insert(
        "xesam:albumArtist".to_string(),
        MetaValue::TextList(vec![Some("AA".to_string())]),
    );
    metadata.insert("xesam:trackNumber".to_string(), MetaValue::Int32(7));
    metadata.insert("xesam:discNumber".to_string(), MetaValue::Int32(2));
    let track = parse_track_info(&metadata);
    let tag = build_tag(&track, Some(vec![1, 2, 3]));
    assert_eq!(tag.title(), Some("Title"));
    assert_eq!(tag.artist(), Some("A1, A2"));
    assert_eq!(tag.album(), Some("Album"));
    assert_eq!(tag.album_artist(), Some("AA"));
    assert_eq!(tag.track(), Some(7));
    assert_eq!(tag.disc(), Some(2));
    let pictures: Vec<_> = tag.pictures().collect();
    assert_eq!(pictures.len(), 1);
    assert_eq!(pictures[0].mime_type, "image/jpeg");
    assert_eq!(pictures[0].description, "Album Art");
    assert_eq!(pictures[0].picture_type, id3::frame::PictureType::CoverFront);
    assert_eq!(pictures[0].data, vec![1, 2, 3]);
}

#[test]
fn tag_of_empty_track() {
    let tag = build_tag(&TrackInfo::default(), None);
    assert_eq!(tag.title(), Some("Unknown Title"));
    assert_eq!(tag.artist(), Some("Unknown Artist"));
    assert_eq!(tag.album(), Some("Unknown Album"));
    assert_eq!(tag.album_artist(), None);
    assert_eq!(tag.track(), None);
    assert_eq!(tag.disc(), None);
    assert_eq!(tag.pictures().count(), 0);
}

#[test]
fn tag_numbers_wrap_like_casts() {
    let mut track = TrackInfo::default();
    track.track_number = Some(-1);
    let tag = build_tag(&track, None);
    assert_eq!(tag.track(), Some(u32::MAX));
}

#[test]
fn export_paths_stay_in_music_directory() {
    let mut track = TrackInfo::default();
    track.artist = Some("AC/DC".to_string());
    track.album = Some("..".to_string());
    track.title = Some("a/b".to_string());
    let target = export_target(&track);
    assert_eq!(target.artist, "AC_DC");
    assert_eq!(target.album, "__");
    assert_eq!(target.file_name, "00 - a_b.wav");
    track.artist = Some("/tmp/x".to_string());
    track.album = Some(".".to_string());
    assert_eq!(export_target(&track).artist, "_tmp_x");
    assert_eq!(export_target(&track).album, "_");
    track.artist = Some("".to_string());
    track.album = Some("nul\0byte".to_string());
    assert_eq!(export_target(&track).artist, "_");
    assert_eq!(export_target(&track).album, "nul_byte");
    track.album = Some("...".to_string());
    assert_eq!(export_target(&track).album, "...");
}
