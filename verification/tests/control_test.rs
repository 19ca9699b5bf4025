use spotify_recorder::{
    handle_metadata_update, parse_track_info, ConnectionStatus, MetaValue, Metadata,
    ServiceControl, Announcement,
};

fn track(id: &str, title: Option<&str>, artists: &[&str]) -> spotify_recorder::TrackInfo {
    let mut metadata = Metadata::new();
    metadata.insert("mpris:trackid".to_string(), MetaValue::Text(id.to_string()));
    if let Some(t) = title {
        metadata.insert("xesam:title".to_string(), MetaValue::Text(t.to_string()));
    }
    if !artists.is_empty() {
        metadata.insert(
            "xesam:artist".to_string(),
            MetaValue::TextList(artists.iter().map(|a| Some(a.to_string())).collect()),
        );
    }
    parse_track_info(&metadata)
}

#[test]
fn test_service_control() {
    let mut control = ServiceControl::new();
    assert!(control.set_recording_enabled(true));
    assert!(control.recording_enabled());

    let mut status = "Disconnected".to_string();
    assert_eq!(control.connection_status(), status);
    control.update_connection_status(ConnectionStatus::Connected);
    status = control.connection_status();
    assert_eq!(status, "Connected");

    // The player's initial metadata is empty.
    handle_metadata_update(&mut control, parse_track_info(&Metadata::new()), false, "Paused");
    let mut song = "None".to_string();
    assert_eq!(control.current_song(), "Unknown Artist - Unknown Title");
    handle_metadata_update(
        &mut control,
        track("track_ctrl_1", Some("Control Title"), &["Control Artist"]),
        false,
        "Paused",
    );
    song = control.current_song();
    assert_eq!(song, "Control Artist - Control Title");
}

#[test]
fn new_control_state() {
    let control = ServiceControl::new();
    assert!(!control.recording_enabled());
    assert!(!control.waiting_for_next_track);
    assert_eq!(control.connection_status, ConnectionStatus::Disconnected);
    assert_eq!(control.current_song(), "None");
}

#[test]
fn enabling_recording_waits_for_next_track() {
    let mut control = ServiceControl::new();
    assert!(control.set_recording_enabled(true));
    assert!(control.waiting_for_next_track);
    assert!(!control.set_recording_enabled(true));
    assert!(control.waiting_for_next_track);
    assert!(control.set_recording_enabled(false));
    assert!(!control.waiting_for_next_track);
    assert!(!control.recording_enabled());
    assert!(!control.set_recording_enabled(false));
}

#[test]
fn current_song_defaults() {
    let mut control = ServiceControl::new();
    control.current_track = Some(track("x", None, &[]));
    assert_eq!(control.current_song(), "Unknown Artist - Unknown Title");
    control.current_track = Some(track("x", Some("Only Title"), &[]));
    assert_eq!(control.current_song(), "Unknown Artist - Only Title");
    control.current_track = Some(track("x", None, &["A", "B"]));
    assert_eq!(control.current_song(), "A, B - Unknown Title");
}

#[test]
fn disconnect_clears_current_track() {
    let mut control = ServiceControl::new();
    assert_eq!(
        control.update_connection_status(ConnectionStatus::Connected),
        vec![Announcement::ConnectionStatus]
    );
    control.current_track = Some(track("x", Some("T"), &["A"]));
    assert!(control.update_connection_status(ConnectionStatus::Connected).is_empty());
    assert!(control.current_track.is_some());
    assert_eq!(
        control.update_connection_status(ConnectionStatus::Disconnected),
        vec![Announcement::CurrentSong, Announcement::ConnectionStatus]
    );
    assert!(control.current_track.is_none());
    assert_eq!(control.current_song(), "None");
    assert_eq!(control.connection_status(), "Disconnected");
    assert!(control.update_connection_status(ConnectionStatus::Disconnected).is_empty());
}

#[test]
fn status_name_round_trip() {
    for s in [ConnectionStatus::Connected, ConnectionStatus::Disconnected] {
        assert_eq!(ConnectionStatus::from_name(&s.name()), s);
    }
    assert_eq!(ConnectionStatus::from_name("Connected"), ConnectionStatus::Connected);
    assert_eq!(ConnectionStatus::from_name("connected"), ConnectionStatus::Disconnected);
    assert_eq!(ConnectionStatus::from_name(""), ConnectionStatus::Disconnected);
}
