use spotify_recorder::export::export_target;
use spotify_recorder::{
    check_recording_enabled, handle_metadata_update, handle_monitor_stop, handle_owner_change,
    handle_playback_status_update, name_owner_changed, parse_track_info,
    start_recording_if_needed, Action, ConnectionStatus, MetaValue, Metadata, OwnerChange,
    ServiceAction, ServiceControl, TrackInfo,
};

fn song(id: &str, title: &str) -> TrackInfo {
    let mut metadata = Metadata::new();
    metadata.insert("mpris:trackid".to_string(), MetaValue::Text(id.to_string()));
    metadata.insert("xesam:title".to_string(), MetaValue::Text(title.to_string()));
    parse_track_info(&metadata)
}

/// Carries out the recorder's actions the way the service does, keeping
/// file names instead of files.
struct Recorder {
    control: ServiceControl,
    recording: Option<TrackInfo>,
    status: String,
    exported: Vec<String>,
    discarded: Vec<String>,
}

impl Recorder {
    fn new(control: ServiceControl) -> Self {
        Recorder {
            control,
            recording: None,
            status: "Paused".to_string(),
            exported: Vec::new(),
            discarded: Vec::new(),
        }
    }

    fn perform(&mut self, actions: Vec<Action>) {
        for action in actions {
            match action {
                Action::DiscardRecording => {
                    let t = self.recording.take().expect("discard without recording");
                    self.discarded.push(export_target(&t).file_name);
                }
                Action::ExportRecording => {
                    let t = self.recording.take().expect("export without recording");
                    let target = export_target(&t);
                    self.exported.push(format!("{}/{}/{}", target.artist, target.album, target.file_name));
                }
                Action::AnnounceCurrentSong => {}
                Action::StartRecording(t) => {
                    assert!(self.recording.is_none(), "two recordings at once");
                    self.recording = Some(t);
                }
            }
        }
    }

    fn metadata(&mut self, track: TrackInfo) {
        let actions = handle_metadata_update(
            &mut self.control,
            track,
            self.recording.is_some(),
            &self.status,
        );
        self.perform(actions);
    }

    fn playback(&mut self, status: &str) {
        self.status = status.to_string();
        let actions =
            handle_playback_status_update(&self.control, status, self.recording.is_some());
        self.perform(actions);
    }

    fn tick(&mut self) {
        let actions = check_recording_enabled(&self.control, self.recording.is_some());
        self.perform(actions);
    }

    fn set_recording(&mut self, enabled: bool) {
        self.control.set_recording_enabled(enabled);
    }
}

#[test]
fn test_recording_lifecycle() {
    let mut control = ServiceControl::new();
    // Start with recording DISABLED
    control.recording_enabled = false;
    let mut r = Recorder::new(control);
    r.control.update_connection_status(ConnectionStatus::Connected);
    r.metadata(parse_track_info(&Metadata::new()));

    r.metadata(song("track1", "Song 1"));
    r.playback("Playing");
    r.set_recording(true);
    assert!(r.recording.is_none());

    r.metadata(song("track2", "Song 2"));
    assert!(
        !r.exported.contains(&"Unknown Artist/Unknown Album/00 - Song 1.wav".to_string()),
        "Song 1 should NOT be exported because it was playing when recording was enabled"
    );
    assert_eq!(r.recording.as_ref().map(|t| t.track_id.clone()), Some("track2".to_string()));

    r.set_recording(false);
    r.tick();
    assert!(
        !r.exported.contains(&"Unknown Artist/Unknown Album/00 - Song 2.wav".to_string()),
        "Song 2 should NOT be exported because recording was disabled during its capture"
    );
    assert_eq!(r.discarded, vec!["00 - Song 2.wav".to_string()]);

    r.set_recording(true);
    r.metadata(song("track3", "Song 3"));
    r.metadata(song("track4", "Song 4"));
    r.metadata(song("track5", "Song 5"));
    let song3 = "Unknown Artist/Unknown Album/00 - Song 3.wav".to_string();
    assert!(r.exported.contains(&song3), "Exported Song 3 should exist at {:?}", song3);
    assert_eq!(
        r.exported,
        vec![song3, "Unknown Artist/Unknown Album/00 - Song 4.wav".to_string()]
    );
}

#[test]
fn same_track_changes_nothing() {
    let mut control = ServiceControl::new();
    control.set_recording_enabled(true);
    let first = handle_metadata_update(&mut control, song("a", "A"), false, "Playing");
    assert_eq!(first, vec![Action::AnnounceCurrentSong, Action::StartRecording(song("a", "A"))]);
    assert!(!control.waiting_for_next_track);
    let again = handle_metadata_update(&mut control, song("a", "Renamed"), true, "Playing");
    assert!(again.is_empty());
    assert_eq!(control.current_track.as_ref().unwrap().title, Some("A".to_string()));
}

#[test]
fn track_change_exports_and_restarts() {
    let mut control = ServiceControl::new();
    control.set_recording_enabled(true);
    handle_metadata_update(&mut control, song("a", "A"), false, "Playing");
    let actions = handle_metadata_update(&mut control, song("b", "B"), true, "Playing");
    assert_eq!(
        actions,
        vec![
            Action::ExportRecording,
            Action::AnnounceCurrentSong,
            Action::StartRecording(song("b", "B")),
        ]
    );
}

#[test]
fn disabled_recording_discards_at_once() {
    let mut control = ServiceControl::new();
    control.current_track = Some(song("a", "A"));
    assert_eq!(check_recording_enabled(&control, true), vec![Action::DiscardRecording]);
    assert!(check_recording_enabled(&control, false).is_empty());
    assert_eq!(
        handle_playback_status_update(&control, "Playing", true),
        vec![Action::DiscardRecording]
    );
    assert_eq!(
        handle_metadata_update(&mut control, song("b", "B"), true, "Playing"),
        vec![Action::DiscardRecording, Action::AnnounceCurrentSong]
    );
}

#[test]
fn playback_status_decisions() {
    let mut control = ServiceControl::new();
    control.set_recording_enabled(true);
    control.waiting_for_next_track = false;
    control.current_track = Some(song("a", "A"));
    assert_eq!(
        handle_playback_status_update(&control, "Playing", false),
        vec![Action::StartRecording(song("a", "A"))]
    );
    assert!(handle_playback_status_update(&control, "Playing", true).is_empty());
    assert_eq!(
        handle_playback_status_update(&control, "Paused", true),
        vec![Action::ExportRecording]
    );
    assert!(handle_playback_status_update(&control, "Stopped", false).is_empty());
}

#[test]
fn start_needs_every_precondition() {
    let mut control = ServiceControl::new();
    control.current_track = Some(song("a", "A"));
    assert_eq!(start_recording_if_needed(&control, false, "Playing"), None);
    control.set_recording_enabled(true);
    assert_eq!(start_recording_if_needed(&control, false, "Playing"), None);
    control.waiting_for_next_track = false;
    assert_eq!(start_recording_if_needed(&control, false, "Playing"), Some(song("a", "A")));
    assert_eq!(start_recording_if_needed(&control, true, "Playing"), None);
    assert_eq!(start_recording_if_needed(&control, false, "Paused"), None);
    control.current_track = None;
    assert_eq!(start_recording_if_needed(&control, false, "Playing"), None);
}

#[test]
fn owner_changes() {
    let player = "org.mpris.MediaPlayer2.spotify";
    assert_eq!(name_owner_changed(player, player, true), OwnerChange::Appeared);
    assert_eq!(name_owner_changed(player, player, false), OwnerChange::Vanished);
    assert_eq!(name_owner_changed("org.other", player, true), OwnerChange::Unrelated);
}

#[test]
fn monitor_stop_discards_recording() {
    assert_eq!(handle_monitor_stop(true), vec![Action::DiscardRecording]);
    assert!(handle_monitor_stop(false).is_empty());
}

#[test]
fn player_vanishing_during_recording_discards_it() {
    let mut control = ServiceControl::new();
    control.set_recording_enabled(true);
    let mut r = Recorder::new(control);
    r.control.update_connection_status(ConnectionStatus::Connected);
    r.playback("Playing");
    r.metadata(song("t1", "One"));
    assert!(r.recording.is_some());
    let service = handle_owner_change(true, OwnerChange::Vanished);
    assert_eq!(service, vec![ServiceAction::StopMonitor, ServiceAction::MarkDisconnected]);
    let stopped = handle_monitor_stop(r.recording.is_some());
    r.perform(stopped);
    r.control.update_connection_status(ConnectionStatus::Disconnected);
    assert!(r.recording.is_none());
    assert!(r.exported.is_empty());
    assert_eq!(r.discarded, vec!["00 - One.wav".to_string()]);
    assert!(r.control.current_track.is_none());
}

#[test]
fn owner_change_keeps_one_monitor() {
    assert_eq!(
        handle_owner_change(false, OwnerChange::Appeared),
        vec![ServiceAction::MarkConnected, ServiceAction::StartMonitor]
    );
    assert_eq!(
        handle_owner_change(true, OwnerChange::Appeared),
        vec![ServiceAction::StopMonitor, ServiceAction::MarkConnected, ServiceAction::StartMonitor]
    );
    assert_eq!(handle_owner_change(false, OwnerChange::Vanished), vec![ServiceAction::MarkDisconnected]);
    assert!(handle_owner_change(true, OwnerChange::Unrelated).is_empty());
    let mut running = 0;
    for change in [OwnerChange::Appeared, OwnerChange::Appeared, OwnerChange::Unrelated, OwnerChange::Vanished, OwnerChange::Appeared] {
        for a in handle_owner_change(running > 0, change) {
            match a {
                ServiceAction::StopMonitor => running -= 1,
                ServiceAction::StartMonitor => running += 1,
                _ => {}
            }
            assert!(running <= 1 && running >= 0);
        }
    }
    assert_eq!(running, 1);
}
