//! The recorder's control state, as the control interface on the session
//! bus shows and changes it.
use vstd::prelude::*;
use crate::track::{opt_view, TrackInfo};

verus! {

/// Whether the media player is present on the session bus.
#[derive(Debug, Clone, Copy, PartialEq, Eq, Structural)]
pub enum ConnectionStatus {
    Disconnected,
    Connected,
}

/// The name under which a connection status is shown.
pub open spec fn status_name(s: ConnectionStatus) -> Seq<char> {
    match s {
        ConnectionStatus::Connected => "Connected"@,
        ConnectionStatus::Disconnected => "Disconnected"@,
    }
}

/// The status that a shown name stands for: only "Connected" means
/// connected.
pub open spec fn status_of_name(name: Seq<char>) -> ConnectionStatus {
    if name == "Connected"@ {
        ConnectionStatus::Connected
    } else {
        ConnectionStatus::Disconnected
    }
}

impl ConnectionStatus {
    /// The name under which this status is shown.
    pub fn name(&self) -> (res: String)
        ensures
            res@ == status_name(*self),
    {
        match self {
            ConnectionStatus::Connected => String::from_str("Connected"),
            ConnectionStatus::Disconnected => String::from_str("Disconnected"),
        }
    }

    /// The status that the name `name` stands for.
    pub fn from_name(name: &str) -> (res: ConnectionStatus)
        ensures
            res == status_of_name(name@),
    {
        let given = String::from_str(name);
        let connected = String::from_str("Connected");
        if given == connected {
            ConnectionStatus::Connected
        } else {
            ConnectionStatus::Disconnected
        }
    }
}

/// `s`, or `default` when there is none.
pub open spec fn or_default(s: Option<Seq<char>>, default: Seq<char>) -> Seq<char> {
    match s {
        Some(v) => v,
        None => default,
    }
}

/// How the current song is shown: "artist - title", with "Unknown Artist"
/// and "Unknown Title" for what is missing, or "None" without a track.
pub open spec fn song_label(track: Option<TrackInfo>) -> Seq<char> {
    match track {
        Some(t) => or_default(opt_view(t.artist), "Unknown Artist"@) + " - "@ + or_default(
            opt_view(t.title),
            "Unknown Title"@,
        ),
        None => "None"@,
    }
}

/// The state behind the control interface: whether recording is wanted,
/// whether the player is connected, the track it plays, and whether the
/// recorder still waits for the next track before it records.
#[derive(Debug)]
pub struct ServiceControl {
    pub recording_enabled: bool,
    pub connection_status: ConnectionStatus,
    pub current_track: Option<TrackInfo>,
    pub waiting_for_next_track: bool,
}

/// A property change of the control interface to announce.
#[derive(Debug, Clone, Copy, PartialEq, Eq, Structural)]
pub enum Announcement {
    CurrentSong,
    ConnectionStatus,
}

/// The announcements, in order, when the connection status of `c` becomes
/// `status`: nothing if it is unchanged; otherwise the current song first
/// when the player disconnected (its track is gone), then the status.
pub open spec fn status_announcements(c: ServiceControl, status: ConnectionStatus) -> Seq<
    Announcement,
> {
    if c.connection_status == status {
        seq![]
    } else if status == ConnectionStatus::Disconnected {
        seq![Announcement::CurrentSong, Announcement::ConnectionStatus]
    } else {
        seq![Announcement::ConnectionStatus]
    }
}

impl ServiceControl {
    /// The recorder only waits for a next track while recording is wanted.
    pub open spec fn well_formed(&self) -> bool {
        self.waiting_for_next_track ==> self.recording_enabled
    }

    /// The state after recording was switched to `enabled`.
    pub open spec fn with_recording(self, enabled: bool) -> ServiceControl {
        if self.recording_enabled != enabled {
            ServiceControl { recording_enabled: enabled, waiting_for_next_track: enabled, ..self }
        } else {
            self
        }
    }

    /// The state after the player's connection status became `status`.
    pub open spec fn with_status(self, status: ConnectionStatus) -> ServiceControl {
        if self.connection_status != status {
            if status == ConnectionStatus::Disconnected {
                ServiceControl { connection_status: status, current_track: None, ..self }
            } else {
                ServiceControl { connection_status: status, ..self }
            }
        } else {
            self
        }
    }

    /// A fresh state: recording not wanted, player disconnected, no track.
    pub fn new() -> (res: ServiceControl)
        ensures
            !res.recording_enabled,
            res.connection_status == ConnectionStatus::Disconnected,
            res.current_track is None,
            !res.waiting_for_next_track,
            res.well_formed(),
    {
        ServiceControl {
            recording_enabled: false,
            connection_status: ConnectionStatus::Disconnected,
            current_track: None,
            waiting_for_next_track: false,
        }
    }

    /// Whether recording is wanted.
    pub fn recording_enabled(&self) -> (res: bool)
        ensures
            res == self.recording_enabled,
    {
        self.recording_enabled
    }

    /// Switches recording on or off. Switching it on makes the recorder wait
    /// for the next track; switching it off ends that wait. Returns whether
    /// anything changed, that is whether the property change is announced.
    pub fn set_recording_enabled(&mut self, enabled: bool) -> (changed: bool)
        ensures
            changed == (old(self).recording_enabled != enabled),
            *final(self) == old(self).with_recording(enabled),
            final(self).recording_enabled == enabled,
            changed ==> final(self).well_formed(),
            old(self).well_formed() ==> final(self).well_formed(),
    {
        if self.recording_enabled != enabled {
            self.recording_enabled = enabled;
            self.waiting_for_next_track = enabled;
            true
        } else {
            false
        }
    }

    /// The connection status as it is shown.
    pub fn connection_status(&self) -> (res: String)
        ensures
            res@ == status_name(self.connection_status),
    {
        self.connection_status.name()
    }

    /// The current song as it is shown.
    pub fn current_song(&self) -> (res: String)
        ensures
            res@ == song_label(self.current_track),
    {
        match &self.current_track {
            Some(t) => {
                let mut label = match &t.artist {
                    Some(a) => a.clone(),
                    None => String::from_str("Unknown Artist"),
                };
                label.append(" - ");
                match &t.title {
                    Some(title) => label.append(title.as_str()),
                    None => label.append("Unknown Title"),
                }
                label
            },
            None => String::from_str("None"),
        }
    }

    /// Records a new connection status of the player. A disconnected player
    /// has no current track. Returns the property changes to announce, in
    /// order.
    pub fn update_connection_status(&mut self, status: ConnectionStatus) -> (announcements: Vec<
        Announcement,
    >)
        ensures
            *final(self) == old(self).with_status(status),
            announcements@ == status_announcements(*old(self), status),
            old(self).well_formed() ==> final(self).well_formed(),
    {
        let mut announcements: Vec<Announcement> = Vec::new();
        if self.connection_status != status {
            self.connection_status = status;
            if status == ConnectionStatus::Disconnected {
                self.current_track = None;
                announcements.push(Announcement::CurrentSong);
            }
            announcements.push(Announcement::ConnectionStatus);
        }
        assert(announcements@ =~= status_announcements(*old(self), status));
        announcements
    }
}

} // verus!
