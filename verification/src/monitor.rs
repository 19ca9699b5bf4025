//! The recorder's decisions on the player's events: which recording to
//! discard, which to export, which to start, and what to announce.
//!
//! The caller owns the recording in progress, if any, and tells each
//! decision whether there is one (`recording`). It carries out the returned
//! actions in order; after a discard or an export no recording is in
//! progress, and a start that succeeds begins one.
use vstd::prelude::*;
use crate::control::ServiceControl;
use crate::track::TrackInfo;

verus! {

/// What the caller is to do.
#[derive(Debug, PartialEq, Eq)]
pub enum Action {
    /// Stop the recording in progress and delete what it recorded.
    DiscardRecording,
    /// Stop the recording in progress and hand it to the exporter.
    ExportRecording,
    /// Announce that the current song changed.
    AnnounceCurrentSong,
    /// Start recording this track.
    StartRecording(TrackInfo),
}

/// The track to start recording, if a recording is to start: none is in
/// progress, the player plays, recording is wanted and no longer waits for
/// the next track, and there is a current track.
pub open spec fn start_candidate(c: ServiceControl, recording: bool, status: Seq<char>) -> Option<
    TrackInfo,
> {
    if !recording && status == "Playing"@ && c.recording_enabled && !c.waiting_for_next_track {
        c.current_track
    } else {
        None
    }
}

/// The start of a recording, as an action list of at most one action.
pub open spec fn start_actions(c: ServiceControl, recording: bool, status: Seq<char>) -> Seq<
    Action,
> {
    match start_candidate(c, recording, status) {
        Some(t) => seq![Action::StartRecording(t)],
        None => seq![],
    }
}

/// Whether `t` is the track the player already plays.
pub open spec fn is_current_track(c: ServiceControl, t: TrackInfo) -> bool {
    match c.current_track {
        Some(cur) => cur.track_id@ == t.track_id@,
        None => false,
    }
}

/// The state once `t` became the current track: a recorder waiting for the
/// next track while recording is wanted stops waiting.
pub open spec fn with_track(c: ServiceControl, t: TrackInfo) -> ServiceControl {
    ServiceControl {
        current_track: Some(t),
        waiting_for_next_track: c.waiting_for_next_track && !c.recording_enabled,
        ..c
    }
}

/// When the track changes, a recording in progress is exported, or
/// discarded if recording is no longer wanted.
pub open spec fn finish_actions(c: ServiceControl, recording: bool) -> Seq<Action> {
    if c.current_track is Some && recording {
        if c.recording_enabled {
            seq![Action::ExportRecording]
        } else {
            seq![Action::DiscardRecording]
        }
    } else {
        seq![]
    }
}

/// The state after the player announced track `t`.
pub open spec fn after_metadata(c: ServiceControl, t: TrackInfo) -> ServiceControl {
    if is_current_track(c, t) {
        c
    } else {
        with_track(c, t)
    }
}

/// The actions on the player announcing track `t`.
pub open spec fn metadata_actions(
    c: ServiceControl,
    t: TrackInfo,
    recording: bool,
    status: Seq<char>,
) -> Seq<Action> {
    if is_current_track(c, t) {
        seq![]
    } else {
        finish_actions(c, recording) + seq![Action::AnnounceCurrentSong] + start_actions(
            with_track(c, t),
            recording && c.current_track is None,
            status,
        )
    }
}

/// The actions on the player's playback status becoming `status`.
pub open spec fn playback_actions(c: ServiceControl, recording: bool, status: Seq<char>) -> Seq<
    Action,
> {
    if !c.recording_enabled && recording {
        seq![Action::DiscardRecording]
    } else if status == "Playing"@ {
        start_actions(c, recording, status)
    } else if recording {
        seq![Action::ExportRecording]
    } else {
        seq![]
    }
}

/// The actions of the periodic check: a recording in progress while
/// recording is no longer wanted is discarded.
pub open spec fn tick_actions(c: ServiceControl, recording: bool) -> Seq<Action> {
    if !c.recording_enabled && recording {
        seq![Action::DiscardRecording]
    } else {
        seq![]
    }
}

fn is_playing(status: &str) -> (res: bool)
    ensures
        res == (status@ == "Playing"@),
{
    let given = String::from_str(status);
    let playing = String::from_str("Playing");
    given == playing
}

/// The track to start recording now, if any.
pub fn start_recording_if_needed(control: &ServiceControl, recording: bool, playback_status: &str) -> (res:
    Option<TrackInfo>)
    ensures
        res == start_candidate(*control, recording, playback_status@),
{
    if recording || !is_playing(playback_status) {
        return None;
    }
    if control.recording_enabled && !control.waiting_for_next_track {
        match &control.current_track {
            Some(track) => Some(track.clone()),
            None => None,
        }
    } else {
        None
    }
}

fn push_start(actions: &mut Vec<Action>, control: &ServiceControl, recording: bool, playback_status: &str)
    ensures
        final(actions)@ == old(actions)@ + start_actions(*control, recording, playback_status@),
{
    match start_recording_if_needed(control, recording, playback_status) {
        Some(track) => {
            actions.push(Action::StartRecording(track));
        },
        None => {
            assert(old(actions)@ + seq![] =~= old(actions)@);
        },
    }
}

/// Takes in the track that the player announced. A track with the id of
/// the current one changes nothing. Another track becomes the current one:
/// a recording in progress is exported (or discarded when recording is no
/// longer wanted), a recorder that waited for the next track stops waiting,
/// the change is announced, and recording of the new track starts if it
/// should.
pub fn handle_metadata_update(
    control: &mut ServiceControl,
    track: TrackInfo,
    recording: bool,
    playback_status: &str,
) -> (actions: Vec<Action>)
    ensures
        *final(control) == after_metadata(*old(control), track),
        old(control).well_formed() ==> final(control).well_formed(),
        actions@ == metadata_actions(*old(control), track, recording, playback_status@),
{
    let mut actions: Vec<Action> = Vec::new();
    let mut still_recording = recording;
    let had_track = control.current_track.is_some();
    match &control.current_track {
        Some(current) => {
            if current.track_id == track.track_id {
                return actions;
            }
            if recording {
                if !control.recording_enabled {
                    actions.push(Action::DiscardRecording);
                } else {
                    actions.push(Action::ExportRecording);
                }
                still_recording = false;
            }
        },
        None => {},
    }
    let ghost finished = actions@;
    assert(finished == finish_actions(*old(control), recording));
    control.current_track = Some(track);
    if control.recording_enabled && control.waiting_for_next_track {
        control.waiting_for_next_track = false;
    }
    actions.push(Action::AnnounceCurrentSong);
    assert(still_recording == (recording && !had_track));
    push_start(&mut actions, control, still_recording, playback_status);
    assert(actions@ =~= finished + seq![Action::AnnounceCurrentSong] + start_actions(
        *control,
        still_recording,
        playback_status@,
    ));
    actions
}

/// Takes in a new playback status of the player. Without recording wanted,
/// a recording in progress is discarded. Otherwise playing starts a
/// recording if it should, and any other status ends the recording in
/// progress and exports it.
pub fn handle_playback_status_update(control: &ServiceControl, status: &str, recording: bool) -> (actions:
    Vec<Action>)
    ensures
        actions@ == playback_actions(*control, recording, status@),
{
    let mut actions: Vec<Action> = Vec::new();
    if !control.recording_enabled && recording {
        actions.push(Action::DiscardRecording);
        return actions;
    }
    if is_playing(status) {
        push_start(&mut actions, control, recording, status);
        assert(actions@ =~= start_actions(*control, recording, status@));
    } else if recording {
        actions.push(Action::ExportRecording);
    }
    assert(actions@ =~= playback_actions(*control, recording, status@));
    actions
}

/// The periodic check: a recording in progress while recording is no
/// longer wanted is discarded at once.
pub fn check_recording_enabled(control: &ServiceControl, recording: bool) -> (actions: Vec<Action>)
    ensures
        actions@ == tick_actions(*control, recording),
{
    let mut actions: Vec<Action> = Vec::new();
    if !control.recording_enabled && recording {
        actions.push(Action::DiscardRecording);
    }
    assert(actions@ =~= tick_actions(*control, recording));
    actions
}

/// What a change of owner of a bus name means to the recorder.
#[derive(Debug, Clone, Copy, PartialEq, Eq, Structural)]
pub enum OwnerChange {
    /// The name is not the player's.
    Unrelated,
    /// The player appeared: the monitor (re)starts and the player counts as
    /// connected.
    Appeared,
    /// The player left: the monitor stops and the player counts as
    /// disconnected.
    Vanished,
}

/// What the owner change of bus name `name` means when the player's name is
/// `player`: it appeared if the name now has an owner, else it vanished.
pub fn name_owner_changed(name: &str, player: &str, has_new_owner: bool) -> (res: OwnerChange)
    ensures
        name@ != player@ ==> res == OwnerChange::Unrelated,
        name@ == player@ && has_new_owner ==> res == OwnerChange::Appeared,
        name@ == player@ && !has_new_owner ==> res == OwnerChange::Vanished,
{
    let given = String::from_str(name);
    let watched = String::from_str(player);
    if given == watched {
        if has_new_owner {
            OwnerChange::Appeared
        } else {
            OwnerChange::Vanished
        }
    } else {
        OwnerChange::Unrelated
    }
}

/// The actions when the monitor stops, because the player left or the
/// service shuts down: a recording in progress is discarded, never
/// exported.
pub open spec fn stop_actions(recording: bool) -> Seq<Action> {
    if recording {
        seq![Action::DiscardRecording]
    } else {
        seq![]
    }
}

/// The actions when the monitor stops: a recording in progress is
/// discarded.
pub fn handle_monitor_stop(recording: bool) -> (actions: Vec<Action>)
    ensures
        actions@ == stop_actions(recording),
{
    let mut actions: Vec<Action> = Vec::new();
    if recording {
        actions.push(Action::DiscardRecording);
    }
    assert(actions@ =~= stop_actions(recording));
    actions
}

/// What the service is to do about the player's monitor.
#[derive(Debug, Clone, Copy, PartialEq, Eq, Structural)]
pub enum ServiceAction {
    /// Stop the running monitor and wait until it has stopped.
    StopMonitor,
    /// Record that the player is connected.
    MarkConnected,
    /// Record that the player is disconnected.
    MarkDisconnected,
    /// Start a monitor for the player.
    StartMonitor,
}

/// The service's actions on a change of owner: a running monitor is
/// stopped whenever the player appears or leaves; an appearing player is
/// marked connected and gets a new monitor, a leaving one is marked
/// disconnected.
pub open spec fn owner_change_actions(monitor_running: bool, change: OwnerChange) -> Seq<
    ServiceAction,
> {
    let stop = if monitor_running {
        seq![ServiceAction::StopMonitor]
    } else {
        seq![]
    };
    match change {
        OwnerChange::Unrelated => seq![],
        OwnerChange::Appeared => stop + seq![
            ServiceAction::MarkConnected,
            ServiceAction::StartMonitor,
        ],
        OwnerChange::Vanished => stop + seq![ServiceAction::MarkDisconnected],
    }
}

/// The service's actions on a change of owner of the player's bus name,
/// given whether a monitor runs.
pub fn handle_owner_change(monitor_running: bool, change: OwnerChange) -> (actions: Vec<
    ServiceAction,
>)
    ensures
        actions@ == owner_change_actions(monitor_running, change),
{
    let mut actions: Vec<ServiceAction> = Vec::new();
    match change {
        OwnerChange::Unrelated => {},
        OwnerChange::Appeared => {
            if monitor_running {
                actions.push(ServiceAction::StopMonitor);
            }
            actions.push(ServiceAction::MarkConnected);
            actions.push(ServiceAction::StartMonitor);
        },
        OwnerChange::Vanished => {
            if monitor_running {
                actions.push(ServiceAction::StopMonitor);
            }
            actions.push(ServiceAction::MarkDisconnected);
        },
    }
    assert(actions@ =~= owner_change_actions(monitor_running, change));
    actions
}

} // verus!
