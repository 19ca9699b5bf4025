//! Properties of the recorder that span its operations.
use vstd::prelude::*;
use crate::control::{song_label, status_name, status_of_name, ConnectionStatus, ServiceControl};
use crate::export::{album_dir, artist_dir, export_file_name};
use crate::monitor::{
    after_metadata, finish_actions, is_current_track, metadata_actions, owner_change_actions,
    playback_actions, start_actions, start_candidate, stop_actions, tick_actions, with_track,
    Action, OwnerChange, ServiceAction,
};
use crate::text::{decimal, zero_padded2};
use crate::track::{MetaValue, Metadata, TrackInfo};

verus! {

/// Whether `actions` starts a recording.
pub open spec fn starts_recording(actions: Seq<Action>) -> bool {
    exists|i: int| 0 <= i < actions.len() && actions[i] is StartRecording
}

/// Whether `actions` exports a recording.
pub open spec fn exports_recording(actions: Seq<Action>) -> bool {
    exists|i: int| 0 <= i < actions.len() && actions[i] is ExportRecording
}

proof fn lemma_start_actions_shape(c: ServiceControl, recording: bool, status: Seq<char>)
    ensures
        start_actions(c, recording, status).len() <= 1,
        !exports_recording(start_actions(c, recording, status)),
        starts_recording(start_actions(c, recording, status)) <==> start_candidate(
            c,
            recording,
            status,
        ) is Some,
{
    match start_candidate(c, recording, status) {
        Some(t) => {
            assert(start_actions(c, recording, status)[0] is StartRecording);
        },
        None => {},
    }
}

proof fn lemma_metadata_actions_split(
    c: ServiceControl,
    t: TrackInfo,
    recording: bool,
    status: Seq<char>,
)
    requires
        !is_current_track(c, t),
    ensures
        ({
            let acts = metadata_actions(c, t, recording, status);
            let fin = finish_actions(c, recording);
            let st = start_actions(with_track(c, t), recording && c.current_track is None, status);
            &&& acts.len() == fin.len() + 1 + st.len()
            &&& forall|i: int| 0 <= i < fin.len() ==> acts[i] == fin[i]
            &&& acts[fin.len() as int] == Action::AnnounceCurrentSong
            &&& forall|i: int| 0 <= i < st.len() ==> acts[fin.len() + 1 + i] == st[i]
            &&& (starts_recording(acts) <==> starts_recording(st))
            &&& (exports_recording(acts) <==> exports_recording(fin))
        }),
{
    let acts = metadata_actions(c, t, recording, status);
    let fin = finish_actions(c, recording);
    let st = start_actions(with_track(c, t), recording && c.current_track is None, status);
    lemma_start_actions_shape(with_track(c, t), recording && c.current_track is None, status);
    assert(acts == fin + seq![Action::AnnounceCurrentSong] + st);
    if starts_recording(acts) {
        let i = choose|i: int| 0 <= i < acts.len() && acts[i] is StartRecording;
        assert(i >= fin.len() + 1);
        assert(st[i - fin.len() - 1] is StartRecording);
    }
    if starts_recording(st) {
        let i = choose|i: int| 0 <= i < st.len() && st[i] is StartRecording;
        assert(acts[fin.len() + 1 + i] is StartRecording);
    }
    if exports_recording(acts) {
        let i = choose|i: int| 0 <= i < acts.len() && acts[i] is ExportRecording;
        if i >= fin.len() + 1 {
            assert(st[i - fin.len() - 1] is ExportRecording);
        }
        assert(i < fin.len());
        assert(fin[i] is ExportRecording);
    }
    if exports_recording(fin) {
        let i = choose|i: int| 0 <= i < fin.len() && fin[i] is ExportRecording;
        assert(acts[i] is ExportRecording);
    }
}

/// Every operation on the control state keeps it well formed: the recorder
/// only waits for a next track while recording is wanted.
pub proof fn law_operations_keep_well_formed(
    c: ServiceControl,
    enabled: bool,
    status: ConnectionStatus,
    t: TrackInfo,
)
    requires
        c.well_formed(),
    ensures
        c.with_recording(enabled).well_formed(),
        c.with_status(status).well_formed(),
        after_metadata(c, t).well_formed(),
{
}

/// Switching recording on does not record the track that is playing: until
/// a track with another id is announced, no recording starts, whatever the
/// playback status, and re-announcing the playing track keeps the recorder
/// waiting. The next track ends the wait.
pub proof fn law_enabling_waits_for_next_track(
    c: ServiceControl,
    recording: bool,
    status: Seq<char>,
    t: TrackInfo,
)
    requires
        c.well_formed(),
        !c.recording_enabled,
    ensures
        ({
            let e = c.with_recording(true);
            &&& e.waiting_for_next_track
            &&& start_candidate(e, recording, status) is None
            &&& !starts_recording(playback_actions(e, recording, status))
            &&& !starts_recording(tick_actions(e, recording))
            &&& is_current_track(e, t) ==> after_metadata(e, t) == e && metadata_actions(
                e,
                t,
                recording,
                status,
            ).len() == 0
            &&& !is_current_track(e, t) ==> !after_metadata(e, t).waiting_for_next_track
        }),
{
    let e = c.with_recording(true);
    lemma_start_actions_shape(e, recording, status);
    if starts_recording(playback_actions(e, recording, status)) {
        let i = choose|i: int|
            0 <= i < playback_actions(e, recording, status).len() && playback_actions(
                e,
                recording,
                status,
            )[i] is StartRecording;
        assert(false);
    }
    if starts_recording(tick_actions(e, recording)) {
        let i = choose|i: int|
            0 <= i < tick_actions(e, recording).len() && tick_actions(e, recording)[i] is StartRecording;
        assert(false);
    }
}

/// With recording switched off, nothing is exported and no recording
/// starts, and a recording in progress is discarded at once: by the
/// periodic check, on any playback status, and on a change of track.
pub proof fn law_disabled_discards(
    c: ServiceControl,
    recording: bool,
    status: Seq<char>,
    t: TrackInfo,
)
    requires
        c.well_formed(),
        !c.recording_enabled,
    ensures
        !starts_recording(metadata_actions(c, t, recording, status)),
        !exports_recording(metadata_actions(c, t, recording, status)),
        !starts_recording(playback_actions(c, recording, status)),
        !exports_recording(playback_actions(c, recording, status)),
        !exports_recording(tick_actions(c, recording)),
        recording ==> tick_actions(c, recording) == seq![Action::DiscardRecording],
        recording ==> playback_actions(c, recording, status) == seq![Action::DiscardRecording],
        recording && c.current_track is Some && !is_current_track(c, t) ==> metadata_actions(
            c,
            t,
            recording,
            status,
        )[0] == Action::DiscardRecording,
{
    lemma_start_actions_shape(c, recording, status);
    if !is_current_track(c, t) {
        lemma_metadata_actions_split(c, t, recording, status);
        lemma_start_actions_shape(with_track(c, t), recording && c.current_track is None, status);
        if exports_recording(finish_actions(c, recording)) {
            let i = choose|i: int|
                0 <= i < finish_actions(c, recording).len() && finish_actions(
                    c,
                    recording,
                )[i] is ExportRecording;
            assert(false);
        }
    }
    let p = playback_actions(c, recording, status);
    if starts_recording(p) {
        let i = choose|i: int| 0 <= i < p.len() && p[i] is StartRecording;
        assert(false);
    }
    if exports_recording(p) {
        let i = choose|i: int| 0 <= i < p.len() && p[i] is ExportRecording;
        assert(false);
    }
    let k = tick_actions(c, recording);
    if exports_recording(k) {
        let i = choose|i: int| 0 <= i < k.len() && k[i] is ExportRecording;
        assert(false);
    }
}

/// A recording only starts while the player plays and recording is wanted,
/// and never while another one is still in progress.
pub proof fn law_start_requires_playing(
    c: ServiceControl,
    recording: bool,
    status: Seq<char>,
    t: TrackInfo,
)
    ensures
        starts_recording(playback_actions(c, recording, status)) ==> status == "Playing"@
            && c.recording_enabled && !recording,
        starts_recording(metadata_actions(c, t, recording, status)) ==> status == "Playing"@
            && c.recording_enabled && (!recording || metadata_actions(
            c,
            t,
            recording,
            status,
        )[0] is ExportRecording),
{
    lemma_start_actions_shape(c, recording, status);
    let p = playback_actions(c, recording, status);
    if starts_recording(p) {
        let i = choose|i: int| 0 <= i < p.len() && p[i] is StartRecording;
        if !c.recording_enabled && recording {
            assert(false);
        } else if status != "Playing"@ {
            assert(false);
        }
    }
    if !is_current_track(c, t) {
        lemma_metadata_actions_split(c, t, recording, status);
        lemma_start_actions_shape(with_track(c, t), recording && c.current_track is None, status);
    } else {
        let m = metadata_actions(c, t, recording, status);
        if starts_recording(m) {
            let i = choose|i: int| 0 <= i < m.len() && m[i] is StartRecording;
            assert(false);
        }
    }
}

/// Announcing the playing track again changes nothing.
pub proof fn law_same_track_is_ignored(
    c: ServiceControl,
    t: TrackInfo,
    again: TrackInfo,
    recording: bool,
    status: Seq<char>,
)
    requires
        again.track_id@ == t.track_id@,
    ensures
        after_metadata(after_metadata(c, t), again) == after_metadata(c, t),
        metadata_actions(after_metadata(c, t), again, recording, status).len() == 0,
{
}

/// When the track changes during a recording while recording is wanted and
/// the player plays, the finished recording is exported and the new track
/// is recorded at once.
pub proof fn law_track_change_exports_and_restarts(c: ServiceControl, t: TrackInfo)
    requires
        c.well_formed(),
        c.recording_enabled,
        c.current_track is Some,
        !is_current_track(c, t),
    ensures
        metadata_actions(c, t, true, "Playing"@) == seq![
            Action::ExportRecording,
            Action::AnnounceCurrentSong,
            Action::StartRecording(t),
        ],
{
    assert(metadata_actions(c, t, true, "Playing"@) =~= seq![
        Action::ExportRecording,
        Action::AnnounceCurrentSong,
        Action::StartRecording(t),
    ]);
}

/// Switching recording to the same value twice, or reporting the same
/// connection status twice, changes nothing the second time. A player that
/// disconnects leaves no current track behind.
pub proof fn law_settings_are_idempotent(
    c: ServiceControl,
    enabled: bool,
    status: ConnectionStatus,
)
    ensures
        c.with_recording(enabled).with_recording(enabled) == c.with_recording(enabled),
        c.with_status(status).with_status(status) == c.with_status(status),
        c.connection_status == ConnectionStatus::Connected ==> c.with_status(
            ConnectionStatus::Disconnected,
        ).current_track is None,
{
}

/// A connection status read back from the name it is shown under is the
/// same status.
pub proof fn law_status_name_round_trip(s: ConnectionStatus)
    ensures
        status_of_name(status_name(s)) == s,
{
    reveal_strlit("Connected");
    reveal_strlit("Disconnected");
    assert("Connected"@.len() != "Disconnected"@.len());
}

/// A value written into metadata with `Metadata::insert` is the value
/// `Metadata::get` reads back for its key, and the other keys keep theirs.
pub proof fn law_metadata_read_after_write(
    before: Metadata,
    after: Metadata,
    key: Seq<char>,
    value: MetaValue,
    other: Seq<char>,
)
    requires
        after@ == before@.insert(key, value),
        other != key,
    ensures
        after.lookup(key) == Some(value),
        after.lookup(other) == before.lookup(other),
{
}

proof fn lemma_decimal_nonempty(n: nat)
    ensures
        decimal(n).len() >= 1,
        n < 10 ==> decimal(n).len() == 1,
        n >= 10 ==> decimal(n).len() >= 2,
        10 <= n < 100 ==> decimal(n).len() == 2,
    decreases n,
{
    if n >= 10 {
        lemma_decimal_nonempty(n / 10);
    }
}

/// Exported file names start with a track number of at least two
/// characters, and of exactly two for numbers from 0 to 99.
pub proof fn law_track_number_width(n: int)
    ensures
        zero_padded2(n).len() >= 2,
        0 <= n < 100 ==> zero_padded2(n).len() == 2,
{
    if n < 0 {
        lemma_decimal_nonempty((-n) as nat);
    } else {
        lemma_decimal_nonempty(n as nat);
    }
}

/// Whether carrying out `actions` in order, starting with a recording in
/// progress or not (`recording`), never stops a recording that does not
/// exist and never starts one while another is in progress.
pub open spec fn recordings_consistent(recording: bool, actions: Seq<Action>) -> bool
    decreases actions.len(),
{
    if actions.len() == 0 {
        true
    } else {
        match actions[0] {
            Action::DiscardRecording => recording && recordings_consistent(
                false,
                actions.drop_first(),
            ),
            Action::ExportRecording => recording && recordings_consistent(
                false,
                actions.drop_first(),
            ),
            Action::AnnounceCurrentSong => recordings_consistent(recording, actions.drop_first()),
            Action::StartRecording(_) => !recording && recordings_consistent(
                true,
                actions.drop_first(),
            ),
        }
    }
}

proof fn lemma_start_consistent(c: ServiceControl, recording: bool, status: Seq<char>)
    ensures
        recordings_consistent(recording, start_actions(c, recording, status)),
{
    let st = start_actions(c, recording, status);
    match start_candidate(c, recording, status) {
        Some(t) => {
            assert(st =~= seq![Action::StartRecording(t)]);
            assert(st.drop_first() =~= Seq::<Action>::empty());
            assert(!recording);
            assert(recordings_consistent(true, st.drop_first()));
        },
        None => {},
    }
}

/// At most one recording is in progress at any time: whatever state the
/// monitor is in and whatever event comes, the actions it is told to carry
/// out stop only a recording that exists, and start one only when none is
/// in progress. As this holds for every state, it holds along every run.
pub proof fn law_one_recording_at_a_time(
    c: ServiceControl,
    t: TrackInfo,
    recording: bool,
    status: Seq<char>,
)
    ensures
        recordings_consistent(recording, metadata_actions(c, t, recording, status)),
        recordings_consistent(recording, playback_actions(c, recording, status)),
        recordings_consistent(recording, tick_actions(c, recording)),
        recordings_consistent(recording, stop_actions(recording)),
{
    reveal_with_fuel(recordings_consistent, 3);
    lemma_start_consistent(c, recording, status);
    let still = recording && c.current_track is None;
    lemma_start_consistent(with_track(c, t), still, status);
    if !is_current_track(c, t) {
        let fin = finish_actions(c, recording);
        let st = start_actions(with_track(c, t), still, status);
        let rest = seq![Action::AnnounceCurrentSong] + st;
        assert(rest.drop_first() =~= st);
        if fin.len() > 0 {
            assert((fin + rest).drop_first() =~= rest);
        } else {
            assert(fin + rest =~= rest);
        }
        assert(metadata_actions(c, t, recording, status) =~= fin + rest);
    }
    let p = playback_actions(c, recording, status);
    if p.len() > 0 && !(p[0] is StartRecording) {
        assert(p.drop_first() =~= Seq::<Action>::empty());
    }
    let k = tick_actions(c, recording);
    if k.len() > 0 {
        assert(k.drop_first() =~= Seq::<Action>::empty());
    }
    let q = stop_actions(recording);
    if q.len() > 0 {
        assert(q.drop_first() =~= Seq::<Action>::empty());
    }
}

/// When the monitor stops (the player left, or the service shuts down), a
/// recording in progress is discarded and nothing is exported.
pub proof fn law_stop_discards(recording: bool)
    ensures
        !exports_recording(stop_actions(recording)),
        recording ==> stop_actions(recording) == seq![Action::DiscardRecording],
        !recording ==> stop_actions(recording).len() == 0,
{
    let q = stop_actions(recording);
    if exports_recording(q) {
        let i = choose|i: int| 0 <= i < q.len() && q[i] is ExportRecording;
        assert(false);
    }
}

/// Whether carrying out `actions` in order, with a monitor running or not,
/// stops only a running monitor and starts one only when none runs.
pub open spec fn monitors_consistent(running: bool, actions: Seq<ServiceAction>) -> bool
    decreases actions.len(),
{
    if actions.len() == 0 {
        true
    } else {
        match actions[0] {
            ServiceAction::StopMonitor => running && monitors_consistent(false, actions.drop_first()),
            ServiceAction::StartMonitor => !running && monitors_consistent(
                true,
                actions.drop_first(),
            ),
            _ => monitors_consistent(running, actions.drop_first()),
        }
    }
}

/// Whether a monitor runs after `actions`.
pub open spec fn monitor_running_after(running: bool, actions: Seq<ServiceAction>) -> bool
    decreases actions.len(),
{
    if actions.len() == 0 {
        running
    } else {
        match actions[0] {
            ServiceAction::StopMonitor => monitor_running_after(false, actions.drop_first()),
            ServiceAction::StartMonitor => monitor_running_after(true, actions.drop_first()),
            _ => monitor_running_after(running, actions.drop_first()),
        }
    }
}

/// Whether a monitor runs after the owner changes `changes`.
pub open spec fn running_after_changes(running: bool, changes: Seq<OwnerChange>) -> bool
    decreases changes.len(),
{
    if changes.len() == 0 {
        running
    } else {
        running_after_changes(
            monitor_running_after(running, owner_change_actions(running, changes[0])),
            changes.drop_first(),
        )
    }
}

/// Whether every owner change in `changes` is handled with at most one
/// monitor running at any time.
pub open spec fn changes_consistent(running: bool, changes: Seq<OwnerChange>) -> bool
    decreases changes.len(),
{
    if changes.len() == 0 {
        true
    } else {
        monitors_consistent(running, owner_change_actions(running, changes[0]))
            && changes_consistent(
            monitor_running_after(running, owner_change_actions(running, changes[0])),
            changes.drop_first(),
        )
    }
}

/// On a change of owner of a bus name, a running monitor is stopped before
/// a new one starts, so at most one monitor runs at any time; afterwards a
/// monitor runs exactly when the player has just appeared, or when one ran
/// and the change concerned another name.
pub proof fn law_one_monitor_per_change(running: bool, change: OwnerChange)
    ensures
        monitors_consistent(running, owner_change_actions(running, change)),
        monitor_running_after(running, owner_change_actions(running, change)) == (change
            == OwnerChange::Appeared || (running && change == OwnerChange::Unrelated)),
{
    reveal_with_fuel(monitors_consistent, 4);
    reveal_with_fuel(monitor_running_after, 4);
    let a = owner_change_actions(running, change);
    match change {
        OwnerChange::Unrelated => {},
        OwnerChange::Appeared => {
            if running {
                assert(a =~= seq![
                    ServiceAction::StopMonitor,
                    ServiceAction::MarkConnected,
                    ServiceAction::StartMonitor,
                ]);
                assert(a.drop_first() =~= seq![
                    ServiceAction::MarkConnected,
                    ServiceAction::StartMonitor,
                ]);
                assert(a.drop_first().drop_first() =~= seq![ServiceAction::StartMonitor]);
            } else {
                assert(a =~= seq![ServiceAction::MarkConnected, ServiceAction::StartMonitor]);
                assert(a.drop_first() =~= seq![ServiceAction::StartMonitor]);
            }
        },
        OwnerChange::Vanished => {
            if running {
                assert(a =~= seq![ServiceAction::StopMonitor, ServiceAction::MarkDisconnected]);
                assert(a.drop_first() =~= seq![ServiceAction::MarkDisconnected]);
            } else {
                assert(a =~= seq![ServiceAction::MarkDisconnected]);
            }
        },
    }
}

/// Over any sequence of owner changes, starting with or without a running
/// monitor, at most one monitor runs at any time.
pub proof fn law_one_monitor_over_runs(running: bool, changes: Seq<OwnerChange>)
    ensures
        changes_consistent(running, changes),
    decreases changes.len(),
{
    if changes.len() > 0 {
        law_one_monitor_per_change(running, changes[0]);
        law_one_monitor_over_runs(
            monitor_running_after(running, owner_change_actions(running, changes[0])),
            changes.drop_first(),
        );
    }
}

/// The periodic check leaves a recording alone while recording is wanted,
/// and does nothing without a recording: it only ever discards, and only a
/// recording that runs while recording is switched off.
pub proof fn law_tick_only_discards_when_off(c: ServiceControl, recording: bool)
    ensures
        c.recording_enabled ==> tick_actions(c, recording).len() == 0,
        !recording ==> tick_actions(c, recording).len() == 0,
        !c.recording_enabled && recording ==> tick_actions(c, recording) == seq![
            Action::DiscardRecording,
        ],
{
}

/// While recording is wanted, any playback status other than "Playing"
/// ends the recording in progress and hands it to the exporter; without a
/// recording it does nothing.
pub proof fn law_pause_exports(c: ServiceControl, recording: bool, status: Seq<char>)
    requires
        status != "Playing"@,
    ensures
        c.recording_enabled && recording ==> playback_actions(c, recording, status) == seq![
            Action::ExportRecording,
        ],
        !recording ==> playback_actions(c, recording, status).len() == 0,
{
}

/// An exported file name starts with the track number (0 when unknown),
/// zero-padded, and " - "; it depends on nothing but the track number and
/// the title, and the directories on nothing but artist and album.
pub proof fn law_export_name_uses_track_number(t: TrackInfo, u: TrackInfo)
    ensures
        ({
            let n: i32 = match t.track_number {
                Some(n) => n,
                None => 0,
            };
            let prefix = zero_padded2(n as int) + " - "@;
            export_file_name(t).subrange(0, prefix.len() as int) == prefix
        }),
        t.track_number == u.track_number && t.title == u.title ==> export_file_name(t)
            == export_file_name(u),
        t.artist == u.artist ==> artist_dir(t) == artist_dir(u),
        t.album == u.album ==> album_dir(t) == album_dir(u),
{
    let n: i32 = match t.track_number {
        Some(n) => n,
        None => 0,
    };
    let prefix = zero_padded2(n as int) + " - "@;
    let f = export_file_name(t);
    assert(f.subrange(0, prefix.len() as int) =~= prefix);
}

/// The current song is shown by the track's artist and title alone: two
/// tracks with the same artist and title show the same, and a known artist
/// opens the label, followed by " - ".
pub proof fn law_song_label_uses_artist_and_title(t: TrackInfo, u: TrackInfo)
    ensures
        t.artist == u.artist && t.title == u.title ==> song_label(Some(t)) == song_label(Some(u)),
        ({
            match t.artist {
                Some(a) => song_label(Some(t)).subrange(0, a@.len() + 3int) == a@ + " - "@,
                None => true,
            }
        }),
{
    reveal_strlit(" - ");
    match t.artist {
        Some(a) => {
            assert(song_label(Some(t)).subrange(0, a@.len() + 3int) =~= a@ + " - "@);
        },
        None => {},
    }
}

/// An owner change of a name that is not the player's is ignored; the
/// player appearing marks it connected and starts a monitor, and the player
/// leaving marks it disconnected and starts none.
pub proof fn law_owner_changes_of_other_names_are_ignored(running: bool)
    ensures
        owner_change_actions(running, OwnerChange::Unrelated).len() == 0,
        owner_change_actions(running, OwnerChange::Appeared).last()
            == ServiceAction::StartMonitor,
        owner_change_actions(running, OwnerChange::Appeared).contains(ServiceAction::MarkConnected),
        !owner_change_actions(running, OwnerChange::Appeared).contains(
            ServiceAction::MarkDisconnected,
        ),
        owner_change_actions(running, OwnerChange::Vanished).last()
            == ServiceAction::MarkDisconnected,
        !owner_change_actions(running, OwnerChange::Vanished).contains(
            ServiceAction::StartMonitor,
        ),
        !owner_change_actions(running, OwnerChange::Vanished).contains(
            ServiceAction::MarkConnected,
        ),
{
    let a = owner_change_actions(running, OwnerChange::Appeared);
    let v = owner_change_actions(running, OwnerChange::Vanished);
    if running {
        assert(a =~= seq![
            ServiceAction::StopMonitor,
            ServiceAction::MarkConnected,
            ServiceAction::StartMonitor,
        ]);
        assert(a[1] == ServiceAction::MarkConnected);
        assert(v =~= seq![ServiceAction::StopMonitor, ServiceAction::MarkDisconnected]);
    } else {
        assert(a =~= seq![ServiceAction::MarkConnected, ServiceAction::StartMonitor]);
        assert(a[0] == ServiceAction::MarkConnected);
        assert(v =~= seq![ServiceAction::MarkDisconnected]);
    }
}

} // verus!
