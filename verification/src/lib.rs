//! Decision logic of a service that records the tracks a media player plays
//! and exports them with ID3 tags.
//!
//! The library holds what computes: the metadata model, the control state
//! shown on the session bus, the decisions taken on the player's events,
//! the export layout, the ID3 tag of an exported file and the reading of the
//! audio server's answers. Talking to the bus, running processes and
//! touching files is left to the application around it.
pub mod text;
pub mod audio;
pub mod track;
pub mod control;
pub mod monitor;
pub mod export;
pub mod tagging;
pub mod laws;

pub use control::{Announcement, ConnectionStatus, ServiceControl};
pub use monitor::{
    check_recording_enabled, handle_metadata_update, handle_monitor_stop, handle_owner_change,
    handle_playback_status_update, name_owner_changed, start_recording_if_needed, Action,
    OwnerChange, ServiceAction,
};
pub use track::{parse_track_info, MetaValue, Metadata, TrackInfo};
