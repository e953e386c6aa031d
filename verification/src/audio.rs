//! The playback engine: address resolution, session control and metadata.

pub mod player;
pub mod resolver;

pub use player::{
    clamp_volume, command_event, open_failure, opening_action, prefetch_bytes, publish_metadata,
    publish_track, run, stream_address, OpenStage, PlayerCommand, RunReport, Session,
    SessionEvent, SessionState, SinkAction,
};
pub use resolver::{
    dereference, names_playlist, preferred_playlist, resolve_source, StreamSource,
};
