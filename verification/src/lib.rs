//! Streaming playback engine for internet radio: stream address resolution,
//! inline track metadata, and the session control state machine, together
//! with the settings, errors and interface state of the player around it.
//!
//! Everything here computes on values. Fetching, decoding, audio output and
//! drawing are the caller's part: the caller performs what these functions
//! decide and hands back what happened.

pub mod api;
pub mod audio;
pub mod config;
pub mod errors;
pub mod logging;
pub mod models;
pub mod text;
pub mod ui;

pub use errors::{
    AudioError, ConfigError, NetworkError, PlaybackError, PlayerError, PlayerErrorExt,
    PlayerResult, UIError,
};
pub use models::{
    parse_track_info, Channel, Playlist, PlaybackStatus, SomaFmResponse, TrackInfo,
};
