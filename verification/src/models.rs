//! Data carried through the player: catalog records and track metadata.

pub mod channel;
pub mod track;

pub use channel::{Channel, ChannelView, Playlist, PlaylistView, SomaFmResponse};
pub use track::{
    parse_track_info, parsed_track, playback_status, PlaybackStatus, TrackInfo, TrackInfoView,
};
