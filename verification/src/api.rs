//! The catalog service and the playlist files it points to.

pub mod somafm;

pub use somafm::{entry_value, first_stream_url, parse_pls_playlist, SOMAFM_API_URL};
