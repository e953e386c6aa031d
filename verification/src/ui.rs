//! What the terminal interface decides: navigation state and key handling.

pub mod app;
pub mod events;
pub mod session;
pub mod spectrum;

pub use app::{AppState, UIState};
pub use events::{handle_key_event, EventResult, Key};
