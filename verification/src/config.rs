//! User preferences that persist between runs.

pub mod settings;

pub use settings::{AppConfig, AppConfigView};
