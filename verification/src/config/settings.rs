//! The settings of the player and the rules for changing them.
//!
//! Reading and writing the settings file is the caller's business: the
//! functions here change the settings in memory and say what they become.

use vstd::prelude::*;

verus! {

/// Volume of a player that was never told one, in percent.
pub const DEFAULT_VOLUME: u8 = 50;

/// Highest volume that can be set, in percent.
pub const MAX_VOLUME: u8 = 100;

/// Application configuration structure.
#[derive(Debug, Clone)]
pub struct AppConfig {
    /// ID of the last played channel
    pub last_channel_id: Option<String>,
    /// Volume level (0-100), defaults to 50
    pub volume: Option<u8>,
    /// Whether to automatically start playing the last channel on startup
    pub auto_start: bool,
}

/// What an [`AppConfig`] holds, with the channel as text.
pub struct AppConfigView {
    pub last_channel_id: Option<Seq<char>>,
    pub volume: Option<u8>,
    pub auto_start: bool,
}

impl View for AppConfig {
    type V = AppConfigView;

    open spec fn view(&self) -> AppConfigView {
        AppConfigView {
            last_channel_id: match self.last_channel_id {
                Some(id) => Some(id@),
                None => None,
            },
            volume: self.volume,
            auto_start: self.auto_start,
        }
    }
}

/// The level in `0..=100` nearest to `volume`.
pub open spec fn clamped(volume: u8) -> u8 {
    if volume > MAX_VOLUME {
        MAX_VOLUME
    } else {
        volume
    }
}

/// The settings after the command line has had its say: a flag to start at
/// once turns auto-start on, a volume within range replaces the stored one
/// and one out of range is ignored, and a channel replaces the stored one
/// and turns auto-start on.
pub open spec fn overridden(
    config: AppConfigView,
    autostart: bool,
    volume: Option<u8>,
    channel: Option<Seq<char>>,
) -> AppConfigView {
    AppConfigView {
        last_channel_id: match channel {
            Some(id) => Some(id),
            None => config.last_channel_id,
        },
        volume: match volume {
            Some(level) if level <= MAX_VOLUME => Some(level),
            _ => config.volume,
        },
        auto_start: config.auto_start || autostart || channel is Some,
    }
}

impl Default for AppConfig {
    fn default() -> (config: Self)
        ensures
            config@ == (AppConfigView {
                last_channel_id: None,
                volume: Some(DEFAULT_VOLUME),
                auto_start: false,
            }),
    {
        AppConfig { last_channel_id: None, volume: Some(DEFAULT_VOLUME), auto_start: false }
    }
}

impl AppConfig {
    /// Update last used channel
    pub fn set_last_channel(&mut self, channel_id: String)
        ensures
            final(self)@ == (AppConfigView { last_channel_id: Some(channel_id@), ..old(self)@ }),
    {
        self.last_channel_id = Some(channel_id);
    }

    /// Update volume setting, clamped to the range `0..=100`
    pub fn set_volume(&mut self, volume: u8)
        ensures
            final(self)@ == (AppConfigView { volume: Some(clamped(volume)), ..old(self)@ }),
    {
        let level = if volume > MAX_VOLUME {
            MAX_VOLUME
        } else {
            volume
        };
        self.volume = Some(level);
    }

    /// Update auto_start setting
    pub fn set_auto_start(&mut self, auto_start: bool)
        ensures
            final(self)@ == (AppConfigView { auto_start, ..old(self)@ }),
    {
        self.auto_start = auto_start;
    }

    /// Applies what the command line asks for on top of the stored settings.
    pub fn apply_overrides(&mut self, autostart: bool, volume: Option<u8>, channel: Option<String>)
        ensures
            final(self)@ == overridden(
                old(self)@,
                autostart,
                volume,
                match channel {
                    Some(id) => Some(id@),
                    None => None,
                },
            ),
    {
        if autostart {
            self.auto_start = true;
        }
        match volume {
            Some(level) => {
                if level <= MAX_VOLUME {
                    self.volume = Some(level);
                }
            },
            None => {},
        }
        match channel {
            Some(id) => {
                self.last_channel_id = Some(id);
                self.auto_start = true;
            },
            None => {},
        }
    }
}

} // verus!
