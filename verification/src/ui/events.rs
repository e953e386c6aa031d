//! Key handling of the terminal interface.

use crate::audio::player::PlayerCommand;
use crate::config::settings::{AppConfig, AppConfigView, MAX_VOLUME};
use crate::ui::app::{index_after, index_before, AppState, UIState};
use vstd::prelude::*;

verus! {

/// By how many percent one key press changes the volume.
pub const VOLUME_STEP: u8 = 5;

/// A key press, as far as the interface tells keys apart.
#[derive(Debug, Clone, Copy, PartialEq, Eq, Structural)]
pub enum Key {
    Up,
    Down,
    Enter,
    Esc,
    Char(char),
    /// Any other key
    Other,
}

/// What a key press asks of the caller.
#[derive(Debug, Clone, Copy, PartialEq, Eq, Structural)]
pub enum EventResult {
    /// Play the channel at this index
    ChannelChange(usize),
    /// Send this command to the running session
    PlayerCommand(PlayerCommand),
    /// Leave the program
    Quit,
    /// Nothing
    Nothing,
}

/// The volume one step above `volume`, at most the maximum.
pub open spec fn volume_up(volume: u8) -> u8 {
    if volume + VOLUME_STEP >= MAX_VOLUME {
        MAX_VOLUME
    } else {
        (volume + VOLUME_STEP) as u8
    }
}

/// The volume one step below `volume`, at least zero and at most the
/// maximum.
pub open spec fn volume_down(volume: u8) -> u8 {
    if volume <= VOLUME_STEP {
        0
    } else if volume - VOLUME_STEP >= MAX_VOLUME {
        MAX_VOLUME
    } else {
        (volume - VOLUME_STEP) as u8
    }
}

/// Whether a key is the given letter, in either case.
pub open spec fn is_letter(key: Key, lower: char, upper: char) -> bool {
    key == Key::Char(lower) || key == Key::Char(upper)
}

/// What a key press comes to: the state and the volume setting after it, and
/// what it asks of the caller.
///
/// In both channel lists, up and down move the selection with wrap-around,
/// enter asks for the selected channel if there is one, and `q` quits. While
/// selecting during playback, escape goes back to the player. In the player,
/// `c` opens the channel list at the current channel, `+` and `=` raise the
/// volume and `-` and `_` lower it by one step, where a volume is set at
/// all, and `q` and escape quit. Every other key does nothing.
pub open spec fn key_outcome(
    app: AppState,
    key: Key,
    channels_len: usize,
    current_channel_index: Option<usize>,
    volume: Option<u8>,
) -> (AppState, Option<u8>, EventResult) {
    let in_list = app.ui_state == UIState::InitialChannelSelection || app.ui_state
        == UIState::SelectingChannel;
    if in_list && key == Key::Up {
        (
            AppState { selected_index: index_before(app.selected_index, channels_len), ..app },
            volume,
            EventResult::Nothing,
        )
    } else if in_list && key == Key::Down {
        (
            AppState { selected_index: index_after(app.selected_index, channels_len), ..app },
            volume,
            EventResult::Nothing,
        )
    } else if in_list && key == Key::Enter {
        (
            app,
            volume,
            if app.selected_index < channels_len {
                EventResult::ChannelChange(app.selected_index)
            } else {
                EventResult::Nothing
            },
        )
    } else if is_letter(key, 'q', 'Q') || (app.ui_state == UIState::Playing && key == Key::Esc) {
        (AppState { should_quit: true, ..app }, volume, EventResult::Quit)
    } else if app.ui_state == UIState::SelectingChannel && key == Key::Esc {
        (AppState { ui_state: UIState::Playing, ..app }, volume, EventResult::Nothing)
    } else if app.ui_state == UIState::Playing && is_letter(key, 'c', 'C') {
        (
            AppState {
                ui_state: UIState::SelectingChannel,
                selected_index: match current_channel_index {
                    Some(index) => index,
                    None => app.selected_index,
                },
                ..app
            },
            volume,
            EventResult::Nothing,
        )
    } else if app.ui_state == UIState::Playing && volume is Some && (key == Key::Char('+') || key
        == Key::Char('=')) {
        let level = volume_up(volume.unwrap());
        (app, Some(level), EventResult::PlayerCommand(PlayerCommand::SetVolume(level)))
    } else if app.ui_state == UIState::Playing && volume is Some && (key == Key::Char('-') || key
        == Key::Char('_')) {
        let level = volume_down(volume.unwrap());
        (app, Some(level), EventResult::PlayerCommand(PlayerCommand::SetVolume(level)))
    } else {
        (app, volume, EventResult::Nothing)
    }
}

/// Handles one key press.
pub fn handle_key_event(
    app: &mut AppState,
    key: Key,
    channels_len: usize,
    current_channel_index: Option<usize>,
    config: &mut AppConfig,
) -> (result: EventResult)
    ensures
        ({
            let outcome = key_outcome(
                *old(app),
                key,
                channels_len,
                current_channel_index,
                old(config).volume,
            );
            &&& *final(app) == outcome.0
            &&& final(config)@ == (AppConfigView { volume: outcome.1, ..old(config)@ })
            &&& result == outcome.2
        }),
{
    match (app.ui_state, key) {
        (UIState::InitialChannelSelection, Key::Up) | (UIState::SelectingChannel, Key::Up) => {
            app.previous_channel(channels_len);
            EventResult::Nothing
        },
        (UIState::InitialChannelSelection, Key::Down) | (UIState::SelectingChannel, Key::Down) => {
            app.next_channel(channels_len);
            EventResult::Nothing
        },
        (UIState::InitialChannelSelection, Key::Enter) | (UIState::SelectingChannel, Key::Enter) => {
            if app.selected_index < channels_len {
                EventResult::ChannelChange(app.selected_index)
            } else {
                EventResult::Nothing
            }
        },
        (_, Key::Char('q')) | (_, Key::Char('Q')) | (UIState::Playing, Key::Esc) => {
            app.quit();
            EventResult::Quit
        },
        (UIState::SelectingChannel, Key::Esc) => {
            app.set_playing_mode();
            EventResult::Nothing
        },
        (UIState::Playing, Key::Char('c')) | (UIState::Playing, Key::Char('C')) => {
            app.set_channel_selection_mode(current_channel_index);
            EventResult::Nothing
        },
        (UIState::Playing, Key::Char('+')) | (UIState::Playing, Key::Char('=')) => {
            match config.volume {
                Some(current) => {
                    let level = if current >= MAX_VOLUME - VOLUME_STEP {
                        MAX_VOLUME
                    } else {
                        current + VOLUME_STEP
                    };
                    config.set_volume(level);
                    EventResult::PlayerCommand(PlayerCommand::SetVolume(level))
                },
                None => EventResult::Nothing,
            }
        },
        (UIState::Playing, Key::Char('-')) | (UIState::Playing, Key::Char('_')) => {
            match config.volume {
                Some(current) => {
                    let level = if current <= VOLUME_STEP {
                        0
                    } else if current - VOLUME_STEP >= MAX_VOLUME {
                        MAX_VOLUME
                    } else {
                        current - VOLUME_STEP
                    };
                    config.set_volume(level);
                    EventResult::PlayerCommand(PlayerCommand::SetVolume(level))
                },
                None => EventResult::Nothing,
            }
        },
        _ => EventResult::Nothing,
    }
}

} // verus!
