use soma_player::audio::PlayerCommand;
use soma_player::config::AppConfig;
use soma_player::models::Channel;
use soma_player::ui::app::{channel_position, initial_channel_index};
use soma_player::ui::session::{
    after_key, after_save, after_session, audio_runs, Directive, NextRun, SessionEnd,
};
use soma_player::ui::spectrum::{bar_layout, BarLayout};
use soma_player::ui::{handle_key_event, AppState, EventResult, Key, UIState};

fn in_state(ui_state: UIState, selected_index: usize) -> AppState {
    AppState { ui_state, selected_index, should_quit: false, is_paused: false }
}

fn named(id: &str) -> Channel {
    Channel {
        id: id.to_string(),
        title: id.to_uppercase(),
        description: String::new(),
        playlists: Vec::new(),
    }
}

#[test]
fn app_state_starts_in_channel_selection() {
    let app = AppState::new();
    assert_eq!(app, in_state(UIState::InitialChannelSelection, 0));
    assert_eq!(AppState::default(), app);
}

#[test]
fn sessions_after_the_first_play_at_once() {
    assert_eq!(AppState::for_session(true, false).ui_state, UIState::InitialChannelSelection);
    assert_eq!(AppState::for_session(true, true).ui_state, UIState::Playing);
    assert_eq!(AppState::for_session(false, false).ui_state, UIState::Playing);
    assert_eq!(AppState::for_session(false, true), in_state(UIState::Playing, 0));
}

#[test]
fn selection_wraps_around() {
    let mut app = AppState::new();
    app.next_channel(3);
    assert_eq!(app.selected_index, 1);
    app.next_channel(3);
    assert_eq!(app.selected_index, 2);
    app.next_channel(3);
    assert_eq!(app.selected_index, 0);
    app.previous_channel(3);
    assert_eq!(app.selected_index, 2);
    app.previous_channel(3);
    assert_eq!(app.selected_index, 1);
}

#[test]
fn selection_in_an_empty_list_stays_at_zero() {
    let mut app = AppState::new();
    app.next_channel(0);
    assert_eq!(app.selected_index, 0);
    app.previous_channel(0);
    assert_eq!(app.selected_index, 0);
    app.next_channel(1);
    assert_eq!(app.selected_index, 0);
    app.previous_channel(1);
    assert_eq!(app.selected_index, 0);
}

#[test]
fn app_state_setters() {
    let mut app = AppState::new();
    app.set_channel_selection_mode(Some(4));
    assert_eq!(app, in_state(UIState::SelectingChannel, 4));
    app.set_channel_selection_mode(None);
    assert_eq!(app, in_state(UIState::SelectingChannel, 4));
    app.set_playing_mode();
    assert_eq!(app, in_state(UIState::Playing, 4));
    app.toggle_pause();
    assert!(app.is_paused);
    app.toggle_pause();
    assert!(!app.is_paused);
    app.pause();
    assert!(app.is_paused);
    app.resume();
    assert!(!app.is_paused);
    app.quit();
    assert!(app.should_quit);
}

#[test]
fn keys_in_the_initial_channel_list() {
    let mut config = AppConfig::default();
    let mut app = AppState::new();
    assert_eq!(handle_key_event(&mut app, Key::Down, 3, None, &mut config), EventResult::Nothing);
    assert_eq!(app.selected_index, 1);
    assert_eq!(handle_key_event(&mut app, Key::Up, 3, None, &mut config), EventResult::Nothing);
    assert_eq!(handle_key_event(&mut app, Key::Up, 3, None, &mut config), EventResult::Nothing);
    assert_eq!(app.selected_index, 2);
    assert_eq!(
        handle_key_event(&mut app, Key::Enter, 3, None, &mut config),
        EventResult::ChannelChange(2)
    );
    assert_eq!(handle_key_event(&mut app, Key::Enter, 2, None, &mut config), EventResult::Nothing);
    assert_eq!(handle_key_event(&mut app, Key::Esc, 3, None, &mut config), EventResult::Nothing);
    assert_eq!(handle_key_event(&mut app, Key::Char('+'), 3, None, &mut config), EventResult::Nothing);
    assert_eq!(handle_key_event(&mut app, Key::Char('c'), 3, None, &mut config), EventResult::Nothing);
    assert!(!app.should_quit);
    assert_eq!(config.volume, Some(50));
    assert_eq!(handle_key_event(&mut app, Key::Char('Q'), 3, None, &mut config), EventResult::Quit);
    assert!(app.should_quit);
}

#[test]
fn keys_while_playing() {
    let mut config = AppConfig::default();
    let mut app = in_state(UIState::Playing, 0);
    assert_eq!(
        handle_key_event(&mut app, Key::Char('+'), 3, Some(1), &mut config),
        EventResult::PlayerCommand(PlayerCommand::SetVolume(55))
    );
    assert_eq!(config.volume, Some(55));
    assert_eq!(
        handle_key_event(&mut app, Key::Char('_'), 3, Some(1), &mut config),
        EventResult::PlayerCommand(PlayerCommand::SetVolume(50))
    );
    assert_eq!(
        handle_key_event(&mut app, Key::Char('-'), 3, Some(1), &mut config),
        EventResult::PlayerCommand(PlayerCommand::SetVolume(45))
    );
    assert_eq!(
        handle_key_event(&mut app, Key::Char('='), 3, Some(1), &mut config),
        EventResult::PlayerCommand(PlayerCommand::SetVolume(50))
    );
    assert_eq!(handle_key_event(&mut app, Key::Up, 3, Some(1), &mut config), EventResult::Nothing);
    assert_eq!(handle_key_event(&mut app, Key::Enter, 3, Some(1), &mut config), EventResult::Nothing);
    assert_eq!(handle_key_event(&mut app, Key::Other, 3, Some(1), &mut config), EventResult::Nothing);
    assert_eq!(app, in_state(UIState::Playing, 0));
    assert_eq!(handle_key_event(&mut app, Key::Char('C'), 3, Some(1), &mut config), EventResult::Nothing);
    assert_eq!(app, in_state(UIState::SelectingChannel, 1));
    let mut app = in_state(UIState::Playing, 0);
    assert_eq!(handle_key_event(&mut app, Key::Esc, 3, Some(1), &mut config), EventResult::Quit);
    assert!(app.should_quit);
}

#[test]
fn volume_keys_stop_at_the_ends() {
    let mut app = in_state(UIState::Playing, 0);
    let mut config = AppConfig { last_channel_id: None, volume: Some(98), auto_start: false };
    assert_eq!(
        handle_key_event(&mut app, Key::Char('+'), 1, None, &mut config),
        EventResult::PlayerCommand(PlayerCommand::SetVolume(100))
    );
    assert_eq!(config.volume, Some(100));
    config.volume = Some(3);
    assert_eq!(
        handle_key_event(&mut app, Key::Char('-'), 1, None, &mut config),
        EventResult::PlayerCommand(PlayerCommand::SetVolume(0))
    );
    assert_eq!(config.volume, Some(0));
    config.volume = Some(255);
    assert_eq!(
        handle_key_event(&mut app, Key::Char('+'), 1, None, &mut config),
        EventResult::PlayerCommand(PlayerCommand::SetVolume(100))
    );
    config.volume = Some(255);
    assert_eq!(
        handle_key_event(&mut app, Key::Char('-'), 1, None, &mut config),
        EventResult::PlayerCommand(PlayerCommand::SetVolume(100))
    );
    assert_eq!(config.volume, Some(100));
    config.volume = None;
    assert_eq!(handle_key_event(&mut app, Key::Char('+'), 1, None, &mut config), EventResult::Nothing);
    assert_eq!(handle_key_event(&mut app, Key::Char('-'), 1, None, &mut config), EventResult::Nothing);
    assert_eq!(config.volume, None);
}

#[test]
fn keys_while_selecting_during_playback() {
    let mut config = AppConfig::default();
    let mut app = in_state(UIState::SelectingChannel, 1);
    assert_eq!(handle_key_event(&mut app, Key::Down, 2, Some(0), &mut config), EventResult::Nothing);
    assert_eq!(app.selected_index, 0);
    assert_eq!(
        handle_key_event(&mut app, Key::Enter, 2, Some(0), &mut config),
        EventResult::ChannelChange(0)
    );
    assert_eq!(handle_key_event(&mut app, Key::Esc, 2, Some(0), &mut config), EventResult::Nothing);
    assert_eq!(app, in_state(UIState::Playing, 0));
    let mut app = in_state(UIState::SelectingChannel, 1);
    assert_eq!(handle_key_event(&mut app, Key::Char('q'), 2, Some(0), &mut config), EventResult::Quit);
    assert!(app.should_quit);
}

#[test]
fn channel_positions() {
    let channels = vec![named("a"), named("b"), named("a"), named("c")];
    assert_eq!(channel_position(&channels, "a"), Some(0));
    assert_eq!(channel_position(&channels, "c"), Some(3));
    assert_eq!(channel_position(&channels, "d"), None);
    assert_eq!(channel_position(&Vec::new(), "a"), None);
    assert_eq!(initial_channel_index(&channels, &Some("b".to_string())), 1);
    assert_eq!(initial_channel_index(&channels, &Some("zz".to_string())), 0);
    assert_eq!(initial_channel_index(&channels, &None), 0);
}

#[test]
fn loop_directives() {
    assert!(!audio_runs(UIState::InitialChannelSelection));
    assert!(audio_runs(UIState::Playing));
    assert!(audio_runs(UIState::SelectingChannel));
    assert_eq!(
        after_key(EventResult::ChannelChange(2), false, true),
        Directive {
            send: None,
            quit_audio: true,
            remember: Some(2),
            end: Some(SessionEnd::Switch(2)),
        }
    );
    assert_eq!(
        after_key(EventResult::ChannelChange(2), false, false),
        Directive {
            send: None,
            quit_audio: false,
            remember: Some(2),
            end: Some(SessionEnd::Switch(2)),
        }
    );
    assert_eq!(
        after_key(EventResult::PlayerCommand(PlayerCommand::SetVolume(5)), false, true),
        Directive {
            send: Some(PlayerCommand::SetVolume(5)),
            quit_audio: false,
            remember: None,
            end: None,
        }
    );
    assert_eq!(
        after_key(EventResult::PlayerCommand(PlayerCommand::Pause), false, false),
        Directive { send: None, quit_audio: false, remember: None, end: None }
    );
    assert_eq!(
        after_key(EventResult::PlayerCommand(PlayerCommand::Pause), true, true),
        Directive {
            send: Some(PlayerCommand::Pause),
            quit_audio: true,
            remember: None,
            end: Some(SessionEnd::Leave),
        }
    );
    assert_eq!(
        after_key(EventResult::Quit, true, true),
        Directive { send: None, quit_audio: true, remember: None, end: Some(SessionEnd::Leave) }
    );
    assert_eq!(
        after_key(EventResult::Nothing, false, true),
        Directive { send: None, quit_audio: false, remember: None, end: None }
    );
    assert_eq!(
        after_key(EventResult::Nothing, true, false),
        Directive { send: None, quit_audio: false, remember: None, end: Some(SessionEnd::Leave) }
    );
}

#[test]
fn between_sessions() {
    assert_eq!(after_session(SessionEnd::Switch(2), 3), NextRun::Play(2));
    assert_eq!(after_session(SessionEnd::Switch(3), 3), NextRun::Repeat);
    assert_eq!(after_session(SessionEnd::Switch(0), 0), NextRun::Repeat);
    assert_eq!(after_session(SessionEnd::Leave, 3), NextRun::Exit);
}

#[test]
fn bars_are_centred() {
    assert_eq!(bar_layout(0, 30, 12, 2, 1), Some(BarLayout { bars: 10, start_x: 0, stride: 3 }));
    assert_eq!(bar_layout(5, 40, 12, 2, 1), Some(BarLayout { bars: 12, start_x: 7, stride: 3 }));
    assert_eq!(bar_layout(1, 3, 8, 2, 1), Some(BarLayout { bars: 1, start_x: 1, stride: 3 }));
    assert_eq!(bar_layout(0, 10, 3, 0, 0), Some(BarLayout { bars: 3, start_x: 3, stride: 1 }));
    assert_eq!(
        bar_layout(65535, 9, 1, 1, 0),
        Some(BarLayout { bars: 1, start_x: 65535, stride: 1 })
    );
}

#[test]
fn no_bars_without_room_or_bands() {
    assert_eq!(bar_layout(0, 2, 12, 2, 1), None);
    assert_eq!(bar_layout(0, 80, 0, 2, 1), None);
    assert_eq!(bar_layout(0, 0, 5, 1, 0), None);
    assert_eq!(bar_layout(0, 65535, 5, 65535, 65535), None);
}

#[test]
fn unsaved_volume_is_not_sent() {
    let volume = after_key(EventResult::PlayerCommand(PlayerCommand::SetVolume(55)), false, true);
    assert_eq!(after_save(volume, true), volume);
    assert_eq!(
        after_save(volume, false),
        Directive { send: None, quit_audio: false, remember: None, end: None }
    );
    let leaving = Directive {
        send: Some(PlayerCommand::SetVolume(5)),
        quit_audio: true,
        remember: Some(1),
        end: Some(SessionEnd::Leave),
    };
    assert_eq!(after_save(leaving, false), Directive { send: None, ..leaving });
    let pause = after_key(EventResult::PlayerCommand(PlayerCommand::Pause), false, true);
    assert_eq!(after_save(pause, false), pause);
    assert_eq!(after_save(pause, true), pause);
    let switch = after_key(EventResult::ChannelChange(2), false, true);
    assert_eq!(after_save(switch, false), switch);
    let nothing = after_key(EventResult::Nothing, false, false);
    assert_eq!(after_save(nothing, false), nothing);
}
