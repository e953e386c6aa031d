//! What the interface loop decides between two key presses, and between two
//! sessions.

use crate::audio::player::PlayerCommand;
use crate::ui::app::UIState;
use crate::ui::events::EventResult;
use vstd::prelude::*;

verus! {

/// How a session of the interface ended.
#[derive(Debug, Clone, Copy, PartialEq, Eq, Structural)]
pub enum SessionEnd {
    /// The user chose the channel at this index
    Switch(usize),
    /// The user quit, or playback ended
    Leave,
}

/// What the loop is to do after a key press.
#[derive(Debug, Clone, Copy, PartialEq, Eq, Structural)]
pub struct Directive {
    /// The command to pass on to the running session, if any
    pub send: Option<PlayerCommand>,
    /// Whether the running session is then to be told to quit
    pub quit_audio: bool,
    /// The id of the channel at this index is to be stored as the last one
    pub remember: Option<usize>,
    /// How the session ends, if it ends here
    pub end: Option<SessionEnd>,
}

/// Whether audio runs behind a screen: behind every screen but the initial
/// channel selection.
pub open spec fn plays_audio(ui_state: UIState) -> bool {
    ui_state != UIState::InitialChannelSelection
}

/// Tells whether audio runs behind a screen.
pub fn audio_runs(ui_state: UIState) -> (running: bool)
    ensures
        running == plays_audio(ui_state),
{
    match ui_state {
        UIState::InitialChannelSelection => false,
        _ => true,
    }
}

/// How the session of the interface ends after a key press, if it does:
/// with the chosen channel, or by leaving on a quit or on a state that asks
/// to quit.
pub open spec fn end_for(result: EventResult, should_quit: bool) -> Option<SessionEnd> {
    match result {
        EventResult::ChannelChange(index) => Some(SessionEnd::Switch(index)),
        EventResult::Quit => Some(SessionEnd::Leave),
        _ => if should_quit {
            Some(SessionEnd::Leave)
        } else {
            None
        },
    }
}

/// What follows from the result of a key press.
///
/// A player command is passed on to the running session. A change of channel
/// is stored. Where the session of the interface ends, the running session is
/// told to quit. Nothing is sent unless audio runs.
pub open spec fn directive_for(result: EventResult, should_quit: bool, audio_running: bool)
    -> Directive {
    Directive {
        send: match result {
            EventResult::PlayerCommand(command) if audio_running => Some(command),
            _ => None,
        },
        quit_audio: audio_running && end_for(result, should_quit) is Some,
        remember: match result {
            EventResult::ChannelChange(index) => Some(index),
            _ => None,
        },
        end: end_for(result, should_quit),
    }
}

/// Decides what the loop does after a key press.
pub fn after_key(result: EventResult, should_quit: bool, audio_running: bool) -> (directive:
    Directive)
    ensures
        directive == directive_for(result, should_quit, audio_running),
{
    let end = match result {
        EventResult::ChannelChange(index) => Some(SessionEnd::Switch(index)),
        EventResult::Quit => Some(SessionEnd::Leave),
        _ => {
            if should_quit {
                Some(SessionEnd::Leave)
            } else {
                None
            }
        },
    };
    let send = match result {
        EventResult::PlayerCommand(command) => {
            if audio_running {
                Some(command)
            } else {
                None
            }
        },
        _ => None,
    };
    let remember = match result {
        EventResult::ChannelChange(index) => Some(index),
        _ => None,
    };
    Directive { send, quit_audio: audio_running && end.is_some(), remember, end }
}

/// Whether a command sets the volume.
pub open spec fn sets_volume(command: Option<PlayerCommand>) -> bool {
    command matches Some(PlayerCommand::SetVolume(_))
}

/// The directive once the settings have been written, or not: a volume that
/// could not be stored is not sent to the running session either. Everything
/// else stands.
pub open spec fn directive_after_save(directive: Directive, saved: bool) -> Directive {
    Directive {
        send: if sets_volume(directive.send) && !saved {
            None
        } else {
            directive.send
        },
        ..directive
    }
}

/// Withholds a volume command whose volume could not be stored.
pub fn after_save(directive: Directive, saved: bool) -> (settled: Directive)
    ensures
        settled == directive_after_save(directive, saved),
{
    let withheld = !saved && match directive.send {
        Some(PlayerCommand::SetVolume(_)) => true,
        _ => false,
    };
    Directive {
        send: if withheld {
            None
        } else {
            directive.send
        },
        quit_audio: directive.quit_audio,
        remember: directive.remember,
        end: directive.end,
    }
}

/// What the program does once a session of the interface has ended.
#[derive(Debug, Clone, Copy, PartialEq, Eq, Structural)]
pub enum NextRun {
    /// Play the channel at this index, with the track display reset
    Play(usize),
    /// Run the same channel again
    Repeat,
    /// Leave the program
    Exit,
}

/// Decides what follows a session: a chosen channel is played if the catalog
/// has it, a choice beyond its end runs the same channel again, and leaving
/// ends the program.
pub fn after_session(end: SessionEnd, channels_len: usize) -> (next: NextRun)
    ensures
        next == match end {
            SessionEnd::Switch(index) => if index < channels_len {
                NextRun::Play(index)
            } else {
                NextRun::Repeat
            },
            SessionEnd::Leave => NextRun::Exit,
        },
{
    match end {
        SessionEnd::Switch(index) => {
            if index < channels_len {
                NextRun::Play(index)
            } else {
                NextRun::Repeat
            }
        },
        SessionEnd::Leave => NextRun::Exit,
    }
}

} // verus!
