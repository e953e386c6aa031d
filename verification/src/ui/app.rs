//! Navigation state of the terminal interface.

use crate::models::channel::Channel;
use crate::text::same_text;
use vstd::prelude::*;

verus! {

/// The screen that is showing.
#[derive(Debug, Clone, Copy, PartialEq, Eq, Structural)]
pub enum UIState {
    InitialChannelSelection,
    Playing,
    SelectingChannel,
}

/// State of the interface between two key presses.
#[derive(Debug, Clone, Copy, PartialEq, Eq, Structural)]
pub struct AppState {
    pub ui_state: UIState,
    pub selected_index: usize,
    pub should_quit: bool,
    pub is_paused: bool,
}

/// The entry below `index` in a list of `count` entries, wrapping from the
/// last to the first. An empty list has only index 0.
pub open spec fn index_after(index: usize, count: usize) -> usize {
    if count > 0 && index < count - 1 {
        (index + 1) as usize
    } else {
        0
    }
}

/// The entry above `index` in a list of `count` entries, wrapping from the
/// first to the last. An empty list has only index 0.
pub open spec fn index_before(index: usize, count: usize) -> usize {
    if index > 0 {
        (index - 1) as usize
    } else if count > 0 {
        (count - 1) as usize
    } else {
        0
    }
}

impl Default for AppState {
    fn default() -> (state: Self)
        ensures
            state == AppState::initial(),
    {
        AppState::new()
    }
}

impl AppState {
    /// The state an interface starts in: channel selection, first entry.
    pub open spec fn initial() -> AppState {
        AppState {
            ui_state: UIState::InitialChannelSelection,
            selected_index: 0,
            should_quit: false,
            is_paused: false,
        }
    }

    pub fn new() -> (state: Self)
        ensures
            state == AppState::initial(),
    {
        AppState {
            ui_state: UIState::InitialChannelSelection,
            selected_index: 0,
            should_quit: false,
            is_paused: false,
        }
    }

    /// The state a session begins with: the first session of a run shows the
    /// channel selection unless auto-start is on; every later one plays at
    /// once.
    pub fn for_session(first_run: bool, auto_start: bool) -> (state: Self)
        ensures
            state == (AppState {
                ui_state: if first_run && !auto_start {
                    UIState::InitialChannelSelection
                } else {
                    UIState::Playing
                },
                ..AppState::initial()
            }),
    {
        let mut state = AppState::new();
        if !first_run || auto_start {
            state.ui_state = UIState::Playing;
        }
        state
    }

    pub fn next_channel(&mut self, max_channels: usize)
        ensures
            *final(self) == (AppState {
                selected_index: index_after(old(self).selected_index, max_channels),
                ..*old(self)
            }),
    {
        self.selected_index = if max_channels > 0 && self.selected_index < max_channels - 1 {
            self.selected_index + 1
        } else {
            0
        };
    }

    pub fn previous_channel(&mut self, max_channels: usize)
        ensures
            *final(self) == (AppState {
                selected_index: index_before(old(self).selected_index, max_channels),
                ..*old(self)
            }),
    {
        self.selected_index = if self.selected_index > 0 {
            self.selected_index - 1
        } else if max_channels > 0 {
            max_channels - 1
        } else {
            0
        };
    }

    pub fn set_channel_selection_mode(&mut self, current_channel_index: Option<usize>)
        ensures
            *final(self) == (AppState {
                ui_state: UIState::SelectingChannel,
                selected_index: match current_channel_index {
                    Some(index) => index,
                    None => old(self).selected_index,
                },
                ..*old(self)
            }),
    {
        self.ui_state = UIState::SelectingChannel;
        match current_channel_index {
            Some(index) => {
                self.selected_index = index;
            },
            None => {},
        }
    }

    pub fn set_playing_mode(&mut self)
        ensures
            *final(self) == (AppState { ui_state: UIState::Playing, ..*old(self) }),
    {
        self.ui_state = UIState::Playing;
    }

    pub fn quit(&mut self)
        ensures
            *final(self) == (AppState { should_quit: true, ..*old(self) }),
    {
        self.should_quit = true;
    }

    pub fn toggle_pause(&mut self)
        ensures
            *final(self) == (AppState { is_paused: !old(self).is_paused, ..*old(self) }),
    {
        self.is_paused = !self.is_paused;
    }

    pub fn pause(&mut self)
        ensures
            *final(self) == (AppState { is_paused: true, ..*old(self) }),
    {
        self.is_paused = true;
    }

    pub fn resume(&mut self)
        ensures
            *final(self) == (AppState { is_paused: false, ..*old(self) }),
    {
        self.is_paused = false;
    }
}

/// Whether `index` is the first channel with the given id.
pub open spec fn is_position_of(channels: Seq<Channel>, id: Seq<char>, index: int) -> bool {
    &&& 0 <= index < channels.len()
    &&& channels[index].id@ == id
    &&& forall|j: int| 0 <= j < index ==> (#[trigger] channels[j]).id@ != id
}

/// Finds the first channel with the given id.
pub fn channel_position(channels: &Vec<Channel>, id: &str) -> (position: Option<usize>)
    ensures
        match position {
            Some(index) => is_position_of(channels@, id@, index as int),
            None => forall|j: int| 0 <= j < channels@.len() ==> (#[trigger] channels@[j]).id@ != id@,
        },
{
    let mut k: usize = 0;
    while k < channels.len()
        invariant
            k <= channels.len(),
            forall|j: int| 0 <= j < k ==> (#[trigger] channels@[j]).id@ != id@,
        decreases channels.len() - k,
    {
        if same_text(channels[k].id.as_str(), id) {
            return Some(k);
        }
        k += 1;
    }
    None
}

/// The channel to begin with: the one played last if the catalog still has
/// it, else the first.
pub fn initial_channel_index(channels: &Vec<Channel>, last_channel_id: &Option<String>) -> (index:
    usize)
    ensures
        match *last_channel_id {
            Some(id) => is_position_of(channels@, id@, index as int) || (index == 0 && forall|
                j: int,
            |
                0 <= j < channels@.len() ==> (#[trigger] channels@[j]).id@ != id@),
            None => index == 0,
        },
{
    match last_channel_id {
        Some(id) => match channel_position(channels, id.as_str()) {
            Some(index) => index,
            None => 0,
        },
        None => 0,
    }
}

} // verus!
