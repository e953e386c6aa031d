//! Track information and the parsing of inline stream titles.

use crate::text::{chars_of, find, find_in, same_text, trim, trim_range};
use vstd::prelude::*;

verus! {

/// The track that is playing, as the stream announces it.
#[derive(Debug, Clone)]
pub struct TrackInfo {
    /// The artist name
    pub artist: String,
    /// The track title
    pub title: String,
}

/// What a [`TrackInfo`] holds, as text.
pub struct TrackInfoView {
    pub artist: Seq<char>,
    pub title: Seq<char>,
}

impl View for TrackInfo {
    type V = TrackInfoView;

    open spec fn view(&self) -> TrackInfoView {
        TrackInfoView { artist: self.artist@, title: self.title@ }
    }
}

impl DeepView for TrackInfo {
    type V = TrackInfoView;

    open spec fn deep_view(&self) -> TrackInfoView {
        self.view()
    }
}

/// The track shown before the stream has announced one.
pub open spec fn placeholder_track() -> TrackInfoView {
    TrackInfoView { artist: "Unknown"@, title: "Loading..."@ }
}

impl Default for TrackInfo {
    fn default() -> (track: Self)
        ensures
            track@ == placeholder_track(),
    {
        TrackInfo { artist: "Unknown".to_owned(), title: "Loading...".to_owned() }
    }
}

/// The text that parts artist from title in a stream title.
pub open spec fn separator() -> Seq<char> {
    " - "@
}

/// The track for a stream title that names no artist: the whole title,
/// untrimmed, under the artist `Unknown`.
pub open spec fn untitled_track(raw: Seq<char>) -> TrackInfoView {
    TrackInfoView { artist: "Unknown"@, title: raw }
}

/// The track that a raw stream title announces.
///
/// The title is split at the first separator. Where both sides are non-empty
/// after trimming, they are artist and title. Otherwise, and where there is
/// no separator, the artist is unknown and the title is the raw text.
pub open spec fn parsed_track(raw: Seq<char>) -> TrackInfoView {
    match find(raw, separator()) {
        Some(at) => {
            let artist = trim(raw.subrange(0, at));
            let title = trim(raw.subrange(at + separator().len(), raw.len() as int));
            if artist.len() > 0 && title.len() > 0 {
                TrackInfoView { artist, title }
            } else {
                untitled_track(raw)
            }
        },
        None => untitled_track(raw),
    }
}

/// Parses track information from an inline stream title of the form
/// `Artist - Title`.
pub fn parse_track_info(stream_title: &str) -> (track: TrackInfo)
    ensures
        track@ == parsed_track(stream_title@),
{
    let chars = chars_of(stream_title);
    let pattern = chars_of(" - ");
    let n = chars.len();
    proof {
        assert(chars@.subrange(0, n as int) == chars@);
    }
    match find_in(&chars, 0, n, &pattern) {
        Some(at) => {
            proof {
                crate::text::lemma_find_is_first(chars@, pattern@);
            }
            let artist = trim_range(&chars, 0, at);
            let title = trim_range(&chars, at + pattern.len(), n);
            if artist.0 < artist.1 && title.0 < title.1 {
                return TrackInfo {
                    artist: stream_title.substring_char(artist.0, artist.1).to_owned(),
                    title: stream_title.substring_char(title.0, title.1).to_owned(),
                };
            }
        },
        None => {},
    }
    TrackInfo { artist: "Unknown".to_owned(), title: stream_title.to_owned() }
}

impl TrackInfo {
    /// Whether the stream has announced a track: the title is no longer the
    /// placeholder.
    pub fn title_is_known(&self) -> (known: bool)
        ensures
            known == (self.title@ != "Loading..."@),
    {
        !same_text(self.title.as_str(), "Loading...")
    }

    /// Whether the track names an artist: the artist is neither unknown nor
    /// the placeholder.
    pub fn artist_is_known(&self) -> (known: bool)
        ensures
            known == (self.artist@ != "Unknown"@ && self.artist@ != "Loading..."@),
    {
        !same_text(self.artist.as_str(), "Unknown") && !same_text(
            self.artist.as_str(),
            "Loading...",
        )
    }
}

/// What the player is doing, as the status line shows it.
#[derive(Debug, Clone, Copy, PartialEq, Eq, Structural)]
pub enum PlaybackStatus {
    /// No track has been announced yet
    Connecting,
    Paused,
    Playing,
}

/// The status to show: connecting until the stream announces a track, then
/// paused or playing.
pub fn playback_status(track: &TrackInfo, is_paused: bool) -> (status: PlaybackStatus)
    ensures
        status == if track.title@ == "Loading..."@ {
            PlaybackStatus::Connecting
        } else if is_paused {
            PlaybackStatus::Paused
        } else {
            PlaybackStatus::Playing
        },
{
    if !track.title_is_known() {
        PlaybackStatus::Connecting
    } else if is_paused {
        PlaybackStatus::Paused
    } else {
        PlaybackStatus::Playing
    }
}

} // verus!
