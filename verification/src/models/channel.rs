//! Catalog records: a channel and the stream variants it is offered in.

use vstd::prelude::*;

verus! {

/// One stream variant of a channel.
#[derive(Debug, Clone)]
pub struct Playlist {
    /// Address of the stream, or of a playlist file that names it
    pub url: String,
    /// Codec of the stream, such as `mp3` or `aac`
    pub format: String,
    /// Quality tier of the stream, such as `high` or `low`
    pub quality: String,
}

/// What a [`Playlist`] holds, as text.
pub struct PlaylistView {
    pub url: Seq<char>,
    pub format: Seq<char>,
    pub quality: Seq<char>,
}

impl View for Playlist {
    type V = PlaylistView;

    open spec fn view(&self) -> PlaylistView {
        PlaylistView { url: self.url@, format: self.format@, quality: self.quality@ }
    }
}

impl DeepView for Playlist {
    type V = PlaylistView;

    open spec fn deep_view(&self) -> PlaylistView {
        self.view()
    }
}

/// A radio channel of the catalog.
#[derive(Debug, Clone)]
pub struct Channel {
    pub id: String,
    pub title: String,
    pub description: String,
    /// The stream variants, in the order the catalog lists them
    pub playlists: Vec<Playlist>,
}

/// What a [`Channel`] holds, as text and a sequence of variants.
pub struct ChannelView {
    pub id: Seq<char>,
    pub title: Seq<char>,
    pub description: Seq<char>,
    pub playlists: Seq<PlaylistView>,
}

impl View for Channel {
    type V = ChannelView;

    open spec fn view(&self) -> ChannelView {
        ChannelView {
            id: self.id@,
            title: self.title@,
            description: self.description@,
            playlists: self.playlists.deep_view(),
        }
    }
}

/// The catalog as the service answers it.
#[derive(Debug)]
pub struct SomaFmResponse {
    pub channels: Vec<Channel>,
}

} // verus!
