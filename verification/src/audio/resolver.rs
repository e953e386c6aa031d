//! Picks the stream address to play for a channel.
//!
//! A channel lists stream variants. The resolver prefers the primary codec in
//! the top quality tier, then the primary codec in any tier, then whatever
//! the channel lists first. An address that names a playlist file has to be
//! fetched and read before there is a stream to open.

use crate::api::somafm::{first_stream_url, parse_pls_playlist};
use crate::errors::{PlaybackError, PlaybackErrorView};
use crate::models::channel::{Channel, ChannelView, Playlist, PlaylistView};
use crate::text::{chars_of, ends_with, ends_with_in, same_text};
use vstd::prelude::*;

verus! {

/// How much a variant is wanted: 0 for the primary codec in the top quality
/// tier, 1 for the primary codec in another tier, 2 for any other codec.
pub open spec fn preference(playlist: PlaylistView) -> int {
    if playlist.format == "mp3"@ {
        if playlist.quality == "high"@ {
            0
        } else {
            1
        }
    } else {
        2
    }
}

/// Whether entry `i` is the one to play: no entry is wanted more, and of
/// those wanted as much it comes first.
pub open spec fn is_preferred(playlists: Seq<PlaylistView>, i: int) -> bool {
    &&& 0 <= i < playlists.len()
    &&& forall|j: int| 0 <= j < i ==> preference(#[trigger] playlists[j]) > preference(playlists[i])
    &&& forall|j: int|
        i < j < playlists.len() ==> preference(#[trigger] playlists[j]) >= preference(playlists[i])
}

/// The index of the entry to play.
pub open spec fn preferred_index(playlists: Seq<PlaylistView>) -> int {
    choose|i: int| is_preferred(playlists, i)
}

/// At most one entry is the one to play.
pub proof fn lemma_preferred_is_unique(playlists: Seq<PlaylistView>, i: int, j: int)
    requires
        is_preferred(playlists, i),
        is_preferred(playlists, j),
    ensures
        i == j,
{
    if i < j {
        assert(preference(playlists[i]) > preference(playlists[j]));
        assert(preference(playlists[j]) >= preference(playlists[i]));
    } else if j < i {
        assert(preference(playlists[j]) > preference(playlists[i]));
        assert(preference(playlists[i]) >= preference(playlists[j]));
    }
}

/// The entry to play, once found, is the one `preferred_index` names.
pub proof fn lemma_preferred_index(playlists: Seq<PlaylistView>, i: int)
    requires
        is_preferred(playlists, i),
    ensures
        preferred_index(playlists) == i,
{
    lemma_preferred_is_unique(playlists, i, preferred_index(playlists));
}

/// A list with at least one entry has an entry to play.
pub proof fn lemma_preferred_exists(playlists: Seq<PlaylistView>)
    requires
        playlists.len() > 0,
    ensures
        is_preferred(playlists, preferred_index(playlists)),
    decreases playlists.len(),
{
    if playlists.len() == 1 {
        assert(is_preferred(playlists, 0));
    } else {
        let front = playlists.drop_last();
        let last = playlists.len() - 1;
        lemma_preferred_exists(front);
        let best = preferred_index(front);
        assert(front[best] == playlists[best]);
        assert forall|j: int| 0 <= j < last implies front[j] == playlists[j] by {}
        if preference(playlists[last]) < preference(playlists[best]) {
            assert forall|j: int| 0 <= j < last implies preference(#[trigger] playlists[j])
                > preference(playlists[last]) by {
                assert(front[j] == playlists[j]);
                if j < best {
                    assert(preference(front[j]) > preference(front[best]));
                } else if j > best {
                    assert(preference(front[j]) >= preference(front[best]));
                }
            }
            assert(is_preferred(playlists, last));
        } else {
            assert forall|j: int| 0 <= j < best implies preference(#[trigger] playlists[j])
                > preference(playlists[best]) by {
                assert(front[j] == playlists[j]);
                assert(preference(front[j]) > preference(front[best]));
            }
            assert forall|j: int| best < j < playlists.len() implies preference(
                #[trigger] playlists[j],
            ) >= preference(playlists[best]) by {
                if j < last {
                    assert(front[j] == playlists[j]);
                    assert(preference(front[j]) >= preference(front[best]));
                }
            }
            assert(is_preferred(playlists, best));
        }
    }
}

/// Where the audio of a channel is to be had.
#[derive(Debug, Clone)]
pub enum StreamSource {
    /// The address of the stream itself
    Direct(String),
    /// The address of a playlist file that names the stream
    Playlist(String),
}

/// A [`StreamSource`] with its address as text.
pub enum StreamSourceView {
    Direct(Seq<char>),
    Playlist(Seq<char>),
}

impl View for StreamSource {
    type V = StreamSourceView;

    open spec fn view(&self) -> StreamSourceView {
        match self {
            StreamSource::Direct(url) => StreamSourceView::Direct(url@),
            StreamSource::Playlist(url) => StreamSourceView::Playlist(url@),
        }
    }
}

/// Whether an address names a playlist file rather than a stream.
pub open spec fn is_playlist_reference(url: Seq<char>) -> bool {
    ends_with(url, ".pls"@)
}

/// The source that an address stands for.
pub open spec fn source_of(url: Seq<char>) -> StreamSourceView {
    if is_playlist_reference(url) {
        StreamSourceView::Playlist(url)
    } else {
        StreamSourceView::Direct(url)
    }
}

/// The source selected for a channel: that of its preferred variant. A
/// channel without variants has none.
pub open spec fn selected_source(channel: ChannelView) -> Result<
    StreamSourceView,
    PlaybackErrorView,
> {
    if channel.playlists.len() == 0 {
        Err(PlaybackErrorView::NoPlayableStream)
    } else {
        Ok(source_of(channel.playlists[preferred_index(channel.playlists)].url))
    }
}

/// What reading a fetched playlist file yields: the first address it names.
/// A fetch that failed is a transport error with the detail that the fetch
/// reported.
pub open spec fn dereferenced(fetched: Result<Seq<char>, Seq<char>>) -> Result<
    Seq<char>,
    PlaybackErrorView,
> {
    match fetched {
        Ok(content) => match first_stream_url(content) {
            Some(url) => Ok(url),
            None => Err(PlaybackErrorView::InvalidPlaylistReference),
        },
        Err(detail) => Err(PlaybackErrorView::Transport(detail)),
    }
}

/// The stream address a channel resolves to, given what a fetch of its
/// playlist file brings, should one be needed.
pub open spec fn resolved(channel: ChannelView, fetched: Result<Seq<char>, Seq<char>>) -> Result<
    Seq<char>,
    PlaybackErrorView,
> {
    match selected_source(channel) {
        Err(e) => Err(e),
        Ok(StreamSourceView::Direct(url)) => Ok(url),
        Ok(StreamSourceView::Playlist(_)) => dereferenced(fetched),
    }
}

/// Resolution fails for want of a playable stream exactly when the channel
/// lists no variant, whatever a fetch may bring.
pub proof fn lemma_no_playable_stream_iff_empty(
    channel: ChannelView,
    fetched: Result<Seq<char>, Seq<char>>,
)
    ensures
        resolved(channel, fetched) == Err::<Seq<char>, PlaybackErrorView>(
            PlaybackErrorView::NoPlayableStream,
        ) <==> channel.playlists.len() == 0,
{
}

/// Ranks a variant by how much it is wanted.
pub fn preference_of(playlist: &Playlist) -> (rank: u8)
    ensures
        rank == preference(playlist@),
{
    if same_text(playlist.format.as_str(), "mp3") {
        if same_text(playlist.quality.as_str(), "high") {
            0
        } else {
            1
        }
    } else {
        2
    }
}

/// Finds the variant to play among `playlists`.
pub fn preferred_playlist(playlists: &Vec<Playlist>) -> (choice: Option<usize>)
    ensures
        match choice {
            Some(i) => is_preferred(playlists.deep_view(), i as int),
            None => playlists@.len() == 0,
        },
{
    let n = playlists.len();
    if n == 0 {
        return None;
    }
    let ghost views = playlists.deep_view();
    let mut best: usize = 0;
    let mut best_rank = preference_of(&playlists[0]);
    let mut k: usize = 1;
    while k < n
        invariant
            1 <= k <= n == playlists.len(),
            views == playlists.deep_view(),
            best < k,
            best_rank == preference(views[best as int]),
            forall|j: int| 0 <= j < best ==> preference(#[trigger] views[j]) > best_rank,
            forall|j: int| best < j < k ==> preference(#[trigger] views[j]) >= best_rank,
        decreases n - k,
    {
        let rank = preference_of(&playlists[k]);
        if rank < best_rank {
            best = k;
            best_rank = rank;
        }
        k += 1;
    }
    Some(best)
}

/// Tells whether an address names a playlist file.
pub fn names_playlist(url: &str) -> (indirect: bool)
    ensures
        indirect == is_playlist_reference(url@),
{
    let chars = chars_of(url);
    let suffix = chars_of(".pls");
    proof {
        assert(chars@.subrange(0, chars@.len() as int) == chars@);
    }
    ends_with_in(&chars, 0, chars.len(), &suffix)
}

/// Selects the source to play for a channel.
pub fn resolve_source(channel: &Channel) -> (result: Result<StreamSource, PlaybackError>)
    ensures
        match selected_source(channel@) {
            Ok(source) => result matches Ok(found) && found@ == source,
            Err(e) => result matches Err(failure) && failure@ == e,
        },
{
    match preferred_playlist(&channel.playlists) {
        Some(i) => {
            proof {
                lemma_preferred_index(channel@.playlists, i as int);
            }
            let url = channel.playlists[i].url.clone();
            if names_playlist(url.as_str()) {
                Ok(StreamSource::Playlist(url))
            } else {
                Ok(StreamSource::Direct(url))
            }
        },
        None => Err(PlaybackError::NoPlayableStream),
    }
}

/// Reads the stream address out of what a fetch of a playlist file brought:
/// its text, or the detail of the failure.
pub fn dereference(fetched: Result<String, String>) -> (result: Result<String, PlaybackError>)
    ensures
        match dereferenced(
            match fetched {
                Ok(content) => Ok(content@),
                Err(detail) => Err(detail@),
            },
        ) {
            Ok(url) => result matches Ok(found) && found@ == url,
            Err(e) => result matches Err(failure) && failure@ == e,
        },
{
    match fetched {
        Ok(content) => parse_pls_playlist(content.as_str()),
        Err(detail) => Err(PlaybackError::Transport(detail)),
    }
}

} // verus!
