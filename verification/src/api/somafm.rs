//! Playlist files of the catalog service.
//!
//! A playlist file is a short text of `Key=value` lines. The entries that name
//! a stream have a key that begins with `File`.

use crate::errors::{PlaybackError, PlaybackErrorView};
use crate::text::{chars_of, contains, find, find_in, matches_at, starts_with, trim, trim_range};
use vstd::prelude::*;

verus! {

/// Address of the channel catalog.
pub const SOMAFM_API_URL: &'static str = "https://api.somafm.com/channels.json";

/// The stream address that one line of a playlist file names, if it names
/// one.
///
/// The line is trimmed. It names an address where it begins with `File` and
/// holds an equals sign, and where what stands behind the first equals sign,
/// up to the end of the line, begins with `http` once trimmed. That trimmed
/// text is the address, further equals signs included.
pub open spec fn entry_value(line: Seq<char>) -> Option<Seq<char>> {
    let entry = trim(line);
    if starts_with(entry, "File"@) && contains(entry, "="@) {
        let value = trim(entry.subrange(find(entry, "="@).unwrap() + 1, entry.len() as int));
        if starts_with(value, "http"@) {
            Some(value)
        } else {
            None
        }
    } else {
        None
    }
}

/// The first stream address that a playlist file names, going through its
/// lines in order. Lines end at a line feed; a carriage return before it is
/// whitespace like any other and falls to the trimming of the line.
pub open spec fn first_stream_url(content: Seq<char>) -> Option<Seq<char>>
    decreases content.len(),
{
    let end = find(content, "\n"@);
    if end is Some && 0 <= end.unwrap() < content.len() {
        match entry_value(content.subrange(0, end.unwrap())) {
            Some(url) => Some(url),
            None => first_stream_url(content.subrange(end.unwrap() + 1, content.len() as int)),
        }
    } else {
        entry_value(content)
    }
}

/// An address found in a playlist file begins with `http`, and so is never
/// empty.
pub proof fn lemma_stream_url_begins_with_http(content: Seq<char>)
    ensures
        first_stream_url(content) matches Some(url) ==> starts_with(url, "http"@) && url.len() >= 4,
    decreases content.len(),
{
    reveal_strlit("http");
    let end = find(content, "\n"@);
    if end is Some && 0 <= end.unwrap() < content.len() {
        if entry_value(content.subrange(0, end.unwrap())) is None {
            lemma_stream_url_begins_with_http(
                content.subrange(end.unwrap() + 1, content.len() as int),
            );
        }
    }
}

/// Finds the address that the line `start..end` of `chars` names, as the
/// bounds of the address in `chars`.
fn entry_value_in(chars: &Vec<char>, start: usize, end: usize) -> (found: Option<(usize, usize)>)
    requires
        start <= end <= chars.len(),
    ensures
        match found {
            Some((from, to)) => start <= from <= to <= end && entry_value(
                chars@.subrange(start as int, end as int),
            ) == Some(chars@.subrange(from as int, to as int)),
            None => entry_value(chars@.subrange(start as int, end as int)) is None,
        },
{
    let file = chars_of("File");
    let equals = chars_of("=");
    let http = chars_of("http");
    proof {
        reveal_strlit("=");
    }
    let (a, b) = trim_range(chars, start, end);
    let ghost entry = chars@.subrange(a as int, b as int);
    if !matches_at(chars, a, b, &file) {
        return None;
    }
    let first = match find_in(chars, a, b, &equals) {
        Some(at) => at,
        None => {
            return None;
        },
    };
    proof {
        crate::text::lemma_find_is_first(entry, "="@);
    }
    assert(entry.subrange(first - a + 1, entry.len() as int) == chars@.subrange(
        first + 1,
        b as int,
    ));
    let (from, to) = trim_range(chars, first + 1, b);
    if matches_at(chars, from, to, &http) {
        Some((from, to))
    } else {
        None
    }
}

/// Parses the text of a playlist file and returns the first stream address
/// it names.
pub fn parse_pls_playlist(pls_content: &str) -> (result: Result<String, PlaybackError>)
    ensures
        match first_stream_url(pls_content@) {
            Some(url) => result matches Ok(found) && found@ == url,
            None => result matches Err(e) && e@ == PlaybackErrorView::InvalidPlaylistReference,
        },
{
    let chars = chars_of(pls_content);
    let line_feed = chars_of("\n");
    let n = chars.len();
    proof {
        reveal_strlit("\n");
        assert(chars@.subrange(0, n as int) == chars@);
    }
    let mut start: usize = 0;
    loop
        invariant
            start <= n == chars.len(),
            chars@ == pls_content@,
            line_feed@ == "\n"@,
            "\n"@.len() == 1,
            first_stream_url(chars@) == first_stream_url(chars@.subrange(start as int, n as int)),
        decreases n - start,
    {
        let ghost rest = chars@.subrange(start as int, n as int);
        proof {
            crate::text::lemma_find_is_first(rest, "\n"@);
        }
        let line_end = find_in(&chars, start, n, &line_feed);
        let end = match line_end {
            Some(at) => at,
            None => n,
        };
        proof {
            if line_end is Some {
                assert(rest.subrange(0, end - start) == chars@.subrange(start as int, end as int));
                assert(rest.subrange(end - start + 1, rest.len() as int) == chars@.subrange(
                    end + 1,
                    n as int,
                ));
            }
        }
        match entry_value_in(&chars, start, end) {
            Some((from, to)) => {
                return Ok(pls_content.substring_char(from, to).to_owned());
            },
            None => {},
        }
        if line_end.is_none() {
            return Err(PlaybackError::InvalidPlaylistReference);
        }
        start = end + 1;
    }
}

} // verus!
