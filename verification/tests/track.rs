use soma_player::models::{parse_track_info, playback_status, PlaybackStatus, TrackInfo};

#[test]
fn test_track_info_default() {
    let track = TrackInfo::default();
    assert_eq!(track.artist, "Unknown");
    assert_eq!(track.title, "Loading...");
}

#[test]
fn test_parse_track_info_with_artist_and_title() {
    let stream_title = "Radiohead - Paranoid Android";
    let track = parse_track_info(stream_title);

    assert_eq!(track.artist, "Radiohead");
    assert_eq!(track.title, "Paranoid Android");
}

#[test]
fn test_parse_track_info_with_multiple_dashes() {
    let stream_title = "Nine Inch Nails - The Hand That Feeds - Remix";
    let track = parse_track_info(stream_title);

    assert_eq!(track.artist, "Nine Inch Nails");
    assert_eq!(track.title, "The Hand That Feeds - Remix");
}

#[test]
fn test_parse_track_info_no_artist() {
    let stream_title = "Just a Song Title";
    let track = parse_track_info(stream_title);

    assert_eq!(track.artist, "Unknown");
    assert_eq!(track.title, "Just a Song Title");
}

#[test]
fn test_parse_track_info_empty_parts() {
    let stream_title = " - ";
    let track = parse_track_info(stream_title);

    assert_eq!(track.artist, "Unknown");
    assert_eq!(track.title, " - ");
}

#[test]
fn test_parse_track_info_with_whitespace() {
    let stream_title = "  Artist Name  -  Song Title  ";
    let track = parse_track_info(stream_title);

    assert_eq!(track.artist, "Artist Name");
    assert_eq!(track.title, "Song Title");
}

#[test]
fn test_parse_track_info_empty_string() {
    let stream_title = "";
    let track = parse_track_info(stream_title);

    assert_eq!(track.artist, "Unknown");
    assert_eq!(track.title, "");
}

#[test]
fn test_parse_track_info_special_characters() {
    let stream_title = "Björk - Jóga";
    let track = parse_track_info(stream_title);

    assert_eq!(track.artist, "Björk");
    assert_eq!(track.title, "Jóga");
}

#[test]
fn track_splits_at_first_separator_only() {
    let track = parse_track_info("A - B - C");
    assert_eq!(track.artist, "A");
    assert_eq!(track.title, "B - C");
}

#[test]
fn track_without_separator_keeps_raw_title() {
    let track = parse_track_info("Just a title");
    assert_eq!(track.artist, "Unknown");
    assert_eq!(track.title, "Just a title");
    let padded = parse_track_info("  padded  ");
    assert_eq!(padded.artist, "Unknown");
    assert_eq!(padded.title, "  padded  ");
}

#[test]
fn track_with_one_empty_side_is_untitled() {
    let no_artist = parse_track_info(" - Title");
    assert_eq!(no_artist.artist, "Unknown");
    assert_eq!(no_artist.title, " - Title");
    let no_title = parse_track_info("Artist -   ");
    assert_eq!(no_title.artist, "Unknown");
    assert_eq!(no_title.title, "Artist -   ");
}

#[test]
fn track_agrees_with_find_and_trim() {
    let samples = [
        "a - b",
        "a- b",
        " -  - ",
        "\u{a0}x\u{2009} - \u{3000}y\n",
        "Ünï - cödé - ♪",
        "-",
        " - - x",
    ];
    for raw in samples {
        let track = parse_track_info(raw);
        let (artist, title) = match raw.find(" - ") {
            Some(at) => {
                let artist = raw[..at].trim();
                let title = raw[at + 3..].trim();
                if !artist.is_empty() && !title.is_empty() {
                    (artist.to_string(), title.to_string())
                } else {
                    ("Unknown".to_string(), raw.to_string())
                }
            }
            None => ("Unknown".to_string(), raw.to_string()),
        };
        assert_eq!(track.artist, artist);
        assert_eq!(track.title, title);
    }
}

#[test]
fn status_follows_track_and_pause() {
    let waiting = TrackInfo::default();
    assert_eq!(playback_status(&waiting, false), PlaybackStatus::Connecting);
    assert_eq!(playback_status(&waiting, true), PlaybackStatus::Connecting);
    assert!(!waiting.title_is_known());
    assert!(!waiting.artist_is_known());
    let playing = parse_track_info("A - B");
    assert_eq!(playback_status(&playing, false), PlaybackStatus::Playing);
    assert_eq!(playback_status(&playing, true), PlaybackStatus::Paused);
    assert!(playing.title_is_known());
    assert!(playing.artist_is_known());
    let untitled = parse_track_info("B");
    assert!(untitled.title_is_known());
    assert!(!untitled.artist_is_known());
}
