use soma_player::api::{parse_pls_playlist, SOMAFM_API_URL};
use soma_player::errors::PlaybackError;

#[test]
fn test_parse_pls_playlist_valid() {
    let pls_content = r#"
[playlist]
NumberOfEntries=2
File1=http://ice1.somafm.com/groovesalad-256-mp3
Title1=SomaFM - Groove Salad (#1 256k mp3): A nicely chilled plate of ambient/downtempo beats and grooves.
Length1=-1
File2=http://ice2.somafm.com/groovesalad-256-mp3
Title2=SomaFM - Groove Salad (#2 256k mp3): A nicely chilled plate of ambient/downtempo beats and grooves.
Length2=-1
Version=2
"#;

    let found_url = parse_pls_playlist(pls_content).ok();

    assert_eq!(found_url, Some("http://ice1.somafm.com/groovesalad-256-mp3".to_string()));
}

#[test]
fn test_parse_pls_playlist_no_files() {
    let pls_content = r#"
[playlist]
NumberOfEntries=0
Version=2
"#;

    let found_url = parse_pls_playlist(pls_content).ok();

    assert_eq!(found_url, None);
}

#[test]
fn test_parse_pls_playlist_invalid_urls() {
    let pls_content = r#"
[playlist]
NumberOfEntries=1
File1=not-a-url
Title1=Invalid URL
Length1=-1
Version=2
"#;

    let found_url = parse_pls_playlist(pls_content).ok();

    assert_eq!(found_url, None);
}

#[test]
fn test_api_url_constant() {
    assert_eq!(SOMAFM_API_URL, "https://api.somafm.com/channels.json");
}

#[test]
fn playlist_entry_among_other_lines() {
    let content = "[playlist]\nTitle1=x\nFile1=http://x/stream\nLength1=-1\n";
    assert_eq!(parse_pls_playlist(content).unwrap(), "http://x/stream");
}

#[test]
fn playlist_without_address_is_an_invalid_reference() {
    assert!(matches!(
        parse_pls_playlist("File1=not-a-url"),
        Err(PlaybackError::InvalidPlaylistReference)
    ));
    assert!(matches!(
        parse_pls_playlist("Title1=http://x/stream\nVersion=2"),
        Err(PlaybackError::InvalidPlaylistReference)
    ));
    assert!(matches!(parse_pls_playlist(""), Err(PlaybackError::InvalidPlaylistReference)));
}

#[test]
fn playlist_first_match_wins_in_file_order() {
    let content = "File2=http://second/\nFile1=http://first/\n";
    assert_eq!(parse_pls_playlist(content).unwrap(), "http://second/");
    let skipped = "File1=ftp://no/\nFile2=https://yes/\n";
    assert_eq!(parse_pls_playlist(skipped).unwrap(), "https://yes/");
}

#[test]
fn playlist_lines_and_values_are_trimmed() {
    assert_eq!(parse_pls_playlist("  File1 =  http://x/a  \r\n").unwrap(), "http://x/a");
    assert_eq!(parse_pls_playlist("\tFile1=http://x/b\r").unwrap(), "http://x/b");
}

#[test]
fn playlist_value_runs_to_the_end_of_the_line() {
    assert_eq!(parse_pls_playlist("File1=http://x/s?a=b").unwrap(), "http://x/s?a=b");
    assert_eq!(parse_pls_playlist("File1=http://x/s?a=b\n").unwrap(), "http://x/s?a=b");
    assert_eq!(
        parse_pls_playlist("File1 = https://x/s?a=b&c=d= \r\nFile2=http://y/").unwrap(),
        "https://x/s?a=b&c=d="
    );
    assert!(parse_pls_playlist("File1==http://x/").is_err());
    assert!(parse_pls_playlist("File1=a=http://x/").is_err());
}

#[test]
fn playlist_key_must_begin_the_line() {
    assert!(parse_pls_playlist("MyFile1=http://x/").is_err());
    assert!(parse_pls_playlist("file1=http://x/").is_err());
    assert!(parse_pls_playlist("File1 http://x/").is_err());
}

#[test]
fn playlist_agrees_with_line_by_line_reading() {
    let samples = [
        "",
        "\n",
        "File1=http://a\nFile2=http://b",
        "x\r\nFile=http\r\n",
        "File1=\nFile2= http://ü/ñ \n",
        "File\n=http://x",
        "File1=a=http://x\nFile9=http://y=z",
        "File1=http://x/s?a=b\n",
        "File1= http://x/=\t\nFile2=http://later",
        " \u{2003}File1=\u{a0}http://x/\u{3000}\n",
    ];
    for content in samples {
        let mut expected = None;
        for line in content.lines() {
            let line = line.trim();
            if line.starts_with("File") && line.contains("=") {
                if let Some((_key, url)) = line.split_once('=') {
                    let url = url.trim();
                    if url.starts_with("http") {
                        expected = Some(url.to_string());
                        break;
                    }
                }
            }
        }
        assert_eq!(parse_pls_playlist(content).ok(), expected);
    }
}
