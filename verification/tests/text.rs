use soma_player::text::{
    char_is_whitespace, chars_of, ends_with_in, find_in, matches_at, same_text, trim_range,
};

#[test]
fn whitespace_is_what_the_standard_library_trims() {
    for code in 0..=0x10FFFFu32 {
        if let Some(c) = char::from_u32(code) {
            assert_eq!(char_is_whitespace(c), c.is_whitespace());
        }
    }
}

#[test]
fn chars_are_collected_in_order() {
    assert_eq!(chars_of("aé♪"), vec!['a', 'é', '♪']);
    assert!(chars_of("").is_empty());
}

#[test]
fn trimming_a_stretch() {
    let chars = chars_of("xx  ab c \u{a0}yy");
    assert_eq!(trim_range(&chars, 2, 10), (4, 8));
    assert_eq!(trim_range(&chars, 0, chars.len()), (0, chars.len()));
    assert_eq!(trim_range(&chars, 2, 4), (4, 4));
    assert_eq!(trim_range(&chars, 5, 5), (5, 5));
}

#[test]
fn finding_in_a_stretch() {
    let chars = chars_of("a - b - c");
    let pattern = chars_of(" - ");
    assert_eq!(find_in(&chars, 0, chars.len(), &pattern), Some(1));
    assert_eq!(find_in(&chars, 2, chars.len(), &pattern), Some(5));
    assert_eq!(find_in(&chars, 2, 7, &pattern), None);
    assert_eq!(find_in(&chars, 6, chars.len(), &pattern), None);
    assert_eq!(find_in(&chars, 3, 3, &Vec::new()), Some(3));
    assert!(matches_at(&chars, 1, 4, &pattern));
    assert!(!matches_at(&chars, 1, 3, &pattern));
    assert!(!matches_at(&chars, 0, 9, &pattern));
    assert!(ends_with_in(&chars, 0, 8, &pattern));
    assert!(!ends_with_in(&chars, 0, 9, &pattern));
    assert!(!ends_with_in(&chars, 6, 8, &pattern));
}

#[test]
fn comparing_text() {
    assert!(same_text("mp3", "mp3"));
    assert!(same_text("", ""));
    assert!(!same_text("mp3", "mp4"));
    assert!(!same_text("mp3", "mp"));
    assert!(!same_text("é", "e"));
    assert!(same_text("Jóga", "Jóga"));
}
