use cmus_lyrics::cmus::PlayerSongInfo;
use cmus_lyrics::digest::to_hex;
use cmus_lyrics::error::RuntimeError;
use cmus_lyrics::lookup::LookupScheme;
use cmus_lyrics::lyric::Lyric;

fn song(artist: &str, title: &str) -> PlayerSongInfo {
    PlayerSongInfo { title: title.to_string(), artist: artist.to_string(), position: 0 }
}

fn parsed(content: &str) -> Lyric {
    let mut lyric = Lyric::new();
    assert_eq!(lyric.parse(Ok(content)), Ok(()));
    lyric
}

#[test]
fn new_lyric_is_empty_and_not_valid() {
    let lyric = Lyric::new();
    assert_eq!(lyric.len(), 0);
    assert!(!lyric.valid());
    assert!(lyric.text().is_empty());
    assert!(lyric.timestamps().is_empty());
}

#[test]
fn timestamp_of_a_well_formed_tag() {
    assert_eq!(Lyric::parse_timestamp("[01:22.33]"), Ok(82330));
    assert_eq!(Lyric::parse_timestamp("[00:34.88]"), Ok(34880));
    assert_eq!(Lyric::parse_timestamp("[10:59.67]"), Ok(659670));
    assert_eq!(Lyric::parse_timestamp("[00:00.00]"), Ok(0));
    assert_eq!(Lyric::parse_timestamp("[99:99.99]"), Ok(6_039_990));
}

#[test]
fn timestamp_follows_the_formula_for_every_tag() {
    for minutes in 0..100usize {
        for seconds in [0usize, 1, 9, 10, 59, 60, 99] {
            for hundredths in [0usize, 5, 50, 99] {
                let tag = format!("[{:02}:{:02}.{:02}]", minutes, seconds, hundredths);
                assert_eq!(
                    Lyric::parse_timestamp(&tag),
                    Ok(minutes * 60000 + seconds * 1000 + hundredths * 10)
                );
            }
        }
    }
}

#[test]
fn timestamp_of_a_malformed_tag_is_an_error() {
    for tag in [
        "",
        "[]",
        "[12:334.56]",
        "01:22.33",
        "[01:22.33",
        "01:22.33]",
        "[01:22.3x]",
        "[01-22.33]",
        "[01:22:33]",
        "[1:22.33]",
        "[01:22.333]",
        " [01:22.33]",
        "[01:22.33] ",
        "[+1:22.33]",
        "[\u{0661}\u{0662}:22.33]",
    ] {
        assert_eq!(Lyric::parse_timestamp(tag), Err(RuntimeError::ErrorExpectedNumber), "{tag:?}");
    }
}

#[test]
fn line_with_three_tags_yields_three_verses() {
    let line = "[00:34.88][01:22.33] [10:59.67] This is a verse";
    let (tags, text) = Lyric::parse_line(line);
    assert_eq!(tags, vec![34880, 82330, 659670]);
    assert_eq!(text, "This is a verse");

    let lyric = parsed(line);
    assert_eq!(lyric.len(), 3);
    assert_eq!(lyric.timestamps(), &vec![34880, 82330, 659670]);
    assert_eq!(
        lyric.text(),
        &vec![
            "This is a verse".to_string(),
            "This is a verse".to_string(),
            "This is a verse".to_string()
        ]
    );
}

#[test]
fn malformed_tag_yields_no_verse_and_no_failure() {
    let (tags, _) = Lyric::parse_line("[12:334.56] abcd");
    assert!(tags.is_empty());

    let mut lyric = Lyric::new();
    assert_eq!(lyric.parse(Ok("[12:334.56] abcd")), Ok(()));
    assert_eq!(lyric.len(), 0);
    assert!(lyric.valid());
}

#[test]
fn line_without_opening_bracket_yields_nothing() {
    for line in ["", "   ", "just words", "words [00:01.00]", "x[00:01.00] y", "]00:01.00["] {
        let (tags, _) = Lyric::parse_line(line);
        assert!(tags.is_empty(), "{line:?}");
    }
    assert_eq!(parsed("just words\nwords [00:01.00]\n").len(), 0);
}

#[test]
fn line_is_read_from_its_first_character_that_is_no_whitespace() {
    let (tags, text) = Lyric::parse_line("  \t[00:01.00]  text with  spaces \t ");
    assert_eq!(tags, vec![1000]);
    assert_eq!(text, "text with  spaces");
}

#[test]
fn tag_without_text_yields_a_verse_with_empty_text() {
    let (tags, text) = Lyric::parse_line("[00:01.00]");
    assert_eq!(tags, vec![1000]);
    assert_eq!(text, "");
    let (tags, text) = Lyric::parse_line("[00:01.00]   ");
    assert_eq!(tags, vec![1000]);
    assert_eq!(text, "");
    assert_eq!(parsed("[00:01.00]\n[00:02.00] \n").len(), 2);
}

#[test]
fn malformed_bracket_between_tags_is_skipped() {
    let (tags, text) = Lyric::parse_line("[ar:Somebody][00:02.00][x] [00:03.50] hi");
    assert_eq!(tags, vec![2000, 3500]);
    assert_eq!(text, "hi");
}

#[test]
fn bracket_that_never_closes_is_text() {
    let (tags, text) = Lyric::parse_line("[00:01.00] [oops");
    assert_eq!(tags, vec![1000]);
    assert_eq!(text, "[oops");
    let (tags, text) = Lyric::parse_line("[00:01.00");
    assert!(tags.is_empty());
    assert_eq!(text, "[00:01.00");
}

#[test]
fn text_may_hold_brackets_after_other_text() {
    let (tags, text) = Lyric::parse_line("[00:01.00] la [00:02.00] la");
    assert_eq!(tags, vec![1000]);
    assert_eq!(text, "la [00:02.00] la");
}

#[test]
fn file_with_one_tag_per_line_yields_one_verse_per_line() {
    let content = "[00:01.00] one\n[00:02.00] two\n[00:03.00] three\n[00:04.00] four\n";
    let lyric = parsed(content);
    assert_eq!(lyric.len(), 4);
    assert_eq!(lyric.timestamps(), &vec![1000, 2000, 3000, 4000]);
    assert_eq!(
        lyric.text(),
        &vec!["one".to_string(), "two".to_string(), "three".to_string(), "four".to_string()]
    );
}

#[test]
fn file_yields_as_many_verses_as_it_holds_tags() {
    let content = "[ti:Title]\n\n[00:01.00][00:10.00] chorus\nnot a lyric\n[00:05.00] verse\n[00:07.00][bad][00:08.00][00:09.00] three\n";
    let lyric = parsed(content);
    let per_line: usize = content.split('\n').map(|line| Lyric::parse_line(line).0.len()).sum();
    assert_eq!(per_line, 6);
    assert_eq!(lyric.len(), 6);
}

#[test]
fn verses_are_ordered_by_timestamp() {
    let lyric = parsed("[00:05.00] b\n[00:01.00][00:09.00] a\n[00:03.00] c\n");
    assert_eq!(lyric.timestamps(), &vec![1000, 3000, 5000, 9000]);
    assert_eq!(
        lyric.text(),
        &vec!["a".to_string(), "c".to_string(), "b".to_string(), "a".to_string()]
    );
}

#[test]
fn verses_of_one_timestamp_keep_the_order_of_the_file() {
    let lyric = parsed("[00:02.00] first\n[00:01.00] early\n[00:02.00] second\n[00:02.00] third\n");
    assert_eq!(lyric.timestamps(), &vec![1000, 2000, 2000, 2000]);
    assert_eq!(
        lyric.text(),
        &vec![
            "early".to_string(),
            "first".to_string(),
            "second".to_string(),
            "third".to_string()
        ]
    );
}

#[test]
fn lines_may_end_with_carriage_return_and_line_feed() {
    let lyric = parsed("[00:01.00] one\r\n[00:02.00] two\r\n");
    assert_eq!(lyric.text(), &vec!["one".to_string(), "two".to_string()]);
}

#[test]
fn last_line_needs_no_line_feed() {
    let lyric = parsed("[00:01.00] one\n[00:02.00] two");
    assert_eq!(lyric.text(), &vec!["one".to_string(), "two".to_string()]);
}

#[test]
fn text_beyond_ascii_is_kept() {
    let lyric = parsed("[00:01.00] \u{00a0}na\u{00ef}ve caf\u{00e9} \u{266b}\u{3000}\n");
    assert_eq!(lyric.text(), &vec!["na\u{00ef}ve caf\u{00e9} \u{266b}".to_string()]);
}

#[test]
fn failed_lookup_empties_the_lyric() {
    let mut lyric = parsed("[00:01.00] one\n");
    assert!(lyric.valid());
    assert_eq!(
        lyric.parse(Err(RuntimeError::ErrorLyricNotFound)),
        Err(RuntimeError::ErrorLyricNotFound)
    );
    assert_eq!(lyric.len(), 0);
    assert!(!lyric.valid());
    assert_eq!(
        lyric.parse(Err(RuntimeError::ErrorEnvironmentVariableNotSet)),
        Err(RuntimeError::ErrorEnvironmentVariableNotSet)
    );
    assert!(!lyric.valid());
}

#[test]
fn parsing_again_drops_the_old_verses() {
    let mut lyric = parsed("[00:01.00] one\n[00:02.00] two\n");
    assert_eq!(lyric.parse(Ok("[00:09.00] other\n")), Ok(()));
    assert_eq!(lyric.timestamps(), &vec![9000]);
    assert_eq!(lyric.text(), &vec!["other".to_string()]);
}

#[test]
fn position_resolves_to_the_last_verse_that_is_due() {
    let lyric = parsed("[00:01.00] a\n[00:05.00] b\n[00:09.00] c\n");
    // before the first timestamp
    assert_eq!(lyric.get_singed_verse_index(0), 0);
    assert_eq!(lyric.get_singed_verse_index(999), 0);
    // exactly at a timestamp
    assert_eq!(lyric.get_singed_verse_index(1000), 0);
    assert_eq!(lyric.get_singed_verse_index(5000), 1);
    assert_eq!(lyric.get_singed_verse_index(9000), 2);
    // between two timestamps
    assert_eq!(lyric.get_singed_verse_index(1001), 0);
    assert_eq!(lyric.get_singed_verse_index(4999), 0);
    assert_eq!(lyric.get_singed_verse_index(8999), 1);
    // after the last timestamp
    assert_eq!(lyric.get_singed_verse_index(9001), 2);
    assert_eq!(lyric.get_singed_verse_index(usize::MAX), 2);
}

#[test]
fn position_resolves_to_the_last_of_equal_timestamps() {
    let lyric = parsed("[00:01.00] a\n[00:01.00] b\n[00:02.00] c\n[00:02.00] d\n");
    assert_eq!(lyric.get_singed_verse_index(1000), 1);
    assert_eq!(lyric.get_singed_verse_index(1500), 1);
    assert_eq!(lyric.get_singed_verse_index(2000), 3);
}

#[test]
fn position_resolves_to_zero_without_verses() {
    assert_eq!(Lyric::new().get_singed_verse_index(0), 0);
    assert_eq!(Lyric::new().get_singed_verse_index(5000), 0);
}

#[test]
fn resolver_agrees_with_a_scan_on_every_position() {
    let lyric = parsed("[00:00.50] a\n[00:01.00] b\n[00:01.00] c\n[00:03.20] d\n[00:04.00] e\n");
    let timestamps = lyric.timestamps().clone();
    for position in 0..5000usize {
        let due = timestamps.iter().filter(|t| **t <= position).count();
        let expected = if due == 0 { 0 } else { due - 1 };
        assert_eq!(lyric.get_singed_verse_index(position), expected, "{position}");
    }
}

#[test]
fn digest_file_name_is_the_md5_of_artist_and_title() {
    assert_eq!(
        Lyric::file_name(LookupScheme::Digest, &song("a", "bc")),
        "900150983cd24fb0d6963f7d28e17f72.lrc"
    );
    assert_eq!(
        Lyric::file_name(LookupScheme::Digest, &song("abcdefghijklm", "nopqrstuvwxyz")),
        "c3fcd3d76192e4007dfb496cca67e13b.lrc"
    );
    assert_eq!(
        Lyric::file_name(LookupScheme::Digest, &PlayerSongInfo::new()),
        "d41d8cd98f00b204e9800998ecf8427e.lrc"
    );
}

#[test]
fn literal_file_name_spells_artist_and_title() {
    assert_eq!(
        Lyric::file_name(LookupScheme::Literal, &song("Artist", "Title")),
        "Artist - Title.lrc"
    );
}

#[test]
fn file_names_are_stable_and_distinct() {
    let tracks = [
        ("Queen", "Bohemian Rhapsody"),
        ("Queen", "Somebody to Love"),
        ("Muse", "Bohemian Rhapsody"),
        ("Sigur R\u{00f3}s", "Hopp\u{00ed}polla"),
        ("", "Untitled"),
        ("Untitled", "x"),
    ];
    for scheme in [LookupScheme::Digest, LookupScheme::Literal] {
        let mut names: Vec<String> = Vec::new();
        for (artist, title) in tracks {
            let name = Lyric::file_name(scheme, &song(artist, title));
            assert_eq!(name, Lyric::file_name(scheme, &song(artist, title)));
            assert!(!names.contains(&name), "{name}");
            names.push(name);
        }
    }
}

#[test]
fn file_path_joins_directory_and_name() {
    let track = song("a", "bc");
    assert_eq!(
        Lyric::file_path(LookupScheme::Digest, Some("/home/me/lyrics"), &track),
        Ok("/home/me/lyrics/900150983cd24fb0d6963f7d28e17f72.lrc".to_string())
    );
    assert_eq!(
        Lyric::file_path(LookupScheme::Digest, Some("/home/me/lyrics///"), &track),
        Ok("/home/me/lyrics/900150983cd24fb0d6963f7d28e17f72.lrc".to_string())
    );
    assert_eq!(
        Lyric::file_path(LookupScheme::Literal, Some("lyrics/"), &track),
        Ok("lyrics/a - bc.lrc".to_string())
    );
    assert_eq!(
        Lyric::file_path(LookupScheme::Literal, Some("/"), &track),
        Ok("/a - bc.lrc".to_string())
    );
    assert_eq!(
        Lyric::file_path(LookupScheme::Literal, Some(""), &track),
        Ok("/a - bc.lrc".to_string())
    );
}

#[test]
fn file_path_needs_a_directory() {
    assert_eq!(
        Lyric::file_path(LookupScheme::Digest, None, &song("a", "bc")),
        Err(RuntimeError::ErrorEnvironmentVariableNotSet)
    );
}

#[test]
fn trailing_slashes_are_cut() {
    assert_eq!(Lyric::without_slashes("/a/b//"), "/a/b");
    assert_eq!(Lyric::without_slashes("/a/b"), "/a/b");
    assert_eq!(Lyric::without_slashes("///"), "");
    assert_eq!(Lyric::without_slashes(""), "");
    for dir in ["", "/", "a/", "/a//b/", "a", "//a//"] {
        assert_eq!(Lyric::without_slashes(dir), dir.trim_end_matches('/'));
    }
}

#[test]
fn bytes_in_hexadecimal() {
    assert_eq!(to_hex(&vec![]), "");
    assert_eq!(to_hex(&vec![0x00, 0xff, 0x1a, 0xa1, 0x09, 0x90]), "00ff1aa10990");
    let all: Vec<u8> = (0..=255).collect();
    let expected: String = all.iter().map(|b| format!("{:02x}", b)).collect();
    assert_eq!(to_hex(&all), expected);
}

#[test]
fn lookup_scheme_by_setting() {
    assert_eq!(LookupScheme::from_setting(None), LookupScheme::Digest);
    assert_eq!(LookupScheme::from_setting(Some("")), LookupScheme::Digest);
    assert_eq!(LookupScheme::from_setting(Some("digest")), LookupScheme::Digest);
    assert_eq!(LookupScheme::from_setting(Some("literal")), LookupScheme::Literal);
    assert_eq!(LookupScheme::from_setting(Some("Literal")), LookupScheme::Digest);
    assert_eq!(LookupScheme::from_setting(Some("literal ")), LookupScheme::Digest);
}

#[test]
fn digest_name_spells_the_digest() {
    assert_eq!(Lyric::digest_name(&vec![0xde, 0xad, 0xbe, 0xef]), "deadbeef.lrc");
    assert_eq!(Lyric::digest_name(&vec![]), ".lrc");
}
