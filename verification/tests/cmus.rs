use cmus_lyrics::cmus::{parse_position, Cmus, PlayerSongInfo};
use cmus_lyrics::error::RuntimeError;

fn player(response: &[u8]) -> Cmus {
    let mut player = Cmus::new("/run/user/1000");
    player.update(response);
    player
}

const ANSWER: &[u8] = b"status playing\nfile /music/song.flac\nduration 215\nposition 12\ntag artist  Some Body \ntag album Records\ntag title Hello World\ntag date 1999\nset volume 50\n";

#[test]
fn socket_is_in_the_runtime_directory() {
    let player = Cmus::new("/run/user/1000");
    assert_eq!(player.socket_path(), "/run/user/1000/cmus-socket");
    assert_eq!(player.status(), "");
}

#[test]
fn no_track_is_empty() {
    let song = PlayerSongInfo::new();
    assert_eq!(song.title, "");
    assert_eq!(song.artist, "");
    assert_eq!(song.position, 0);
}

#[test]
fn tracks_are_equal_by_title_and_artist() {
    let a = PlayerSongInfo { title: "T".to_string(), artist: "A".to_string(), position: 1 };
    let b = PlayerSongInfo { title: "T".to_string(), artist: "A".to_string(), position: 99000 };
    let c = PlayerSongInfo { title: "T".to_string(), artist: "B".to_string(), position: 1 };
    let d = PlayerSongInfo { title: "U".to_string(), artist: "A".to_string(), position: 1 };
    assert!(a == b);
    assert!(a != c);
    assert!(a != d);
    let copy = a.clone();
    assert!(copy == a);
    assert_eq!(copy.position, 1);
}

#[test]
fn status_ends_at_the_first_zero_byte() {
    let mut response = ANSWER.to_vec();
    response.extend_from_slice(&[0, b'x', b'y', 0, 0]);
    let player = player(&response);
    assert_eq!(player.status().as_bytes(), ANSWER);
    assert_eq!(player.socket_path(), "/run/user/1000/cmus-socket");
}

#[test]
fn status_without_zero_byte_is_taken_whole() {
    assert_eq!(player(ANSWER).status().as_bytes(), ANSWER);
    assert_eq!(player(b"").status(), "");
    assert_eq!(player(&[0; 2048]).status(), "");
}

#[test]
fn status_that_is_no_utf8_is_decoded_with_replacements() {
    let player = player(b"tag title caf\xff\nposition 1\n\0");
    assert_eq!(player.status(), "tag title caf\u{fffd}\nposition 1\n");
    assert_eq!(player.parse_status("tag title"), "caf\u{fffd}");
}

#[test]
fn value_of_a_key() {
    let player = player(ANSWER);
    assert_eq!(player.parse_status("tag title"), "Hello World");
    assert_eq!(player.parse_status("tag artist"), "Some Body");
    assert_eq!(player.parse_status("position"), "12");
    assert_eq!(player.parse_status("status"), "playing");
    assert_eq!(player.parse_status("set volume"), "50");
}

#[test]
fn value_of_a_missing_key_is_empty() {
    let player = player(ANSWER);
    assert_eq!(player.parse_status("tag genre"), "");
    assert_eq!(player.parse_status("osition"), "");
    assert_eq!(Cmus::new("").parse_status("position"), "");
}

#[test]
fn value_is_taken_from_the_first_line_that_starts_with_the_key() {
    let player = player(b"tag titlesort World\ntag title Hello\ntag title Other\n");
    assert_eq!(player.parse_status("tag title"), "sort World");
    assert_eq!(player.parse_status("tag title "), "Hello");
    assert_eq!(player.parse_status(""), "tag titlesort World");
}

#[test]
fn value_of_a_key_without_value_is_empty() {
    let player = player(b"tag title\r\ntag artist   \nposition 3\r\n");
    assert_eq!(player.parse_status("tag title"), "");
    assert_eq!(player.parse_status("tag artist"), "");
    assert_eq!(player.parse_status("position"), "3");
}

#[test]
fn metadata_of_the_playing_song() {
    let song = player(ANSWER).playing_song_metadata().unwrap();
    assert_eq!(song.title, "Hello World");
    assert_eq!(song.artist, "Some Body");
    assert_eq!(song.position, 12000);
}

#[test]
fn metadata_without_tags_has_empty_title_and_artist() {
    let song = player(b"status stopped\nposition 0\n").playing_song_metadata().unwrap();
    assert_eq!(song.title, "");
    assert_eq!(song.artist, "");
    assert_eq!(song.position, 0);
}

#[test]
fn metadata_without_position_is_an_error() {
    for answer in [
        &b""[..],
        b"status stopped\n",
        b"tag title T\ntag artist A\n",
        b"tag title T\nposition\n",
        b"tag title T\nposition twelve\n",
        b"tag title T\nposition 1.5\n",
        b"tag title T\nposition -3\n",
        b"tag title T\nposition 99999999999999999999999\n",
    ] {
        assert_eq!(
            player(answer).playing_song_metadata().unwrap_err(),
            RuntimeError::ErrorExpectedNumber
        );
    }
}

#[test]
fn position_in_milliseconds() {
    assert_eq!(parse_position("0"), Some(0));
    assert_eq!(parse_position("7"), Some(7000));
    assert_eq!(parse_position("215"), Some(215_000));
    assert_eq!(parse_position("007"), Some(7000));
    assert_eq!(parse_position("+5"), Some(5000));
    assert_eq!(parse_position(""), None);
    assert_eq!(parse_position("+"), None);
    assert_eq!(parse_position("-5"), None);
    assert_eq!(parse_position("5 "), None);
    assert_eq!(parse_position("++5"), None);
    assert_eq!(parse_position("5+"), None);
    assert_eq!(parse_position("\u{0665}"), None);
}

#[test]
fn position_that_does_not_fit_is_none() {
    let largest = usize::MAX / 1000;
    assert_eq!(parse_position(&largest.to_string()), Some(largest * 1000));
    assert_eq!(parse_position(&(largest + 1).to_string()), None);
    assert_eq!(parse_position(&usize::MAX.to_string()), None);
    assert_eq!(parse_position(&format!("{}0", usize::MAX)), None);
}

#[test]
fn position_agrees_with_the_standard_parser() {
    for text in ["", "0", "12", "+12", "-12", "1x", "x1", " 1", "0012", "+", "18446744073709551616"] {
        let expected = text.parse::<usize>().ok().and_then(|seconds| seconds.checked_mul(1000));
        assert_eq!(parse_position(text), expected, "{text:?}");
    }
}

#[test]
fn length_of_the_status_in_an_answer() {
    assert_eq!(Cmus::answer_length(b""), 0);
    assert_eq!(Cmus::answer_length(b"abc"), 3);
    assert_eq!(Cmus::answer_length(b"abc\0def\0"), 3);
    assert_eq!(Cmus::answer_length(b"\0abc"), 0);
    assert_eq!(Cmus::answer_length(&[1; 2048]), 2048);
}

#[test]
fn value_of_a_key_in_a_status_text() {
    let status = "status paused\ntag artist  A \ntag title T\nposition 3\n";
    assert_eq!(Cmus::value_in(status, "tag artist"), "A");
    assert_eq!(Cmus::value_in(status, "tag title"), "T");
    assert_eq!(Cmus::value_in(status, "position"), "3");
    assert_eq!(Cmus::value_in(status, "tag album"), "");
    assert_eq!(Cmus::value_in("", "position"), "");
    assert_eq!(Cmus::value_in("position 9", "position"), "9");
}

#[test]
fn metadata_in_a_status_text() {
    let song = Cmus::metadata_in("tag title T\ntag artist A\nposition 61\n").unwrap();
    assert_eq!(song.title, "T");
    assert_eq!(song.artist, "A");
    assert_eq!(song.position, 61000);
    assert_eq!(
        Cmus::metadata_in("tag title T\ntag artist A\n").unwrap_err(),
        RuntimeError::ErrorExpectedNumber
    );
}
