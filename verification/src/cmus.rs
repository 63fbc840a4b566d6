//! The music player: what it answers to a status request, and the track and
//! playback position read from that answer.
//!
//! The answer is text, one `key value` pair per line: `tag title <value>`,
//! `tag artist <value>`, `position <seconds>`. A key that is missing yields an
//! empty value.

use vstd::prelude::*;
use vstd::string::*;
use crate::error::RuntimeError;
use crate::text::{
    char_digit, char_is_digit, decimal_value, find, find_char, is_digit, is_number,
    lemma_find_char, starts_with, to_chars, trim, trimmed,
};

verus! {

/// The track that is playing and how far into it the player is.
#[derive(Debug)]
pub struct PlayerSongInfo {
    pub title: String,
    pub artist: String,
    /// Playback position in milliseconds.
    pub position: usize,
}

impl PlayerSongInfo {
    /// No track: empty title and artist, position zero.
    pub fn new() -> (song: PlayerSongInfo)
        ensures
            song.title@.len() == 0,
            song.artist@.len() == 0,
            song.position == 0,
    {
        PlayerSongInfo { title: String::new(), artist: String::new(), position: 0 }
    }

    /// Whether both values name the same track. The position plays no part.
    pub open spec fn same_track(&self, other: &PlayerSongInfo) -> bool {
        self.title@ == other.title@ && self.artist@ == other.artist@
    }
}

impl Clone for PlayerSongInfo {
    fn clone(&self) -> (copy: PlayerSongInfo)
        ensures
            copy.title@ == self.title@,
            copy.artist@ == self.artist@,
            copy.position == self.position,
    {
        PlayerSongInfo {
            title: self.title.clone(),
            artist: self.artist.clone(),
            position: self.position,
        }
    }
}

impl PartialEq for PlayerSongInfo {
    /// Two values are equal when title and artist are; the position is left
    /// out.
    fn eq(&self, other: &Self) -> (equal: bool) {
        self.title == other.title && self.artist == other.artist
    }
}

impl vstd::std_specs::cmp::PartialEqSpecImpl for PlayerSongInfo {
    open spec fn obeys_eq_spec() -> bool {
        true
    }

    open spec fn eq_spec(&self, other: &Self) -> bool {
        self.same_track(other)
    }
}

impl Eq for PlayerSongInfo {

}

/// The text that `String::from_utf8_lossy` returns for `bytes`: their
/// decoding as UTF-8, with the replacement character in place of what is no
/// valid UTF-8.
pub uninterp spec fn utf8_lossy(bytes: Seq<u8>) -> Seq<char>;

/// Calls `String::from_utf8_lossy` on `bytes` and returns the text as a string
/// of its own.
///
/// Believed, not proved: the text depends on `bytes` alone, so that it can be
/// named `utf8_lossy(bytes)`. Nothing is claimed of its characters.
#[verifier::external_body]
fn decode_lossy(bytes: &[u8]) -> (decoded: String)
    ensures
        decoded@ == utf8_lossy(bytes@),
{
    String::from_utf8_lossy(bytes).into_owned()
}

/// The index of the first zero byte of `bytes` at or after `from`; the length
/// of `bytes` when there is none.
pub open spec fn first_nul(bytes: Seq<u8>, from: int) -> int
    decreases bytes.len() - from,
{
    if from < 0 || from >= bytes.len() {
        bytes.len() as int
    } else if bytes[from] == 0 {
        from
    } else {
        first_nul(bytes, from + 1)
    }
}

/// The status text that the answer `response` holds: the bytes before the
/// first zero byte, decoded.
pub open spec fn status_text(response: Seq<u8>) -> Seq<char> {
    utf8_lossy(response.take(first_nul(response, 0)))
}

/// The value of the first line of `status`, from the index `from` on, that
/// starts with `pattern`: what follows the pattern on that line, without the
/// whitespace around it. Empty when no line starts with the pattern.
pub open spec fn status_value(status: Seq<char>, pattern: Seq<char>, from: int) -> Seq<char>
    decreases status.len() - from,
{
    if from < 0 || from > status.len() {
        Seq::empty()
    } else {
        let end = find_char(status, '\n', from);
        proof {
            lemma_find_char(status, '\n', from);
        }
        let line = status.subrange(from, end);
        if pattern.is_prefix_of(line) {
            trim(line.skip(pattern.len() as int))
        } else if end < status.len() {
            status_value(status, pattern, end + 1)
        } else {
            Seq::empty()
        }
    }
}

/// The digits of a number written with or without a leading `+`.
pub open spec fn unsigned_digits(s: Seq<char>) -> Seq<char> {
    if s.len() > 0 && s[0] == '+' {
        s.skip(1)
    } else {
        s
    }
}

/// The playback position in milliseconds that the text `seconds` stands for:
/// a decimal number of seconds, times a thousand. `None` when the text is no
/// decimal number or the milliseconds do not fit the machine's word.
pub open spec fn position_millis(seconds: Seq<char>) -> Option<nat> {
    let digits = unsigned_digits(seconds);
    if is_number(digits) && decimal_value(digits) * 1000 <= usize::MAX {
        Some(decimal_value(digits) * 1000)
    } else {
        None
    }
}

/// A number is at least as large as the number that its leading digits spell.
pub proof fn lemma_decimal_value_grows(s: Seq<char>, k: int)
    requires
        0 <= k <= s.len(),
    ensures
        decimal_value(s.take(k)) <= decimal_value(s),
    decreases s.len() - k,
{
    if k < s.len() {
        let front = s.drop_last();
        assert(front.take(k) =~= s.take(k));
        lemma_decimal_value_grows(front, k);
    } else {
        assert(s.take(k) =~= s);
    }
}

/// The playback position in milliseconds that `seconds` stands for.
pub fn parse_position(seconds: &str) -> (millis: Option<usize>)
    ensures
        match millis {
            Some(ms) => position_millis(seconds@) == Some(ms as nat),
            None => position_millis(seconds@) is None,
        },
{
    let chars = to_chars(seconds);
    let start: usize = if chars.len() > 0 && chars[0] == '+' {
        1
    } else {
        0
    };
    let ghost digits = unsigned_digits(chars@);
    if start == chars.len() {
        return None;
    }
    let mut value: usize = 0;
    let mut i: usize = start;
    while i < chars.len()
        invariant
            start <= i <= chars.len(),
            chars@ == seconds@,
            digits == unsigned_digits(chars@),
            digits == chars@.subrange(start as int, chars.len() as int),
            forall|k: int| 0 <= k < i - start ==> is_digit(#[trigger] digits[k]),
            value == decimal_value(digits.take(i - start)),
        decreases chars.len() - i,
    {
        let c = chars[i];
        if !char_is_digit(c) {
            assert(!is_digit(digits[i - start]));
            return None;
        }
        let ghost longer = digits.take(i - start + 1);
        assert(longer.drop_last() =~= digits.take(i - start));
        proof {
            lemma_decimal_value_grows(digits, i - start + 1);
        }
        let tens = match value.checked_mul(10) {
            Some(tens) => tens,
            None => {
                return None;
            },
        };
        value = match tens.checked_add(char_digit(c)) {
            Some(sum) => sum,
            None => {
                return None;
            },
        };
        i += 1;
    }
    assert(digits.take(i - start) =~= digits);
    value.checked_mul(1000)
}

/// The connection to the player: where its socket is, and its last answer.
pub struct Cmus {
    socket_path: String,
    status: String,
}

impl Cmus {
    /// The path of the player's socket.
    pub closed spec fn spec_socket_path(&self) -> Seq<char> {
        self.socket_path@
    }

    /// The status text of the player's last answer.
    pub closed spec fn spec_status(&self) -> Seq<char> {
        self.status@
    }

    /// A player whose socket is `cmus-socket` in the directory `runtime_dir`,
    /// with no answer yet.
    pub fn new(runtime_dir: &str) -> (player: Cmus)
        ensures
            player.spec_socket_path() == runtime_dir@ + "/cmus-socket"@,
            player.spec_status().len() == 0,
    {
        Cmus { socket_path: runtime_dir.to_owned().concat("/cmus-socket"), status: String::new() }
    }

    /// The path of the player's socket.
    pub fn socket_path(&self) -> (path: &str)
        ensures
            path@ == self.spec_socket_path(),
    {
        self.socket_path.as_str()
    }

    /// The status text of the player's last answer.
    pub fn status(&self) -> (status: &str)
        ensures
            status@ == self.spec_status(),
    {
        self.status.as_str()
    }

    /// The length of the status text in the answer `response`: the index of
    /// its first zero byte, or its length when it holds none.
    pub fn answer_length(response: &[u8]) -> (length: usize)
        ensures
            length == first_nul(response@, 0),
            length <= response.len(),
    {
        let mut end: usize = 0;
        while end < response.len() && response[end] != 0
            invariant
                end <= response.len(),
                first_nul(response@, 0) == first_nul(response@, end as int),
            decreases response.len() - end,
        {
            end += 1;
        }
        end
    }

    /// Takes the player's answer to a status request: the status text is what
    /// `response` holds before its first zero byte, decoded.
    pub fn update(&mut self, response: &[u8])
        ensures
            final(self).spec_status() == status_text(response@),
            final(self).spec_socket_path() == old(self).spec_socket_path(),
    {
        let end: usize = Cmus::answer_length(response);
        let text = vstd::slice::slice_subrange(response, 0, end);
        self.status = decode_lossy(text);
    }

    /// The value that the text `status` gives for the key `pattern`: of the
    /// first line that starts with `pattern`, the rest without the whitespace
    /// around it; empty when there is no such line.
    pub fn value_in(status: &str, pattern: &str) -> (value: String)
        ensures
            value@ == status_value(status@, pattern@, 0),
    {
        let chars = to_chars(status);
        let key = to_chars(pattern);
        let mut from: usize = 0;
        loop
            invariant
                from <= chars.len(),
                chars@ == status@,
                key@ == pattern@,
                status_value(chars@, key@, 0) == status_value(chars@, key@, from as int),
            decreases chars.len() - from,
        {
            let end: usize = find(&chars, '\n', from);
            if starts_with(&chars, from, end, &key) {
                assert(chars@.subrange(from as int, end as int).skip(key.len() as int)
                    =~= chars@.subrange(from + key.len(), end as int));
                return trimmed(&chars, from + key.len(), end);
            }
            if end >= chars.len() {
                return String::new();
            }
            from = end + 1;
        }
    }

    /// The track and the playback position that the text `status` names:
    /// title, artist and position are the values of the keys `tag title`,
    /// `tag artist` and `position`. Fails with `ErrorExpectedNumber` exactly
    /// when the status holds no usable position.
    pub fn metadata_in(status: &str) -> (song: Result<PlayerSongInfo, RuntimeError>)
        ensures
            match position_millis(status_value(status@, "position"@, 0)) {
                Some(millis) => song matches Ok(info) && info.title@ == status_value(
                    status@,
                    "tag title"@,
                    0,
                ) && info.artist@ == status_value(status@, "tag artist"@, 0) && info.position
                    == millis,
                None => song matches Err(e) && e == RuntimeError::ErrorExpectedNumber,
            },
    {
        let title = Cmus::value_in(status, "tag title");
        let artist = Cmus::value_in(status, "tag artist");
        let seconds = Cmus::value_in(status, "position");
        match parse_position(seconds.as_str()) {
            Some(position) => Ok(PlayerSongInfo { title, artist, position }),
            None => Err(RuntimeError::ErrorExpectedNumber),
        }
    }

    /// The value that the player's last answer gives for the key `pattern`.
    pub fn parse_status(&self, pattern: &str) -> (value: String)
        ensures
            value@ == status_value(self.spec_status(), pattern@, 0),
    {
        Cmus::value_in(self.status.as_str(), pattern)
    }

    /// The track and the playback position that the player's last answer
    /// names. Fails with `ErrorExpectedNumber` exactly when the answer holds
    /// no usable position.
    pub fn playing_song_metadata(&self) -> (song: Result<PlayerSongInfo, RuntimeError>)
        ensures
            match position_millis(status_value(self.spec_status(), "position"@, 0)) {
                Some(millis) => song matches Ok(info) && info.title@ == status_value(
                    self.spec_status(),
                    "tag title"@,
                    0,
                ) && info.artist@ == status_value(self.spec_status(), "tag artist"@, 0)
                    && info.position == millis,
                None => song matches Err(e) && e == RuntimeError::ErrorExpectedNumber,
            },
    {
        Cmus::metadata_in(self.status.as_str())
    }
}

} // verus!
