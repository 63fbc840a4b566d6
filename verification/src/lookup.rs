//! Where the lyric file of a track is looked for: in the lyric directory,
//! under a name made from artist and title.

use vstd::prelude::*;
use vstd::string::*;
use vstd::utf8::encode_utf8;
use crate::cmus::PlayerSongInfo;
use crate::digest::{hex_lower, md5_compute, md5_digest, to_hex};
use crate::error::RuntimeError;
use crate::lyric::Lyric;
use crate::text::{same_text, string_from, to_chars};

verus! {

/// How the name of a track's lyric file is made.
#[derive(Copy, Clone, Debug, PartialEq, Eq, Structural)]
pub enum LookupScheme {
    /// The MD5 digest of artist and title, in hexadecimal.
    Digest,
    /// Artist and title, as `Artist - Title`.
    Literal,
}

impl LookupScheme {
    /// The scheme that a setting names: `Literal` for the word `literal`,
    /// `Digest` for any other word and for no setting at all.
    pub fn from_setting(setting: Option<&str>) -> (scheme: LookupScheme)
        ensures
            scheme == if setting matches Some(word) && word@ == "literal"@ {
                LookupScheme::Literal
            } else {
                LookupScheme::Digest
            },
    {
        match setting {
            Some(word) => if same_text(word, "literal") {
                LookupScheme::Literal
            } else {
                LookupScheme::Digest
            },
            None => LookupScheme::Digest,
        }
    }
}

/// The name of the lyric file of a track.
pub open spec fn lyric_file_name(scheme: LookupScheme, artist: Seq<char>, title: Seq<char>) -> Seq<
    char,
> {
    match scheme {
        LookupScheme::Digest => hex_lower(md5_digest(encode_utf8(artist + title))) + ".lrc"@,
        LookupScheme::Literal => artist + " - "@ + title + ".lrc"@,
    }
}

/// `dir` without the slashes at its end.
pub open spec fn without_trailing_slashes(dir: Seq<char>) -> Seq<char>
    decreases dir.len(),
{
    if dir.len() > 0 && dir.last() == '/' {
        without_trailing_slashes(dir.drop_last())
    } else {
        dir
    }
}

/// The path of the lyric file of a track in the directory `dir`.
pub open spec fn lyric_file_path(
    scheme: LookupScheme,
    dir: Seq<char>,
    artist: Seq<char>,
    title: Seq<char>,
) -> Seq<char> {
    without_trailing_slashes(dir) + "/"@ + lyric_file_name(scheme, artist, title)
}

impl Lyric {
    /// The path of the lyric file of `song` in the directory `lyric_dir`.
    /// Fails with `ErrorEnvironmentVariableNotSet` exactly when no directory
    /// is given.
    pub fn file_path(scheme: LookupScheme, lyric_dir: Option<&str>, song: &PlayerSongInfo) -> (path:
        Result<String, RuntimeError>)
        ensures
            match lyric_dir {
                Some(dir) => path matches Ok(p) && p@ == lyric_file_path(
                    scheme,
                    dir@,
                    song.artist@,
                    song.title@,
                ),
                None => path matches Err(e) && e == RuntimeError::ErrorEnvironmentVariableNotSet,
            },
    {
        let dir = match lyric_dir {
            Some(dir) => dir,
            None => {
                return Err(RuntimeError::ErrorEnvironmentVariableNotSet);
            },
        };
        let mut path = Lyric::without_slashes(dir);
        path.append("/");
        let name = Lyric::file_name(scheme, song);
        path.append(name.as_str());
        Ok(path)
    }

    /// `dir` without the slashes at its end.
    pub fn without_slashes(dir: &str) -> (trimmed: String)
        ensures
            trimmed@ == without_trailing_slashes(dir@),
    {
        let chars = to_chars(dir);
        let mut end: usize = chars.len();
        assert(chars@.take(end as int) =~= chars@);
        while end > 0 && chars[end - 1] == '/'
            invariant
                end <= chars.len(),
                without_trailing_slashes(chars@) == without_trailing_slashes(
                    chars@.take(end as int),
                ),
            decreases end,
        {
            assert(chars@.take(end as int).drop_last() =~= chars@.take(end - 1));
            end -= 1;
        }
        string_from(&chars, 0, end)
    }

    /// The name of the lyric file of a track whose artist and title have the
    /// digest `digest`: the digest in hexadecimal, with the ending `.lrc`.
    pub fn digest_name(digest: &Vec<u8>) -> (name: String)
        ensures
            name@ == hex_lower(digest@) + ".lrc"@,
    {
        to_hex(digest).concat(".lrc")
    }

    /// The name of the lyric file of `song`.
    pub fn file_name(scheme: LookupScheme, song: &PlayerSongInfo) -> (name: String)
        ensures
            name@ == lyric_file_name(scheme, song.artist@, song.title@),
    {
        match scheme {
            LookupScheme::Digest => {
                let joined = song.artist.clone().concat(song.title.as_str());
                let digest = md5_compute(joined.as_str().as_bytes());
                Lyric::digest_name(&digest)
            },
            LookupScheme::Literal => {
                song.artist.clone().concat(" - ").concat(song.title.as_str()).concat(".lrc")
            },
        }
    }
}

} // verus!
