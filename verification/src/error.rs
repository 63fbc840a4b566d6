//! The recoverable failures of the polling loop.

use vstd::prelude::*;

verus! {

/// What can go wrong during one poll cycle. Every case is recoverable: it is
/// shown as a one-line message and the loop goes on.
#[derive(Clone, Copy, Debug, PartialEq, Eq, Structural)]
pub enum RuntimeError {
    /// The player's socket could not be opened.
    ErrorSocketConnect,
    /// The player's answer could not be read.
    ErrorSocketRead,
    /// The status request could not be written.
    ErrorSocketWrite,
    /// The player's status holds no usable playback position.
    ErrorExpectedNumber,
    /// The lyric directory is not configured.
    ErrorEnvironmentVariableNotSet,
    /// No lyric file exists for the playing track.
    ErrorLyricNotFound,
    /// The lyric file holds no verse at all.
    ErrorLyricParse,
}

impl RuntimeError {
    /// The text of the one-line message for this failure. The failure
    /// `ErrorLyricNotFound` is shown on several lines instead and has only a
    /// heading here.
    pub open spec fn spec_message(self) -> Seq<char> {
        match self {
            RuntimeError::ErrorSocketConnect => "Can't connect to CMUS socket"@,
            RuntimeError::ErrorSocketRead => "Can't read CMUS socket"@,
            RuntimeError::ErrorSocketWrite => "Can't write CMUS socket"@,
            RuntimeError::ErrorExpectedNumber => "Failed parsing song metadata"@,
            RuntimeError::ErrorEnvironmentVariableNotSet => "Enviromental variable $LYRIC not set"@,
            RuntimeError::ErrorLyricNotFound => "Lyric not found"@,
            RuntimeError::ErrorLyricParse => "Lyric file holds no verse"@,
        }
    }

    /// The one-line message shown for this failure.
    pub fn message(&self) -> (text: &'static str)
        ensures
            text@ == self.spec_message(),
    {
        match self {
            RuntimeError::ErrorSocketConnect => "Can't connect to CMUS socket",
            RuntimeError::ErrorSocketRead => "Can't read CMUS socket",
            RuntimeError::ErrorSocketWrite => "Can't write CMUS socket",
            RuntimeError::ErrorExpectedNumber => "Failed parsing song metadata",
            RuntimeError::ErrorEnvironmentVariableNotSet => "Enviromental variable $LYRIC not set",
            RuntimeError::ErrorLyricNotFound => "Lyric not found",
            RuntimeError::ErrorLyricParse => "Lyric file holds no verse",
        }
    }
}

} // verus!
