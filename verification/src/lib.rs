//! Lyrics synchronised to a music player's playback position.
//!
//! The library holds the pure part of a terminal lyric viewer: the parser of
//! timestamped lyric files, the resolver from a playback position to the verse
//! being sung, the windowing of the verses into the rows of a terminal, and the
//! decisions of the polling loop. Every function is verified; terminal and
//! socket I/O are left to the caller, who hands in plain values and carries out
//! the terminal commands that come back.

pub mod cmus;
pub mod digest;
pub mod error;
pub mod gui;
pub mod lookup;
pub mod lrc;
pub mod lyric;
pub mod runtime;
pub mod text;
pub mod verse;
