//! The polling loop's state and its decisions.
//!
//! The caller runs the loop. Each cycle it asks the player for its status and
//! hands the answer to [`RuntimeContext::update`]; when that reports a new
//! song it looks the lyric file up and hands the outcome to
//! [`RuntimeContext::load_lyric`]; it hands the cycle's result to
//! [`RuntimeContext::display`] and carries out the commands that come back;
//! and it hands the key that was pressed, if any, to
//! [`RuntimeContext::key_pressed`].

use vstd::prelude::*;
use crate::cmus::{position_millis, status_text, status_value, Cmus, PlayerSongInfo};
use crate::error::RuntimeError;
use crate::gui::{
    general_error_commands, lemma_slice_starts_with_move, lyric_not_found_commands,
    printable_rows, vector_commands, window_end, window_start, Command, CommandView, Gui, Size,
};
use crate::lrc::file_verses;
use crate::lyric::Lyric;
use crate::verse::{active_index, sort_verses, Verse};

verus! {

/// What the last poll changed.
#[derive(Copy, Clone, Debug, PartialEq, Eq, Structural)]
pub enum RuntimeStatus {
    /// Another track is playing.
    NewSong,
    /// The same track is playing and another verse is being sung.
    NewIndex,
    /// Nothing that shows.
    NoUpdate,
}

/// The state of the polling loop.
pub struct RuntimeContext {
    /// The player and its last answer.
    pub player: Cmus,
    /// The verses of the track that is playing.
    pub lyric: Lyric,
    /// The track that was playing at the last poll.
    pub song: PlayerSongInfo,
    /// The index of the verse being sung.
    pub fixed_index: usize,
    /// What the last poll changed.
    pub state: RuntimeStatus,
    /// The failure that is on the screen, if one is.
    pub last_error: Option<RuntimeError>,
}

/// The texts of `verses`, in order.
pub open spec fn verse_texts(verses: Seq<Verse>) -> Seq<Seq<char>> {
    verses.map_values(|v: Verse| v.text)
}

/// The commands that show the failure `error` for the track of `artist` and
/// `title`.
pub open spec fn error_commands(
    error: RuntimeError,
    artist: Seq<char>,
    title: Seq<char>,
    width: nat,
) -> Seq<CommandView> {
    match error {
        RuntimeError::ErrorLyricNotFound => lyric_not_found_commands(artist, title, width),
        _ => general_error_commands(error.spec_message()),
    }
}

/// A cycle that changed neither the track nor the index draws nothing.
pub proof fn lemma_no_redraw_without_change(context: RuntimeContext, size: Size)
    requires
        context.state == RuntimeStatus::NoUpdate,
    ensures
        context.display_commands(Ok(()), size).len() == 0,
{
}

/// A failure that is on the screen is not painted again while the track stays
/// the same.
pub proof fn lemma_failure_painted_once(context: RuntimeContext, error: RuntimeError, size: Size)
    requires
        context.last_error == Some(error),
        context.state != RuntimeStatus::NewSong,
    ensures
        context.display_commands(Err(error), size).len() == 0,
{
}

/// A failure is painted when it is another one than is on the screen, and
/// whenever the track has just changed.
pub proof fn lemma_failure_painted(context: RuntimeContext, error: RuntimeError, size: Size)
    requires
        context.last_error != Some(error) || context.state == RuntimeStatus::NewSong,
    ensures
        context.display_commands(Err(error), size) == error_commands(
            error,
            context.song.artist@,
            context.song.title@,
            size.width as nat,
        ),
        context.display_commands(Err(error), size).len() > 0,
{
}

/// A song change clears the screen before the verses are drawn; an index
/// change draws them without clearing.
pub proof fn lemma_full_redraw_on_song_change(context: RuntimeContext, size: Size)
    requires
        context.lyric.is_valid(),
        context.state != RuntimeStatus::NoUpdate,
    ensures
        context.display_commands(Ok(()), size).len() > 0,
        (context.display_commands(Ok(()), size)[0] == CommandView::ClearScreen) == (context.state
            == RuntimeStatus::NewSong),
{
    let verses = verse_texts(context.lyric@);
    let printable = printable_rows(size.height as nat);
    let start = window_start(verses.len(), context.fixed_index as nat, printable);
    let end = window_end(verses.len(), context.fixed_index as nat, printable);
    lemma_slice_starts_with_move(verses, context.fixed_index as nat, start, end, size.width as nat);
}

impl RuntimeContext {
    /// The state before the first poll: no track, no verses, nothing on the
    /// screen. The player's socket is looked for in `runtime_dir`.
    pub fn new(runtime_dir: &str) -> (context: RuntimeContext)
        ensures
            context.player.spec_socket_path() == runtime_dir@ + "/cmus-socket"@,
            context.lyric@.len() == 0,
            !context.lyric.is_valid(),
            context.song.title@.len() == 0,
            context.song.artist@.len() == 0,
            context.song.position == 0,
            context.fixed_index == 0,
            context.state == RuntimeStatus::NoUpdate,
            context.last_error is None,
    {
        RuntimeContext {
            player: Cmus::new(runtime_dir),
            lyric: Lyric::new(),
            song: PlayerSongInfo::new(),
            fixed_index: 0,
            state: RuntimeStatus::NoUpdate,
            last_error: None,
        }
    }

    /// The commands that take the terminal over before the first poll.
    pub fn init(&mut self) -> (commands: Vec<Command>)
        ensures
            *final(self) == *old(self),
            commands.deep_view() == seq![
                CommandView::EnableRawMode,
                CommandView::HideCaret,
                CommandView::ClearScreen,
                CommandView::Flush,
            ],
    {
        Gui::initialize()
    }

    /// Whether the verse being sung can be asked for: the lyric holds a verse.
    pub open spec fn has_verses(&self) -> bool {
        self.lyric@.len() > 0
    }

    /// Takes the outcome of one poll of the player: its answer, or the
    /// failure of the socket.
    ///
    /// A failure is handed back and changes nothing but `state`. So does an
    /// answer without a usable position, as `ErrorExpectedNumber`. An answer
    /// that names another track than the remembered one is a song change: the
    /// track is remembered, the verses are dropped and the index is zero,
    /// until `load_lyric` brings the new verses. An answer that names the
    /// same track moves the index to the verse being sung at the new
    /// position; `state` tells whether the index changed.
    pub fn update(&mut self, response: Result<&[u8], RuntimeError>) -> (result: Result<
        (),
        RuntimeError,
    >)
        ensures
            final(self).last_error == old(self).last_error,
            match response {
                Err(e) => {
                    &&& result == Err::<(), RuntimeError>(e)
                    &&& final(self).state == RuntimeStatus::NoUpdate
                    &&& final(self).player == old(self).player
                    &&& final(self).lyric == old(self).lyric
                    &&& final(self).song == old(self).song
                    &&& final(self).fixed_index == old(self).fixed_index
                },
                Ok(answer) => {
                    let status = status_text(answer@);
                    &&& final(self).player.spec_status() == status
                    &&& final(self).player.spec_socket_path() == old(self).player.spec_socket_path()
                    &&& match position_millis(status_value(status, "position"@, 0)) {
                        None => {
                            &&& result == Err::<(), RuntimeError>(
                                RuntimeError::ErrorExpectedNumber,
                            )
                            &&& final(self).state == RuntimeStatus::NoUpdate
                            &&& final(self).lyric == old(self).lyric
                            &&& final(self).song == old(self).song
                            &&& final(self).fixed_index == old(self).fixed_index
                        },
                        Some(position) => {
                            let title = status_value(status, "tag title"@, 0);
                            let artist = status_value(status, "tag artist"@, 0);
                            &&& result is Ok
                            &&& final(self).song.title@ == title
                            &&& final(self).song.artist@ == artist
                            &&& final(self).song.position == position
                            &&& if title != old(self).song.title@ || artist != old(self).song.artist@ {
                                &&& final(self).state == RuntimeStatus::NewSong
                                &&& final(self).lyric@.len() == 0
                                &&& !final(self).lyric.is_valid()
                                &&& final(self).fixed_index == 0
                            } else {
                                &&& final(self).lyric == old(self).lyric
                                &&& if old(self).has_verses() {
                                    &&& final(self).fixed_index == active_index(
                                        old(self).lyric@,
                                        position,
                                    )
                                    &&& final(self).fixed_index < old(self).lyric@.len()
                                    &&& final(self).state == if final(self).fixed_index != old(self).fixed_index {
                                        RuntimeStatus::NewIndex
                                    } else {
                                        RuntimeStatus::NoUpdate
                                    }
                                } else {
                                    &&& final(self).fixed_index == old(self).fixed_index
                                    &&& final(self).state == RuntimeStatus::NoUpdate
                                }
                            }
                        },
                    }
                },
            },
    {
        self.state = RuntimeStatus::NoUpdate;
        let answer = match response {
            Ok(answer) => answer,
            Err(e) => {
                return Err(e);
            },
        };
        self.player.update(answer);
        let song = match self.player.playing_song_metadata() {
            Ok(song) => song,
            Err(e) => {
                return Err(e);
            },
        };
        if self.song != song {
            self.state = RuntimeStatus::NewSong;
            self.song = song;
            self.lyric = Lyric::new();
            self.fixed_index = 0;
            return Ok(());
        }
        self.song = song;
        if self.lyric.len() > 0 {
            let fixed_index = self.lyric.get_singed_verse_index(self.song.position);
            if fixed_index != self.fixed_index {
                self.fixed_index = fixed_index;
                self.state = RuntimeStatus::NewIndex;
            }
        }
        Ok(())
    }

    /// Takes the outcome of looking up the lyric file of the remembered
    /// track: the content of the file, or the reason why there is none.
    ///
    /// A failure is handed back and leaves the lyric empty. Content is parsed;
    /// where it holds no verse the result is `ErrorLyricParse`, else the index
    /// is that of the verse being sung at the remembered position.
    pub fn load_lyric(&mut self, file: Result<&str, RuntimeError>) -> (result: Result<
        (),
        RuntimeError,
    >)
        ensures
            final(self).player == old(self).player,
            final(self).song == old(self).song,
            final(self).state == old(self).state,
            final(self).last_error == old(self).last_error,
            match file {
                Err(e) => {
                    &&& result == Err::<(), RuntimeError>(e)
                    &&& final(self).lyric@.len() == 0
                    &&& !final(self).lyric.is_valid()
                    &&& final(self).fixed_index == 0
                },
                Ok(content) => {
                    let verses = sort_verses(file_verses(content@, 0));
                    &&& final(self).lyric@ == verses
                    &&& final(self).lyric.is_valid()
                    &&& if verses.len() == 0 {
                        &&& result == Err::<(), RuntimeError>(RuntimeError::ErrorLyricParse)
                        &&& final(self).fixed_index == 0
                    } else {
                        &&& result is Ok
                        &&& final(self).fixed_index == active_index(
                            verses,
                            old(self).song.position as nat,
                        )
                        &&& final(self).fixed_index < verses.len()
                    }
                },
            },
    {
        self.fixed_index = 0;
        match self.lyric.parse(file) {
            Ok(()) => {},
            Err(e) => {
                return Err(e);
            },
        }
        if self.lyric.len() == 0 {
            return Err(RuntimeError::ErrorLyricParse);
        }
        self.fixed_index = self.lyric.get_singed_verse_index(self.song.position);
        Ok(())
    }

    /// Whether the result of a cycle puts the verses on the screen: the cycle
    /// went well, a lyric was read, and the track or the index changed.
    pub open spec fn draws_verses(&self, outcome: Result<(), RuntimeError>) -> bool {
        outcome is Ok && self.lyric.is_valid() && self.state != RuntimeStatus::NoUpdate
    }

    /// Whether the result of a cycle puts a failure on the screen: the cycle
    /// failed, and the failure is another one than is shown already or the
    /// track has just changed.
    pub open spec fn draws_error(&self, outcome: Result<(), RuntimeError>) -> bool {
        outcome matches Err(e) && (self.last_error != Some(e) || self.state
            == RuntimeStatus::NewSong)
    }

    /// The commands that bring the screen up to date with the result of a
    /// cycle.
    pub open spec fn display_commands(&self, outcome: Result<(), RuntimeError>, size: Size) -> Seq<
        CommandView,
    > {
        if self.draws_verses(outcome) {
            let drawn = vector_commands(verse_texts(self.lyric@), self.fixed_index as nat, size);
            if self.state == RuntimeStatus::NewSong {
                seq![CommandView::ClearScreen] + drawn
            } else {
                drawn
            }
        } else if self.draws_error(outcome) {
            error_commands(outcome->Err_0, self.song.artist@, self.song.title@, size.width as nat)
        } else {
            Seq::empty()
        }
    }

    /// The commands that bring the screen up to date with the result of a
    /// cycle, `outcome`, on a terminal of the given size.
    ///
    /// After a song change the screen is cleared and the window of verses
    /// drawn; after an index change the window is drawn over the old one;
    /// else nothing is drawn. A failure is shown once: again only when it
    /// differs from the one on the screen, or when the track has just
    /// changed.
    pub fn display(&mut self, outcome: Result<(), RuntimeError>, size: Size) -> (commands: Vec<
        Command,
    >)
        ensures
            commands.deep_view() == old(self).display_commands(outcome, size),
            final(self).last_error == if old(self).draws_verses(outcome) {
                None
            } else if old(self).draws_error(outcome) {
                Some(outcome->Err_0)
            } else {
                old(self).last_error
            },
            final(self).player == old(self).player,
            final(self).lyric == old(self).lyric,
            final(self).song == old(self).song,
            final(self).fixed_index == old(self).fixed_index,
            final(self).state == old(self).state,
    {
        match outcome {
            Ok(()) => {
                if self.lyric.valid() && self.state != RuntimeStatus::NoUpdate {
                    let text = self.lyric.text();
                    assert(text.deep_view() =~= verse_texts(self.lyric@));
                    let mut commands: Vec<Command> = Vec::new();
                    if self.state == RuntimeStatus::NewSong {
                        commands.push(Command::ClearScreen);
                    }
                    let ghost before = commands.deep_view();
                    let mut drawn = Gui::print_vector(text, self.fixed_index, size);
                    commands.append(&mut drawn);
                    self.last_error = None;
                    commands
                } else {
                    Vec::new()
                }
            },
            Err(e) => {
                let shown: bool = match self.last_error {
                    Some(last) => last == e,
                    None => false,
                };
                if !shown || self.state == RuntimeStatus::NewSong {
                    self.last_error = Some(e);
                    match e {
                        RuntimeError::ErrorLyricNotFound => Gui::print_lyric_not_found_error(
                            self.song.artist.as_str(),
                            self.song.title.as_str(),
                            size,
                        ),
                        _ => Gui::print_general_error(e.message()),
                    }
                } else {
                    Vec::new()
                }
            },
        }
    }

    /// Takes the key that was pressed, if any, and tells whether the loop
    /// ends: `q` ends it; `r` forgets the remembered track, so that the next
    /// poll reads the lyric anew; any other key does nothing.
    pub fn key_pressed(&mut self, key: Option<char>) -> (quit: bool)
        ensures
            quit == (key == Some('q')),
            final(self).player == old(self).player,
            final(self).lyric == old(self).lyric,
            final(self).fixed_index == old(self).fixed_index,
            final(self).state == old(self).state,
            final(self).last_error == old(self).last_error,
            key == Some('r') ==> final(self).song.title@.len() == 0 && final(self).song.artist@.len() == 0 && final(self).song.position == 0,
            key != Some('r') ==> final(self).song == old(self).song,
    {
        match key {
            Some(c) => {
                if c == 'q' {
                    true
                } else {
                    if c == 'r' {
                        self.song = PlayerSongInfo::new();
                    }
                    false
                }
            },
            None => false,
        }
    }
}

} // verus!
