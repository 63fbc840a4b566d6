//! The screen: which verses are shown, where each line stands, and the
//! terminal commands that draw them.
//!
//! Nothing here touches a terminal. Every drawing function returns the list of
//! [`Command`]s that the caller carries out in order.

use vstd::prelude::*;
use vstd::string::*;

verus! {

/// Rows kept free above the first lyric line.
pub const TOP_OFFSET: usize = 1;

/// Rows kept free below the last lyric line.
pub const BOT_OFFSET: usize = 1;

/// The size of the terminal, in rows and columns.
#[derive(Default, Copy, Clone, Debug, PartialEq, Eq, Structural)]
pub struct Size {
    pub height: usize,
    pub width: usize,
}

/// A cell of the terminal, counted from the top left corner.
#[derive(Default, Copy, Clone, Debug, PartialEq, Eq, Structural)]
pub struct Position {
    pub col: usize,
    pub row: usize,
}

/// How the window of shown verses is anchored.
#[derive(Copy, Clone, Debug, PartialEq, Eq, Structural)]
pub enum PrintingStyle {
    /// The window starts at the first verse.
    FixedTop,
    /// The window moves with the active verse, which stands in its middle.
    FixedCenter,
    /// The window ends at the last verse.
    FixedBottom,
}

/// One step of drawing, for the caller to carry out on the terminal.
#[derive(Debug, PartialEq, Eq)]
pub enum Command {
    EnableRawMode,
    DisableRawMode,
    ClearScreen,
    ClearLine,
    MoveTo(Position),
    HideCaret,
    ShowCaret,
    Print(String),
    SetBold,
    ResetAttributes,
    Flush,
}

/// A [`Command`] as contracts see it: the printed text is a sequence of
/// characters.
pub enum CommandView {
    EnableRawMode,
    DisableRawMode,
    ClearScreen,
    ClearLine,
    MoveTo(Position),
    HideCaret,
    ShowCaret,
    Print(Seq<char>),
    SetBold,
    ResetAttributes,
    Flush,
}

impl View for Command {
    type V = CommandView;

    open spec fn view(&self) -> CommandView {
        match *self {
            Command::EnableRawMode => CommandView::EnableRawMode,
            Command::DisableRawMode => CommandView::DisableRawMode,
            Command::ClearScreen => CommandView::ClearScreen,
            Command::ClearLine => CommandView::ClearLine,
            Command::MoveTo(position) => CommandView::MoveTo(position),
            Command::HideCaret => CommandView::HideCaret,
            Command::ShowCaret => CommandView::ShowCaret,
            Command::Print(text) => CommandView::Print(text@),
            Command::SetBold => CommandView::SetBold,
            Command::ResetAttributes => CommandView::ResetAttributes,
            Command::Flush => CommandView::Flush,
        }
    }
}

impl DeepView for Command {
    type V = CommandView;

    open spec fn deep_view(&self) -> CommandView {
        self@
    }
}

/// What the terminal reported when it was asked for input.
#[derive(Copy, Clone, Debug, PartialEq, Eq, Structural)]
pub enum InputEvent {
    /// A key that stands for a character.
    Char(char),
    /// Any other key.
    OtherKey,
    /// Something that is no key press, such as a resize.
    Other,
}

/// The number of rows left for verses in a terminal of `height` rows.
pub open spec fn printable_rows(height: nat) -> nat {
    if height >= TOP_OFFSET + BOT_OFFSET {
        (height - TOP_OFFSET - BOT_OFFSET) as nat
    } else {
        0
    }
}

/// Half of the printable rows, rounded up.
pub open spec fn center_row(printable: nat) -> nat {
    (printable + 1) / 2
}

/// How a list of `total` verses with the verse `active` being sung is anchored
/// in `printable` rows.
pub open spec fn printing_style(total: nat, active: nat, printable: nat) -> PrintingStyle {
    if total <= printable {
        PrintingStyle::FixedTop
    } else if active < center_row(printable) {
        PrintingStyle::FixedTop
    } else if active > total - center_row(printable) {
        PrintingStyle::FixedBottom
    } else {
        PrintingStyle::FixedCenter
    }
}

/// The index of the first verse shown.
pub open spec fn window_start(total: nat, active: nat, printable: nat) -> nat {
    match printing_style(total, active, printable) {
        PrintingStyle::FixedTop => 0,
        PrintingStyle::FixedCenter => (active - printable / 2) as nat,
        PrintingStyle::FixedBottom => (total - printable) as nat,
    }
}

/// The index after the last verse shown.
pub open spec fn window_end(total: nat, active: nat, printable: nat) -> nat {
    match printing_style(total, active, printable) {
        PrintingStyle::FixedTop => if total <= printable {
            total
        } else {
            printable
        },
        _ => window_start(total, active, printable) + printable,
    }
}

/// The part of `text` that is shown in `width` columns: all of it when it is
/// narrower than the terminal, else its first `width` characters.
pub open spec fn visible_text(text: Seq<char>, width: nat) -> Seq<char> {
    if text.len() >= width {
        text.take(width as int)
    } else {
        text
    }
}

/// The column where a text of `len` characters starts: centred when it is
/// narrower than the terminal, else at the left edge.
pub open spec fn text_column(len: nat, width: nat) -> nat {
    if len >= width {
        0
    } else {
        (width / 2 - len / 2) as nat
    }
}

/// The commands that draw one line of text in `row`.
pub open spec fn line_commands(text: Seq<char>, row: nat, bold: bool, width: nat) -> Seq<
    CommandView,
> {
    let place = seq![
        CommandView::MoveTo(
            Position { col: text_column(text.len(), width) as usize, row: row as usize },
        ),
        CommandView::ClearLine,
    ];
    let shown = CommandView::Print(visible_text(text, width));
    if bold {
        place + seq![CommandView::SetBold, shown, CommandView::ResetAttributes]
    } else {
        place + seq![shown]
    }
}

/// The commands that draw the lines `start` up to `end`, one per row from
/// `TOP_OFFSET` down, the line `fixed_index` in bold.
pub open spec fn slice_commands(
    lines: Seq<Seq<char>>,
    fixed_index: nat,
    start: nat,
    end: nat,
    width: nat,
) -> Seq<CommandView>
    decreases end - start,
{
    if start >= end {
        Seq::empty()
    } else {
        let last = (end - 1) as nat;
        slice_commands(lines, fixed_index, start, last, width) + line_commands(
            lines[last as int],
            (TOP_OFFSET + last - start) as nat,
            last == fixed_index,
            width,
        )
    }
}

/// The commands that draw the window of `lines` around the line
/// `fixed_index` on a terminal of the given size.
pub open spec fn vector_commands(lines: Seq<Seq<char>>, fixed_index: nat, size: Size) -> Seq<
    CommandView,
> {
    let printable = printable_rows(size.height as nat);
    slice_commands(
        lines,
        fixed_index,
        window_start(lines.len(), fixed_index, printable),
        window_end(lines.len(), fixed_index, printable),
        size.width as nat,
    ) + seq![CommandView::Flush]
}

/// The commands that show a one-line message.
pub open spec fn general_error_commands(message: Seq<char>) -> Seq<CommandView> {
    seq![
        CommandView::ClearScreen,
        CommandView::MoveTo(Position { col: 0, row: TOP_OFFSET }),
        CommandView::Print(message),
        CommandView::Flush,
    ]
}

/// The lines shown when a track has no lyric file.
pub open spec fn lyric_not_found_lines(artist: Seq<char>, title: Seq<char>) -> Seq<Seq<char>> {
    seq!["Lyric not found"@, ""@, "Artist: "@ + artist, "Title: "@ + title]
}

/// The commands that tell that the track of `artist` and `title` has no lyric
/// file.
pub open spec fn lyric_not_found_commands(artist: Seq<char>, title: Seq<char>, width: nat) -> Seq<
    CommandView,
> {
    seq![CommandView::ClearScreen] + slice_commands(
        lyric_not_found_lines(artist, title),
        0,
        0,
        4,
        width,
    ) + seq![CommandView::Flush]
}

/// The commands that print the first `count` messages, one per row from the
/// top, each ending at the right edge.
pub open spec fn debug_commands(messages: Seq<Seq<char>>, count: nat, width: nat) -> Seq<
    CommandView,
>
    decreases count,
{
    if count == 0 {
        Seq::empty()
    } else {
        let last = (count - 1) as nat;
        let len = messages[last as int].len();
        let col = if len <= width {
            (width - len) as nat
        } else {
            0
        };
        debug_commands(messages, last, width) + seq![
            CommandView::MoveTo(Position { col: col as usize, row: last as usize }),
            CommandView::Print(messages[last as int]),
        ]
    }
}

/// The window never leaves the list.
pub proof fn lemma_window_in_bounds(total: nat, active: nat, printable: nat)
    ensures
        window_start(total, active, printable) <= window_end(total, active, printable) <= total,
{
}

/// The verse being sung is inside the window, wherever at least one row can be
/// printed.
pub proof fn lemma_active_in_window(total: nat, active: nat, printable: nat)
    requires
        active < total,
        printable > 0,
    ensures
        window_start(total, active, printable) <= active < window_end(total, active, printable),
{
}

/// A list that fits in the printable rows is shown whole, anchored at the top.
pub proof fn lemma_window_fits(total: nat, active: nat, printable: nat)
    requires
        total <= printable,
    ensures
        printing_style(total, active, printable) == PrintingStyle::FixedTop,
        window_start(total, active, printable) == 0,
        window_end(total, active, printable) == total,
{
}

/// A list longer than the printable rows fills them all.
pub proof fn lemma_window_full(total: nat, active: nat, printable: nat)
    requires
        total > printable,
    ensures
        window_end(total, active, printable) - window_start(total, active, printable)
            == printable,
{
}

/// In a window that moves with the verse being sung, that verse stands in the
/// middle row: as many rows above it as below when their number is odd, one
/// more above when it is even.
pub proof fn lemma_window_centred(total: nat, active: nat, printable: nat)
    requires
        printing_style(total, active, printable) == PrintingStyle::FixedCenter,
    ensures
        active - window_start(total, active, printable) == printable / 2,
        window_end(total, active, printable) - active == center_row(printable),
{
}

/// A window anchored at the top or at the bottom stays where it is while the
/// verse being sung changes without changing the anchoring.
pub proof fn lemma_window_steady(total: nat, active: nat, other: nat, printable: nat)
    requires
        printing_style(total, active, printable) == printing_style(total, other, printable),
        printing_style(total, active, printable) != PrintingStyle::FixedCenter,
    ensures
        window_start(total, active, printable) == window_start(total, other, printable),
        window_end(total, active, printable) == window_end(total, other, printable),
{
}

/// Drawing lines starts with moving the caret, and drawing no line is no
/// command at all: no list of drawing commands starts with clearing the
/// screen.
pub proof fn lemma_slice_starts_with_move(
    lines: Seq<Seq<char>>,
    fixed_index: nat,
    start: nat,
    end: nat,
    width: nat,
)
    ensures
        start >= end ==> slice_commands(lines, fixed_index, start, end, width).len() == 0,
        start < end ==> slice_commands(lines, fixed_index, start, end, width).len() > 0
            && slice_commands(lines, fixed_index, start, end, width)[0] is MoveTo,
    decreases end - start,
{
    if start < end {
        lemma_slice_starts_with_move(lines, fixed_index, start, (end - 1) as nat, width);
    }
}

/// The terminal's drawing and input functions.
pub struct Gui;

impl Gui {
    /// The number of rows left for verses in a terminal of `height` rows.
    pub fn printable_size(height: usize) -> (printable: usize)
        ensures
            printable == printable_rows(height as nat),
    {
        if height >= TOP_OFFSET + BOT_OFFSET {
            height - TOP_OFFSET - BOT_OFFSET
        } else {
            0
        }
    }

    /// How `vector_size` verses with the verse `fixed_index` being sung are
    /// anchored on a terminal of the given size.
    pub fn define_printing_style(fixed_index: usize, vector_size: usize, size: Size) -> (style:
        PrintingStyle)
        ensures
            style == printing_style(
                vector_size as nat,
                fixed_index as nat,
                printable_rows(size.height as nat),
            ),
    {
        let printable_size: usize = Gui::printable_size(size.height);
        if vector_size <= printable_size {
            return PrintingStyle::FixedTop;
        }
        let center_row: usize = if printable_size % 2 == 0 {
            printable_size / 2
        } else {
            (printable_size - 1) / 2 + 1
        };
        if fixed_index < center_row {
            return PrintingStyle::FixedTop;
        }
        if fixed_index > vector_size - center_row {
            return PrintingStyle::FixedBottom;
        }
        PrintingStyle::FixedCenter
    }

    /// The verses to show of `total`, as the index of the first, the index
    /// after the last, and the anchoring, when the verse `active_index` is
    /// being sung on a terminal of `viewport_height` rows.
    pub fn window(total: usize, active_index: usize, viewport_height: usize) -> (shown: (
        usize,
        usize,
        PrintingStyle,
    ))
        ensures
            shown.0 == window_start(
                total as nat,
                active_index as nat,
                printable_rows(viewport_height as nat),
            ),
            shown.1 == window_end(
                total as nat,
                active_index as nat,
                printable_rows(viewport_height as nat),
            ),
            shown.2 == printing_style(
                total as nat,
                active_index as nat,
                printable_rows(viewport_height as nat),
            ),
            shown.0 <= shown.1 <= total,
            active_index < total && printable_rows(viewport_height as nat) > 0 ==> shown.0
                <= active_index < shown.1,
            total <= printable_rows(viewport_height as nat) ==> shown.0 == 0 && shown.1 == total
                && shown.2 == PrintingStyle::FixedTop,
    {
        let printable_size: usize = Gui::printable_size(viewport_height);
        let style = Gui::define_printing_style(
            active_index,
            total,
            Size { height: viewport_height, width: 0 },
        );
        match style {
            PrintingStyle::FixedTop => {
                let end: usize = if total <= printable_size {
                    total
                } else {
                    printable_size
                };
                (0, end, style)
            },
            PrintingStyle::FixedCenter => {
                let start: usize = active_index - printable_size / 2;
                (start, start + printable_size, style)
            },
            PrintingStyle::FixedBottom => {
                let start: usize = total - printable_size;
                (start, start + printable_size, style)
            },
        }
    }

    /// The character of the key that was pressed, if the terminal reported a
    /// key that stands for one.
    pub fn pool_keyboard(polled: Option<InputEvent>) -> (key: Option<char>)
        ensures
            key == match polled {
                Some(InputEvent::Char(c)) => Some(c),
                _ => None,
            },
    {
        match polled {
            Some(InputEvent::Char(c)) => Some(c),
            _ => None,
        }
    }

    /// The commands that take the terminal over: raw mode, no caret, an empty
    /// screen.
    pub fn initialize() -> (commands: Vec<Command>)
        ensures
            commands.deep_view() == seq![
                CommandView::EnableRawMode,
                CommandView::HideCaret,
                CommandView::ClearScreen,
                CommandView::Flush,
            ],
    {
        let mut commands: Vec<Command> = Vec::new();
        commands.push(Command::EnableRawMode);
        commands.push(Command::HideCaret);
        commands.push(Command::ClearScreen);
        commands.push(Command::Flush);
        commands
    }

    /// The commands that give the terminal back: an empty screen, the caret
    /// shown at the top left, raw mode left.
    pub fn terminate() -> (commands: Vec<Command>)
        ensures
            commands.deep_view() == seq![
                CommandView::ClearScreen,
                CommandView::MoveTo(Position { col: 0, row: 0 }),
                CommandView::ShowCaret,
                CommandView::Flush,
                CommandView::DisableRawMode,
            ],
    {
        let mut commands: Vec<Command> = Vec::new();
        commands.push(Command::ClearScreen);
        commands.push(Command::MoveTo(Position { col: 0, row: 0 }));
        commands.push(Command::ShowCaret);
        commands.push(Command::Flush);
        commands.push(Command::DisableRawMode);
        commands
    }

    /// The command that empties the screen.
    pub fn clear_screen() -> (commands: Vec<Command>)
        ensures
            commands.deep_view() == seq![CommandView::ClearScreen],
    {
        let mut commands: Vec<Command> = Vec::new();
        commands.push(Command::ClearScreen);
        commands
    }

    /// The commands that show `string` alone on the screen.
    pub fn print_general_error(string: &str) -> (commands: Vec<Command>)
        ensures
            commands.deep_view() == general_error_commands(string@),
    {
        let mut commands: Vec<Command> = Vec::new();
        commands.push(Command::ClearScreen);
        commands.push(Command::MoveTo(Position { col: 0, row: TOP_OFFSET }));
        commands.push(Command::Print(string.to_owned()));
        commands.push(Command::Flush);
        commands
    }

    /// The commands that tell, on four lines, that the track of `artist` and
    /// `title` has no lyric file.
    pub fn print_lyric_not_found_error(artist: &str, title: &str, size: Size) -> (commands: Vec<
        Command,
    >)
        ensures
            commands.deep_view() == lyric_not_found_commands(artist@, title@, size.width as nat),
    {
        let mut lines: Vec<String> = Vec::new();
        lines.push("Lyric not found".to_owned());
        lines.push("".to_owned());
        lines.push("Artist: ".to_owned().concat(artist));
        lines.push("Title: ".to_owned().concat(title));
        assert(lines.deep_view() =~= lyric_not_found_lines(artist@, title@));
        let mut commands: Vec<Command> = Vec::new();
        commands.push(Command::ClearScreen);
        let mut drawn = Gui::print_vector_slice(&lines, 0, 0, 4, size);
        commands.append(&mut drawn);
        commands.push(Command::Flush);
        commands
    }

    /// The commands that print the messages one per row from the top, each
    /// ending at the right edge; a message wider than the terminal starts at
    /// the left edge.
    pub fn print_debug(debug_messages: &Vec<String>, size: Size) -> (commands: Vec<Command>)
        ensures
            commands.deep_view() == debug_commands(
                debug_messages.deep_view(),
                debug_messages.len() as nat,
                size.width as nat,
            ),
    {
        let mut commands: Vec<Command> = Vec::new();
        let mut row: usize = 0;
        while row < debug_messages.len()
            invariant
                row <= debug_messages.len(),
                commands.deep_view() =~= debug_commands(
                    debug_messages.deep_view(),
                    row as nat,
                    size.width as nat,
                ),
            decreases debug_messages.len() - row,
        {
            let message = &debug_messages[row];
            let len: usize = message.as_str().unicode_len();
            let col: usize = if len <= size.width {
                size.width - len
            } else {
                0
            };
            commands.push(Command::MoveTo(Position { col, row }));
            commands.push(Command::Print(message.clone()));
            row += 1;
        }
        commands
    }

    /// The commands that draw the window of `vector` around the verse
    /// `fixed_index` and flush.
    pub fn print_vector(vector: &Vec<String>, fixed_index: usize, size: Size) -> (commands: Vec<
        Command,
    >)
        ensures
            commands.deep_view() == vector_commands(
                vector.deep_view(),
                fixed_index as nat,
                size,
            ),
    {
        let shown = Gui::window(vector.len(), fixed_index, size.height);
        let mut commands = Gui::print_vector_slice(vector, fixed_index, shown.0, shown.1, size);
        commands.push(Command::Flush);
        commands
    }

    /// The commands that draw the lines `start` up to `end` of `vector`, one
    /// per row from `TOP_OFFSET` down: each line centred, or cut to the
    /// terminal's width and left-aligned, the line `fixed_index` in bold.
    pub fn print_vector_slice(
        vector: &Vec<String>,
        fixed_index: usize,
        start: usize,
        end: usize,
        size: Size,
    ) -> (commands: Vec<Command>)
        requires
            start <= end <= vector.len(),
        ensures
            commands.deep_view() == slice_commands(
                vector.deep_view(),
                fixed_index as nat,
                start as nat,
                end as nat,
                size.width as nat,
            ),
    {
        let mut commands: Vec<Command> = Vec::new();
        let mut index: usize = start;
        while index < end
            invariant
                start <= index <= end <= vector.len(),
                commands.deep_view() =~= slice_commands(
                    vector.deep_view(),
                    fixed_index as nat,
                    start as nat,
                    index as nat,
                    size.width as nat,
                ),
            decreases end - index,
        {
            let text = vector[index].as_str();
            let len: usize = text.unicode_len();
            let row: usize = TOP_OFFSET + (index - start);
            let col: usize = if len >= size.width {
                0
            } else {
                size.width / 2 - len / 2
            };
            let shown: String = if len >= size.width {
                text.substring_char(0, size.width).to_owned()
            } else {
                text.to_owned()
            };
            commands.push(Command::MoveTo(Position { col, row }));
            commands.push(Command::ClearLine);
            if index == fixed_index {
                commands.push(Command::SetBold);
                commands.push(Command::Print(shown));
                commands.push(Command::ResetAttributes);
            } else {
                commands.push(Command::Print(shown));
            }
            index += 1;
        }
        commands
    }
}

} // verus!
