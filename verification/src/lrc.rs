//! The format of a lyric file.
//!
//! A lyric file is text. A line starts with any number of tags of the form
//! `[MM:SS.CC]` (minutes, seconds, hundredths of a second, two digits each);
//! what follows the last tag is the text of the line. Each well-formed tag
//! yields one verse with that text. A bracket that holds anything else is
//! skipped, and a line without a tag yields nothing.

use vstd::prelude::*;
use crate::text::{
    char_digit, char_is_digit, char_is_whitespace, digit_value, find_char, is_digit,
    is_whitespace, lemma_find_char, lemma_skip_whitespace, skip_whitespace, trim, trimmed,
};
use crate::verse::{lemma_sort_keeps_verses, sort_verses, Verse};

verus! {

/// The number that the two digits of `s` at `at` and `at + 1` spell.
pub open spec fn two_digits(s: Seq<char>, at: int) -> nat {
    digit_value(s[at]) * 10 + digit_value(s[at + 1])
}

/// Whether `body` has the form `MM:SS.CC`.
pub open spec fn is_timestamp(body: Seq<char>) -> bool {
    &&& body.len() == 8
    &&& is_digit(body[0])
    &&& is_digit(body[1])
    &&& body[2] == ':'
    &&& is_digit(body[3])
    &&& is_digit(body[4])
    &&& body[5] == '.'
    &&& is_digit(body[6])
    &&& is_digit(body[7])
}

/// The milliseconds that the timestamp `MM:SS.CC` stands for.
pub open spec fn timestamp_millis(body: Seq<char>) -> nat {
    two_digits(body, 0) * 60000 + two_digits(body, 3) * 1000 + two_digits(body, 6) * 10
}

/// Whether `tag` has the form `[MM:SS.CC]`.
pub open spec fn is_tag(tag: Seq<char>) -> bool {
    &&& tag.len() == 10
    &&& tag[0] == '['
    &&& tag[9] == ']'
    &&& is_timestamp(tag.subrange(1, 9))
}

/// The next bracket of `line` at or after `pos`, as the indices of its `[` and
/// of its `]`: whitespace may stand before the `[`, and the `]` is the first
/// one after it. `None` when what follows the whitespace is no bracket that
/// closes on this line.
pub open spec fn next_tag(line: Seq<char>, pos: int) -> Option<(int, int)> {
    let open = skip_whitespace(line, pos);
    let close = find_char(line, ']', open + 1);
    if 0 <= pos && open < line.len() && line[open] == '[' && close < line.len() {
        Some((open, close))
    } else {
        None
    }
}

/// A bracket found from `pos` on lies on the line and behind `pos`.
pub proof fn lemma_next_tag(line: Seq<char>, pos: int)
    ensures
        next_tag(line, pos) matches Some((open, close)) ==> pos <= open < close < line.len(),
{
    if 0 <= pos <= line.len() {
        lemma_skip_whitespace(line, pos);
        let open = skip_whitespace(line, pos);
        if open < line.len() {
            lemma_find_char(line, ']', open + 1);
        }
    }
}

/// The timestamps of the well-formed tags of `line` from `pos` on, in the
/// order in which they stand.
pub open spec fn line_tags(line: Seq<char>, pos: int) -> Seq<nat>
    decreases line.len() - pos,
{
    match next_tag(line, pos) {
        Some((open, close)) => {
            proof {
                lemma_next_tag(line, pos);
            }
            let body = line.subrange(open + 1, close);
            let rest = line_tags(line, close + 1);
            if is_timestamp(body) {
                seq![timestamp_millis(body)] + rest
            } else {
                rest
            }
        },
        None => Seq::empty(),
    }
}

/// The index at which the text of `line` starts: behind the last bracket and
/// the whitespace that follows it.
pub open spec fn text_start(line: Seq<char>, pos: int) -> int
    decreases line.len() - pos,
{
    match next_tag(line, pos) {
        Some((open, close)) => {
            proof {
                lemma_next_tag(line, pos);
            }
            text_start(line, close + 1)
        },
        None => skip_whitespace(line, pos),
    }
}

/// The text that the verses of `line` share: what follows its tags, without
/// the whitespace around it.
pub open spec fn line_text(line: Seq<char>) -> Seq<char> {
    trim(line.skip(text_start(line, 0)))
}

/// The verses of one line: one for each well-formed tag, all with the text of
/// the line.
pub open spec fn line_verses(line: Seq<char>) -> Seq<Verse> {
    line_tags(line, 0).map_values(|t: nat| Verse { timestamp: t, text: line_text(line) })
}

/// A line whose first character that is no whitespace is no `[` yields no
/// verse; neither does a line of whitespace alone.
pub proof fn lemma_line_without_bracket(line: Seq<char>)
    requires
        skip_whitespace(line, 0) < line.len() ==> line[skip_whitespace(line, 0)] != '[',
    ensures
        line_verses(line).len() == 0,
{
}

/// A line yields one verse for each of its well-formed tags, and all of them
/// have the text of the line.
pub proof fn lemma_line_verses(line: Seq<char>)
    ensures
        line_verses(line).len() == line_tags(line, 0).len(),
        forall|k: int|
            0 <= k < line_verses(line).len() ==> (#[trigger] line_verses(line)[k]) == (Verse {
                timestamp: line_tags(line, 0)[k],
                text: line_text(line),
            }),
{
}

/// The verses of the lines of `content` from the index `from` on, in the
/// order of the file. Lines end at `'\n'`.
pub open spec fn file_verses(content: Seq<char>, from: int) -> Seq<Verse>
    decreases content.len() - from,
{
    if from < 0 || from > content.len() {
        Seq::empty()
    } else {
        let end = find_char(content, '\n', from);
        proof {
            lemma_find_char(content, '\n', from);
        }
        let here = line_verses(content.subrange(from, end));
        if end < content.len() {
            here + file_verses(content, end + 1)
        } else {
            here
        }
    }
}

/// The number of well-formed tags on the lines of `content` from the index
/// `from` on.
pub open spec fn tag_count(content: Seq<char>, from: int) -> nat
    decreases content.len() - from,
{
    if from < 0 || from > content.len() {
        0
    } else {
        let end = find_char(content, '\n', from);
        proof {
            lemma_find_char(content, '\n', from);
        }
        let here = line_tags(content.subrange(from, end), 0).len();
        if end < content.len() {
            here + tag_count(content, end + 1)
        } else {
            here
        }
    }
}

/// The number of lines of `content` from the index `from` on that hold a
/// well-formed tag.
pub open spec fn tagged_lines(content: Seq<char>, from: int) -> nat
    decreases content.len() - from,
{
    if from < 0 || from > content.len() {
        0
    } else {
        let end = find_char(content, '\n', from);
        proof {
            lemma_find_char(content, '\n', from);
        }
        let here: nat = if line_tags(content.subrange(from, end), 0).len() > 0 {
            1
        } else {
            0
        };
        if end < content.len() {
            here + tagged_lines(content, end + 1)
        } else {
            here
        }
    }
}

/// Whether no line of `content` from the index `from` on holds more than one
/// well-formed tag.
pub open spec fn one_tag_a_line(content: Seq<char>, from: int) -> bool
    decreases content.len() - from,
{
    if from < 0 || from > content.len() {
        true
    } else {
        let end = find_char(content, '\n', from);
        proof {
            lemma_find_char(content, '\n', from);
        }
        &&& line_tags(content.subrange(from, end), 0).len() <= 1
        &&& end < content.len() ==> one_tag_a_line(content, end + 1)
    }
}

/// The verses of the lines from `from` on are as many as the well-formed tags
/// of those lines.
pub proof fn lemma_file_verses_count(content: Seq<char>, from: int)
    ensures
        file_verses(content, from).len() == tag_count(content, from),
    decreases content.len() - from,
{
    if 0 <= from <= content.len() {
        lemma_find_char(content, '\n', from);
        let end = find_char(content, '\n', from);
        if end < content.len() {
            lemma_file_verses_count(content, end + 1);
        }
    }
}

/// A file yields as many verses as its lines hold well-formed tags.
pub proof fn lemma_verse_count(content: Seq<char>)
    ensures
        sort_verses(file_verses(content, 0)).len() == tag_count(content, 0),
{
    lemma_sort_keeps_verses(file_verses(content, 0));
    lemma_file_verses_count(content, 0);
}

/// Where no line holds more than one well-formed tag, the lines hold as many
/// tags as there are lines with a tag.
pub proof fn lemma_tags_of_single_tagged_lines(content: Seq<char>, from: int)
    requires
        one_tag_a_line(content, from),
    ensures
        tag_count(content, from) == tagged_lines(content, from),
    decreases content.len() - from,
{
    if 0 <= from <= content.len() {
        lemma_find_char(content, '\n', from);
        let end = find_char(content, '\n', from);
        if end < content.len() {
            lemma_tags_of_single_tagged_lines(content, end + 1);
        }
    }
}

/// A file whose lines hold one well-formed tag at most yields one verse for
/// each line that holds one.
pub proof fn lemma_one_verse_per_tagged_line(content: Seq<char>)
    requires
        one_tag_a_line(content, 0),
    ensures
        sort_verses(file_verses(content, 0)).len() == tagged_lines(content, 0),
{
    lemma_verse_count(content);
    lemma_tags_of_single_tagged_lines(content, 0);
}

/// The milliseconds of the timestamp that `chars` holds from `from` up to `to`,
/// if that has the form `MM:SS.CC`.
pub fn timestamp_of(chars: &Vec<char>, from: usize, to: usize) -> (millis: Option<usize>)
    requires
        from <= to <= chars.len(),
    ensures
        match millis {
            Some(t) => is_timestamp(chars@.subrange(from as int, to as int)) && t
                == timestamp_millis(chars@.subrange(from as int, to as int)),
            None => !is_timestamp(chars@.subrange(from as int, to as int)),
        },
{
    if to - from != 8 {
        return None;
    }
    let well_formed: bool = char_is_digit(chars[from]) && char_is_digit(chars[from + 1])
        && chars[from + 2] == ':' && char_is_digit(chars[from + 3]) && char_is_digit(
        chars[from + 4],
    ) && chars[from + 5] == '.' && char_is_digit(chars[from + 6]) && char_is_digit(
        chars[from + 7],
    );
    if !well_formed {
        return None;
    }
    let minutes: usize = char_digit(chars[from]) * 10 + char_digit(chars[from + 1]);
    let seconds: usize = char_digit(chars[from + 3]) * 10 + char_digit(chars[from + 4]);
    let hundredths: usize = char_digit(chars[from + 6]) * 10 + char_digit(chars[from + 7]);
    Some(minutes * 60000 + seconds * 1000 + hundredths * 10)
}

/// Where the scanner of a line stands.
#[derive(Copy, Clone, PartialEq, Eq, Structural)]
enum ScanState {
    /// Nothing but whitespace was read: a `[` is looked for.
    ExpectBracket,
    /// A `[` was read: its `]` is looked for.
    InsideBracket,
    /// A `]` was read: another `[` or the text is looked for.
    AfterBracket,
}

/// The timestamps of the well-formed tags of `line`, in their order, and the
/// text that follows the tags.
///
/// The line is read once, character by character. Before the first bracket
/// and after each bracket, whitespace is passed over, a `[` opens a bracket,
/// and any other character starts the text. Inside a bracket everything up to
/// the first `]` is its content, which yields a timestamp if it has the form
/// `MM:SS.CC`. A bracket that the line does not close is text.
pub fn parse_line_chars(line: &Vec<char>) -> (parsed: (Vec<usize>, String))
    ensures
        parsed.0@.map_values(|t: usize| t as nat) == line_tags(line@, 0),
        parsed.1@ == line_text(line@),
{
    let mut tags: Vec<usize> = Vec::new();
    let mut state = ScanState::ExpectBracket;
    let mut pos: usize = 0;
    let mut open: usize = 0;
    let mut at: usize = 0;
    let mut in_tags: bool = true;
    while in_tags && at < line.len()
        invariant
            pos <= at <= line.len(),
            tags@.map_values(|t: usize| t as nat) + line_tags(line@, pos as int) == line_tags(
                line@,
                0,
            ),
            text_start(line@, pos as int) == text_start(line@, 0),
            state == ScanState::InsideBracket ==> {
                &&& in_tags
                &&& pos <= open < at
                &&& open == skip_whitespace(line@, pos as int)
                &&& line[open as int] == '['
                &&& find_char(line@, ']', open + 1) == find_char(line@, ']', at as int)
            },
            state != ScanState::InsideBracket ==> skip_whitespace(line@, pos as int)
                == skip_whitespace(line@, at as int),
            !in_tags ==> at < line.len() && !is_whitespace(line[at as int]) && line[at as int]
                != '[',
        decreases line.len() - at + (if in_tags { 1int } else { 0int }),
    {
        let c = line[at];
        match state {
            ScanState::InsideBracket => {
                if c == ']' {
                    match timestamp_of(line, open + 1, at) {
                        Some(t) => {
                            tags.push(t);
                        },
                        None => {},
                    }
                    pos = at + 1;
                    state = ScanState::AfterBracket;
                }
                at += 1;
            },
            _ => {
                if c == '[' {
                    open = at;
                    state = ScanState::InsideBracket;
                    at += 1;
                } else if char_is_whitespace(c) {
                    at += 1;
                } else {
                    in_tags = false;
                }
            },
        }
    }
    let start: usize = if state == ScanState::InsideBracket {
        open
    } else {
        at
    };
    let text = trimmed(line, start, line.len());
    (tags, text)
}

} // verus!
