//! The lyric of one track: its verses read from a lyric file and ordered by
//! timestamp, and the resolver from a playback position to the verse being
//! sung.

use vstd::prelude::*;
use crate::error::RuntimeError;
use crate::lrc::{
    file_verses, is_tag, lemma_verse_count, line_tags, line_text, line_verses, parse_line_chars,
    tag_count, timestamp_millis, timestamp_of,
};
use crate::text::{chars_from, find, to_chars};
use crate::verse::{
    active_index, insert_verse, insertion_point, is_sorted, lemma_insertion_point_is,
    lemma_resolve_before_first, lemma_sort_is_sorted, sort_verses, Verse,
};

verus! {

/// The verses that two vectors of equal length hold, timestamps in one and
/// texts in the other.
pub open spec fn verses_of(timestamps: Seq<usize>, text: Seq<String>) -> Seq<Verse> {
    Seq::new(
        timestamps.len(),
        |i: int| Verse { timestamp: timestamps[i] as nat, text: text[i]@ },
    )
}

/// Puts a verse into the two vectors at its insertion point.
fn insert_sorted(
    timestamps: &mut Vec<usize>,
    text: &mut Vec<String>,
    timestamp: usize,
    verse_text: String,
)
    requires
        old(timestamps).len() == old(text).len(),
    ensures
        final(timestamps).len() == final(text).len(),
        verses_of(final(timestamps)@, final(text)@) == insert_verse(
            verses_of(old(timestamps)@, old(text)@),
            Verse { timestamp: timestamp as nat, text: verse_text@ },
        ),
{
    let ghost verses = verses_of(timestamps@, text@);
    let mut at: usize = timestamps.len();
    assert(verses.take(at as int) =~= verses);
    while at > 0 && timestamps[at - 1] > timestamp
        invariant
            at <= timestamps.len() == text.len(),
            verses == verses_of(timestamps@, text@),
            insertion_point(verses, timestamp as nat) == insertion_point(
                verses.take(at as int),
                timestamp as nat,
            ),
        decreases at,
    {
        assert(verses.take(at as int).drop_last() =~= verses.take(at - 1));
        at -= 1;
    }
    timestamps.insert(at, timestamp);
    text.insert(at, verse_text);
}

/// The verses of `content`, ordered by timestamp, as a vector of timestamps
/// and a vector of texts.
fn parse_content(content: &str) -> (parsed: (Vec<usize>, Vec<String>))
    ensures
        parsed.0.len() == parsed.1.len(),
        verses_of(parsed.0@, parsed.1@) == sort_verses(file_verses(content@, 0)),
{
    let chars = to_chars(content);
    let mut timestamps: Vec<usize> = Vec::new();
    let mut text: Vec<String> = Vec::new();
    let ghost mut collected: Seq<Verse> = Seq::empty();
    let mut from: usize = 0;
    let mut done: bool = false;
    while !done
        invariant
            chars@ == content@,
            from <= chars.len(),
            timestamps.len() == text.len(),
            verses_of(timestamps@, text@) == sort_verses(collected),
            !done ==> collected + file_verses(chars@, from as int) == file_verses(chars@, 0),
            done ==> collected == file_verses(chars@, 0),
        decreases chars.len() - from + (if done { 0int } else { 1int }),
    {
        let end: usize = find(&chars, '\n', from);
        let line = chars_from(&chars, from, end);
        let (tags, verse_text) = parse_line_chars(&line);
        let ghost here = line_verses(line@);
        let ghost before = collected;
        let mut k: usize = 0;
        while k < tags.len()
            invariant
                k <= tags.len(),
                timestamps.len() == text.len(),
                tags@.map_values(|t: usize| t as nat) == line_tags(line@, 0),
                verse_text@ == line_text(line@),
                here == line_verses(line@),
                collected == before + here.take(k as int),
                verses_of(timestamps@, text@) == sort_verses(collected),
            decreases tags.len() - k,
        {
            let ghost verse = Verse { timestamp: tags[k as int] as nat, text: verse_text@ };
            insert_sorted(&mut timestamps, &mut text, tags[k], verse_text.clone());
            proof {
                let longer = collected.push(verse);
                assert(longer.drop_last() =~= collected);
                collected = longer;
            }
            k += 1;
        }
        if end >= chars.len() {
            done = true;
        } else {
            from = end + 1;
        }
    }
    (timestamps, text)
}

/// The verses of one track, ordered by timestamp.
pub struct Lyric {
    timestamps: Vec<usize>,
    text: Vec<String>,
    valid: bool,
}

impl View for Lyric {
    type V = Seq<Verse>;

    closed spec fn view(&self) -> Seq<Verse> {
        verses_of(self.timestamps@, self.text@)
    }
}

impl Lyric {
    #[verifier::type_invariant]
    spec fn well_formed(self) -> bool {
        &&& self.timestamps.len() == self.text.len()
        &&& is_sorted(verses_of(self.timestamps@, self.text@))
    }

    /// Whether a lyric file has been read for the track.
    pub closed spec fn is_valid(&self) -> bool {
        self.valid
    }

    /// A lyric without verses, not valid.
    pub fn new() -> (lyric: Lyric)
        ensures
            lyric@.len() == 0,
            !lyric.is_valid(),
    {
        Lyric { timestamps: Vec::new(), text: Vec::new(), valid: false }
    }

    /// Whether a lyric file has been read for the track.
    pub fn valid(&self) -> (valid: bool)
        ensures
            valid == self.is_valid(),
    {
        self.valid
    }

    /// The number of verses.
    pub fn len(&self) -> (len: usize)
        ensures
            len == self@.len(),
    {
        self.timestamps.len()
    }

    /// The texts of the verses, in order.
    pub fn text(&self) -> (text: &Vec<String>)
        ensures
            text.len() == self@.len(),
            forall|i: int| 0 <= i < text.len() ==> (#[trigger] text[i])@ == self@[i].text,
    {
        proof {
            use_type_invariant(self);
        }
        &self.text
    }

    /// The timestamps of the verses in milliseconds, in order. They never go
    /// down.
    pub fn timestamps(&self) -> (timestamps: &Vec<usize>)
        ensures
            timestamps.len() == self@.len(),
            forall|i: int|
                0 <= i < timestamps.len() ==> (#[trigger] timestamps[i]) == self@[i].timestamp,
            is_sorted(self@),
    {
        proof {
            use_type_invariant(self);
        }
        &self.timestamps
    }

    /// The milliseconds that the tag `[MM:SS.CC]` stands for: minutes times
    /// 60000 plus seconds times 1000 plus hundredths times 10. Fails with
    /// `ErrorExpectedNumber` exactly when `timestamp` has not that form.
    pub fn parse_timestamp(timestamp: &str) -> (millis: Result<usize, RuntimeError>)
        ensures
            is_tag(timestamp@) ==> millis == Ok::<usize, RuntimeError>(
                timestamp_millis(timestamp@.subrange(1, 9)) as usize,
            ),
            !is_tag(timestamp@) ==> millis == Err::<usize, RuntimeError>(
                RuntimeError::ErrorExpectedNumber,
            ),
            millis matches Ok(t) ==> t < 6_040_000,
    {
        let chars = to_chars(timestamp);
        if chars.len() != 10 || chars[0] != '[' || chars[9] != ']' {
            return Err(RuntimeError::ErrorExpectedNumber);
        }
        match timestamp_of(&chars, 1, 9) {
            Some(t) => Ok(t),
            None => Err(RuntimeError::ErrorExpectedNumber),
        }
    }

    /// The timestamps of the well-formed tags at the start of `line`, in their
    /// order, and the text that follows the tags. The line yields one verse
    /// for each of the timestamps, all with that text.
    pub fn parse_line(line: &str) -> (parsed: (Vec<usize>, String))
        ensures
            parsed.0@.map_values(|t: usize| t as nat) == line_tags(line@, 0),
            parsed.1@ == line_text(line@),
    {
        let chars = to_chars(line);
        parse_line_chars(&chars)
    }

    /// Reads the lyric of a track from what the lookup of its file gave: the
    /// content of the file, or the reason why there is none. Whatever verses
    /// were held before are dropped.
    ///
    /// Given the content, the lyric holds its verses ordered by timestamp and
    /// is valid. Given a failure, the lyric is empty and not valid, and the
    /// failure is returned.
    pub fn parse(&mut self, file: Result<&str, RuntimeError>) -> (result: Result<(), RuntimeError>)
        ensures
            match file {
                Ok(content) => result is Ok && final(self)@ == sort_verses(
                    file_verses(content@, 0),
                ) && final(self)@.len() == tag_count(content@, 0) && final(self).is_valid(),
                Err(e) => result == Err::<(), RuntimeError>(e) && final(self)@.len() == 0
                    && !final(self).is_valid(),
            },
            is_sorted(final(self)@),
    {
        match file {
            Ok(content) => {
                let (timestamps, text) = parse_content(content);
                proof {
                    lemma_sort_is_sorted(file_verses(content@, 0));
                    lemma_verse_count(content@);
                }
                *self = Lyric { timestamps, text, valid: true };
                Ok(())
            },
            Err(e) => {
                *self = Lyric::new();
                Err(e)
            },
        }
    }

    /// The index of the verse being sung at `position` milliseconds: the last
    /// verse whose timestamp is not later than the position, and the first
    /// verse while none is due. Of verses with one timestamp the last is
    /// taken. Zero for a lyric without verses.
    pub fn get_singed_verse_index(&self, position: usize) -> (index: usize)
        ensures
            index == active_index(self@, position as nat),
            is_sorted(self@),
            self@.len() > 0 ==> index < self@.len(),
            self@.len() > 0 && position < self@[0].timestamp ==> index == 0,
            forall|i: int|
                0 <= i < self@.len() && (#[trigger] self@[i]).timestamp <= position && (i + 1
                    < self@.len() ==> position < self@[i + 1].timestamp) ==> index == i,
    {
        proof {
            use_type_invariant(self);
        }
        let ghost verses = verses_of(self.timestamps@, self.text@);
        let mut low: usize = 0;
        let mut high: usize = self.timestamps.len();
        while low < high
            invariant
                low <= high <= self.timestamps.len(),
                self.timestamps.len() == self.text.len(),
                verses == verses_of(self.timestamps@, self.text@),
                is_sorted(verses),
                forall|k: int| 0 <= k < low ==> (#[trigger] verses[k]).timestamp <= position,
                forall|k: int|
                    high <= k < verses.len() ==> (#[trigger] verses[k]).timestamp > position,
            decreases high - low,
        {
            let middle: usize = low + (high - low) / 2;
            if self.timestamps[middle] <= position {
                assert forall|k: int| 0 <= k < middle + 1 implies (
                #[trigger] verses[k]).timestamp <= position by {
                    assert(verses[k].timestamp <= verses[middle as int].timestamp);
                }
                low = middle + 1;
            } else {
                high = middle;
            }
        }
        proof {
            lemma_insertion_point_is(verses, position as nat, low as int);
            if verses.len() > 0 && position < verses[0].timestamp {
                lemma_resolve_before_first(verses, position as nat);
            }
        }
        if low == 0 {
            0
        } else {
            low - 1
        }
    }
}

} // verus!
