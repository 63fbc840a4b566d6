//! A lyric's verses as contracts see them: their order by timestamp, and the
//! verse that is being sung at a playback position.

use vstd::prelude::*;

verus! {

/// One timestamped line of a lyric, as contracts see it.
pub struct Verse {
    /// Milliseconds from the start of the track.
    pub timestamp: nat,
    /// The text to show, possibly empty.
    pub text: Seq<char>,
}

/// Where a verse of the given timestamp goes into `verses`: behind the last
/// verse that is not later than it.
pub open spec fn insertion_point(verses: Seq<Verse>, timestamp: nat) -> nat
    decreases verses.len(),
{
    if verses.len() == 0 {
        0
    } else if verses.last().timestamp <= timestamp {
        verses.len()
    } else {
        insertion_point(verses.drop_last(), timestamp)
    }
}

/// `verses` with `verse` put in at its insertion point.
pub open spec fn insert_verse(verses: Seq<Verse>, verse: Verse) -> Seq<Verse> {
    verses.insert(insertion_point(verses, verse.timestamp) as int, verse)
}

/// `verses` ordered by timestamp; verses of one timestamp keep their order.
pub open spec fn sort_verses(verses: Seq<Verse>) -> Seq<Verse>
    decreases verses.len(),
{
    if verses.len() == 0 {
        Seq::empty()
    } else {
        insert_verse(sort_verses(verses.drop_last()), verses.last())
    }
}

/// Whether the timestamps of `verses` never go down.
pub open spec fn is_sorted(verses: Seq<Verse>) -> bool {
    forall|i: int, j: int|
        0 <= i <= j < verses.len() ==> (#[trigger] verses[i]).timestamp <= (
        #[trigger] verses[j]).timestamp
}

/// The index of the verse being sung at `position`: the last verse that is
/// not later than the position, and the first verse before any is due.
pub open spec fn active_index(verses: Seq<Verse>, position: nat) -> nat {
    let point = insertion_point(verses, position);
    if point == 0 {
        0
    } else {
        (point - 1) as nat
    }
}

/// The verses of `verses` that have the timestamp `timestamp`, in their
/// order.
pub open spec fn verses_at(verses: Seq<Verse>, timestamp: nat) -> Seq<Verse> {
    verses.filter(|v: Verse| v.timestamp == timestamp)
}

/// The insertion point is an index into `verses` or its length.
pub proof fn lemma_insertion_point_bound(verses: Seq<Verse>, timestamp: nat)
    ensures
        insertion_point(verses, timestamp) <= verses.len(),
    decreases verses.len(),
{
    if verses.len() > 0 && verses.last().timestamp > timestamp {
        lemma_insertion_point_bound(verses.drop_last(), timestamp);
    }
}

/// Where all verses before `at` are not later than `timestamp` and all from
/// `at` on are later, `at` is the insertion point.
pub proof fn lemma_insertion_point_is(verses: Seq<Verse>, timestamp: nat, at: int)
    requires
        0 <= at <= verses.len(),
        forall|k: int| 0 <= k < at ==> (#[trigger] verses[k]).timestamp <= timestamp,
        forall|k: int| at <= k < verses.len() ==> (#[trigger] verses[k]).timestamp > timestamp,
    ensures
        insertion_point(verses, timestamp) == at,
    decreases verses.len(),
{
    if at < verses.len() {
        lemma_insertion_point_is(verses.drop_last(), timestamp, at);
    }
}

/// In an ordered list the insertion point parts the verses that are not
/// later than `timestamp` from those that are.
pub proof fn lemma_insertion_point_parts(verses: Seq<Verse>, timestamp: nat)
    requires
        is_sorted(verses),
    ensures
        insertion_point(verses, timestamp) <= verses.len(),
        forall|k: int|
            0 <= k < insertion_point(verses, timestamp) ==> (#[trigger] verses[k]).timestamp
                <= timestamp,
        forall|k: int|
            insertion_point(verses, timestamp) <= k < verses.len() ==> (
            #[trigger] verses[k]).timestamp > timestamp,
    decreases verses.len(),
{
    if verses.len() > 0 && verses.last().timestamp > timestamp {
        let front = verses.drop_last();
        lemma_insertion_point_parts(front, timestamp);
        assert forall|k: int|
            insertion_point(verses, timestamp) <= k < verses.len() implies (
        #[trigger] verses[k]).timestamp > timestamp by {
            if k < front.len() {
                assert(front[k].timestamp > timestamp);
            }
        }
        assert forall|k: int| 0 <= k < insertion_point(verses, timestamp) implies (
        #[trigger] verses[k]).timestamp <= timestamp by {
            assert(front[k].timestamp <= timestamp);
        }
    }
}

/// Putting a verse into an ordered list leaves the list ordered.
pub proof fn lemma_insert_keeps_sorted(verses: Seq<Verse>, verse: Verse)
    requires
        is_sorted(verses),
    ensures
        is_sorted(insert_verse(verses, verse)),
{
    lemma_insertion_point_parts(verses, verse.timestamp);
}

/// Sorting yields an ordered list.
pub proof fn lemma_sort_is_sorted(verses: Seq<Verse>)
    ensures
        is_sorted(sort_verses(verses)),
    decreases verses.len(),
{
    if verses.len() > 0 {
        lemma_sort_is_sorted(verses.drop_last());
        lemma_insert_keeps_sorted(sort_verses(verses.drop_last()), verses.last());
    }
}

/// Sorting neither adds nor drops a verse: the sorted list holds each verse as
/// often as the list it was made from.
pub proof fn lemma_sort_keeps_verses(verses: Seq<Verse>)
    ensures
        sort_verses(verses).len() == verses.len(),
        sort_verses(verses).to_multiset() == verses.to_multiset(),
    decreases verses.len(),
{
    broadcast use vstd::seq_lib::group_to_multiset_ensures;

    if verses.len() > 0 {
        let front = verses.drop_last();
        let sorted_front = sort_verses(front);
        let verse = verses.last();
        lemma_sort_keeps_verses(front);
        lemma_insertion_point_bound(sorted_front, verse.timestamp);
        let at = insertion_point(sorted_front, verse.timestamp) as int;
        assert(sort_verses(verses)[at] == verse);
        assert(front.push(verse) =~= verses);
    }
}

/// A list without a verse of the timestamp `timestamp` has none to pick.
pub proof fn lemma_no_verse_at(verses: Seq<Verse>, timestamp: nat)
    requires
        forall|k: int| 0 <= k < verses.len() ==> (#[trigger] verses[k]).timestamp != timestamp,
    ensures
        verses_at(verses, timestamp).len() == 0,
    decreases verses.len(),
{
    reveal(Seq::filter);
    if verses.len() > 0 {
        let front = verses.drop_last();
        assert forall|k: int| 0 <= k < front.len() implies (#[trigger] front[k]).timestamp
            != timestamp by {
            assert(verses[k].timestamp != timestamp);
        }
        lemma_no_verse_at(front, timestamp);
    }
}

/// Sorting keeps the verses of one timestamp in the order in which they
/// stood.
pub proof fn lemma_sort_is_stable(verses: Seq<Verse>, timestamp: nat)
    ensures
        verses_at(sort_verses(verses), timestamp) == verses_at(verses, timestamp),
    decreases verses.len(),
{
    reveal(Seq::filter);
    if verses.len() > 0 {
        let front = verses.drop_last();
        let verse = verses.last();
        let sorted_front = sort_verses(front);
        let picked = |v: Verse| v.timestamp == timestamp;
        lemma_sort_is_stable(front, timestamp);
        lemma_sort_is_sorted(front);
        lemma_insertion_point_parts(sorted_front, verse.timestamp);
        let at = insertion_point(sorted_front, verse.timestamp) as int;
        let before = sorted_front.take(at);
        let after = sorted_front.skip(at);
        assert(sorted_front =~= before + after);
        assert(sort_verses(verses) =~= before.push(verse) + after);
        Seq::filter_distributes_over_add(before, after, picked);
        Seq::filter_distributes_over_add(before.push(verse), after, picked);
        assert(before.push(verse).drop_last() =~= before);
        if verse.timestamp == timestamp {
            lemma_no_verse_at(after, timestamp);
        }
    }
}

/// Sorting an ordered list changes nothing.
pub proof fn lemma_sort_of_sorted(verses: Seq<Verse>)
    requires
        is_sorted(verses),
    ensures
        sort_verses(verses) == verses,
    decreases verses.len(),
{
    if verses.len() > 0 {
        let front = verses.drop_last();
        lemma_sort_of_sorted(front);
        lemma_insertion_point_is(front, verses.last().timestamp, front.len() as int);
    }
}

/// Before the first verse is due, the first verse is the one being sung.
pub proof fn lemma_resolve_before_first(verses: Seq<Verse>, position: nat)
    requires
        is_sorted(verses),
        verses.len() > 0,
        position < verses[0].timestamp,
    ensures
        active_index(verses, position) == 0,
{
    lemma_insertion_point_is(verses, position, 0);
}

/// From the moment a verse is due until the next one is, that verse is the
/// one being sung: at exactly its timestamp, between it and the next, and,
/// for the last verse, at any later position.
pub proof fn lemma_resolve_at(verses: Seq<Verse>, position: nat, index: int)
    requires
        is_sorted(verses),
        0 <= index < verses.len(),
        verses[index].timestamp <= position,
        index + 1 < verses.len() ==> position < verses[index + 1].timestamp,
    ensures
        active_index(verses, position) == index,
{
    lemma_insertion_point_is(verses, position, index + 1);
}

/// At or after the last timestamp the last verse is the one being sung.
pub proof fn lemma_resolve_after_last(verses: Seq<Verse>, position: nat)
    requires
        is_sorted(verses),
        verses.len() > 0,
        verses.last().timestamp <= position,
    ensures
        active_index(verses, position) == verses.len() - 1,
{
    lemma_resolve_at(verses, position, verses.len() - 1);
}

} // verus!
