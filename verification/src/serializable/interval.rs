//! Half-open ranges of addresses, and how to merge them.

use vstd::prelude::*;

verus! {

/// A range of addresses from `start` up to, but not including, `end`,
/// together with whatever else describes the range.
///
/// The type says how two ranges are merged into one and in which order
/// ranges are sorted before they are merged.
pub trait Interval: Sized {
    /// The first address of the range.
    spec fn spec_start(&self) -> int;

    /// The address behind the last one of the range.
    spec fn spec_end(&self) -> int;

    /// The range that covers both ranges.
    spec fn spec_merge(&self, other: &Self) -> Self;

    /// This range comes before `other` when ranges are sorted.
    spec fn spec_sorts_before(&self, other: &Self) -> bool;

    /// The first address of the range.
    fn start(&self) -> (start: u64)
        ensures
            start == self.spec_start(),
    ;

    /// The address behind the last one of the range.
    fn end(&self) -> (end: u64)
        requires
            0 <= self.spec_start() <= self.spec_end() <= u64::MAX,
        ensures
            end == self.spec_end(),
    ;

    /// The range that covers both ranges, whether they touch or not.
    fn merge(&self, other: &Self) -> (merged: Self)
        requires
            0 <= self.spec_start() <= self.spec_end() <= u64::MAX,
            0 <= other.spec_start() <= other.spec_end() <= u64::MAX,
        ensures
            merged == self.spec_merge(other),
            0 <= merged.spec_start() <= merged.spec_end() <= u64::MAX,
    ;

    /// Tells whether this range comes before `other` when ranges are
    /// sorted.
    fn sorts_before(&self, other: &Self) -> (before: bool)
        ensures
            before == self.spec_sorts_before(other),
    ;

    /// A copy of the range.
    fn duplicate(&self) -> (copy: Self)
        ensures
            copy == *self,
    ;

    /// The number of addresses in the range.
    fn length(&self) -> (length: u64)
        requires
            0 <= self.spec_start() <= self.spec_end() <= u64::MAX,
        ensures
            length == self.spec_end() - self.spec_start(),
    {
        self.end() - self.start()
    }

    /// Tells whether every address of `other` is one of this range.
    fn contains(&self, other: &Self) -> (contains: bool)
        requires
            0 <= self.spec_start() <= self.spec_end() <= u64::MAX,
            0 <= other.spec_start() <= other.spec_end() <= u64::MAX,
        ensures
            contains == (self.spec_start() <= other.spec_start() && self.spec_end()
                >= other.spec_end()),
    {
        self.start() <= other.start() && self.end() >= other.end()
    }

    /// Tells whether the ranges have an address in common.
    fn overlaps(&self, other: &Self) -> (overlaps: bool)
        requires
            0 <= self.spec_start() <= self.spec_end() <= u64::MAX,
            0 <= other.spec_start() <= other.spec_end() <= u64::MAX,
        ensures
            overlaps == (self.spec_start() < other.spec_end() && other.spec_start()
                < self.spec_end()),
    {
        self.start() < other.end() && other.start() < self.end()
    }

    /// Tells whether one range ends where the other starts.
    fn adjacent(&self, other: &Self) -> (adjacent: bool)
        requires
            0 <= self.spec_start() <= self.spec_end() <= u64::MAX,
            0 <= other.spec_start() <= other.spec_end() <= u64::MAX,
        ensures
            adjacent == (self.spec_end() == other.spec_start() || other.spec_end()
                == self.spec_start()),
    {
        self.end() == other.start() || other.end() == self.start()
    }

    /// Merges the ranges if they overlap or are adjacent.
    fn try_merge(&self, other: &Self) -> (merged: Option<Self>)
        requires
            0 <= self.spec_start() <= self.spec_end() <= u64::MAX,
            0 <= other.spec_start() <= other.spec_end() <= u64::MAX,
        ensures
            merged == if (self.spec_start() < other.spec_end() && other.spec_start()
                < self.spec_end()) || self.spec_end() == other.spec_start() || other.spec_end()
                == self.spec_start() {
                Some(self.spec_merge(other))
            } else {
                None
            },
            merged matches Some(range) ==> 0 <= range.spec_start() <= range.spec_end()
                <= u64::MAX,
    {
        if self.overlaps(other) || self.adjacent(other) {
            Some(self.merge(other))
        } else {
            None
        }
    }
}

/// The range starts at or before its end, and its end is an address.
pub open spec fn valid<T: Interval>(range: &T) -> bool {
    0 <= range.spec_start() <= range.spec_end() <= u64::MAX
}

/// The ranges have an address in common.
pub open spec fn overlapping<T: Interval>(a: &T, b: &T) -> bool {
    a.spec_start() < b.spec_end() && b.spec_start() < a.spec_end()
}

/// One range ends where the other starts.
pub open spec fn adjoining<T: Interval>(a: &T, b: &T) -> bool {
    a.spec_end() == b.spec_start() || b.spec_end() == a.spec_start()
}

/// Sorts the ranges and merges each range into the one before it if the
/// two overlap or are adjacent.
pub fn merge_intervals<T: Interval>(intervals: &[&T]) -> (merged: Vec<T>)
    requires
        forall|i: int| 0 <= i < intervals@.len() ==> valid(#[trigger] intervals@[i]),
    ensures
        merged@ == merged_run(stable_sorted(ranges_of(intervals@))),
{
    let sorted = sort_intervals(intervals);
    proof {
        lemma_stable_sorted_keeps_ranges(ranges_of(intervals@));
    }
    merge_sorted(&sorted)
}

/// The ranges that the references point to.
pub open spec fn ranges_of<T: Interval>(intervals: Seq<&T>) -> Seq<T> {
    intervals.map_values(|interval: &T| *interval)
}

/// Where `range` goes into a sorted list: behind the last range that it
/// does not sort before, counted from the end of the list.
pub open spec fn insertion_point<T: Interval>(sorted: Seq<T>, range: T) -> int
    decreases sorted.len(),
{
    if sorted.len() == 0 {
        0
    } else if range.spec_sorts_before(&sorted.last()) {
        insertion_point(sorted.drop_last(), range)
    } else {
        sorted.len() as int
    }
}

/// The ranges in sorted order; ranges of which neither sorts before the
/// other stay in the order in which they came.
pub open spec fn stable_sorted<T: Interval>(ranges: Seq<T>) -> Seq<T>
    decreases ranges.len(),
{
    if ranges.len() == 0 {
        Seq::empty()
    } else {
        let before = stable_sorted(ranges.drop_last());
        before.insert(insertion_point(before, ranges.last()), ranges.last())
    }
}

/// The ranges with each one merged into the one before it where the two
/// overlap or are adjacent, from the first to the last.
pub open spec fn merged_run<T: Interval>(ranges: Seq<T>) -> Seq<T>
    decreases ranges.len(),
{
    if ranges.len() == 0 {
        Seq::empty()
    } else if ranges.len() == 1 {
        seq![ranges[0]]
    } else {
        let before = merged_run(ranges.drop_last());
        let last = before.last();
        let current = ranges.last();
        if overlapping(&last, &current) || adjoining(&last, &current) {
            before.drop_last().push(last.spec_merge(&current))
        } else {
            before.push(current)
        }
    }
}

/// Sorting keeps the number of ranges and their validity.
pub proof fn lemma_stable_sorted_keeps_ranges<T: Interval>(ranges: Seq<T>)
    ensures
        stable_sorted(ranges).len() == ranges.len(),
        (forall|i: int| 0 <= i < ranges.len() ==> valid(&#[trigger] ranges[i])) ==> (forall|
            i: int,
        |
            0 <= i < ranges.len() ==> valid(&#[trigger] stable_sorted(ranges)[i])),
    decreases ranges.len(),
{
    if ranges.len() > 0 {
        let before = stable_sorted(ranges.drop_last());
        lemma_stable_sorted_keeps_ranges(ranges.drop_last());
        lemma_insertion_point_bounds(before, ranges.last());
        if forall|i: int| 0 <= i < ranges.len() ==> valid(&#[trigger] ranges[i]) {
            assert forall|i: int| 0 <= i < ranges.len() - 1 implies valid(
                &#[trigger] ranges.drop_last()[i],
            ) by {
                assert(ranges.drop_last()[i] == ranges[i]);
            }
            assert(valid(&ranges.last()));
        }
    }
}

/// The insertion point lies inside the list or at its end.
pub proof fn lemma_insertion_point_bounds<T: Interval>(sorted: Seq<T>, range: T)
    ensures
        0 <= insertion_point(sorted, range) <= sorted.len(),
    decreases sorted.len(),
{
    if sorted.len() > 0 && range.spec_sorts_before(&sorted.last()) {
        lemma_insertion_point_bounds(sorted.drop_last(), range);
    }
}

/// Copies the ranges into a list in sorted order.
fn sort_intervals<T: Interval>(intervals: &[&T]) -> (sorted: Vec<T>)
    ensures
        sorted@ == stable_sorted(ranges_of(intervals@)),
{
    let ghost ranges = ranges_of(intervals@);
    let mut sorted: Vec<T> = Vec::new();
    let mut i: usize = 0;
    assert(ranges.take(0) =~= Seq::<T>::empty());
    while i < intervals.len()
        invariant
            i <= intervals.len(),
            ranges == ranges_of(intervals@),
            sorted@ == stable_sorted(ranges.take(i as int)),
            sorted@.len() == i,
        decreases intervals.len() - i,
    {
        let range: T = intervals[i].duplicate();
        assert(range == ranges[i as int]);
        let mut at: usize = sorted.len();
        assert(sorted@.take(at as int) =~= sorted@);
        while at > 0 && range.sorts_before(&sorted[at - 1])
            invariant
                at <= sorted.len(),
                insertion_point(sorted@, range) == insertion_point(
                    sorted@.take(at as int),
                    range,
                ),
            decreases at,
        {
            assert(sorted@.take(at as int).drop_last() =~= sorted@.take(at - 1));
            at -= 1;
        }
        assert(sorted@.take(sorted@.len() as int) =~= sorted@);
        assert(insertion_point(sorted@, range) == at) by {
            if at > 0 {
                assert(sorted@.take(at as int).last() == sorted@[at - 1]);
            }
        }
        assert(ranges.take(i + 1).drop_last() =~= ranges.take(i as int));
        assert(ranges.take(i + 1).last() == range);
        sorted.insert(at, range);
        i += 1;
    }
    assert(ranges.take(intervals@.len() as int) =~= ranges);
    sorted
}

/// Merges each range of a list into the one before it where the two
/// overlap or are adjacent.
fn merge_sorted<T: Interval>(sorted: &Vec<T>) -> (merged: Vec<T>)
    requires
        forall|i: int| 0 <= i < sorted@.len() ==> valid(&#[trigger] sorted@[i]),
    ensures
        merged@ == merged_run(sorted@),
{
    let mut merged: Vec<T> = Vec::new();
    if sorted.len() == 0 {
        return merged;
    }
    merged.push(sorted[0].duplicate());
    assert(sorted@.take(1) =~= seq![sorted@[0]]);
    let mut i: usize = 1;
    while i < sorted.len()
        invariant
            1 <= i <= sorted.len(),
            forall|j: int| 0 <= j < sorted@.len() ==> valid(&#[trigger] sorted@[j]),
            merged@ == merged_run(sorted@.take(i as int)),
            merged@.len() >= 1,
            forall|j: int| 0 <= j < merged@.len() ==> valid(&#[trigger] merged@[j]),
        decreases sorted.len() - i,
    {
        let current = &sorted[i];
        assert(sorted@.take(i + 1).drop_last() =~= sorted@.take(i as int));
        assert(sorted@.take(i + 1).last() == *current);
        let last = &merged[merged.len() - 1];
        match last.try_merge(current) {
            Some(range) => {
                merged.pop();
                merged.push(range);
            },
            None => {
                merged.push(current.duplicate());
            },
        }
        i += 1;
    }
    assert(sorted@.take(sorted@.len() as int) =~= sorted@);
    merged
}

} // verus!
