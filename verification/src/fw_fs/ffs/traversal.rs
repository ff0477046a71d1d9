//! Walking the sections of a file, encapsulated ones included.
//!
//! The walk keeps a cursor into the sections as they lie in the file and a
//! queue of sections that an extractor has unpacked. A step yields the
//! front of the queue, or, if the queue is empty, the section under the
//! cursor, which then moves on. If the yielded section is an encapsulation
//! and the walk has an extractor, the extractor's sections are put at the
//! front of the queue in their order, so that they come out before
//! anything else: the sections are visited depth first, a parent before its
//! children.

use crate::fw_fs::ffs::section::{sections_from, Section, SectionView};
use std::collections::VecDeque;
use vstd::prelude::*;

verus! {

/// Unpacks encapsulation sections.
///
/// An extractor returns the sections that the given section wraps. It
/// returns nothing for a section that it does not understand and for one
/// whose content is damaged.
pub trait SectionExtractor {
    /// The sections that `section` wraps, in their order.
    fn extract<'a>(&self, section: Section<'a>) -> Vec<Section<'a>>;
}

/// What identifies each section of a list.
pub open spec fn section_views<'a>(sections: Seq<Section<'a>>) -> Seq<SectionView> {
    sections.map_values(|section: Section<'a>| section@)
}

/// The state of a walk: the section under the cursor, and the unpacked
/// sections that wait to be yielded.
pub struct TraversalView {
    pub cursor: Option<SectionView>,
    pub pending: Seq<SectionView>,
}

impl TraversalView {
    /// The section that the next step yields.
    pub open spec fn current(self) -> Option<SectionView> {
        if self.pending.len() > 0 {
            Some(self.pending[0])
        } else {
            self.cursor
        }
    }

    /// The state behind the section that the next step yields.
    pub open spec fn advanced(self) -> TraversalView {
        if self.pending.len() > 0 {
            TraversalView { cursor: self.cursor, pending: self.pending.skip(1) }
        } else {
            match self.cursor {
                Some(section) => TraversalView {
                    cursor: section.following(),
                    pending: self.pending,
                },
                None => self,
            }
        }
    }

    /// The state with `children` put in front of what waits.
    pub open spec fn with_extracted(self, children: Seq<SectionView>) -> TraversalView {
        TraversalView { cursor: self.cursor, pending: children + self.pending }
    }

    /// The state after `n` steps that unpack nothing.
    pub open spec fn advanced_by(self, n: nat) -> TraversalView
        decreases n,
    {
        if n == 0 {
            self
        } else {
            self.advanced().advanced_by((n - 1) as nat)
        }
    }
}

/// After `i` steps that unpack nothing, the first `i` of the sections put
/// in front are gone and the rest of the state is as it was.
pub proof fn lemma_advanced_by_drains(state: TraversalView, children: Seq<SectionView>, i: nat)
    requires
        i <= children.len(),
    ensures
        state.with_extracted(children).advanced_by(i) == state.with_extracted(
            children.skip(i as int),
        ),
    decreases i,
{
    if i == 0 {
        assert(children.skip(0) =~= children);
    } else {
        lemma_advanced_by_splits(state.with_extracted(children), (i - 1) as nat);
        lemma_advanced_by_drains(state, children, (i - 1) as nat);
        let before = state.with_extracted(children.skip(i - 1));
        assert(before.pending.skip(1) =~= children.skip(i as int) + state.pending);
    }
}

/// Unpacked sections come out first and in their order: in a state that
/// has `children` put in front, step `i` yields `children[i]` for every
/// `i` below their number, and after as many steps as there are children
/// the walk stands where it stood before they were put in, so that the
/// next section of the file follows them. The steps are those that unpack
/// nothing, as it is when no child is an encapsulation.
pub proof fn lemma_extracted_sections_come_first(
    state: TraversalView,
    children: Seq<SectionView>,
    i: nat,
)
    requires
        i < children.len(),
    ensures
        state.with_extracted(children).advanced_by(i).current() == Some(children[i as int]),
        state.with_extracted(children).advanced_by(children.len()) == state,
{
    lemma_advanced_by_drains(state, children, i);
    assert(state.with_extracted(children.skip(i as int)).pending[0] == children[i as int]);
    lemma_advanced_by_drains(state, children, children.len());
    assert(children.skip(children.len() as int) + state.pending =~= state.pending);
}

/// A walk that unpacks nothing yields the sections of the list under its
/// cursor as they lie in the buffer, and ends behind the last of them.
pub proof fn lemma_walk_follows_the_buffer(start: SectionView, i: nat)
    requires
        start.valid(),
        i <= sections_from(start.buffer, start.offset).len(),
    ensures
        ({
            let walk = TraversalView { cursor: Some(start), pending: Seq::empty() };
            let offsets = sections_from(start.buffer, start.offset);
            &&& walk.advanced_by(i).pending == Seq::<SectionView>::empty()
            &&& i < offsets.len() ==> walk.advanced_by(i).current() == Some(
                start.at(offsets[i as int]),
            )
            &&& i == offsets.len() ==> walk.advanced_by(i).current() is None
        }),
    decreases i,
{
    let walk = TraversalView { cursor: Some(start), pending: Seq::empty() };
    let offsets = sections_from(start.buffer, start.offset);
    if i > 0 {
        match start.following() {
            Some(next) => {
                assert(offsets == seq![start.offset] + sections_from(start.buffer, next.offset));
                lemma_walk_follows_the_buffer(next, (i - 1) as nat);
                assert(walk.advanced() == (TraversalView {
                    cursor: Some(next),
                    pending: Seq::empty(),
                }));
                if i < offsets.len() {
                    assert(offsets[i as int] == sections_from(start.buffer, next.offset)[i - 1]);
                    assert(start.at(offsets[i as int]) == next.at(offsets[i as int]));
                }
            },
            None => {
                assert(offsets == seq![start.offset]);
                assert(walk.advanced() == (TraversalView {
                    cursor: None,
                    pending: Seq::empty(),
                }));
                assert(walk.advanced().advanced_by(0) == walk.advanced());
            },
        }
    } else {
        assert(start.at(offsets[0]) == start);
    }
}

/// No section of the list wraps other sections.
pub open spec fn all_leaves(sections: Seq<SectionView>) -> bool {
    forall|i: int| 0 <= i < sections.len() ==> !(#[trigger] sections[i]).is_encapsulation()
}

/// A walk over sections of which none is an encapsulation never asks an
/// extractor: no step yields an encapsulation section. With an extractor
/// and without one the walk therefore yields the same sections, those of
/// the list as they lie in the buffer.
pub proof fn lemma_walk_of_leaves_asks_nothing(start: SectionView, i: nat)
    requires
        start.valid(),
        all_leaves(start.list()),
    ensures
        ({
            let walk = TraversalView { cursor: Some(start), pending: Seq::empty() };
            let yielded = walk.advanced_by(i).current();
            &&& yielded is Some ==> !yielded->0.is_encapsulation()
            &&& i < start.list().len() ==> yielded == Some(start.list()[i as int])
            &&& i >= start.list().len() ==> yielded is None
        }),
{
    let walk = TraversalView { cursor: Some(start), pending: Seq::empty() };
    let offsets = sections_from(start.buffer, start.offset);
    let count = start.list().len();
    assert(count == offsets.len());
    if i < count {
        lemma_walk_follows_the_buffer(start, i);
        assert(start.list()[i as int] == start.at(offsets[i as int]));
    } else {
        lemma_walk_follows_the_buffer(start, count);
        lemma_ended_walk_stays_ended(walk, count, (i - count) as nat);
    }
}

/// A walk that has come to its end yields nothing from then on.
pub proof fn lemma_ended_walk_stays_ended(walk: TraversalView, n: nat, more: nat)
    requires
        walk.advanced_by(n).current() is None,
    ensures
        walk.advanced_by(n + more).current() is None,
    decreases more,
{
    if more > 0 {
        lemma_ended_walk_stays_ended(walk, n, (more - 1) as nat);
        lemma_advanced_by_splits(walk, (n + more - 1) as nat);
    }
}

/// One more step at the end is one more step.
pub proof fn lemma_advanced_by_splits(state: TraversalView, n: nat)
    ensures
        state.advanced_by(n + 1) == state.advanced_by(n).advanced(),
    decreases n,
{
    if n > 0 {
        lemma_advanced_by_splits(state.advanced(), (n - 1) as nat);
    } else {
        assert(state.advanced().advanced_by(0) == state.advanced());
    }
}

/// Walks the sections of a file, one call at a time.
pub struct FfsSectionIterator<'a> {
    next_section: Option<Section<'a>>,
    extractor: Option<&'a dyn SectionExtractor>,
    pending_encapsulated_sections: VecDeque<Section<'a>>,
}

impl<'a> View for FfsSectionIterator<'a> {
    type V = TraversalView;

    closed spec fn view(&self) -> TraversalView {
        TraversalView {
            cursor: match self.next_section {
                Some(section) => Some(section@),
                None => None,
            },
            pending: section_views(self.pending_encapsulated_sections@),
        }
    }
}

impl<'a> FfsSectionIterator<'a> {
    /// The extractor that the walk unpacks encapsulation sections with, if
    /// it has one.
    pub closed spec fn extractor(&self) -> Option<&'a dyn SectionExtractor> {
        self.extractor
    }

    /// The walk unpacks encapsulation sections.
    pub open spec fn has_extractor(&self) -> bool {
        self.extractor() is Some
    }

    /// The walk unpacks encapsulation sections with `extractor`.
    pub open spec fn asks(&self, extractor: &'a dyn SectionExtractor) -> bool {
        self.extractor() == Some(extractor)
    }

    /// A walk from `start_section` that unpacks encapsulation sections
    /// with `extractor`, if there is one.
    pub fn with_extractor(
        start_section: Option<Section<'a>>,
        extractor: Option<&'a dyn SectionExtractor>,
    ) -> (iterator: FfsSectionIterator<'a>)
        ensures
            iterator.extractor() == extractor,
            iterator@.pending == Seq::<SectionView>::empty(),
            match start_section {
                Some(section) => iterator@.cursor == Some(section@),
                None => iterator@.cursor is None,
            },
    {
        let iterator = FfsSectionIterator {
            next_section: start_section,
            extractor,
            pending_encapsulated_sections: VecDeque::new(),
        };
        assert(iterator@.pending =~= Seq::<SectionView>::empty());
        iterator
    }

    /// A walk from `start_section` that leaves encapsulation sections
    /// packed.
    pub fn new(start_section: Option<Section<'a>>) -> (iterator: FfsSectionIterator<'a>)
        ensures
            iterator.extractor() is None,
            iterator@.pending == Seq::<SectionView>::empty(),
            match start_section {
                Some(section) => iterator@.cursor == Some(section@),
                None => iterator@.cursor is None,
            },
    {
        FfsSectionIterator::with_extractor(start_section, None)
    }

    /// A walk from `start_section` that unpacks encapsulation sections
    /// with `extractor`.
    pub fn new_with_extractor(
        start_section: Option<Section<'a>>,
        extractor: &'a dyn SectionExtractor,
    ) -> (iterator: FfsSectionIterator<'a>)
        ensures
            iterator.extractor() == Some(extractor),
            iterator@.pending == Seq::<SectionView>::empty(),
            match start_section {
                Some(section) => iterator@.cursor == Some(section@),
                None => iterator@.cursor is None,
            },
    {
        let held = Some(extractor);
        FfsSectionIterator::with_extractor(start_section, held)
    }

    /// Yields the next section without unpacking it: the front of the
    /// queue, or else the section under the cursor.
    pub fn advance(&mut self) -> (section: Option<Section<'a>>)
        ensures
            match old(self)@.current() {
                Some(current) => (section matches Some(s) && s@ == current),
                None => section is None,
            },
            final(self)@ == old(self)@.advanced(),
            final(self).extractor() == old(self).extractor(),
    {
        let ghost queue = self.pending_encapsulated_sections@;
        match self.pending_encapsulated_sections.pop_front() {
            Some(section) => {
                assert(section_views(queue.subrange(1, queue.len() as int)) =~= section_views(
                    queue,
                ).skip(1));
                Some(section)
            },
            None => {
                assert(section_views(queue) =~= Seq::<SectionView>::empty());
                let current = self.next_section.take();
                match current {
                    Some(section) => {
                        self.next_section = section.next_section();
                        Some(section)
                    },
                    None => None,
                }
            },
        }
    }

    /// Puts `sections` at the front of the queue, in their order.
    pub fn push_extracted(&mut self, sections: Vec<Section<'a>>)
        ensures
            final(self)@ == old(self)@.with_extracted(section_views(sections@)),
            final(self).extractor() == old(self).extractor(),
    {
        let mut sections = sections;
        let ghost all = sections@;
        let ghost before = self.pending_encapsulated_sections@;
        while sections.len() > 0
            invariant
                sections@.len() <= all.len(),
                sections@ == all.take(sections@.len() as int),
                self.pending_encapsulated_sections@ == all.skip(sections@.len() as int) + before,
                self.next_section == old(self).next_section,
                self.extractor == old(self).extractor,
            decreases sections.len(),
        {
            let ghost n = sections@.len() as int;
            match sections.pop() {
                Some(section) => {
                    self.pending_encapsulated_sections.push_front(section);
                    assert(self.pending_encapsulated_sections@ =~= all.skip(n - 1) + before);
                    assert(sections@ =~= all.take(n - 1));
                },
                None => {},
            }
        }
        assert(all.skip(0) =~= all);
        assert(section_views(all + before) =~= section_views(all) + section_views(before));
    }

    /// Yields the next section, and unpacks it if it is an encapsulation
    /// and the walk has an extractor.
    ///
    /// The section that comes out and the state behind it are those of
    /// [`FfsSectionIterator::advance`]. Where the extractor is asked, what
    /// it returns is put in front of the queue, whatever it is.
    pub fn next(&mut self) -> (section: Option<Section<'a>>)
        ensures
            match old(self)@.current() {
                Some(current) => (section matches Some(s) && s@ == current),
                None => section is None,
            },
            final(self).extractor() == old(self).extractor(),
            old(self).unpacks_next() ==> exists|children: Seq<SectionView>|
                final(self)@ == #[trigger] old(self)@.advanced().with_extracted(children),
            !old(self).unpacks_next() ==> final(self)@ == old(self)@.advanced(),
    {
        let current = self.advance();
        match &current {
            Some(section) => {
                if section.is_encapsulation() {
                    match self.extractor {
                        Some(extractor) => {
                            let extracted = extractor.extract(section.clone());
                            self.push_extracted(extracted);
                        },
                        None => {},
                    }
                }
            },
            None => {},
        }
        current
    }

    /// The next step asks the extractor: the walk has one, and the section
    /// that comes next is an encapsulation.
    pub open spec fn unpacks_next(&self) -> bool {
        self.has_extractor() && (self@.current() matches Some(section)
            && section.is_encapsulation())
    }
}

} // verus!
