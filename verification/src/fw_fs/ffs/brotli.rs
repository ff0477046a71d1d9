//! An extractor for GUID-defined sections whose content is a Brotli
//! stream.
//!
//! The content of such a section starts with the length of the unpacked
//! data and the length of the scratch space that a decoder may want, both
//! as 64-bit little-endian numbers; the compressed stream follows. What the
//! stream unpacks to is taken as a list of sections, which is walked to its
//! end with this extractor unpacking what it meets, down to a chosen depth.

use crate::efi::Guid;
use crate::fw_fs::bytes::{read_u64, u64_le};
use crate::fw_fs::ffs::section::raw_type::encapsulated;
use crate::fw_fs::ffs::section::{
    lemma_list_unfolds, lemma_sections_fit_the_buffer, metadata_start, valid_section, Section,
    SectionMetaData, SectionView,
};
use crate::fw_fs::ffs::traversal::{
    all_leaves, section_views, FfsSectionIterator, SectionExtractor, TraversalView,
};
use crate::fw_fs::ffs::File;
use std::sync::Arc;
use vstd::prelude::*;

verus! {

/// The bytes of the GUID `3d532050-5cda-4fd0-879e-0f7f630d5afb`, which
/// marks a section as Brotli-compressed.
pub const BROTLI_SECTION_GUID_BYTES: [u8; 16] = [
    0x50, 0x20, 0x53, 0x3d, 0xda, 0x5c, 0xd0, 0x4f, 0x87, 0x9e, 0x0f, 0x7f, 0x63, 0x0d, 0x5a, 0xfb,
];

/// Length of the two numbers that precede the compressed stream.
pub const PAYLOAD_HEADER_SIZE: usize = 16;

/// The GUID that marks a section as Brotli-compressed.
pub fn brotli_section_guid() -> (guid: Guid)
    ensures
        guid@ == BROTLI_SECTION_GUID_BYTES@,
{
    Guid::from_bytes(&BROTLI_SECTION_GUID_BYTES)
}

/// What the Brotli decoder leaves in an output buffer that held `output`
/// when it was given the stream `input`, if it reports success.
pub uninterp spec fn brotli_decoded(input: Seq<u8>, output: Seq<u8>) -> Option<Seq<u8>>;

/// Runs `brotli_decompressor::brotli_decode` on `input` with `output` as
/// the buffer to fill. The result is the buffer as the decoder left it, if
/// the decoder reports success, and nothing if it reports anything else.
/// The decoder does not change the buffer's length.
#[verifier::external_body]
fn brotli_decode(input: &[u8], output: Vec<u8>) -> (decoded: Option<Vec<u8>>)
    ensures
        match decoded {
            Some(bytes) => brotli_decoded(input@, output@) == Some(bytes@) && bytes@.len()
                == output@.len(),
            None => brotli_decoded(input@, output@) is None,
        },
{
    let mut output = output;
    let info = brotli_decompressor::brotli_decode(input, output.as_mut_slice());
    match info.result {
        brotli_decompressor::BrotliResult::ResultSuccess => Some(output),
        _ => None,
    }
}

/// The section is GUID-defined and carries the Brotli GUID.
pub open spec fn is_brotli_section(section: SectionView) -> bool {
    let start = metadata_start(section.buffer, section.offset);
    &&& section.type_raw() == encapsulated::GUID_DEFINED
    &&& section.buffer.subrange(start, start + 16) == BROTLI_SECTION_GUID_BYTES@
}

/// The length that the section's content declares for the unpacked data.
pub open spec fn declared_size(section: SectionView) -> int {
    u64_le(section.content(), 0)
}

/// What the section's content unpacks to: the outcome of decoding the
/// stream behind the two leading numbers into a zeroed buffer of the
/// declared length. There is none if the section is not a Brotli section,
/// if its content is too short for the two numbers, if the declared length
/// is more than a buffer can have, or if decoding fails.
pub open spec fn unpacked_buffer(section: SectionView) -> Option<Seq<u8>> {
    if is_brotli_section(section) && section.content().len() >= 16 && declared_size(section)
        <= isize::MAX {
        brotli_decoded(
            section.content().skip(16),
            Seq::new(declared_size(section) as nat, |i: int| 0u8),
        )
    } else {
        None
    }
}

/// The sections that the extractor returns for `section` when it may
/// unpack `depth` levels: none at depth zero or if the section does not
/// unpack to a buffer that starts with a section; else the walk over that
/// buffer, with one level less for what the walk meets.
pub open spec fn unpacked(section: SectionView, depth: nat) -> Seq<SectionView>
    decreases depth, 0nat, 0nat,
{
    if depth == 0 {
        Seq::empty()
    } else {
        match unpacked_buffer(section) {
            Some(buffer) => if valid_section(buffer, 0) {
                walked(
                    TraversalView {
                        cursor: Some(SectionView { file: section.file, buffer, offset: 0 }),
                        pending: Seq::empty(),
                    },
                    (depth - 1) as nat,
                    usize::MAX as nat,
                )
            } else {
                Seq::empty()
            },
            None => Seq::empty(),
        }
    }
}

/// The sections that a walk from `state` yields in at most `limit` steps,
/// when every encapsulation section that it yields is unpacked with
/// `depth` levels and its sections are put in front of the queue.
pub open spec fn walked(state: TraversalView, depth: nat, limit: nat) -> Seq<SectionView>
    decreases depth, 1nat, limit,
{
    if limit == 0 {
        Seq::empty()
    } else {
        match state.current() {
            Some(section) => {
                let children = if section.is_encapsulation() {
                    unpacked(section, depth)
                } else {
                    Seq::empty()
                };
                seq![section] + walked(
                    state.advanced().with_extracted(children),
                    depth,
                    (limit - 1) as nat,
                )
            },
            None => Seq::empty(),
        }
    }
}

/// A walk over waiting sections of which none is an encapsulation yields
/// them as they wait.
pub proof fn lemma_walked_pending_leaves(pending: Seq<SectionView>, depth: nat, limit: nat)
    requires
        all_leaves(pending),
        limit >= pending.len(),
    ensures
        walked(TraversalView { cursor: None, pending }, depth, limit) == pending,
    decreases pending.len(),
{
    let state = TraversalView { cursor: None, pending };
    if pending.len() > 0 {
        let rest = pending.skip(1);
        assert(state.advanced().with_extracted(Seq::empty()).pending =~= rest);
        lemma_walked_pending_leaves(rest, depth, (limit - 1) as nat);
        assert(seq![pending[0]] + rest =~= pending);
    } else {
        assert(walked(state, depth, limit) =~= pending);
    }
}

/// A walk over a list of sections of which none is an encapsulation yields
/// the list as it lies in the buffer, however deep the walk would unpack.
pub proof fn lemma_walked_list_of_leaves(start: SectionView, depth: nat, limit: nat)
    requires
        start.valid(),
        all_leaves(start.list()),
        limit >= start.list().len(),
    ensures
        walked(TraversalView { cursor: Some(start), pending: Seq::empty() }, depth, limit)
            == start.list(),
    decreases start.list().len(),
{
    let state = TraversalView { cursor: Some(start), pending: Seq::empty() };
    lemma_list_unfolds(start);
    assert(start.list()[0] == start);
    assert(state.advanced().with_extracted(Seq::empty()).pending =~= Seq::<
        SectionView,
    >::empty());
    match start.following() {
        Some(next) => {
            assert forall|i: int| 0 <= i < next.list().len() implies !(
            #[trigger] next.list()[i]).is_encapsulation() by {
                assert(next.list()[i] == start.list()[i + 1]);
            }
            lemma_walked_list_of_leaves(next, depth, (limit - 1) as nat);
        },
        None => {
            lemma_walked_pending_leaves(Seq::empty(), depth, (limit - 1) as nat);
        },
    }
}

/// A Brotli section whose content unpacks to a buffer of sections of which
/// none is an encapsulation is unpacked to exactly these sections: they
/// lie in the unpacked buffer, the first at offset zero and each next one
/// at the next multiple of four behind the one before, and they belong to
/// the file of the section that wraps them.
pub proof fn lemma_unpacked_list_of_leaves(section: SectionView, buffer: Seq<u8>, depth: nat)
    requires
        depth > 0,
        unpacked_buffer(section) == Some(buffer),
        buffer.len() <= usize::MAX,
        valid_section(buffer, 0),
        all_leaves((SectionView { file: section.file, buffer, offset: 0 }).list()),
    ensures
        unpacked(section, depth) == (SectionView { file: section.file, buffer, offset: 0 }).list(),
{
    let first = SectionView { file: section.file, buffer, offset: 0 };
    lemma_sections_fit_the_buffer(buffer, 0);
    lemma_walked_list_of_leaves(first, (depth - 1) as nat, usize::MAX as nat);
}

/// A file whose only section is a Brotli section that wraps sections of
/// which none is an encapsulation: a walk that unpacks with the extractor
/// yields the wrapping section first and then the wrapped sections in the
/// order in which they lie in the unpacked buffer.
pub proof fn lemma_walk_unpacks_wrapped_leaves(
    wrapping: SectionView,
    buffer: Seq<u8>,
    depth: nat,
    limit: nat,
)
    requires
        depth > 0,
        wrapping.valid(),
        wrapping.following() is None,
        unpacked_buffer(wrapping) == Some(buffer),
        buffer.len() <= usize::MAX,
        valid_section(buffer, 0),
        all_leaves((SectionView { file: wrapping.file, buffer, offset: 0 }).list()),
        limit > (SectionView { file: wrapping.file, buffer, offset: 0 }).list().len(),
    ensures
        walked(TraversalView { cursor: Some(wrapping), pending: Seq::empty() }, depth, limit)
            == seq![wrapping] + (SectionView { file: wrapping.file, buffer, offset: 0 }).list(),
{
    let wrapped = (SectionView { file: wrapping.file, buffer, offset: 0 }).list();
    let state = TraversalView { cursor: Some(wrapping), pending: Seq::empty() };
    lemma_unpacked_list_of_leaves(wrapping, buffer, depth);
    assert(wrapping.is_encapsulation());
    let behind = state.advanced().with_extracted(wrapped);
    assert(behind.pending =~= wrapped);
    assert(behind == (TraversalView { cursor: None, pending: wrapped }));
    lemma_walked_pending_leaves(wrapped, depth, (limit - 1) as nat);
}

/// Unpacks Brotli-compressed sections, and what they hold, down to a
/// chosen depth.
#[derive(Debug, Clone, Copy)]
pub struct BrotliSectionExtractor {
    max_depth: usize,
}

impl BrotliSectionExtractor {
    /// An extractor that unpacks at most `max_depth` levels of sections
    /// inside sections.
    pub fn new(max_depth: usize) -> (extractor: BrotliSectionExtractor)
        ensures
            extractor.spec_max_depth() == max_depth,
    {
        BrotliSectionExtractor { max_depth }
    }

    /// The number of levels that the extractor unpacks.
    pub closed spec fn spec_max_depth(&self) -> usize {
        self.max_depth
    }

    /// The number of levels that the extractor unpacks.
    #[verifier::when_used_as_spec(spec_max_depth)]
    pub fn max_depth(&self) -> (depth: usize)
        ensures
            depth == self.spec_max_depth(),
    {
        self.max_depth
    }

    /// Decodes the content of `section`, if it is a Brotli section.
    pub fn unpack_buffer(section: &Section<'_>) -> (buffer: Option<Vec<u8>>)
        ensures
            match buffer {
                Some(bytes) => unpacked_buffer(section@) == Some(bytes@),
                None => unpacked_buffer(section@) is None,
            },
    {
        let guid_defined = match section.metadata() {
            SectionMetaData::GuidDefined(guid_defined) => guid_defined,
            _ => {
                return None;
            },
        };
        if guid_defined.section_definition_guid != brotli_section_guid() {
            return None;
        }
        let data = section.section_data();
        if data.len() < PAYLOAD_HEADER_SIZE {
            return None;
        }
        let out_size: u64 = read_u64(data, 0);
        if out_size > isize::MAX as u64 {
            return None;
        }
        let output: Vec<u8> = vec![0u8; out_size as usize];
        assert(output@ =~= Seq::new(out_size as nat, |i: int| 0u8));
        let input = &data[PAYLOAD_HEADER_SIZE..data.len()];
        assert(input@ =~= data@.skip(16));
        brotli_decode(input, output)
    }

    /// The sections that `section` holds, unpacked `depth` levels deep.
    pub fn extract_to_depth<'a>(&self, section: &Section<'a>, depth: usize) -> (sections: Vec<
        Section<'a>,
    >)
        ensures
            section_views(sections@) == unpacked(section@, depth as nat),
        decreases depth, 0nat,
    {
        let sections: Vec<Section<'a>> = Vec::new();
        assert(section_views(sections@) =~= Seq::<SectionView>::empty());
        if depth == 0 {
            return sections;
        }
        let buffer = match Self::unpack_buffer(section) {
            Some(buffer) => buffer,
            None => {
                return sections;
            },
        };
        let file = section.containing_file();
        let first = match Section::new_in_extraction_buffer(&file, 0, Arc::new(buffer)) {
            Ok(first) => first,
            Err(_) => {
                return sections;
            },
        };
        let walk = FfsSectionIterator::new(Some(first));
        assert(walk@ == (TraversalView { cursor: Some(first@), pending: Seq::empty() }));
        self.walk_to_end(walk, depth - 1)
    }

    /// Walks to the end and returns every section on the way. Each
    /// encapsulation section that the walk yields is unpacked `depth`
    /// levels deep, and what it holds comes next.
    pub fn walk_to_end<'a>(&self, walk: FfsSectionIterator<'a>, depth: usize) -> (sections: Vec<
        Section<'a>,
    >)
        ensures
            section_views(sections@) == walked(walk@, depth as nat, usize::MAX as nat),
        decreases depth, 1nat,
    {
        let ghost start = walk@;
        let mut walk = walk;
        let mut sections: Vec<Section<'a>> = Vec::new();
        assert(section_views(sections@) + walked(start, depth as nat, usize::MAX as nat)
            =~= walked(start, depth as nat, usize::MAX as nat));
        while sections.len() < usize::MAX
            invariant
                section_views(sections@) + walked(
                    walk@,
                    depth as nat,
                    (usize::MAX - sections@.len()) as nat,
                ) == walked(start, depth as nat, usize::MAX as nat),
            ensures
                section_views(sections@) == walked(start, depth as nat, usize::MAX as nat),
            decreases usize::MAX - sections.len(),
        {
            let ghost yielded = section_views(sections@);
            match walk.advance() {
                Some(current) => {
                    if current.is_encapsulation() {
                        let children = self.extract_to_depth(&current, depth);
                        walk.push_extracted(children);
                    } else {
                        assert(walk@.with_extracted(Seq::empty()).pending =~= walk@.pending);
                    }
                    sections.push(current);
                    assert(section_views(sections@) =~= yielded + seq![current@]);
                    assert(yielded + (seq![current@] + walked(
                        walk@,
                        depth as nat,
                        (usize::MAX - sections@.len()) as nat,
                    )) =~= section_views(sections@) + walked(
                        walk@,
                        depth as nat,
                        (usize::MAX - sections@.len()) as nat,
                    ));
                },
                None => {
                    assert(section_views(sections@) + Seq::<SectionView>::empty()
                        =~= section_views(sections@));
                    break;
                },
            }
        }
        assert(section_views(sections@) + Seq::<SectionView>::empty() =~= section_views(
            sections@,
        ));
        sections
    }

    /// All sections of `file`, Brotli sections unpacked: what a walk over
    /// the file with this extractor yields, from the first section to the
    /// end.
    pub fn sections_of<'a>(&self, file: &File<'a>) -> (sections: Vec<Section<'a>>)
        ensures
            section_views(sections@) == walked(
                TraversalView { cursor: file@.first_section(), pending: Seq::empty() },
                self.spec_max_depth() as nat,
                usize::MAX as nat,
            ),
    {
        self.walk_to_end(file.ffs_sections(), self.max_depth)
    }
}

impl SectionExtractor for BrotliSectionExtractor {
    /// The sections that `section` holds, unpacked as deep as the
    /// extractor goes.
    fn extract<'a>(&self, section: Section<'a>) -> (sections: Vec<Section<'a>>)
        ensures
            section_views(sections@) == unpacked(section@, self.spec_max_depth() as nat),
    {
        self.extract_to_depth(&section, self.max_depth)
    }
}

} // verus!
