//! Sections of a file.
//!
//! A section is a position in a buffer at which a well-formed section
//! header stands and whose declared size fits the buffer. The buffer is
//! the file's own bytes, or what an extractor has unpacked from an
//! encapsulation section. The common header has two forms: a 24-bit size
//! and a type byte, or, where the 24-bit size is all ones, the same
//! followed by a 32-bit size. Some types carry a typed block behind the
//! common header. The next section starts at the next multiple of four
//! behind the section's end.

use crate::address_helper::{lemma_align_up_bounds, spec_align_up};
use crate::efi::{Error, Guid};
use crate::fw_fs::bytes::{read_bytes16, read_u16, read_u24, read_u32, u16_le, u24_le, u32_le};
use crate::fw_fs::ffs::section::header::{
    Compression, FreeformSubtypeGuid, GuidDefined, Version, COMMON_HEADER_EXTENDED_SIZE,
    COMMON_HEADER_STANDARD_SIZE, COMPRESSION_SIZE, FREEFORM_SUBTYPE_GUID_SIZE, GUID_DEFINED_SIZE,
    VERSION_SIZE,
};
use crate::fw_fs::ffs::section::raw_type::encapsulated;
use crate::fw_fs::ffs::{File, FileView};
use std::sync::Arc;
use vstd::prelude::*;

pub mod header;
pub mod raw_type;

verus! {

/// What a section holds, as its type byte tells.
#[derive(Debug, Copy, Clone, PartialEq, Eq, Structural)]
pub enum Type {
    All,
    Compression,
    GuidDefined,
    Disposable,
    Pe32,
    Pic,
    Te,
    DxeDepex,
    Version,
    UserInterface,
    Compatibility16,
    FirmwareVolumeImage,
    FreeformSubtypeGuid,
    Raw,
    PeiDepex,
    MmDepex,
}

/// The type that a type byte stands for, if it is one of the named types.
pub open spec fn type_of_raw(raw: u8) -> Option<Type> {
    if raw == encapsulated::COMPRESSION {
        Some(Type::Compression)
    } else if raw == encapsulated::GUID_DEFINED {
        Some(Type::GuidDefined)
    } else if raw == encapsulated::DISPOSABLE {
        Some(Type::Disposable)
    } else if raw == raw_type::PE32 {
        Some(Type::Pe32)
    } else if raw == raw_type::PIC {
        Some(Type::Pic)
    } else if raw == raw_type::TE {
        Some(Type::Te)
    } else if raw == raw_type::DXE_DEPEX {
        Some(Type::DxeDepex)
    } else if raw == raw_type::VERSION {
        Some(Type::Version)
    } else if raw == raw_type::USER_INTERFACE {
        Some(Type::UserInterface)
    } else if raw == raw_type::COMPATIBILITY16 {
        Some(Type::Compatibility16)
    } else if raw == raw_type::FIRMWARE_VOLUME_IMAGE {
        Some(Type::FirmwareVolumeImage)
    } else if raw == raw_type::FREEFORM_SUBTYPE_GUID {
        Some(Type::FreeformSubtypeGuid)
    } else if raw == raw_type::RAW {
        Some(Type::Raw)
    } else if raw == raw_type::PEI_DEPEX {
        Some(Type::PeiDepex)
    } else if raw == raw_type::MM_DEPEX {
        Some(Type::MmDepex)
    } else {
        None
    }
}

/// The sections that wrap other sections and need an extractor to show
/// them: compressed ones and GUID-defined ones.
pub open spec fn raw_is_encapsulation(raw: u8) -> bool {
    raw == encapsulated::COMPRESSION || raw == encapsulated::GUID_DEFINED
}

/// The common header at `offset` is the extended one: its 24-bit size is
/// all ones.
pub open spec fn is_extended(b: Seq<u8>, offset: int) -> bool {
    b[offset] == 0xff && b[offset + 1] == 0xff && b[offset + 2] == 0xff
}

/// The length of the common header at `offset`.
pub open spec fn header_size(b: Seq<u8>, offset: int) -> int {
    if is_extended(b, offset) {
        8
    } else {
        4
    }
}

/// The type byte of the section at `offset`.
pub open spec fn type_raw(b: Seq<u8>, offset: int) -> u8 {
    b[offset + 3]
}

/// The length of the section at `offset`: header, typed block and content.
pub open spec fn section_size(b: Seq<u8>, offset: int) -> int {
    if is_extended(b, offset) {
        u32_le(b, offset + 4)
    } else {
        u24_le(b, offset)
    }
}

/// The length of the typed block that follows the common header of a
/// section of the given type.
pub open spec fn metadata_size(raw: u8) -> int {
    if raw == encapsulated::COMPRESSION {
        5
    } else if raw == encapsulated::GUID_DEFINED {
        20
    } else if raw == raw_type::VERSION {
        2
    } else if raw == raw_type::FREEFORM_SUBTYPE_GUID {
        16
    } else {
        0
    }
}

/// Where the typed block of the section at `offset` starts.
pub open spec fn metadata_start(b: Seq<u8>, offset: int) -> int {
    offset + header_size(b, offset)
}

/// Where the content of the section at `offset` starts: for a GUID-defined
/// section at the data offset that its typed block declares, counted from
/// the section's first byte; for every other section behind the typed
/// block.
pub open spec fn content_start(b: Seq<u8>, offset: int) -> int {
    if type_raw(b, offset) == encapsulated::GUID_DEFINED {
        offset + u16_le(b, metadata_start(b, offset) + 16)
    } else {
        metadata_start(b, offset) + metadata_size(type_raw(b, offset))
    }
}

/// Where the section at `offset` ends.
pub open spec fn section_end(b: Seq<u8>, offset: int) -> int {
    offset + section_size(b, offset)
}

/// A section stands at `offset`: the common header and the typed block lie
/// inside the buffer and inside the section, the content starts at or
/// before the section's end, and the section ends inside the buffer.
pub open spec fn valid_section(b: Seq<u8>, offset: int) -> bool {
    &&& 0 <= offset
    &&& offset + 4 <= b.len()
    &&& is_extended(b, offset) ==> offset + 8 <= b.len()
    &&& metadata_start(b, offset) + metadata_size(type_raw(b, offset)) <= b.len()
    &&& metadata_start(b, offset) + metadata_size(type_raw(b, offset)) <= section_end(b, offset)
    &&& content_start(b, offset) <= section_end(b, offset)
    &&& section_end(b, offset) <= b.len()
}

/// Where the section behind the section at `offset` would start.
pub open spec fn next_section_offset(b: Seq<u8>, offset: int) -> int {
    spec_align_up(section_end(b, offset), 4)
}

/// The offset of the section that follows the section at `offset`, if the
/// list goes on: there is room for a header and a section stands there.
pub open spec fn following_section(b: Seq<u8>, offset: int) -> Option<int> {
    let next = next_section_offset(b, offset);
    if next + 4 <= b.len() && valid_section(b, next) {
        Some(next)
    } else {
        None
    }
}

/// The offsets of the sections of the list that starts at `offset`, as
/// they lie in the buffer.
pub open spec fn sections_from(b: Seq<u8>, offset: int) -> Seq<int>
    decreases b.len() - offset,
    when valid_section(b, offset)
    via sections_from_decreases
{
    match following_section(b, offset) {
        Some(next) => seq![offset] + sections_from(b, next),
        None => seq![offset],
    }
}

#[via_fn]
proof fn sections_from_decreases(b: Seq<u8>, offset: int) {
    lemma_align_up_bounds(section_end(b, offset), 4);
}

/// Every section of a list stands at a valid place, and each section but
/// the first starts at the next multiple of four at or behind the end of
/// the section before it.
pub proof fn lemma_sections_follow_each_other(b: Seq<u8>, offset: int, i: int)
    requires
        valid_section(b, offset),
        0 <= i < sections_from(b, offset).len(),
    ensures
        valid_section(b, sections_from(b, offset)[i]),
        i > 0 ==> {
            let before = sections_from(b, offset)[i - 1];
            &&& sections_from(b, offset)[i] == spec_align_up(before + section_size(b, before), 4)
            &&& sections_from(b, offset)[i] >= before + section_size(b, before)
            &&& sections_from(b, offset)[i] % 4 == 0
        },
    decreases i,
{
    if i > 0 {
        let next = following_section(b, offset)->0;
        lemma_align_up_bounds(section_end(b, offset), 4);
        assert(sections_from(b, offset) == seq![offset] + sections_from(b, next));
        lemma_sections_follow_each_other(b, next, i - 1);
        if i > 1 {
            assert(sections_from(b, offset)[i - 1] == sections_from(b, next)[i - 2]);
        }
    }
}

/// What identifies a section: the file it belongs to, the bytes of the
/// buffer that holds it, and its offset in them.
pub struct SectionView {
    pub file: FileView,
    pub buffer: Seq<u8>,
    pub offset: int,
}

impl SectionView {
    /// A section stands at the offset.
    pub open spec fn valid(self) -> bool {
        valid_section(self.buffer, self.offset)
    }

    /// The section's type byte.
    pub open spec fn type_raw(self) -> u8 {
        type_raw(self.buffer, self.offset)
    }

    /// The section's length: header, typed block and content.
    pub open spec fn size(self) -> int {
        section_size(self.buffer, self.offset)
    }

    /// The section's content.
    pub open spec fn content(self) -> Seq<u8> {
        self.buffer.subrange(
            content_start(self.buffer, self.offset),
            section_end(self.buffer, self.offset),
        )
    }

    /// The section wraps other sections.
    pub open spec fn is_encapsulation(self) -> bool {
        raw_is_encapsulation(self.type_raw())
    }

    /// The section at another offset of the same buffer.
    pub open spec fn at(self, offset: int) -> SectionView {
        SectionView { file: self.file, buffer: self.buffer, offset }
    }

    /// The section that follows in the buffer, if the list goes on.
    pub open spec fn following(self) -> Option<SectionView> {
        match following_section(self.buffer, self.offset) {
            Some(next) => Some(self.at(next)),
            None => None,
        }
    }

    /// The sections of the list that starts with this one, as they lie in
    /// the buffer.
    pub open spec fn list(self) -> Seq<SectionView> {
        sections_from(self.buffer, self.offset).map_values(|offset: int| self.at(offset))
    }
}

/// A list of sections has at most as many sections as the buffer has bytes
/// from its start.
pub proof fn lemma_sections_fit_the_buffer(b: Seq<u8>, offset: int)
    requires
        valid_section(b, offset),
    ensures
        1 <= sections_from(b, offset).len() <= b.len() - offset,
    decreases b.len() - offset,
{
    lemma_align_up_bounds(section_end(b, offset), 4);
    match following_section(b, offset) {
        Some(next) => {
            lemma_sections_fit_the_buffer(b, next);
        },
        None => {},
    }
}

/// A list of sections is its first section followed by the list of the
/// section behind it.
pub proof fn lemma_list_unfolds(section: SectionView)
    requires
        section.valid(),
    ensures
        section.list() == match section.following() {
            Some(next) => seq![section] + next.list(),
            None => seq![section],
        },
{
    match section.following() {
        Some(next) => {
            assert(section.list() =~= seq![section] + next.list()) by {
                let offsets = sections_from(section.buffer, section.offset);
                let rest = sections_from(section.buffer, next.offset);
                assert(offsets == seq![section.offset] + rest);
                assert forall|i: int| 0 <= i < offsets.len() implies section.list()[i] == (
                seq![section] + next.list())[i] by {
                    if i > 0 {
                        assert(offsets[i] == rest[i - 1]);
                        assert(next.at(rest[i - 1]) == section.at(offsets[i]));
                    } else {
                        assert(section.at(section.offset) == section);
                    }
                }
            }
        },
        None => {
            assert(section.at(section.offset) == section);
            assert(section.list() =~= seq![section]);
        },
    }
}

/// The typed block that follows the common header of a section.
#[derive(Debug, Clone, Copy)]
pub enum SectionMetaData {
    /// The section's type carries no typed block.
    NoMetaData,
    Compression(Compression),
    GuidDefined(GuidDefined),
    Version(Version),
    FreeformSubtypeGuid(FreeformSubtypeGuid),
}

/// The typed block is the one that the section at `offset` carries.
pub open spec fn metadata_matches(meta: SectionMetaData, b: Seq<u8>, offset: int) -> bool {
    let start = metadata_start(b, offset);
    match meta {
        SectionMetaData::NoMetaData => metadata_size(type_raw(b, offset)) == 0,
        SectionMetaData::Compression(compression) => {
            &&& type_raw(b, offset) == encapsulated::COMPRESSION
            &&& compression.uncompressed_length == u32_le(b, start)
            &&& compression.compression_type == b[start + 4]
        },
        SectionMetaData::GuidDefined(guid_defined) => {
            &&& type_raw(b, offset) == encapsulated::GUID_DEFINED
            &&& guid_defined.section_definition_guid@ == b.subrange(start, start + 16)
            &&& guid_defined.data_offset == u16_le(b, start + 16)
            &&& guid_defined.attributes == u16_le(b, start + 18)
        },
        SectionMetaData::Version(version) => {
            &&& type_raw(b, offset) == raw_type::VERSION
            &&& version.build_number == u16_le(b, start)
        },
        SectionMetaData::FreeformSubtypeGuid(freeform) => {
            &&& type_raw(b, offset) == raw_type::FREEFORM_SUBTYPE_GUID
            &&& freeform.sub_type_guid@ == b.subrange(start, start + 16)
        },
    }
}

/// The buffer that holds a section: the file's own bytes, or bytes that an
/// extractor made and that live as long as a section points into them.
#[derive(Debug)]
enum SectionBuffer<'a> {
    Native(&'a [u8]),
    Extracted(Arc<Vec<u8>>),
}

impl<'a> View for SectionBuffer<'a> {
    type V = Seq<u8>;

    closed spec fn view(&self) -> Seq<u8> {
        match self {
            SectionBuffer::Native(bytes) => bytes@,
            SectionBuffer::Extracted(bytes) => bytes@,
        }
    }
}

/// Hands out another handle to a shared buffer. `Arc::clone` makes a new
/// pointer to the same allocation, so the bytes behind both are the same.
#[verifier::external_body]
fn share_buffer(buffer: &Arc<Vec<u8>>) -> (shared: Arc<Vec<u8>>)
    ensures
        shared@ == buffer@,
{
    Arc::clone(buffer)
}

impl<'a> SectionBuffer<'a> {
    fn as_slice(&self) -> (bytes: &[u8])
        ensures
            bytes@ == self@,
    {
        match self {
            SectionBuffer::Native(bytes) => bytes,
            SectionBuffer::Extracted(bytes) => bytes.as_slice(),
        }
    }

    fn share(&self) -> (shared: SectionBuffer<'a>)
        ensures
            shared@ == self@,
    {
        match self {
            SectionBuffer::Native(bytes) => SectionBuffer::Native(bytes),
            SectionBuffer::Extracted(bytes) => SectionBuffer::Extracted(share_buffer(bytes)),
        }
    }
}

/// Tells whether a section stands at `offset` of `buffer`.
fn section_fits(buffer: &[u8], offset: usize) -> (fits: bool)
    ensures
        fits == valid_section(buffer@, offset as int),
{
    if buffer.len() < COMMON_HEADER_STANDARD_SIZE || offset > buffer.len()
        - COMMON_HEADER_STANDARD_SIZE {
        return false;
    }
    let remaining: usize = buffer.len() - offset;
    let header_size: usize;
    let size: u32;
    if buffer[offset] == 0xff && buffer[offset + 1] == 0xff && buffer[offset + 2] == 0xff {
        if remaining < COMMON_HEADER_EXTENDED_SIZE {
            return false;
        }
        header_size = COMMON_HEADER_EXTENDED_SIZE;
        size = read_u32(buffer, offset + 4);
    } else {
        header_size = COMMON_HEADER_STANDARD_SIZE;
        size = read_u24(buffer, offset);
    }
    let raw: u8 = buffer[offset + 3];
    let metadata_size: usize = if raw == encapsulated::COMPRESSION {
        COMPRESSION_SIZE
    } else if raw == encapsulated::GUID_DEFINED {
        GUID_DEFINED_SIZE
    } else if raw == raw_type::VERSION {
        VERSION_SIZE
    } else if raw == raw_type::FREEFORM_SUBTYPE_GUID {
        FREEFORM_SUBTYPE_GUID_SIZE
    } else {
        0
    };
    if remaining < header_size + metadata_size {
        return false;
    }
    if (size as u64) < (header_size + metadata_size) as u64 || size as u64 > remaining as u64 {
        return false;
    }
    if raw == encapsulated::GUID_DEFINED {
        let data_offset: u16 = read_u16(buffer, offset + header_size + 16);
        if data_offset as u64 > size as u64 {
            return false;
        }
    }
    true
}

/// A section of a file.
#[derive(Debug)]
pub struct Section<'a> {
    containing_ffs: File<'a>,
    section_offset: usize,
    containing_buffer: SectionBuffer<'a>,
}

impl<'a> View for Section<'a> {
    type V = SectionView;

    closed spec fn view(&self) -> SectionView {
        SectionView {
            file: self.containing_ffs@,
            buffer: self.containing_buffer@,
            offset: self.section_offset as int,
        }
    }
}

impl<'a> Clone for Section<'a> {
    fn clone(&self) -> (copy: Self)
        ensures
            copy@ == self@,
    {
        proof {
            use_type_invariant(self);
        }
        Section {
            containing_ffs: self.containing_ffs,
            section_offset: self.section_offset,
            containing_buffer: self.containing_buffer.share(),
        }
    }
}

impl<'a> Section<'a> {
    #[verifier::type_invariant]
    spec fn well_formed(self) -> bool {
        valid_section(self.containing_buffer@, self.section_offset as int)
    }

    /// Takes the bytes at `section_offset` of `containing_buffer` as a
    /// section of the file.
    pub fn new(
        containing_ffs: &File<'a>,
        section_offset: usize,
        containing_buffer: &'a [u8],
    ) -> (result: Result<Section<'a>, Error>)
        ensures
            result is Ok <==> valid_section(containing_buffer@, section_offset as int),
            result matches Ok(section) ==> section@ == (SectionView {
                file: containing_ffs@,
                buffer: containing_buffer@,
                offset: section_offset as int,
            }),
            result matches Err(e) ==> e == Error::InvalidParameter,
    {
        if !section_fits(containing_buffer, section_offset) {
            return Err(Error::InvalidParameter);
        }
        Ok(
            Section {
                containing_ffs: *containing_ffs,
                section_offset,
                containing_buffer: SectionBuffer::Native(containing_buffer),
            },
        )
    }

    /// Takes the bytes at `section_offset` of a buffer that an extractor
    /// has made as a section of the file. The section keeps the buffer
    /// alive.
    pub fn new_in_extraction_buffer(
        containing_ffs: &File<'a>,
        section_offset: usize,
        extraction_buffer: Arc<Vec<u8>>,
    ) -> (result: Result<Section<'a>, Error>)
        ensures
            result is Ok <==> valid_section(extraction_buffer@, section_offset as int),
            result matches Ok(section) ==> section@ == (SectionView {
                file: containing_ffs@,
                buffer: extraction_buffer@,
                offset: section_offset as int,
            }),
            result matches Err(e) ==> e == Error::InvalidParameter,
    {
        if !section_fits(extraction_buffer.as_slice(), section_offset) {
            return Err(Error::InvalidParameter);
        }
        Ok(
            Section {
                containing_ffs: *containing_ffs,
                section_offset,
                containing_buffer: SectionBuffer::Extracted(extraction_buffer),
            },
        )
    }

    /// The buffer that holds the section, with what is known of the
    /// section's place in it.
    fn buffer(&self) -> (bytes: &[u8])
        ensures
            bytes@ == self@.buffer,
            self@.valid(),
            section_end(bytes@, self@.offset) <= bytes.len(),
    {
        proof {
            use_type_invariant(self);
        }
        self.containing_buffer.as_slice()
    }

    /// The offset of the section in the buffer that holds it.
    pub fn section_offset(&self) -> (offset: usize)
        ensures
            offset == self@.offset,
            self@.valid(),
    {
        proof {
            use_type_invariant(self);
        }
        self.section_offset
    }

    /// The length of the section's common header.
    fn header_size(&self) -> (size: usize)
        ensures
            size == header_size(self@.buffer, self@.offset),
            self@.valid(),
    {
        let buffer = self.buffer();
        let offset: usize = self.section_offset;
        if buffer[offset] == 0xff && buffer[offset + 1] == 0xff && buffer[offset + 2] == 0xff {
            COMMON_HEADER_EXTENDED_SIZE
        } else {
            COMMON_HEADER_STANDARD_SIZE
        }
    }

    /// The section's type byte.
    pub fn section_type_raw(&self) -> (raw: u8)
        ensures
            raw == self@.type_raw(),
    {
        self.buffer()[self.section_offset + 3]
    }

    /// The section's type, if its type byte names one.
    pub fn section_type(&self) -> (section_type: Option<Type>)
        ensures
            section_type == type_of_raw(self@.type_raw()),
    {
        let raw: u8 = self.section_type_raw();
        if raw == encapsulated::COMPRESSION {
            Some(Type::Compression)
        } else if raw == encapsulated::GUID_DEFINED {
            Some(Type::GuidDefined)
        } else if raw == encapsulated::DISPOSABLE {
            Some(Type::Disposable)
        } else if raw == raw_type::PE32 {
            Some(Type::Pe32)
        } else if raw == raw_type::PIC {
            Some(Type::Pic)
        } else if raw == raw_type::TE {
            Some(Type::Te)
        } else if raw == raw_type::DXE_DEPEX {
            Some(Type::DxeDepex)
        } else if raw == raw_type::VERSION {
            Some(Type::Version)
        } else if raw == raw_type::USER_INTERFACE {
            Some(Type::UserInterface)
        } else if raw == raw_type::COMPATIBILITY16 {
            Some(Type::Compatibility16)
        } else if raw == raw_type::FIRMWARE_VOLUME_IMAGE {
            Some(Type::FirmwareVolumeImage)
        } else if raw == raw_type::FREEFORM_SUBTYPE_GUID {
            Some(Type::FreeformSubtypeGuid)
        } else if raw == raw_type::RAW {
            Some(Type::Raw)
        } else if raw == raw_type::PEI_DEPEX {
            Some(Type::PeiDepex)
        } else if raw == raw_type::MM_DEPEX {
            Some(Type::MmDepex)
        } else {
            None
        }
    }

    /// The length of the section: header, typed block and content.
    pub fn section_size(&self) -> (size: usize)
        ensures
            size == self@.size(),
            self@.valid(),
    {
        let buffer = self.buffer();
        let offset: usize = self.section_offset;
        if buffer[offset] == 0xff && buffer[offset + 1] == 0xff && buffer[offset + 2] == 0xff {
            read_u32(buffer, offset + 4) as usize
        } else {
            read_u24(buffer, offset) as usize
        }
    }

    /// The section's content.
    pub fn section_data(&self) -> (data: &[u8])
        ensures
            data@ == self@.content(),
    {
        let buffer = self.buffer();
        let offset: usize = self.section_offset;
        let header_size: usize = self.header_size();
        let end: usize = offset + self.section_size();
        let raw: u8 = buffer[offset + 3];
        let start: usize = if raw == encapsulated::GUID_DEFINED {
            offset + read_u16(buffer, offset + header_size + 16) as usize
        } else if raw == encapsulated::COMPRESSION {
            offset + header_size + COMPRESSION_SIZE
        } else if raw == raw_type::VERSION {
            offset + header_size + VERSION_SIZE
        } else if raw == raw_type::FREEFORM_SUBTYPE_GUID {
            offset + header_size + FREEFORM_SUBTYPE_GUID_SIZE
        } else {
            offset + header_size
        };
        &buffer[start..end]
    }

    /// The typed block that follows the section's common header.
    pub fn metadata(&self) -> (metadata: SectionMetaData)
        ensures
            metadata_matches(metadata, self@.buffer, self@.offset),
    {
        let buffer = self.buffer();
        let start: usize = self.section_offset + self.header_size();
        let raw: u8 = buffer[self.section_offset + 3];
        if raw == encapsulated::COMPRESSION {
            SectionMetaData::Compression(
                Compression {
                    uncompressed_length: read_u32(buffer, start),
                    compression_type: buffer[start + 4],
                },
            )
        } else if raw == encapsulated::GUID_DEFINED {
            SectionMetaData::GuidDefined(
                GuidDefined {
                    section_definition_guid: Guid::from_bytes(&read_bytes16(buffer, start)),
                    data_offset: read_u16(buffer, start + 16),
                    attributes: read_u16(buffer, start + 18),
                },
            )
        } else if raw == raw_type::VERSION {
            SectionMetaData::Version(Version { build_number: read_u16(buffer, start) })
        } else if raw == raw_type::FREEFORM_SUBTYPE_GUID {
            SectionMetaData::FreeformSubtypeGuid(
                FreeformSubtypeGuid {
                    sub_type_guid: Guid::from_bytes(&read_bytes16(buffer, start)),
                },
            )
        } else {
            SectionMetaData::NoMetaData
        }
    }

    /// Tells whether the section wraps other sections: whether it is a
    /// compressed or a GUID-defined one.
    pub fn is_encapsulation(&self) -> (encapsulation: bool)
        ensures
            encapsulation == self@.is_encapsulation(),
    {
        let raw: u8 = self.section_type_raw();
        raw == encapsulated::COMPRESSION || raw == encapsulated::GUID_DEFINED
    }

    /// The file that the section belongs to.
    pub fn containing_file(&self) -> (file: File<'a>)
        ensures
            file@ == self@.file,
    {
        self.containing_ffs
    }

    /// The section that follows this one in its buffer, if the list goes
    /// on.
    ///
    /// The next header starts at the next multiple of four at or behind
    /// the end of this section. The list ends there if the buffer has no
    /// room left for a header or if no section stands there.
    pub fn next_section(&self) -> (next: Option<Section<'a>>)
        ensures
            match self@.following() {
                Some(following) => (next matches Some(section) && section@ == following),
                None => next is None,
            },
            next matches Some(section) ==> (section@.offset == spec_align_up(
                self@.offset + self@.size(),
                4,
            ) && section@.offset >= self@.offset + self@.size()),
    {
        let buffer = self.buffer();
        let end: usize = self.section_offset + self.section_size();
        proof {
            lemma_align_up_bounds(end as int, 4);
        }
        let padding: usize = if end % 4 == 0 {
            0
        } else {
            4 - end % 4
        };
        if buffer.len() - end < padding || buffer.len() - end - padding
            < COMMON_HEADER_STANDARD_SIZE {
            return None;
        }
        let next_section_offset: usize = end + padding;
        if !section_fits(buffer, next_section_offset) {
            return None;
        }
        Some(
            Section {
                containing_ffs: self.containing_ffs,
                section_offset: next_section_offset,
                containing_buffer: self.containing_buffer.share(),
            },
        )
    }
}

} // verus!
