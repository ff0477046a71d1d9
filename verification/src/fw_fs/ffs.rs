//! Files of a firmware volume.
//!
//! A file is a position in a volume at which a well-formed file header
//! stands and whose declared size fits the buffer. Its header has two
//! forms: the standard one with a 24-bit size, and the extended one, chosen
//! by a bit of the attribute byte, with a 64-bit size behind it. The next
//! file starts at the next multiple of eight behind the file's end; the list
//! ends where a header's width of erased bytes follows, or where the buffer
//! does.

use crate::address_helper::{lemma_align_up_bounds, spec_align_up};
use crate::efi::{Error, Guid};
use crate::fw_fs::bytes::{
    all_bytes_are, bytes_all_equal, read_bytes16, read_u24, read_u64, u24_le, u64_le,
};
use crate::fw_fs::ffs::attributes::raw as attribute;
use crate::fw_fs::ffs::file::raw::file_type as raw_type;
use crate::fw_fs::ffs::file::{type_of_raw, Type, HEADER2_SIZE, HEADER_SIZE};
use crate::fw_fs::ffs::section::header::COMMON_HEADER_STANDARD_SIZE;
use crate::fw_fs::ffs::section::valid_section;
use crate::fw_fs::fv::file::raw::attribute as fv_attribute;
use crate::fw_fs::fv::file::EfiFvFileAttributes;
use crate::fw_fs::fv::{first_file_offset, fv_attributes, FirmwareVolume};
use crate::fw_fs::fvb::attributes::raw::fvb2;
use vstd::prelude::*;

pub mod attributes;
pub mod brotli;
pub mod file;
pub mod guid;
pub mod section;
pub mod traversal;

pub use section::{Section, SectionMetaData, SectionView};
pub use traversal::{FfsSectionIterator, SectionExtractor, TraversalView};

verus! {

/// The header at `offset` is the extended one.
pub open spec fn is_large_file(s: Seq<u8>, offset: int) -> bool {
    s[offset + 19] & attribute::LARGE_FILE != 0
}

/// The length of the header at `offset`.
pub open spec fn file_header_size(s: Seq<u8>, offset: int) -> int {
    if is_large_file(s, offset) {
        32
    } else {
        24
    }
}

/// The length of the file at `offset`, header included.
pub open spec fn file_size(s: Seq<u8>, offset: int) -> int {
    if is_large_file(s, offset) {
        u64_le(s, offset + 24)
    } else {
        u24_le(s, offset + 20)
    }
}

/// A file stands at `offset`: its header fits the buffer, its size covers
/// the header, and all of it fits the buffer.
pub open spec fn valid_file(s: Seq<u8>, offset: int) -> bool {
    &&& 0 <= offset
    &&& offset + 24 <= s.len()
    &&& is_large_file(s, offset) ==> offset + 32 <= s.len()
    &&& file_header_size(s, offset) <= file_size(s, offset)
    &&& offset + file_size(s, offset) <= s.len()
}

/// The byte that erased flash reads as in this volume.
pub open spec fn erase_byte(s: Seq<u8>) -> u8 {
    if (fv_attributes(s) as u32) & fvb2::ERASE_POLARITY != 0 {
        0xff
    } else {
        0
    }
}

/// Where the file behind the file at `offset` would start.
pub open spec fn next_file_offset(s: Seq<u8>, offset: int) -> int {
    spec_align_up(offset + file_size(s, offset), 8)
}

/// The offset of the file that follows the file at `offset`, if the list
/// goes on: there is room for a header, the header's width is not all
/// erased, and a file stands there.
pub open spec fn following_file(s: Seq<u8>, offset: int) -> Option<int> {
    let next = next_file_offset(s, offset);
    if next + 24 <= s.len() && !all_bytes_are(s, next, next + 24, erase_byte(s)) && valid_file(
        s,
        next,
    ) {
        Some(next)
    } else {
        None
    }
}

/// The offsets of the files of the list that starts at `offset`.
pub open spec fn files_from(s: Seq<u8>, offset: int) -> Seq<int>
    decreases s.len() - offset,
    when valid_file(s, offset)
    via files_from_decreases
{
    match following_file(s, offset) {
        Some(next) => seq![offset] + files_from(s, next),
        None => seq![offset],
    }
}

#[via_fn]
proof fn files_from_decreases(s: Seq<u8>, offset: int) {
    lemma_align_up_bounds(offset + file_size(s, offset), 8);
}

/// Every file of a list stands at a valid place, and each file but the
/// first starts at the next multiple of eight at or behind the end of the
/// file before it.
pub proof fn lemma_files_follow_each_other(s: Seq<u8>, offset: int, i: int)
    requires
        valid_file(s, offset),
        0 <= i < files_from(s, offset).len(),
    ensures
        valid_file(s, files_from(s, offset)[i]),
        i > 0 ==> {
            let before = files_from(s, offset)[i - 1];
            &&& files_from(s, offset)[i] == spec_align_up(before + file_size(s, before), 8)
            &&& files_from(s, offset)[i] >= before + file_size(s, before)
            &&& files_from(s, offset)[i] % 8 == 0
        },
    decreases i,
{
    if i > 0 {
        let next = following_file(s, offset)->0;
        lemma_align_up_bounds(offset + file_size(s, offset), 8);
        assert(files_from(s, offset) == seq![offset] + files_from(s, next));
        lemma_files_follow_each_other(s, next, i - 1);
        if i > 1 {
            assert(files_from(s, offset)[i - 1] == files_from(s, next)[i - 2]);
        }
    }
}

/// A list of files ends where a header's width of erased bytes follows a
/// file: no terminating record is needed.
pub proof fn lemma_erased_bytes_end_the_list(s: Seq<u8>, offset: int)
    requires
        valid_file(s, offset),
        all_bytes_are(
            s,
            next_file_offset(s, offset),
            next_file_offset(s, offset) + 24,
            erase_byte(s),
        ),
    ensures
        following_file(s, offset) is None,
        files_from(s, offset) == seq![offset],
{
}

/// The offsets of all files of a volume, in order.
pub open spec fn volume_files(s: Seq<u8>) -> Seq<int> {
    if valid_file(s, first_file_offset(s)) {
        files_from(s, first_file_offset(s))
    } else {
        Seq::empty()
    }
}

/// The alignment of a file's data as a power of two, decoded from the
/// three-bit code of the attribute byte and the bit that selects the upper
/// half of the table.
pub open spec fn data_alignment_exponent(attributes: u8) -> u32 {
    let code = (attributes & attribute::DATA_ALIGNMENT) >> 3;
    if attributes & attribute::DATA_ALIGNMENT_2 == attribute::DATA_ALIGNMENT_2 {
        (17 + code) as u32
    } else if code == 0 {
        0
    } else if code == 1 {
        4
    } else if code == 2 {
        7
    } else if code == 3 {
        9
    } else if code == 4 {
        10
    } else if code == 5 {
        12
    } else if code == 6 {
        15
    } else {
        16
    }
}

/// The attribute word of the volume protocol for a file with the given
/// attribute byte: the alignment, and the flag of a fixed position.
pub open spec fn fv_file_attributes_of(attributes: u8) -> u32 {
    if attributes & attribute::FIXED != 0 {
        data_alignment_exponent(attributes) | fv_attribute::FIXED
    } else {
        data_alignment_exponent(attributes)
    }
}

/// What identifies a file: the bytes of its volume and its offset in them.
pub struct FileView {
    pub volume: Seq<u8>,
    pub offset: int,
}

impl FileView {
    /// The bytes of the file, header included.
    pub open spec fn bytes(self) -> Seq<u8> {
        self.volume.subrange(self.offset, self.offset + file_size(self.volume, self.offset))
    }

    /// The length of the file's header.
    pub open spec fn header_size(self) -> int {
        file_header_size(self.volume, self.offset)
    }

    /// The length of the file, header included.
    pub open spec fn size(self) -> int {
        file_size(self.volume, self.offset)
    }

    /// The file's attribute byte.
    pub open spec fn attributes_raw(self) -> u8 {
        self.volume[self.offset + 19]
    }

    /// The file's type byte.
    pub open spec fn type_raw(self) -> u8 {
        self.volume[self.offset + 18]
    }

    /// A file stands at the offset.
    pub open spec fn valid(self) -> bool {
        valid_file(self.volume, self.offset)
    }

    /// The first section of the file, if the file has room for more than
    /// a section header behind its own header and a section stands there.
    /// The section's buffer is the file's bytes, so that its offset counts
    /// from the start of the file header.
    pub open spec fn first_section(self) -> Option<SectionView> {
        if self.size() > self.header_size() + 4 && valid_section(
            self.bytes(),
            self.header_size(),
        ) {
            Some(SectionView { file: self, buffer: self.bytes(), offset: self.header_size() })
        } else {
            None
        }
    }
}

/// A file of a firmware volume.
#[derive(Debug, Copy, Clone)]
pub struct File<'a> {
    containing_fv: FirmwareVolume<'a>,
    file_offset: usize,
}

impl<'a> View for File<'a> {
    type V = FileView;

    closed spec fn view(&self) -> FileView {
        FileView { volume: self.containing_fv@, offset: self.file_offset as int }
    }
}

impl<'a> File<'a> {
    #[verifier::type_invariant]
    spec fn well_formed(self) -> bool {
        valid_file(self.containing_fv@, self.file_offset as int)
    }

    /// Takes the bytes at `file_offset` of the volume as a file.
    pub fn new(containing_fv: &FirmwareVolume<'a>, file_offset: usize) -> (result: Result<
        File<'a>,
        Error,
    >)
        ensures
            result is Ok <==> valid_file(containing_fv@, file_offset as int),
            result matches Ok(file) ==> file@ == (FileView {
                volume: containing_fv@,
                offset: file_offset as int,
            }),
            result matches Err(e) ==> e == Error::InvalidParameter,
    {
        let data = containing_fv.fv_data_buffer();
        if data.len() < HEADER_SIZE || file_offset > data.len() - HEADER_SIZE {
            return Err(Error::InvalidParameter);
        }
        let remaining: usize = data.len() - file_offset;
        let size: u64;
        let header_size: usize;
        if data[file_offset + 19] & attribute::LARGE_FILE != 0 {
            if remaining < HEADER2_SIZE {
                return Err(Error::InvalidParameter);
            }
            size = read_u64(data, file_offset + 24);
            header_size = HEADER2_SIZE;
        } else {
            size = read_u24(data, file_offset + 20) as u64;
            header_size = HEADER_SIZE;
        }
        if size < header_size as u64 || size > remaining as u64 {
            return Err(Error::InvalidParameter);
        }
        Ok(File { containing_fv: *containing_fv, file_offset })
    }

    /// The volume's buffer, with what is known of the file's place in it.
    fn volume_data(&self) -> (data: &'a [u8])
        ensures
            data@ == self@.volume,
            self@.valid(),
            self@.offset + self@.size() <= data.len(),
    {
        proof {
            use_type_invariant(self);
        }
        self.containing_fv.fv_data_buffer()
    }

    /// The offset of the file in its volume.
    pub fn file_offset(&self) -> (offset: usize)
        ensures
            offset == self@.offset,
            self@.valid(),
    {
        proof {
            use_type_invariant(self);
        }
        self.file_offset
    }

    /// The length of the file's header.
    fn data_offset(&self) -> (header_size: usize)
        ensures
            header_size == self@.header_size(),
            self@.valid(),
    {
        let data = self.volume_data();
        if data[self.file_offset + 19] & attribute::LARGE_FILE != 0 {
            HEADER2_SIZE
        } else {
            HEADER_SIZE
        }
    }

    /// The length of the file, header included.
    pub fn file_size(&self) -> (size: u64)
        ensures
            size == self@.size(),
            self@.valid(),
    {
        let data = self.volume_data();
        if data[self.file_offset + 19] & attribute::LARGE_FILE != 0 {
            read_u64(data, self.file_offset + 24)
        } else {
            read_u24(data, self.file_offset + 20) as u64
        }
    }

    /// The length of the file's content, without the header.
    pub fn file_data_size(&self) -> (size: u64)
        ensures
            size == self@.size() - self@.header_size(),
    {
        self.file_size() - self.data_offset() as u64
    }

    /// The file's type, if its type byte names one.
    pub fn file_type(&self) -> (file_type: Option<Type>)
        ensures
            file_type == type_of_raw(self@.type_raw()),
    {
        let raw: u8 = self.file_type_raw();
        if raw == raw_type::RAW {
            Some(Type::Raw)
        } else if raw == raw_type::FREEFORM {
            Some(Type::FreeForm)
        } else if raw == raw_type::SECURITY_CORE {
            Some(Type::SecurityCore)
        } else if raw == raw_type::PEI_CORE {
            Some(Type::PeiCore)
        } else if raw == raw_type::DXE_CORE {
            Some(Type::DxeCore)
        } else if raw == raw_type::PEIM {
            Some(Type::Peim)
        } else if raw == raw_type::DRIVER {
            Some(Type::Driver)
        } else if raw == raw_type::COMBINED_PEIM_DRIVER {
            Some(Type::CombinedPeimDriver)
        } else if raw == raw_type::APPLICATION {
            Some(Type::Application)
        } else if raw == raw_type::MM {
            Some(Type::Mm)
        } else if raw == raw_type::FIRMWARE_VOLUME_IMAGE {
            Some(Type::FirmwareVolumeImage)
        } else if raw == raw_type::COMBINED_MM_DXE {
            Some(Type::CombinedMmDxe)
        } else if raw == raw_type::MM_CORE {
            Some(Type::MmCore)
        } else if raw == raw_type::MM_STANDALONE {
            Some(Type::MmStandalone)
        } else if raw == raw_type::MM_CORE_STANDALONE {
            Some(Type::MmCoreStandalone)
        } else if raw >= raw_type::OEM_MIN && raw <= raw_type::OEM_MAX {
            Some(Type::OemMin)
        } else if raw >= raw_type::DEBUG_MIN && raw <= raw_type::DEBUG_MAX {
            Some(Type::DebugMin)
        } else if raw == raw_type::FFS_PAD {
            Some(Type::FfsPad)
        } else if raw >= raw_type::FFS_MIN {
            Some(Type::FfsUnknown)
        } else {
            None
        }
    }

    /// The attribute word that the volume protocol reports for the file.
    pub fn fv_file_attributes(&self) -> (attributes: EfiFvFileAttributes)
        ensures
            attributes == fv_file_attributes_of(self@.attributes_raw()),
    {
        let attributes: u8 = self.file_attributes_raw();
        let code: u8 = (attributes & attribute::DATA_ALIGNMENT) >> 3;
        assert(code <= 7) by (bit_vector)
            requires
                code == (attributes & 0x38u8) >> 3,
        ;
        let exponent: u32 = if attributes & attribute::DATA_ALIGNMENT_2
            == attribute::DATA_ALIGNMENT_2 {
            17 + code as u32
        } else if code == 0 {
            0
        } else if code == 1 {
            4
        } else if code == 2 {
            7
        } else if code == 3 {
            9
        } else if code == 4 {
            10
        } else if code == 5 {
            12
        } else if code == 6 {
            15
        } else {
            16
        };
        if attributes & attribute::FIXED != 0 {
            exponent | fv_attribute::FIXED
        } else {
            exponent
        }
    }

    /// The GUID that names the file.
    pub fn file_name(&self) -> (name: Guid)
        ensures
            name@ == self@.volume.subrange(self@.offset, self@.offset + 16),
    {
        Guid::from_bytes(&read_bytes16(self.volume_data(), self.file_offset))
    }

    /// The file's content, without the header.
    pub fn file_data(&self) -> (data: &'a [u8])
        ensures
            data@ == self@.volume.subrange(
                self@.offset + self@.header_size(),
                self@.offset + self@.size(),
            ),
    {
        let header_size: usize = self.data_offset();
        let size: u64 = self.file_size();
        let buffer: &'a [u8] = self.volume_data();
        &buffer[self.file_offset + header_size..self.file_offset + size as usize]
    }

    /// The file's bytes, header included.
    pub fn file_bytes(&self) -> (data: &'a [u8])
        ensures
            data@ == self@.bytes(),
            self@.valid(),
    {
        let size: u64 = self.file_size();
        let buffer: &'a [u8] = self.volume_data();
        &buffer[self.file_offset..self.file_offset + size as usize]
    }

    /// The file that follows this one in the volume, if the list goes on.
    ///
    /// The next header starts at the next multiple of eight at or behind
    /// the end of this file. The list ends there if the buffer has no room
    /// left for a header, if the header's width holds nothing but the
    /// volume's erase byte, or if no file stands there.
    pub fn next_ffs_file(&self) -> (next: Option<File<'a>>)
        ensures
            match following_file(self@.volume, self@.offset) {
                Some(offset) => (next matches Some(file) && file@ == (FileView {
                    volume: self@.volume,
                    offset,
                })),
                None => next is None,
            },
            next matches Some(file) ==> (file@.offset == spec_align_up(
                self@.offset + self@.size(),
                8,
            ) && file@.offset >= self@.offset + self@.size()),
            all_bytes_are(
                self@.volume,
                next_file_offset(self@.volume, self@.offset),
                next_file_offset(self@.volume, self@.offset) + 24,
                erase_byte(self@.volume),
            ) ==> next is None,
    {
        let data = self.volume_data();
        let end: usize = self.file_offset + self.file_size() as usize;
        proof {
            lemma_align_up_bounds(end as int, 8);
        }
        let padding: usize = if end % 8 == 0 {
            0
        } else {
            8 - end % 8
        };
        if data.len() - end < padding || data.len() - end - padding < HEADER_SIZE {
            return None;
        }
        let next_file_offset: usize = end + padding;
        let erase_byte: u8 = if self.containing_fv.attributes() & fvb2::ERASE_POLARITY != 0 {
            0xff
        } else {
            0
        };
        if bytes_all_equal(data, next_file_offset, next_file_offset + HEADER_SIZE, erase_byte) {
            return None;
        }
        match File::new(&self.containing_fv, next_file_offset) {
            Ok(file) => Some(file),
            Err(_) => None,
        }
    }

    /// The first section of the file, if any.
    pub fn first_ffs_section(&self) -> (section: Option<Section<'a>>)
        ensures
            match self@.first_section() {
                Some(first) => (section matches Some(s) && s@ == first),
                None => section is None,
            },
    {
        let header_size: usize = self.data_offset();
        if self.file_size() <= (header_size + COMMON_HEADER_STANDARD_SIZE) as u64 {
            return None;
        }
        match Section::new(self, header_size, self.file_bytes()) {
            Ok(section) => Some(section),
            Err(_) => None,
        }
    }

    /// A walk over the sections of the file that leaves encapsulation
    /// sections packed.
    pub fn ffs_sections(&self) -> (sections: FfsSectionIterator<'a>)
        ensures
            sections.extractor() is None,
            sections@ == (TraversalView {
                cursor: self@.first_section(),
                pending: Seq::empty(),
            }),
    {
        FfsSectionIterator::new(self.first_ffs_section())
    }

    /// A walk over the sections of the file that unpacks encapsulation
    /// sections with `extractor`.
    pub fn ffs_sections_with_extractor(&self, extractor: &'a dyn SectionExtractor) -> (sections:
        FfsSectionIterator<'a>)
        ensures
            sections.extractor() == Some(extractor),
            sections@ == (TraversalView {
                cursor: self@.first_section(),
                pending: Seq::empty(),
            }),
    {
        let held = Some(extractor);
        FfsSectionIterator::with_extractor(self.first_ffs_section(), held)
    }

    /// The file's type byte.
    pub fn file_type_raw(&self) -> (raw: u8)
        ensures
            raw == self@.type_raw(),
    {
        self.volume_data()[self.file_offset + 18]
    }

    /// The file's attribute byte.
    pub fn file_attributes_raw(&self) -> (raw: u8)
        ensures
            raw == self@.attributes_raw(),
    {
        self.volume_data()[self.file_offset + 19]
    }

    /// The buffer of the volume that holds the file.
    pub fn containing_fv_data(&self) -> (data: &'a [u8])
        ensures
            data@ == self@.volume,
    {
        self.containing_fv.fv_data_buffer()
    }

    /// The volume that holds the file.
    pub fn containing_fv(&self) -> (volume: FirmwareVolume<'a>)
        ensures
            volume@ == self@.volume,
    {
        self.containing_fv
    }
}

/// Walks the files of a volume, one call at a time.
#[derive(Debug, Clone, Copy)]
pub struct FileIterator<'a> {
    next_ffs: Option<File<'a>>,
}

impl<'a> FileIterator<'a> {
    /// The files that the iterator has yet to yield, by their offsets.
    pub closed spec fn remaining(&self) -> Seq<FileView> {
        match self.next_ffs {
            Some(file) => files_from(file@.volume, file@.offset).map_values(
                |offset: int| FileView { volume: file@.volume, offset },
            ),
            None => Seq::empty(),
        }
    }

    /// An iterator over the list of files that starts with `start_file`.
    pub fn new(start_file: Option<File<'a>>) -> (iterator: FileIterator<'a>)
        ensures
            match start_file {
                Some(file) => iterator.remaining() == files_from(
                    file@.volume,
                    file@.offset,
                ).map_values(|offset: int| FileView { volume: file@.volume, offset }),
                None => iterator.remaining() == Seq::<FileView>::empty(),
            },
    {
        FileIterator { next_ffs: start_file }
    }

    /// Yields the next file, if any is left.
    pub fn next(&mut self) -> (file: Option<File<'a>>)
        ensures
            old(self).remaining().len() == 0 ==> (file is None && final(self).remaining()
                == old(self).remaining()),
            old(self).remaining().len() > 0 ==> (file matches Some(f) && f@ == old(
                self,
            ).remaining()[0] && final(self).remaining() == old(self).remaining().skip(1)),
    {
        match self.next_ffs {
            None => None,
            Some(current) => {
                proof {
                    use_type_invariant(&current);
                }
                let next = current.next_ffs_file();
                proof {
                    let s = current@.volume;
                    let all = files_from(s, current@.offset);
                    let lift = |offset: int| FileView { volume: s, offset };
                    match following_file(s, current@.offset) {
                        Some(offset) => {
                            assert(all.skip(1) =~= files_from(s, offset));
                            assert(all.map_values(lift).skip(1) =~= all.skip(1).map_values(lift));
                        },
                        None => {
                            assert(all.map_values(lift).skip(1) =~= Seq::<FileView>::empty());
                        },
                    }
                }
                self.next_ffs = next;
                Some(current)
            },
        }
    }
}

} // verus!
