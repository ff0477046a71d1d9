//! The firmware volume: a validated view of a byte buffer.
//!
//! A volume starts with a fixed header of 56 bytes, followed by the block map
//! up to the header's declared length. The header may point to an extension
//! header that names the volume. Files follow.

use crate::efi::{Error, Guid};
use crate::fw_fs::bytes::{
    range_equals, read_bytes16, read_u16, read_u32, read_u64, u16_le, u32_le, u64_le,
};
use crate::fw_fs::ffs::guid::{
    EFI_FIRMWARE_FILE_SYSTEM2_GUID_BYTES, EFI_FIRMWARE_FILE_SYSTEM3_GUID_BYTES,
};
use crate::fw_fs::ffs::{valid_file, volume_files, File, FileIterator, FileView};
use crate::fw_fs::fvb::attributes::EfiFvbAttributes2;
use vstd::prelude::*;

pub mod attributes;
pub mod file;
pub mod integrity;

verus! {

/// The type byte of a file as the volume protocol reports it.
pub type EfiFvFileType = u8;

/// How a write to a volume behaves when it is interrupted.
#[derive(Debug, Copy, Clone, PartialEq, Eq, Structural)]
pub enum WritePolicy {
    UnreliableWrite,
    ReliableWrite,
}

impl WritePolicy {
    /// The number that stands for the policy in the volume protocol.
    pub open spec fn spec_raw(self) -> u32 {
        match self {
            WritePolicy::UnreliableWrite => 0,
            WritePolicy::ReliableWrite => 1,
        }
    }

    /// The number that stands for the policy in the volume protocol.
    #[verifier::when_used_as_spec(spec_raw)]
    pub fn raw(self) -> (value: u32)
        ensures
            value == self.spec_raw(),
    {
        match self {
            WritePolicy::UnreliableWrite => 0,
            WritePolicy::ReliableWrite => 1,
        }
    }
}

/// Length of the fixed part of a volume header.
pub const HEADER_SIZE: usize = 56;

/// Length of the fixed part of an extension header.
pub const EXT_HEADER_SIZE: usize = 20;

/// The header's magic number: the ASCII letters `_FVH`, little-endian.
pub const SIGNATURE: u32 = 0x4856_465f;

/// The fixed part of a volume header, decoded.
#[derive(Debug, Clone, Copy)]
pub struct Header {
    pub zero_vector: [u8; 16],
    pub file_system_guid: Guid,
    pub fv_length: u64,
    pub signature: u32,
    pub attributes: EfiFvbAttributes2,
    pub header_length: u16,
    pub checksum: u16,
    pub ext_header_offset: u16,
    pub reserved: u8,
    pub revision: u8,
}

/// A run of equally sized blocks.
#[derive(Debug, Clone, Copy, PartialEq, Eq, Structural)]
pub struct BlockMapEntry {
    pub num_blocks: u32,
    pub length: u32,
}

/// The fixed part of an extension header, decoded.
#[derive(Debug, Clone, Copy)]
pub struct ExtHeader {
    pub fv_name: Guid,
    pub ext_header_size: u32,
}

/// The volume length that the header declares.
pub open spec fn fv_length(s: Seq<u8>) -> int {
    u64_le(s, 32)
}

/// The header's magic number.
pub open spec fn fv_signature(s: Seq<u8>) -> int {
    u32_le(s, 40)
}

/// The header's attribute word.
pub open spec fn fv_attributes(s: Seq<u8>) -> int {
    u32_le(s, 44)
}

/// The header length that the header declares; it covers the block map.
pub open spec fn header_length(s: Seq<u8>) -> int {
    u16_le(s, 48)
}

/// The header's checksum field.
pub open spec fn fv_checksum(s: Seq<u8>) -> int {
    u16_le(s, 50)
}

/// Where the extension header starts, or zero if there is none.
pub open spec fn ext_header_offset(s: Seq<u8>) -> int {
    u16_le(s, 52)
}

/// The header's revision byte.
pub open spec fn fv_revision(s: Seq<u8>) -> int {
    s[55] as int
}

/// The length that the extension header declares for itself.
pub open spec fn ext_header_size(s: Seq<u8>) -> int {
    u32_le(s, ext_header_offset(s) + 16)
}

/// The sum of the first `words` 16-bit little-endian words of `s`.
pub open spec fn word_sum(s: Seq<u8>, words: nat) -> int
    decreases words,
{
    if words == 0 {
        0
    } else {
        word_sum(s, (words - 1) as nat) + u16_le(s, 2 * (words - 1))
    }
}

/// The header's words add up to zero modulo 65536.
pub open spec fn checksum_holds(s: Seq<u8>) -> bool {
    word_sum(s, (header_length(s) / 2) as nat) % 65536 == 0
}

/// The number of block map entries, the terminator included.
pub open spec fn block_map_slots(s: Seq<u8>) -> int {
    (header_length(s) - 56) / 8
}

/// The block count of the block map's entry `i`.
pub open spec fn slot_num_blocks(s: Seq<u8>, i: int) -> int {
    u32_le(s, 56 + 8 * i)
}

/// The block length of the block map's entry `i`.
pub open spec fn slot_length(s: Seq<u8>, i: int) -> int {
    u32_le(s, 60 + 8 * i)
}

/// Entry `i` of the block map is the terminator pattern.
pub open spec fn slot_is_zero(s: Seq<u8>, i: int) -> bool {
    slot_num_blocks(s, i) == 0 && slot_length(s, i) == 0
}

/// The block map fills the header's tail with whole entries, ends with a
/// zero entry, and holds no other zero entry.
pub open spec fn block_map_holds(s: Seq<u8>) -> bool {
    &&& (header_length(s) - 56) % 8 == 0
    &&& block_map_slots(s) >= 1
    &&& slot_is_zero(s, block_map_slots(s) - 1)
    &&& forall|i: int| 0 <= i < block_map_slots(s) - 1 ==> !#[trigger] slot_is_zero(s, i)
}

/// The extension header, if the header points to one, lies inside the
/// buffer, with the length that it declares.
pub open spec fn ext_header_holds(s: Seq<u8>) -> bool {
    ext_header_offset(s) != 0 ==> {
        &&& ext_header_offset(s) + 20 <= s.len()
        &&& ext_header_offset(s) + ext_header_size(s) <= s.len()
    }
}

/// The buffer starts with a well-formed volume header.
pub open spec fn valid_volume(s: Seq<u8>) -> bool {
    &&& s.len() >= 56
    &&& fv_signature(s) == SIGNATURE
    &&& 56 <= header_length(s) <= s.len()
    &&& header_length(s) % 2 == 0
    &&& checksum_holds(s)
    &&& fv_revision(s) >= 2
    &&& (s.subrange(16, 32) == EFI_FIRMWARE_FILE_SYSTEM2_GUID_BYTES@ || s.subrange(16, 32)
        == EFI_FIRMWARE_FILE_SYSTEM3_GUID_BYTES@)
    &&& header_length(s) <= fv_length(s) <= s.len()
    &&& ext_header_holds(s)
    &&& block_map_holds(s)
}

/// The block map without its terminator.
pub open spec fn block_map_of(s: Seq<u8>) -> Seq<BlockMapEntry> {
    Seq::new(
        (block_map_slots(s) - 1) as nat,
        |i: int|
            BlockMapEntry {
                num_blocks: slot_num_blocks(s, i) as u32,
                length: slot_length(s, i) as u32,
            },
    )
}

/// The number of blocks in the first `n` entries.
pub open spec fn blocks_in(map: Seq<BlockMapEntry>, n: int) -> int
    decreases n,
{
    if n <= 0 {
        0
    } else {
        blocks_in(map, n - 1) + map[n - 1].num_blocks
    }
}

/// The number of bytes in the first `n` entries.
pub open spec fn bytes_in(map: Seq<BlockMapEntry>, n: int) -> int
    decreases n,
{
    if n <= 0 {
        0
    } else {
        bytes_in(map, n - 1) + map[n - 1].num_blocks * map[n - 1].length
    }
}

/// Entry `i` is the first entry whose cumulative block count exceeds `lba`.
pub open spec fn covers(map: Seq<BlockMapEntry>, i: int, lba: int) -> bool {
    0 <= i < map.len() && blocks_in(map, i) <= lba < blocks_in(map, i + 1)
}

/// Where block `lba` starts when entry `i` covers it: behind the bytes of
/// the entries before `i` and behind the blocks of entry `i` that come
/// before it.
pub open spec fn lba_offset_at(map: Seq<BlockMapEntry>, i: int, lba: int) -> int {
    bytes_in(map, i) + (lba - blocks_in(map, i)) * map[i].length
}

/// What a lookup of `lba` reports when entry `i` covers it: the byte
/// offset of the block, the block size, and the blocks from `lba` to the
/// end of the entry.
pub open spec fn lba_info_at(map: Seq<BlockMapEntry>, i: int, lba: int) -> (int, int, int) {
    (lba_offset_at(map, i, lba), map[i].length as int, blocks_in(map, i + 1) - lba)
}

/// The byte offset of a lookup fits the type of the result. The other two
/// numbers always do: the block size is a field of the entry, and no more
/// blocks remain than the entry has.
pub open spec fn lba_info_fits(info: (int, int, int)) -> bool {
    info.0 <= u32::MAX
}

/// Where the first file starts: behind the extension header if there is
/// one, else behind the header.
pub open spec fn first_file_offset(s: Seq<u8>) -> int {
    if ext_header_offset(s) != 0 {
        ext_header_offset(s) + ext_header_size(s)
    } else {
        header_length(s)
    }
}

/// Block counts only grow along the map.
pub proof fn lemma_blocks_in_monotonic(map: Seq<BlockMapEntry>, i: int, j: int)
    requires
        0 <= i <= j,
    ensures
        0 <= blocks_in(map, i) <= blocks_in(map, j),
    decreases j,
{
    if j > 0 {
        if i < j {
            lemma_blocks_in_monotonic(map, i, j - 1);
        } else {
            lemma_blocks_in_monotonic(map, i - 1, j - 1);
        }
    }
}

/// Byte counts only grow along the map.
pub proof fn lemma_bytes_in_monotonic(map: Seq<BlockMapEntry>, i: int, j: int)
    requires
        0 <= i <= j,
    ensures
        0 <= bytes_in(map, i) <= bytes_in(map, j),
    decreases j,
{
    if j > 0 {
        assert(0 <= map[j - 1].num_blocks * map[j - 1].length) by (nonlinear_arith)
            requires
                0 <= map[j - 1].num_blocks,
                0 <= map[j - 1].length,
        ;
        if i < j {
            lemma_bytes_in_monotonic(map, i, j - 1);
        } else {
            lemma_bytes_in_monotonic(map, i - 1, j - 1);
        }
    }
}

/// At most one entry covers a given block address.
pub proof fn lemma_covering_entry_is_unique(map: Seq<BlockMapEntry>, i: int, j: int, lba: int)
    requires
        covers(map, i, lba),
        covers(map, j, lba),
    ensures
        i == j,
{
    if i < j {
        lemma_blocks_in_monotonic(map, i + 1, j);
    } else if j < i {
        lemma_blocks_in_monotonic(map, j + 1, i);
    }
}

/// A block lies inside the entry that covers it: it starts at or behind
/// the bytes of the entries before, the blocks from it to the end of the
/// entry are at least one and at most the entry's blocks, and they end
/// where the entry ends. The first block of an entry starts where the
/// entry starts.
pub proof fn lemma_lba_info_bounds(map: Seq<BlockMapEntry>, i: int, lba: int)
    requires
        covers(map, i, lba),
    ensures
        ({
            let (offset, block_size, remaining) = lba_info_at(map, i, lba);
            &&& block_size == map[i].length
            &&& 1 <= remaining <= map[i].num_blocks
            &&& bytes_in(map, i) <= offset
            &&& offset + remaining * block_size == bytes_in(map, i + 1)
            &&& lba == blocks_in(map, i) ==> offset == bytes_in(map, i)
        }),
{
    let length = map[i].length as int;
    let before = lba - blocks_in(map, i);
    let remaining = blocks_in(map, i + 1) - lba;
    assert(blocks_in(map, i + 1) == blocks_in(map, i) + map[i].num_blocks);
    assert(bytes_in(map, i + 1) == bytes_in(map, i) + map[i].num_blocks * map[i].length);
    assert(before * length + remaining * length == map[i].num_blocks * length
        && 0 <= before * length) by (nonlinear_arith)
        requires
            before + remaining == map[i].num_blocks,
            0 <= before,
            0 <= length,
    ;
}

/// Two blocks that follow each other in one entry lie one block length
/// apart.
pub proof fn lemma_lba_steps_by_block_length(map: Seq<BlockMapEntry>, i: int, lba: int)
    requires
        covers(map, i, lba),
        covers(map, i, lba + 1),
    ensures
        lba_offset_at(map, i, lba + 1) == lba_offset_at(map, i, lba) + map[i].length,
{
    let length = map[i].length as int;
    let before = lba - blocks_in(map, i);
    assert((before + 1) * length == before * length + length) by (nonlinear_arith);
}

/// A firmware volume: a buffer that has passed validation.
#[derive(Debug, Copy, Clone)]
pub struct FirmwareVolume<'a> {
    fv_data: &'a [u8],
}

impl<'a> View for FirmwareVolume<'a> {
    type V = Seq<u8>;

    /// The bytes of the buffer.
    closed spec fn view(&self) -> Seq<u8> {
        self.fv_data@
    }
}

impl<'a> FirmwareVolume<'a> {
    #[verifier::type_invariant]
    spec fn well_formed(self) -> bool {
        valid_volume(self.fv_data@)
    }

    /// Validates `fv_data` and wraps it.
    pub fn new(fv_data: &'a [u8]) -> (result: Result<FirmwareVolume<'a>, Error>)
        ensures
            result is Ok <==> valid_volume(fv_data@),
            result matches Ok(fv) ==> fv@ == fv_data@,
            result matches Err(e) ==> e == Error::InvalidParameter,
    {
        if fv_data.len() < HEADER_SIZE {
            return Err(Error::InvalidParameter);
        }
        if read_u32(fv_data, 40) != SIGNATURE {
            return Err(Error::InvalidParameter);
        }
        let header_length: usize = read_u16(fv_data, 48) as usize;
        if header_length < HEADER_SIZE || header_length > fv_data.len() {
            return Err(Error::InvalidParameter);
        }
        if header_length % 2 != 0 {
            return Err(Error::InvalidParameter);
        }
        if !header_sums_to_zero(fv_data, header_length / 2) {
            return Err(Error::InvalidParameter);
        }
        if fv_data[55] < 2 {
            return Err(Error::InvalidParameter);
        }
        if !range_equals(fv_data, 16, &EFI_FIRMWARE_FILE_SYSTEM2_GUID_BYTES) && !range_equals(
            fv_data,
            16,
            &EFI_FIRMWARE_FILE_SYSTEM3_GUID_BYTES,
        ) {
            return Err(Error::InvalidParameter);
        }
        let fv_length: u64 = read_u64(fv_data, 32);
        if fv_length < header_length as u64 || fv_length > fv_data.len() as u64 {
            return Err(Error::InvalidParameter);
        }
        let ext_header_offset: usize = read_u16(fv_data, 52) as usize;
        if ext_header_offset != 0 {
            if ext_header_offset + EXT_HEADER_SIZE > fv_data.len() {
                return Err(Error::InvalidParameter);
            }
            let ext_header_size: u32 = read_u32(fv_data, ext_header_offset + 16);
            if ext_header_offset as u64 + ext_header_size as u64 > fv_data.len() as u64 {
                return Err(Error::InvalidParameter);
            }
        }
        if (header_length - HEADER_SIZE) % 8 != 0 {
            return Err(Error::InvalidParameter);
        }
        if !block_map_is_terminated(fv_data, (header_length - HEADER_SIZE) / 8) {
            return Err(Error::InvalidParameter);
        }
        Ok(FirmwareVolume { fv_data })
    }

    /// The buffer that the volume was made from.
    pub fn fv_data_buffer(&self) -> (buffer: &'a [u8])
        ensures
            buffer@ == self@,
            valid_volume(buffer@),
    {
        proof {
            use_type_invariant(self);
        }
        self.fv_data
    }

    /// The fixed part of the header, field by field.
    pub fn header(&self) -> (header: Header)
        ensures
            header.zero_vector@ == self@.subrange(0, 16),
            header.file_system_guid@ == self@.subrange(16, 32),
            header.fv_length == fv_length(self@),
            header.signature == fv_signature(self@),
            header.attributes == fv_attributes(self@),
            header.header_length == header_length(self@),
            header.checksum == fv_checksum(self@),
            header.ext_header_offset == ext_header_offset(self@),
            header.reserved == self@[54],
            header.revision == fv_revision(self@),
    {
        proof {
            use_type_invariant(self);
        }
        let data = self.fv_data;
        Header {
            zero_vector: read_bytes16(data, 0),
            file_system_guid: Guid::from_bytes(&read_bytes16(data, 16)),
            fv_length: read_u64(data, 32),
            signature: read_u32(data, 40),
            attributes: read_u32(data, 44),
            header_length: read_u16(data, 48),
            checksum: read_u16(data, 50),
            ext_header_offset: read_u16(data, 52),
            reserved: data[54],
            revision: data[55],
        }
    }

    /// The extension header, if the header points to one.
    pub fn ext_header(&self) -> (ext_header: Option<ExtHeader>)
        ensures
            ext_header is Some <==> ext_header_offset(self@) != 0,
            ext_header matches Some(ext) ==> {
                &&& ext.fv_name@ == self@.subrange(
                    ext_header_offset(self@),
                    ext_header_offset(self@) + 16,
                )
                &&& ext.ext_header_size == ext_header_size(self@)
            },
    {
        proof {
            use_type_invariant(self);
        }
        let data = self.fv_data;
        let offset: usize = read_u16(data, 52) as usize;
        if offset == 0 {
            return None;
        }
        Some(
            ExtHeader {
                fv_name: Guid::from_bytes(&read_bytes16(data, offset)),
                ext_header_size: read_u32(data, offset + 16),
            },
        )
    }

    /// The block map without its terminator.
    pub fn block_map(&self) -> (map: Vec<BlockMapEntry>)
        ensures
            map@ == block_map_of(self@),
    {
        proof {
            use_type_invariant(self);
        }
        let data = self.fv_data;
        let header_length: usize = read_u16(data, 48) as usize;
        let entries: usize = (header_length - HEADER_SIZE) / 8 - 1;
        let mut map: Vec<BlockMapEntry> = Vec::new();
        let mut i: usize = 0;
        while i < entries
            invariant
                i <= entries,
                entries == block_map_slots(data@) - 1,
                56 + 8 * (entries + 1) <= data.len(),
                map@.len() == i,
                forall|j: int| 0 <= j < i ==> map@[j] == block_map_of(data@)[j],
            decreases entries - i,
        {
            let entry = BlockMapEntry {
                num_blocks: read_u32(data, HEADER_SIZE + 8 * i),
                length: read_u32(data, HEADER_SIZE + 8 * i + 4),
            };
            map.push(entry);
            i += 1;
        }
        assert(map@ =~= block_map_of(data@));
        map
    }

    /// The name of the volume: the GUID of the extension header, if there
    /// is one.
    pub fn fv_name(&self) -> (name: Option<Guid>)
        ensures
            name is Some <==> ext_header_offset(self@) != 0,
            name matches Some(guid) ==> guid@ == self@.subrange(
                ext_header_offset(self@),
                ext_header_offset(self@) + 16,
            ),
    {
        match self.ext_header() {
            Some(ext_header) => Some(ext_header.fv_name),
            None => None,
        }
    }

    /// The first file of the volume: what stands behind the extension
    /// header, or behind the header if there is none.
    pub fn first_ffs_file(&self) -> (file: Option<File<'a>>)
        ensures
            file is Some <==> valid_file(self@, first_file_offset(self@)),
            file matches Some(f) ==> f@ == (FileView {
                volume: self@,
                offset: first_file_offset(self@),
            }),
    {
        proof {
            use_type_invariant(self);
        }
        let data = self.fv_data;
        assert(data@.len() == data.len());
        let first_file_offset: usize = match self.ext_header() {
            Some(ext_header) => read_u16(data, 52) as usize + ext_header.ext_header_size as usize,
            None => read_u16(data, 48) as usize,
        };
        match File::new(self, first_file_offset) {
            Ok(file) => Some(file),
            Err(_) => None,
        }
    }

    /// An iterator over the files of the volume, from the first one.
    pub fn ffs_files(&self) -> (files: FileIterator<'a>)
        ensures
            files.remaining() == volume_files(self@).map_values(
                |offset: int| FileView { volume: self@, offset },
            ),
    {
        let first = self.first_ffs_file();
        proof {
            if first is None {
                assert(volume_files(self@).map_values(
                    |offset: int| FileView { volume: self@, offset },
                ) =~= Seq::<FileView>::empty());
            }
        }
        FileIterator::new(first)
    }

    /// The header's attribute word.
    pub fn attributes(&self) -> (value: EfiFvbAttributes2)
        ensures
            value == fv_attributes(self@),
    {
        proof {
            use_type_invariant(self);
        }
        read_u32(self.fv_data, 44)
    }

    /// Finds the block with the logical address `lba` in the block map.
    ///
    /// The entry that covers `lba` is the first one whose cumulative block
    /// count exceeds it. The result holds the byte offset of the block
    /// from the start of the volume, the entry's block length, and the
    /// number of blocks from `lba` to the end of the entry. The lookup
    /// fails when no entry covers `lba` or when the byte offset does not
    /// fit in 32 bits.
    pub fn get_lba_info(&self, lba: u32) -> (result: Result<(u32, u32, u32), Error>)
        ensures
            result is Ok <==> exists|i: int|
                {
                    &&& #[trigger] covers(block_map_of(self@), i, lba as int)
                    &&& lba_info_fits(lba_info_at(block_map_of(self@), i, lba as int))
                },
            match result {
                Ok((offset, block_size, remaining)) => exists|i: int|
                    {
                        &&& #[trigger] covers(block_map_of(self@), i, lba as int)
                        &&& (offset as int, block_size as int, remaining as int) == lba_info_at(
                            block_map_of(self@),
                            i,
                            lba as int,
                        )
                    },
                Err(e) => e == Error::InvalidParameter,
            },
    {
        let map = self.block_map();
        let ghost entries = block_map_of(self@);
        let mut total_blocks: u64 = 0;
        let mut offset: u64 = 0;
        let mut i: usize = 0;
        while i < map.len()
            invariant
                i <= map.len(),
                map@ == entries,
                entries == block_map_of(self@),
                total_blocks == blocks_in(entries, i as int),
                offset == bytes_in(entries, i as int),
                total_blocks <= lba,
                offset <= u32::MAX,
                forall|j: int| 0 <= j < i ==> !covers(entries, j, lba as int),
            decreases map.len() - i,
        {
            let num_blocks: u64 = map[i].num_blocks as u64;
            let length: u64 = map[i].length as u64;
            assert(blocks_in(entries, i + 1) == blocks_in(entries, i as int) + num_blocks);
            assert(bytes_in(entries, i + 1) == bytes_in(entries, i as int) + num_blocks * length);
            if (lba as u64) < total_blocks + num_blocks {
                let blocks_before: u64 = lba as u64 - total_blocks;
                assert(blocks_before * length <= 0xFFFF_FFFE_0000_0001) by (nonlinear_arith)
                    requires
                        blocks_before <= 0xFFFF_FFFF,
                        length <= 0xFFFF_FFFF,
                ;
                let byte_offset: u64 = offset + blocks_before * length;
                let remaining: u64 = total_blocks + num_blocks - lba as u64;
                assert(covers(entries, i as int, lba as int));
                proof {
                    assert forall|j: int| covers(entries, j, lba as int) implies j == i by {
                        lemma_covering_entry_is_unique(entries, j, i as int, lba as int);
                    }
                }
                assert(lba_info_at(entries, i as int, lba as int) == (
                    byte_offset as int,
                    length as int,
                    remaining as int,
                ));
                if byte_offset > u32::MAX as u64 {
                    return Err(Error::InvalidParameter);
                }
                return Ok((byte_offset as u32, length as u32, remaining as u32));
            }
            assert(num_blocks * length <= 0xFFFF_FFFE_0000_0001) by (nonlinear_arith)
                requires
                    num_blocks <= 0xFFFF_FFFF,
                    length <= 0xFFFF_FFFF,
            ;
            total_blocks = total_blocks + num_blocks;
            if offset + num_blocks * length > u32::MAX as u64 {
                proof {
                    assert forall|j: int| #[trigger]
                        covers(entries, j, lba as int) implies !lba_info_fits(
                        lba_info_at(entries, j, lba as int),
                    ) by {
                        lemma_bytes_in_monotonic(entries, i + 1, j);
                        let blocks_before = lba - blocks_in(entries, j);
                        assert(0 <= blocks_before * entries[j].length) by (nonlinear_arith)
                            requires
                                0 <= blocks_before,
                                0 <= entries[j].length,
                        ;
                    }
                }
                return Err(Error::InvalidParameter);
            }
            offset = offset + num_blocks * length;
            i += 1;
        }
        Err(Error::InvalidParameter)
    }
}

/// Tells whether the first `words` 16-bit words of `data` add up to zero
/// modulo 65536.
fn header_sums_to_zero(data: &[u8], words: usize) -> (zero: bool)
    requires
        2 * words <= data.len(),
        words <= 0x7FFF,
    ensures
        zero == (word_sum(data@, words as nat) % 65536 == 0),
{
    let mut sum: u32 = 0;
    let mut i: usize = 0;
    while i < words
        invariant
            i <= words <= 0x7FFF,
            2 * words <= data.len(),
            sum == word_sum(data@, i as nat),
            sum <= 0xFFFF * i,
        decreases words - i,
    {
        let word: u16 = read_u16(data, 2 * i);
        sum = sum + word as u32;
        i += 1;
    }
    sum % 65536 == 0
}

/// Tells whether the `slots` entries behind the fixed header end with a
/// zero entry and hold no other.
fn block_map_is_terminated(data: &[u8], slots: usize) -> (terminated: bool)
    requires
        56 + 8 * slots <= data.len(),
    ensures
        terminated == {
            &&& slots >= 1
            &&& slot_is_zero(data@, slots - 1)
            &&& forall|i: int| 0 <= i < slots - 1 ==> !#[trigger] slot_is_zero(data@, i)
        },
{
    if slots == 0 {
        return false;
    }
    let mut i: usize = 0;
    while i < slots - 1
        invariant
            1 <= slots,
            i <= slots - 1,
            56 + 8 * slots <= data.len(),
            forall|j: int| 0 <= j < i ==> !#[trigger] slot_is_zero(data@, j),
        decreases slots - i,
    {
        if read_u32(data, HEADER_SIZE + 8 * i) == 0 && read_u32(data, HEADER_SIZE + 8 * i + 4)
            == 0 {
            assert(slot_is_zero(data@, i as int));
            return false;
        }
        i += 1;
    }
    read_u32(data, HEADER_SIZE + 8 * i) == 0 && read_u32(data, HEADER_SIZE + 8 * i + 4) == 0
}

} // verus!
