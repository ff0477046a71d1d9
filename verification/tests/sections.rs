use mu_pi::efi::{Error, Guid};
use mu_pi::fw_fs::ffs::brotli::{
    brotli_section_guid, BrotliSectionExtractor, BROTLI_SECTION_GUID_BYTES,
};
use mu_pi::fw_fs::ffs::guid::EFI_FIRMWARE_FILE_SYSTEM2_GUID_BYTES;
use mu_pi::fw_fs::ffs::section::Type as FfsSectionType;
use mu_pi::fw_fs::ffs::{
    FfsSectionIterator, File, Section as FfsSection, SectionExtractor, SectionMetaData,
};
use mu_pi::fw_fs::FirmwareVolume;
use std::sync::atomic::{AtomicBool, AtomicUsize, Ordering};
use std::sync::Arc;

fn put_u16(buffer: &mut [u8], at: usize, value: u16) {
    buffer[at..at + 2].copy_from_slice(&value.to_le_bytes());
}

fn put_u32(buffer: &mut [u8], at: usize, value: u32) {
    buffer[at..at + 4].copy_from_slice(&value.to_le_bytes());
}

fn put_u64(buffer: &mut [u8], at: usize, value: u64) {
    buffer[at..at + 8].copy_from_slice(&value.to_le_bytes());
}

fn get_u16(buffer: &[u8], at: usize) -> u16 {
    u16::from_le_bytes([buffer[at], buffer[at + 1]])
}

fn fix_checksum(volume: &mut [u8]) {
    let header_length = (get_u16(volume, 48) as usize).min(volume.len());
    put_u16(volume, 50, 0);
    let mut sum: u16 = 0;
    for word in 0..header_length / 2 {
        sum = sum.wrapping_add(get_u16(volume, 2 * word));
    }
    put_u16(volume, 50, 0u16.wrapping_sub(sum));
}

fn section(section_type: u8, body: &[u8]) -> Vec<u8> {
    let size = (4 + body.len()) as u32;
    let mut bytes = vec![size as u8, (size >> 8) as u8, (size >> 16) as u8, section_type];
    bytes.extend_from_slice(body);
    bytes
}

fn extended_section(section_type: u8, body: &[u8]) -> Vec<u8> {
    let mut bytes = vec![0xff, 0xff, 0xff, section_type];
    bytes.extend_from_slice(&((8 + body.len()) as u32).to_le_bytes());
    bytes.extend_from_slice(body);
    bytes
}

fn guid_defined_section(guid: &[u8; 16], attributes: u16, payload: &[u8]) -> Vec<u8> {
    let mut body = guid.to_vec();
    body.extend_from_slice(&24u16.to_le_bytes());
    body.extend_from_slice(&attributes.to_le_bytes());
    body.extend_from_slice(payload);
    section(0x02, &body)
}

/// A Brotli stream that holds `data` as one stored block.
fn brotli_stored(data: &[u8]) -> Vec<u8> {
    assert!(!data.is_empty() && data.len() <= 0x10000);
    let length = (data.len() - 1) as u32;
    let mut stream =
        vec![((length & 0xf) << 4) as u8, (length >> 4) as u8, ((length >> 12) & 0xf) as u8 | 0x10];
    stream.extend_from_slice(data);
    stream.push(0x03);
    stream
}

fn brotli_payload(declared: u64, stream: &[u8]) -> Vec<u8> {
    let mut payload = declared.to_le_bytes().to_vec();
    payload.extend_from_slice(&0x1000u64.to_le_bytes());
    payload.extend_from_slice(stream);
    payload
}

fn brotli_section(unpacked: &[u8]) -> Vec<u8> {
    guid_defined_section(
        &BROTLI_SECTION_GUID_BYTES,
        0x0001,
        &brotli_payload(unpacked.len() as u64, &brotli_stored(unpacked)),
    )
}

fn chain(sections: &[Vec<u8>]) -> Vec<u8> {
    let mut bytes = Vec::new();
    for section in sections {
        while bytes.len() % 4 != 0 {
            bytes.push(0);
        }
        bytes.extend_from_slice(section);
    }
    bytes
}

fn file(name: u8, file_type: u8, attributes: u8, sections: &[Vec<u8>]) -> Vec<u8> {
    let mut bytes = vec![name; 16];
    bytes.extend_from_slice(&[0xaa, 0x55, file_type, attributes, 0, 0, 0, 0xf8]);
    bytes.extend_from_slice(&chain(sections));
    let size = bytes.len() as u32;
    bytes[20] = size as u8;
    bytes[21] = (size >> 8) as u8;
    bytes[22] = (size >> 16) as u8;
    bytes
}

fn volume(total: usize, files: &[Vec<u8>]) -> Vec<u8> {
    let mut bytes = vec![0u8; 72];
    bytes[16..32].copy_from_slice(&EFI_FIRMWARE_FILE_SYSTEM2_GUID_BYTES);
    put_u64(&mut bytes, 32, total as u64);
    put_u32(&mut bytes, 40, 0x4856_465f);
    put_u32(&mut bytes, 44, 0x0004_feff);
    put_u16(&mut bytes, 48, 72);
    bytes[55] = 2;
    put_u32(&mut bytes, 56, 1);
    put_u32(&mut bytes, 60, total as u32);
    for file in files {
        while bytes.len() % 8 != 0 {
            bytes.push(0xff);
        }
        bytes.extend_from_slice(file);
    }
    assert!(bytes.len() <= total);
    bytes.resize(total, 0xff);
    fix_checksum(&mut bytes);
    bytes
}

/// A volume with one file that holds the given sections.
fn volume_of_sections(sections: &[Vec<u8>]) -> Vec<u8> {
    volume(2048, &[file(0x33, 0x07, 0, sections)])
}

fn all_files<'a>(fv: &FirmwareVolume<'a>) -> Vec<File<'a>> {
    let mut iterator = fv.ffs_files();
    let mut files = Vec::new();
    while let Some(file) = iterator.next() {
        files.push(file);
    }
    files
}

fn collect<'a>(mut iterator: FfsSectionIterator<'a>) -> Vec<FfsSection<'a>> {
    let mut sections = Vec::new();
    while let Some(section) = iterator.next() {
        sections.push(section);
        assert!(sections.len() < 1000);
    }
    sections
}

/// Offset, type byte and size of each section.
fn summary(sections: &[FfsSection]) -> Vec<(usize, u8, usize)> {
    sections
        .iter()
        .map(|section| {
            (section.section_offset(), section.section_type_raw(), section.section_size())
        })
        .collect()
}

#[test]
fn sections_carry_their_typed_blocks() {
    let mut compressed = 0x1234_5678u32.to_le_bytes().to_vec();
    compressed.extend_from_slice(&[0x01, 0xc1, 0xc2, 0xc3]);
    let guid = [0x77u8; 16];
    let mut subtype = vec![0x66u8; 16];
    subtype.extend_from_slice(&[0xd1, 0xd2]);
    let bytes = volume_of_sections(&[
        section(0x01, &compressed),
        guid_defined_section(&guid, 0x0203, &[0xe1, 0xe2, 0xe3, 0xe4, 0xe5]),
        section(0x14, &[0x34, 0x12, 0x41, 0x00, 0x00, 0x00]),
        section(0x18, &subtype),
        section(0x19, &[0xf1]),
    ]);
    let fv = FirmwareVolume::new(&bytes).unwrap();
    let file = fv.first_ffs_file().unwrap();
    let sections = collect(file.ffs_sections());
    assert_eq!(
        summary(&sections),
        vec![(24, 0x01, 12), (36, 0x02, 29), (68, 0x14, 10), (80, 0x18, 22), (104, 0x19, 5)]
    );
    match sections[0].metadata() {
        SectionMetaData::Compression(compression) => {
            assert_eq!(compression.uncompressed_length, 0x1234_5678);
            assert_eq!(compression.compression_type, 1);
        }
        other => panic!("{other:?}"),
    }
    assert_eq!(sections[0].section_data(), &[0xc1, 0xc2, 0xc3]);
    match sections[1].metadata() {
        SectionMetaData::GuidDefined(guid_defined) => {
            assert_eq!(guid_defined.section_definition_guid, Guid::from_bytes(&guid));
            assert_eq!(guid_defined.data_offset, 24);
            assert_eq!(guid_defined.attributes, 0x0203);
        }
        other => panic!("{other:?}"),
    }
    assert_eq!(sections[1].section_data(), &[0xe1, 0xe2, 0xe3, 0xe4, 0xe5]);
    match sections[2].metadata() {
        SectionMetaData::Version(version) => assert_eq!(version.build_number, 0x1234),
        other => panic!("{other:?}"),
    }
    assert_eq!(sections[2].section_data(), &[0x41, 0x00, 0x00, 0x00]);
    match sections[3].metadata() {
        SectionMetaData::FreeformSubtypeGuid(freeform) => {
            assert_eq!(freeform.sub_type_guid, Guid::from_bytes(&[0x66; 16]))
        }
        other => panic!("{other:?}"),
    }
    assert_eq!(sections[3].section_data(), &[0xd1, 0xd2]);
    assert!(matches!(sections[4].metadata(), SectionMetaData::NoMetaData));
    assert_eq!(sections[4].section_data(), &[0xf1]);
    let encapsulation: Vec<bool> =
        sections.iter().map(|section| section.is_encapsulation()).collect();
    assert_eq!(encapsulation, vec![true, true, false, false, false]);
}

#[test]
fn guid_defined_content_starts_at_the_declared_offset() {
    // the typed block declares that the data starts 28 bytes into the section
    let mut odd = guid_defined_section(&[0x77; 16], 0, &[1, 2, 3, 4, 5, 6, 7, 8]);
    put_u16(&mut odd, 20, 28);
    let bytes = volume_of_sections(&[odd.clone()]);
    let fv = FirmwareVolume::new(&bytes).unwrap();
    let sections = collect(fv.first_ffs_file().unwrap().ffs_sections());
    assert_eq!(sections[0].section_data(), &[5, 6, 7, 8]);
    // a declared offset at the end of the section: no content
    put_u16(&mut odd, 20, 32);
    let bytes = volume_of_sections(&[odd.clone()]);
    let fv = FirmwareVolume::new(&bytes).unwrap();
    let sections = collect(fv.first_ffs_file().unwrap().ffs_sections());
    assert_eq!(sections[0].section_data(), &[] as &[u8]);
    // a declared offset behind the end of the section: no section
    put_u16(&mut odd, 20, 33);
    let bytes = volume_of_sections(&[odd]);
    let fv = FirmwareVolume::new(&bytes).unwrap();
    let file = fv.first_ffs_file().unwrap();
    assert!(file.first_ffs_section().is_none());
    assert_eq!(
        FfsSection::new(&file, 24, file.file_bytes()).err(),
        Some(Error::InvalidParameter)
    );
}

#[test]
fn extended_header_carries_a_32_bit_size() {
    let bytes = volume_of_sections(&[
        extended_section(0x19, &[1, 2, 3, 4, 5]),
        extended_section(0x14, &[0x09, 0x00, 0x42, 0x00]),
        section(0x10, &[7]),
    ]);
    let fv = FirmwareVolume::new(&bytes).unwrap();
    let sections = collect(fv.first_ffs_file().unwrap().ffs_sections());
    assert_eq!(summary(&sections), vec![(24, 0x19, 13), (40, 0x14, 12), (52, 0x10, 5)]);
    assert_eq!(sections[0].section_data(), &[1, 2, 3, 4, 5]);
    assert_eq!(sections[1].section_data(), &[0x42, 0x00]);
    match sections[1].metadata() {
        SectionMetaData::Version(version) => assert_eq!(version.build_number, 9),
        other => panic!("{other:?}"),
    }
}

#[test]
fn section_types_follow_the_table() {
    let named: [(u8, FfsSectionType); 15] = [
        (0x01, FfsSectionType::Compression),
        (0x02, FfsSectionType::GuidDefined),
        (0x03, FfsSectionType::Disposable),
        (0x10, FfsSectionType::Pe32),
        (0x11, FfsSectionType::Pic),
        (0x12, FfsSectionType::Te),
        (0x13, FfsSectionType::DxeDepex),
        (0x14, FfsSectionType::Version),
        (0x15, FfsSectionType::UserInterface),
        (0x16, FfsSectionType::Compatibility16),
        (0x17, FfsSectionType::FirmwareVolumeImage),
        (0x18, FfsSectionType::FreeformSubtypeGuid),
        (0x19, FfsSectionType::Raw),
        (0x1b, FfsSectionType::PeiDepex),
        (0x1c, FfsSectionType::MmDepex),
    ];
    for raw in 0u8..=255 {
        let bytes = volume_of_sections(&[section(raw, &[0u8; 24])]);
        let fv = FirmwareVolume::new(&bytes).unwrap();
        let first = fv.first_ffs_file().unwrap().first_ffs_section().unwrap();
        let expected = named.iter().find(|(byte, _)| *byte == raw).map(|(_, name)| *name);
        assert_eq!(first.section_type_raw(), raw);
        assert_eq!(first.section_type(), expected, "type byte {raw:#x}");
        assert_eq!(first.is_encapsulation(), raw == 0x01 || raw == 0x02);
    }
}

#[test]
fn next_section_is_at_the_next_multiple_of_four() {
    let bodies: [&[u8]; 5] = [&[1], &[1, 2], &[1, 2, 3], &[1, 2, 3, 4], &[]];
    let sections: Vec<Vec<u8>> = bodies.iter().map(|body| section(0x19, body)).collect();
    let bytes = volume_of_sections(&sections);
    let fv = FirmwareVolume::new(&bytes).unwrap();
    let sections = collect(fv.first_ffs_file().unwrap().ffs_sections());
    assert_eq!(
        summary(&sections),
        vec![(24, 0x19, 5), (32, 0x19, 6), (40, 0x19, 7), (48, 0x19, 8), (56, 0x19, 4)]
    );
    for pair in sections.windows(2) {
        let end = pair[0].section_offset() + pair[0].section_size();
        let next = pair[0].next_section().unwrap();
        assert_eq!(next.section_offset(), (end + 3) / 4 * 4);
        assert!(next.section_offset() >= end);
        assert_eq!(next.section_offset(), pair[1].section_offset());
    }
    assert!(sections[4].next_section().is_none());
}

#[test]
fn section_constructor_checks_the_bounds() {
    let bytes = volume_of_sections(&[section(0x19, &[1, 2, 3])]);
    let fv = FirmwareVolume::new(&bytes).unwrap();
    let file = fv.first_ffs_file().unwrap();
    let refused = |buffer: &[u8], offset: usize| {
        assert_eq!(FfsSection::new(&file, offset, buffer).err(), Some(Error::InvalidParameter));
    };
    let accepted = |buffer: &[u8], offset: usize| {
        let section = FfsSection::new(&file, offset, buffer).unwrap();
        (section.section_size(), section.section_data().to_vec())
    };
    assert_eq!(accepted(&[7, 0, 0, 0x19, 1, 2, 3], 0), (7, vec![1, 2, 3]));
    assert_eq!(accepted(&[0, 0, 7, 0, 0, 0x19, 1, 2, 3], 2), (7, vec![1, 2, 3]));
    assert_eq!(accepted(&[4, 0, 0, 0x19], 0), (4, vec![]));
    // no room for the common header
    refused(&[], 0);
    refused(&[4, 0, 0], 0);
    refused(&[4, 0, 0, 0x19], 1);
    refused(&[4, 0, 0, 0x19], usize::MAX);
    // a size below the header's length
    refused(&[3, 0, 0, 0x19], 0);
    refused(&[0, 0, 0, 0x00], 0);
    // a size beyond the buffer
    refused(&[8, 0, 0, 0x19, 1, 2, 3], 0);
    // no room for the extended header
    refused(&[0xff, 0xff, 0xff, 0x19, 8, 0, 0], 0);
    assert_eq!(accepted(&[0xff, 0xff, 0xff, 0x19, 8, 0, 0, 0], 0), (8, vec![]));
    refused(&[0xff, 0xff, 0xff, 0x19, 7, 0, 0, 0], 0);
    refused(&[0xff, 0xff, 0xff, 0x19, 9, 0, 0, 0], 0);
    refused(&[0xff, 0xff, 0xff, 0x19, 0xff, 0xff, 0xff, 0xff], 0);
    // a typed block that does not fit the section or the buffer
    refused(&[8, 0, 0, 0x01, 0, 0, 0, 0], 0);
    assert_eq!(accepted(&[9, 0, 0, 0x01, 0, 0, 0, 0, 1], 0), (9, vec![]));
    refused(&[5, 0, 0, 0x14, 1], 0);
    assert_eq!(accepted(&[6, 0, 0, 0x14, 1, 0], 0), (6, vec![]));
    let mut freeform = section(0x18, &[0x66; 16]);
    assert_eq!(accepted(&freeform, 0), (20, vec![]));
    freeform[0] = 19;
    refused(&freeform, 0);
    let guid_defined = guid_defined_section(&[0x77; 16], 0, &[]);
    assert_eq!(accepted(&guid_defined, 0), (24, vec![]));
    refused(&guid_defined[..23], 0);
}

#[test]
fn a_file_with_room_for_a_header_only_has_no_section() {
    // the file's content is exactly one section header long
    let bytes = volume_of_sections(&[section(0x19, &[])]);
    let fv = FirmwareVolume::new(&bytes).unwrap();
    let file = fv.first_ffs_file().unwrap();
    assert_eq!(file.file_size(), 28);
    assert!(file.first_ffs_section().is_none());
    assert_eq!(collect(file.ffs_sections()).len(), 0);
    // a section stands there all the same
    assert_eq!(FfsSection::new(&file, 24, file.file_bytes()).unwrap().section_size(), 4);
}

struct TestExtractor {
    invoked: AtomicBool,
}

impl SectionExtractor for TestExtractor {
    fn extract<'a>(&self, section: FfsSection<'a>) -> Vec<FfsSection<'a>> {
        let SectionMetaData::GuidDefined(metadata) = section.metadata() else {
            panic!("Unexpected section metadata");
        };
        let brotli_section_guid: Guid =
            Guid::from_fields(0x3D532050, 0x5CDA, 0x4FD0, 0x87, 0x9E, &[0x0F, 0x7F, 0x63, 0x0D, 0x5A, 0xFB]);
        assert_eq!(metadata.section_definition_guid, brotli_section_guid);
        self.invoked.store(true, Ordering::SeqCst);
        Vec::new()
    }
}

/// Three files; the second holds a Brotli section that wraps two raw
/// sections.
fn compact_fixture() -> Vec<u8> {
    let wrapped = chain(&[section(0x19, &[0xc1, 0xc2, 0xc3]), section(0x19, &[0xd1, 0xd2])]);
    volume(
        1024,
        &[
            file(0xa0, 0x07, 0, &[section(0x19, &[0xa1, 0xa2])]),
            file(0xa1, 0x07, 0, &[brotli_section(&wrapped)]),
            file(0xa2, 0x07, 0, &[section(0x10, &[1, 2, 3, 4]), section(0x15, &[0x58, 0, 0, 0])]),
        ],
    )
}

#[test]
fn test_section_extraction() {
    let fv_bytes = compact_fixture();
    let fv = FirmwareVolume::new(&fv_bytes).unwrap();
    let test_extractor = TestExtractor { invoked: AtomicBool::new(false) };
    let expected: [Vec<(usize, u8, usize)>; 3] = [
        vec![(24, 0x19, 6)],
        vec![(24, 0x02, 58)],
        vec![(24, 0x10, 8), (32, 0x15, 8)],
    ];
    let files = all_files(&fv);
    assert_eq!(files.len(), 3);
    for (file, expected) in files.iter().zip(expected.iter()) {
        let sections = collect(file.ffs_sections_with_extractor(&test_extractor));
        assert_eq!(&summary(&sections), expected);
    }
    assert!(test_extractor.invoked.load(Ordering::SeqCst));
}

#[test]
fn brotli_sections_are_unpacked_in_place() {
    let fv_bytes = compact_fixture();
    let fv = FirmwareVolume::new(&fv_bytes).unwrap();
    let extractor = BrotliSectionExtractor::new(4);
    assert_eq!(extractor.max_depth(), 4);
    let expected: [Vec<(usize, u8, usize)>; 3] = [
        vec![(24, 0x19, 6)],
        vec![(24, 0x02, 58), (0, 0x19, 7), (8, 0x19, 6)],
        vec![(24, 0x10, 8), (32, 0x15, 8)],
    ];
    let files = all_files(&fv);
    assert_eq!(files.len(), 3);
    for (file, expected) in files.iter().zip(expected.iter()) {
        let sections = collect(file.ffs_sections_with_extractor(&extractor));
        assert_eq!(&summary(&sections), expected);
        for section in &sections {
            assert_eq!(section.containing_file().file_offset(), file.file_offset());
        }
        // the walk in one go yields what the walk step by step yields
        assert_eq!(&summary(&extractor.sections_of(file)), expected);
        // a file without encapsulation sections is walked alike with and
        // without an extractor
        if file.file_offset() != files[1].file_offset() {
            assert_eq!(&summary(&collect(file.ffs_sections())), expected);
        }
    }
    let sections = collect(files[1].ffs_sections_with_extractor(&extractor));
    assert_eq!(sections[0].section_type(), Some(FfsSectionType::GuidDefined));
    assert_eq!(sections[1].section_type(), Some(FfsSectionType::Raw));
    assert_eq!(sections[1].section_data(), &[0xc1, 0xc2, 0xc3]);
    assert_eq!(sections[2].section_data(), &[0xd1, 0xd2]);
    assert!(sections[2].next_section().is_none());
    assert_eq!(sections[1].next_section().unwrap().section_data(), &[0xd1, 0xd2]);
    // the wrapped sections are read from the unpacked buffer, not from the file
    let unpacked = BrotliSectionExtractor::unpack_buffer(&sections[0]).unwrap();
    assert_eq!(unpacked.len(), 14);
    assert_eq!(sections[1].section_size(), unpacked[0] as usize);
    assert_eq!(sections[2].section_offset(), (sections[1].section_size() + 3) / 4 * 4);
    assert_eq!(sections[2].section_size(), unpacked[8] as usize);
    assert_eq!(sections[1].section_data(), &unpacked[4..7]);
    assert_eq!(sections[2].section_data(), &unpacked[12..14]);
    assert_eq!(sections[2].containing_file().file_name(), files[1].file_name());
    // without an extractor the section stays packed
    assert_eq!(summary(&collect(files[1].ffs_sections())), vec![(24, 0x02, 58)]);
    // the unpacked sections outlive the walk and the extractor's other results
    let kept = sections[2].clone();
    drop(sections);
    assert_eq!(kept.section_data(), &[0xd1, 0xd2]);
}

#[test]
fn brotli_extractor_returns_nothing_for_what_it_cannot_unpack() {
    let wrapped = chain(&[section(0x19, &[1, 2, 3])]);
    let good = brotli_section(&wrapped);
    let extractor = BrotliSectionExtractor::new(1);
    let unpack = |section_bytes: Vec<u8>, extractor: &BrotliSectionExtractor| {
        let bytes = volume_of_sections(&[section_bytes]);
        let fv = FirmwareVolume::new(&bytes).unwrap();
        let first = fv.first_ffs_file().unwrap().first_ffs_section().unwrap();
        summary(&extractor.extract(first))
    };
    assert_eq!(unpack(good.clone(), &extractor), vec![(0, 0x19, 7)]);
    // no level to unpack
    assert_eq!(unpack(good.clone(), &BrotliSectionExtractor::new(0)), vec![]);
    // another GUID
    let mut other = good.clone();
    other[4] ^= 1;
    assert_eq!(unpack(other, &extractor), vec![]);
    // not a GUID-defined section
    assert_eq!(unpack(section(0x19, &good[4..]), &extractor), vec![]);
    let mut compressed = 7u32.to_le_bytes().to_vec();
    compressed.push(1);
    compressed.extend_from_slice(&good[24..]);
    assert_eq!(unpack(section(0x01, &compressed), &extractor), vec![]);
    // a content too short for the two numbers
    let short = guid_defined_section(&BROTLI_SECTION_GUID_BYTES, 0, &[0u8; 15]);
    assert_eq!(unpack(short, &extractor), vec![]);
    // a damaged stream
    let mut damaged = good.clone();
    let last = damaged.len() - 1;
    damaged[last] = 0xff;
    damaged[40] = 0xff;
    assert_eq!(unpack(damaged, &extractor), vec![]);
    let truncated =
        guid_defined_section(&BROTLI_SECTION_GUID_BYTES, 0, &brotli_payload(7, &[0x60, 0x00]));
    assert_eq!(unpack(truncated, &extractor), vec![]);
    // a declared length that is too small for the stream
    let small = guid_defined_section(
        &BROTLI_SECTION_GUID_BYTES,
        0,
        &brotli_payload(6, &brotli_stored(&wrapped)),
    );
    assert_eq!(unpack(small, &extractor), vec![]);
    // a declared length that no buffer can have
    let huge = guid_defined_section(
        &BROTLI_SECTION_GUID_BYTES,
        0,
        &brotli_payload(u64::MAX, &brotli_stored(&wrapped)),
    );
    assert_eq!(unpack(huge, &extractor), vec![]);
    // a declared length of zero, and a content that ends with the two numbers
    let none = guid_defined_section(
        &BROTLI_SECTION_GUID_BYTES,
        0,
        &brotli_payload(0, &brotli_stored(&wrapped)),
    );
    assert_eq!(unpack(none, &extractor), vec![]);
    let bare = guid_defined_section(&BROTLI_SECTION_GUID_BYTES, 0, &brotli_payload(7, &[]));
    assert_eq!(unpack(bare, &extractor), vec![]);
    // unpacked bytes that do not start with a section
    let junk = brotli_section(&[0, 0, 0, 0x19, 1, 2, 3]);
    assert_eq!(unpack(junk, &extractor), vec![]);
    // a declared length above what the stream holds: the rest stays zero
    let padded = guid_defined_section(
        &BROTLI_SECTION_GUID_BYTES,
        0,
        &brotli_payload(16, &brotli_stored(&wrapped)),
    );
    assert_eq!(unpack(padded, &extractor), vec![(0, 0x19, 7)]);
}

#[test]
fn brotli_buffer_is_decoded_from_the_stream() {
    let wrapped = chain(&[section(0x19, &[1, 2, 3]), section(0x10, &[4])]);
    let bytes = volume_of_sections(&[brotli_section(&wrapped), section(0x19, &[9])]);
    let fv = FirmwareVolume::new(&bytes).unwrap();
    let first = fv.first_ffs_file().unwrap().first_ffs_section().unwrap();
    assert_eq!(BrotliSectionExtractor::unpack_buffer(&first), Some(wrapped));
    let second = first.next_section().unwrap();
    assert_eq!(BrotliSectionExtractor::unpack_buffer(&second), None);
    assert_eq!(brotli_section_guid(), Guid::from_bytes(&BROTLI_SECTION_GUID_BYTES));
}

#[test]
fn nested_brotli_sections_are_unpacked_to_the_chosen_depth() {
    let innermost = chain(&[section(0x19, &[0x51]), section(0x19, &[0x52, 0x53])]);
    let inner = chain(&[
        section(0x19, &[0x41]),
        brotli_section(&innermost),
        section(0x19, &[0x43, 0x44, 0x45]),
    ]);
    let bytes = volume_of_sections(&[brotli_section(&inner), section(0x10, &[0x31])]);
    let fv = FirmwareVolume::new(&bytes).unwrap();
    let file = fv.first_ffs_file().unwrap();
    let outer = file.first_ffs_section().unwrap();
    let nested_size = 24 + 16 + 3 + innermost.len() + 1;
    let nested = (8, 0x02, nested_size);
    let behind = 8 + (nested_size + 3) / 4 * 4;
    // one level: the nested section stays packed
    assert_eq!(
        summary(&BrotliSectionExtractor::new(1).extract(outer.clone())),
        vec![(0, 0x19, 5), nested, (behind, 0x19, 7)]
    );
    // two levels: what the nested section holds follows it
    let deep = BrotliSectionExtractor::new(2);
    assert_eq!(
        summary(&deep.extract(outer.clone())),
        vec![(0, 0x19, 5), nested, (0, 0x19, 5), (8, 0x19, 6), (behind, 0x19, 7)]
    );
    assert_eq!(summary(&deep.extract_to_depth(&outer, 1)), summary(
        &BrotliSectionExtractor::new(1).extract(outer.clone())
    ));
    // a walk with an extractor of one level unpacks each encapsulation that it
    // yields, so it shows every section once, parents before children
    let shallow = BrotliSectionExtractor::new(1);
    let outer_size = outer.section_size();
    assert_eq!(
        summary(&collect(file.ffs_sections_with_extractor(&shallow))),
        vec![
            (24, 0x02, outer_size),
            (0, 0x19, 5),
            nested,
            (0, 0x19, 5),
            (8, 0x19, 6),
            (behind, 0x19, 7),
            (24 + (outer_size + 3) / 4 * 4, 0x10, 5),
        ]
    );
    assert_eq!(
        summary(&shallow.sections_of(&file)),
        summary(&collect(file.ffs_sections_with_extractor(&shallow)))
    );
    assert_eq!(
        summary(&deep.sections_of(&file)),
        summary(&collect(file.ffs_sections_with_extractor(&deep)))
    );
    assert_eq!(
        summary(&BrotliSectionExtractor::new(0).sections_of(&file)),
        summary(&collect(file.ffs_sections()))
    );
    assert_eq!(
        summary(&deep.walk_to_end(file.ffs_sections(), 1)),
        summary(&shallow.sections_of(&file))
    );
    // a walk with an extractor of two levels is handed the nested section's
    // content by the extractor and unpacks the nested section once more
    assert_eq!(
        summary(&collect(file.ffs_sections_with_extractor(&deep))),
        vec![
            (24, 0x02, outer_size),
            (0, 0x19, 5),
            nested,
            (0, 0x19, 5),
            (8, 0x19, 6),
            (0, 0x19, 5),
            (8, 0x19, 6),
            (behind, 0x19, 7),
            (24 + (outer_size + 3) / 4 * 4, 0x10, 5),
        ]
    );
}

/// Answers each encapsulation section with the sections of a buffer of its
/// own, and counts how often it is asked.
struct FixedExtractor {
    children: Vec<u8>,
    calls: AtomicUsize,
}

impl SectionExtractor for FixedExtractor {
    fn extract<'a>(&self, section: FfsSection<'a>) -> Vec<FfsSection<'a>> {
        self.calls.fetch_add(1, Ordering::SeqCst);
        let buffer = Arc::new(self.children.clone());
        let file = section.containing_file();
        let mut sections = Vec::new();
        let mut next = FfsSection::new_in_extraction_buffer(&file, 0, buffer).ok();
        while let Some(section) = next {
            next = section.next_section();
            sections.push(section);
        }
        sections
    }
}

#[test]
fn extracted_sections_come_before_the_next_sibling() {
    for k in 0usize..5 {
        let children: Vec<Vec<u8>> = (0..k).map(|i| section(0x19, &[i as u8; 3])).collect();
        let extractor = FixedExtractor { children: chain(&children), calls: AtomicUsize::new(0) };
        let bytes = volume_of_sections(&[
            section(0x10, &[1]),
            section(0x01, &[0, 0, 0, 0, 1, 0xee]),
            section(0x15, &[2, 0]),
        ]);
        let fv = FirmwareVolume::new(&bytes).unwrap();
        let file = fv.first_ffs_file().unwrap();
        let sections = collect(file.ffs_sections_with_extractor(&extractor));
        let mut expected = vec![(24, 0x10, 5), (32, 0x01, 10)];
        for i in 0..k {
            expected.push((8 * i, 0x19, 7));
        }
        expected.push((44, 0x15, 6));
        assert_eq!(summary(&sections), expected);
        for i in 0..k {
            assert_eq!(sections[2 + i].section_data(), &[i as u8; 3]);
        }
        assert_eq!(extractor.calls.load(Ordering::SeqCst), 1);
    }
}

#[test]
fn nested_encapsulations_are_drained_depth_first() {
    // every encapsulation section is answered with a raw section and, while
    // the extractor has been asked fewer than three times, another
    // encapsulation section
    struct Nesting {
        calls: AtomicUsize,
    }
    impl SectionExtractor for Nesting {
        fn extract<'a>(&self, parent: FfsSection<'a>) -> Vec<FfsSection<'a>> {
            let call = self.calls.fetch_add(1, Ordering::SeqCst) as u8;
            let mut children = vec![section(0x19, &[call])];
            if call < 2 {
                children.push(section(0x01, &[0, 0, 0, 0, 0]));
            }
            children.push(section(0x10, &[call, call]));
            let buffer = Arc::new(chain(&children));
            let file = parent.containing_file();
            let mut sections = Vec::new();
            let mut next = FfsSection::new_in_extraction_buffer(&file, 0, buffer).ok();
            while let Some(section) = next {
                next = section.next_section();
                sections.push(section);
            }
            sections
        }
    }
    let bytes = volume_of_sections(&[section(0x01, &[0, 0, 0, 0, 0]), section(0x15, &[2, 0])]);
    let fv = FirmwareVolume::new(&bytes).unwrap();
    let file = fv.first_ffs_file().unwrap();
    let extractor = Nesting { calls: AtomicUsize::new(0) };
    let sections = collect(file.ffs_sections_with_extractor(&extractor));
    let shape: Vec<(u8, Vec<u8>)> = sections
        .iter()
        .map(|section| (section.section_type_raw(), section.section_data().to_vec()))
        .collect();
    assert_eq!(
        shape,
        vec![
            (0x01, vec![]),
            (0x19, vec![0]),
            (0x01, vec![]),
            (0x19, vec![1]),
            (0x01, vec![]),
            (0x19, vec![2]),
            (0x10, vec![2, 2]),
            (0x10, vec![1, 1]),
            (0x10, vec![0, 0]),
            (0x15, vec![2, 0]),
        ]
    );
}

#[test]
fn walk_in_two_halves() {
    let bytes = volume_of_sections(&[section(0x01, &[0, 0, 0, 0, 0]), section(0x15, &[2, 0])]);
    let fv = FirmwareVolume::new(&bytes).unwrap();
    let file = fv.first_ffs_file().unwrap();
    let mut walk = FfsSectionIterator::new(file.first_ffs_section());
    let first = walk.advance().unwrap();
    assert_eq!(first.section_type_raw(), 0x01);
    let buffer = Arc::new(chain(&[section(0x19, &[1]), section(0x19, &[2]), section(0x19, &[3])]));
    let one = FfsSection::new_in_extraction_buffer(&file, 0, buffer.clone()).unwrap();
    let two = FfsSection::new_in_extraction_buffer(&file, 8, buffer.clone()).unwrap();
    let three = FfsSection::new_in_extraction_buffer(&file, 16, buffer).unwrap();
    walk.push_extracted(vec![two, three]);
    walk.push_extracted(vec![one]);
    walk.push_extracted(vec![]);
    let rest: Vec<Vec<u8>> = collect(walk).iter().map(|s| s.section_data().to_vec()).collect();
    assert_eq!(rest, vec![vec![1], vec![2], vec![3], vec![2, 0]]);
    let mut empty = FfsSectionIterator::new(None);
    assert!(empty.advance().is_none());
    assert!(empty.next().is_none());
    let extractor = BrotliSectionExtractor::new(1);
    let mut empty = FfsSectionIterator::new_with_extractor(None, &extractor);
    assert!(empty.next().is_none());
    // a walk made with an extractor, or with none
    let packed = collect(FfsSectionIterator::with_extractor(file.first_ffs_section(), None));
    assert_eq!(summary(&packed), vec![(24, 0x01, 9), (36, 0x15, 6)]);
    let counting = FixedExtractor { children: chain(&[section(0x19, &[7])]), calls: AtomicUsize::new(0) };
    let unpacked =
        collect(FfsSectionIterator::with_extractor(file.first_ffs_section(), Some(&counting)));
    assert_eq!(summary(&unpacked), vec![(24, 0x01, 9), (0, 0x19, 5), (36, 0x15, 6)]);
    assert_eq!(counting.calls.load(Ordering::SeqCst), 1);
}

#[test]
fn extractor_is_not_asked_for_leaves() {
    let extractor = FixedExtractor { children: Vec::new(), calls: AtomicUsize::new(0) };
    let bytes = volume_of_sections(&[
        section(0x10, &[1]),
        section(0x03, &[2, 3]),
        section(0x15, &[4, 0]),
        section(0x19, &[5, 6, 7]),
    ]);
    let fv = FirmwareVolume::new(&bytes).unwrap();
    let file = fv.first_ffs_file().unwrap();
    let with = collect(file.ffs_sections_with_extractor(&extractor));
    let without = collect(file.ffs_sections());
    assert_eq!(summary(&with), summary(&without));
    assert_eq!(summary(&with), vec![(24, 0x10, 5), (32, 0x03, 6), (40, 0x15, 6), (48, 0x19, 7)]);
    for (a, b) in with.iter().zip(without.iter()) {
        assert_eq!(a.section_data(), b.section_data());
        assert_eq!(a.section_type(), b.section_type());
    }
    assert_eq!(extractor.calls.load(Ordering::SeqCst), 0);
}
