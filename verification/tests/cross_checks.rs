use mu_pi::boot_mode::Mode;
use mu_pi::efi::Guid;
use mu_pi::fw_fs::ffs::brotli::brotli_section_guid;
use mu_pi::fw_fs::ffs::guid::{efi_firmware_file_system2_guid, efi_firmware_file_system3_guid};
use mu_pi::serializable::format_guid;
use mu_pi::serializable::hex_format::{to_hex, FromStrRadix};
use r_efi::efi;
use uuid::Uuid;

const FIELDS: [(u32, u16, u16, u8, u8, [u8; 6]); 5] = [
    (0, 0, 0, 0, 0, [0; 6]),
    (1, 2, 3, 4, 5, [6, 7, 8, 9, 10, 11]),
    (0x8c8ce578, 0x8a3d, 0x4f1c, 0x99, 0x35, [0x89, 0x61, 0x85, 0xc3, 0x2d, 0xd3]),
    (0x3D532050, 0x5CDA, 0x4FD0, 0x87, 0x9E, [0x0F, 0x7F, 0x63, 0x0D, 0x5A, 0xFB]),
    (u32::MAX, u16::MAX, 0x8000, 0xff, 0x80, [0xff, 0, 0x7f, 0x80, 1, 0xfe]),
];

#[test]
fn guid_fields_agree_with_r_efi() {
    for (a, b, c, d, e, node) in FIELDS {
        let ours = Guid::from_fields(a, b, c, d, e, &node);
        let theirs = efi::Guid::from_fields(a, b, c, d, e, &node);
        assert_eq!(ours.as_bytes(), theirs.as_bytes());
        let fields = theirs.as_fields();
        assert_eq!(
            ours.as_fields(),
            (fields.0, fields.1, fields.2, fields.3, fields.4, *fields.5)
        );
        assert_eq!(Guid::from_bytes(theirs.as_bytes()), ours);
    }
}

#[test]
fn named_guids_agree_with_their_fields() {
    assert_eq!(
        efi_firmware_file_system2_guid().as_bytes(),
        efi::Guid::from_fields(0x8c8ce578, 0x8a3d, 0x4f1c, 0x99, 0x35, &[0x89, 0x61, 0x85, 0xc3, 0x2d, 0xd3])
            .as_bytes()
    );
    assert_eq!(
        efi_firmware_file_system3_guid().as_bytes(),
        efi::Guid::from_fields(0x5473c07a, 0x3dcb, 0x4dca, 0xbd, 0x6f, &[0x1e, 0x96, 0x89, 0xe7, 0x34, 0x9a])
            .as_bytes()
    );
    assert_eq!(
        brotli_section_guid().as_bytes(),
        efi::Guid::from_fields(0x3D532050, 0x5CDA, 0x4FD0, 0x87, 0x9E, &[0x0F, 0x7F, 0x63, 0x0D, 0x5A, 0xFB])
            .as_bytes()
    );
}

#[test]
fn guid_text_agrees_with_uuid_and_with_formatting_the_fields() {
    for (a, b, c, d, e, node) in FIELDS {
        let guid = Guid::from_fields(a, b, c, d, e, &node);
        let text = format_guid(guid);
        assert_eq!(text, Uuid::from_bytes_le(*guid.as_bytes()).to_string());
        assert_eq!(
            text,
            format!(
                "{:08x}-{:04x}-{:04x}-{:02x}{:02x}-{:02x}{:02x}{:02x}{:02x}{:02x}{:02x}",
                a, b, c, d, e, node[0], node[1], node[2], node[3], node[4], node[5]
            )
        );
    }
}

#[test]
fn hex_text_agrees_with_formatting() {
    for value in [0u64, 1, 9, 10, 15, 16, 255, 256, 0x1a2b3c, 0xdead_beef, u64::MAX / 3, u64::MAX] {
        assert_eq!(to_hex(value), format!("0x{:x}", value));
        assert_eq!(u64::from_str_radix_16(&format!("{:x}", value)), Ok(value));
        assert_eq!(u64::from_str_radix_16(&format!("{:X}", value)), Ok(value));
    }
    for value in 0u16..=0x1ff {
        let text = format!("{:x}", value);
        assert_eq!(u8::from_str_radix_16(&text).ok(), u8::try_from(value).ok());
        assert_eq!(u16::from_str_radix_16(&text), Ok(value));
    }
}

#[test]
fn boot_mode_text_agrees_with_formatting() {
    for raw in 0u32..0x30 {
        if let Ok(mode) = Mode::try_from(raw) {
            assert_eq!(mode.raw(), raw);
            assert_eq!(mode.to_string(), format!("{} ({:#x?})", mode.name(), raw));
        }
    }
}
