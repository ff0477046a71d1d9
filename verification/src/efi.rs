//! Base types shared by the firmware storage code: GUIDs and the error value.

use vstd::prelude::*;
use vstd::std_specs::cmp::PartialEqSpecImpl;

verus! {

/// The reason a constructor or a lookup gives for refusing its input.
#[derive(Debug, Clone, Copy, PartialEq, Eq, Structural)]
pub enum Error {
    /// The input violates a structural rule of the format.
    InvalidParameter,
}

/// A 128-bit globally unique identifier in its binary form.
///
/// The first three fields are stored little-endian, the remaining eight bytes
/// in the order in which they are written.
#[derive(Debug, Clone, Copy, Eq, Hash)]
pub struct Guid {
    pub bytes: [u8; 16],
}

/// The sixteen bytes that encode a GUID given by its fields.
pub open spec fn guid_bytes_of_fields(
    time_low: u32,
    time_mid: u16,
    time_hi_and_version: u16,
    clk_seq_hi_res: u8,
    clk_seq_low: u8,
    node: Seq<u8>,
) -> Seq<u8> {
    seq![
        (time_low % 256) as u8,
        (time_low / 256 % 256) as u8,
        (time_low / 65536 % 256) as u8,
        (time_low / 16777216) as u8,
        (time_mid % 256) as u8,
        (time_mid / 256) as u8,
        (time_hi_and_version % 256) as u8,
        (time_hi_and_version / 256) as u8,
        clk_seq_hi_res,
        clk_seq_low,
        node[0],
        node[1],
        node[2],
        node[3],
        node[4],
        node[5],
    ]
}

/// The base-256 digits of a little-endian number are its bytes.
proof fn lemma_le_digits(b0: u8, b1: u8, b2: u8, b3: u8)
    ensures
        ({
            let x = b0 + 256 * b1 + 65536 * b2 + 16777216 * b3;
            &&& x % 256 == b0
            &&& x / 256 % 256 == b1
            &&& x / 256 == b1 + 256 * b2 + 65536 * b3
            &&& x / 65536 % 256 == b2
            &&& x / 16777216 == b3
        }),
{
}

impl View for Guid {
    type V = Seq<u8>;

    open spec fn view(&self) -> Seq<u8> {
        self.bytes@
    }
}

impl Guid {
    /// Builds a GUID from the fields as they are written in text form.
    pub fn from_fields(
        time_low: u32,
        time_mid: u16,
        time_hi_and_version: u16,
        clk_seq_hi_res: u8,
        clk_seq_low: u8,
        node: &[u8; 6],
    ) -> (guid: Guid)
        ensures
            guid@ == guid_bytes_of_fields(
                time_low,
                time_mid,
                time_hi_and_version,
                clk_seq_hi_res,
                clk_seq_low,
                node@,
            ),
    {
        let guid = Guid {
            bytes: [
                (time_low % 256) as u8,
                (time_low / 256 % 256) as u8,
                (time_low / 65536 % 256) as u8,
                (time_low / 16777216) as u8,
                (time_mid % 256) as u8,
                (time_mid / 256) as u8,
                (time_hi_and_version % 256) as u8,
                (time_hi_and_version / 256) as u8,
                clk_seq_hi_res,
                clk_seq_low,
                node[0],
                node[1],
                node[2],
                node[3],
                node[4],
                node[5],
            ],
        };
        assert(guid@ =~= guid_bytes_of_fields(
            time_low,
            time_mid,
            time_hi_and_version,
            clk_seq_hi_res,
            clk_seq_low,
            node@,
        ));
        guid
    }

    /// Splits a GUID into its fields; the inverse of [`Guid::from_fields`].
    pub fn as_fields(&self) -> (fields: (u32, u16, u16, u8, u8, [u8; 6]))
        ensures
            fields.0 == self@[0] + 256 * self@[1] + 65536 * self@[2] + 16777216 * self@[3],
            fields.1 == self@[4] + 256 * self@[5],
            fields.2 == self@[6] + 256 * self@[7],
            fields.3 == self@[8],
            fields.4 == self@[9],
            fields.5@ == self@.subrange(10, 16),
            guid_bytes_of_fields(fields.0, fields.1, fields.2, fields.3, fields.4, fields.5@)
                == self@,
    {
        let b = &self.bytes;
        let time_low: u32 = b[0] as u32 + 256 * (b[1] as u32) + 65536 * (b[2] as u32) + 16777216
            * (b[3] as u32);
        let time_mid: u16 = b[4] as u16 + 256 * (b[5] as u16);
        let time_hi_and_version: u16 = b[6] as u16 + 256 * (b[7] as u16);
        let node: [u8; 6] = [b[10], b[11], b[12], b[13], b[14], b[15]];
        assert(node@ =~= self@.subrange(10, 16));
        proof {
            lemma_le_digits(b[0], b[1], b[2], b[3]);
            lemma_le_digits(b[4], b[5], 0, 0);
            lemma_le_digits(b[6], b[7], 0, 0);
        }
        assert(guid_bytes_of_fields(time_low, time_mid, time_hi_and_version, b[8], b[9], node@)
            =~= self@);
        (time_low, time_mid, time_hi_and_version, b[8], b[9], node)
    }

    /// Takes sixteen bytes as a GUID, unchanged.
    pub fn from_bytes(bytes: &[u8; 16]) -> (guid: Guid)
        ensures
            guid@ == bytes@,
    {
        Guid { bytes: *bytes }
    }

    /// The sixteen bytes of the GUID.
    pub fn as_bytes(&self) -> (bytes: &[u8; 16])
        ensures
            bytes@ == self@,
    {
        &self.bytes
    }
}

impl PartialEq for Guid {
    fn eq(&self, other: &Self) -> (equal: bool) {
        let mut i: usize = 0;
        while i < 16
            invariant
                i <= 16,
                forall|j: int| 0 <= j < i ==> self.bytes[j] == other.bytes[j],
            decreases 16 - i,
        {
            if self.bytes[i] != other.bytes[i] {
                assert(self.bytes@[i as int] != other.bytes@[i as int]);
                return false;
            }
            i += 1;
        }
        assert(self.bytes@ =~= other.bytes@);
        true
    }
}

impl PartialEqSpecImpl for Guid {
    open spec fn obeys_eq_spec() -> bool {
        true
    }

    open spec fn eq_spec(&self, other: &Self) -> bool {
        self@ == other@
    }
}

} // verus!
