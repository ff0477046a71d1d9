//! What the header checksum and the block map's terminator protect.

use crate::fw_fs::bytes::u16_le;
use crate::fw_fs::fv::{
    block_map_holds, block_map_slots, checksum_holds, header_length, slot_is_zero, valid_volume,
    word_sum,
};
use vstd::prelude::*;

verus! {

/// The weight of byte `i` in the 16-bit word that holds it.
pub open spec fn byte_weight(i: int) -> int {
    if i % 2 == 0 {
        1
    } else {
        256
    }
}

/// A change behind the summed words leaves the sum as it was.
pub proof fn lemma_word_sum_ignores_tail(s: Seq<u8>, i: int, byte: u8, words: nat)
    requires
        2 * words <= i < s.len(),
    ensures
        word_sum(s.update(i, byte), words) == word_sum(s, words),
    decreases words,
{
    if words > 0 {
        lemma_word_sum_ignores_tail(s, i, byte, (words - 1) as nat);
    }
}

/// A change of one summed byte moves the sum by the difference of the
/// bytes, times the byte's weight in its word.
pub proof fn lemma_word_sum_update(s: Seq<u8>, i: int, byte: u8, words: nat)
    requires
        0 <= i < 2 * words <= s.len(),
    ensures
        word_sum(s.update(i, byte), words) == word_sum(s, words) + (byte - s[i]) * byte_weight(i),
    decreases words,
{
    let t = s.update(i, byte);
    let last = 2 * (words - 1);
    if i < last {
        lemma_word_sum_update(s, i, byte, (words - 1) as nat);
        assert(u16_le(t, last) == u16_le(s, last));
    } else {
        lemma_word_sum_ignores_tail(s, i, byte, (words - 1) as nat);
        if i == last {
            assert(u16_le(t, last) == u16_le(s, last) + (byte - s[i]));
        } else {
            assert(u16_le(t, last) == u16_le(s, last) + 256 * (byte - s[i]));
        }
    }
}

/// A change of a summed byte that leaves the header's length as it was
/// breaks the checksum.
pub proof fn lemma_byte_change_breaks_checksum(s: Seq<u8>, i: int, byte: u8)
    requires
        56 <= header_length(s) <= s.len(),
        header_length(s) % 2 == 0,
        0 <= i < header_length(s),
        i != 48,
        i != 49,
        byte != s[i],
        checksum_holds(s),
    ensures
        !checksum_holds(s.update(i, byte)),
{
    let t = s.update(i, byte);
    let words = (header_length(s) / 2) as nat;
    assert(header_length(t) == header_length(s));
    lemma_word_sum_update(s, i, byte, words);
    let delta = (byte - s[i]) * byte_weight(i);
    assert(delta != 0 && -65536 < delta < 65536);
    assert(word_sum(t, words) == word_sum(s, words) + delta);
    assert(word_sum(t, words) % 65536 != 0);
}

/// Two buffers that agree behind the fixed header and declare different
/// header lengths cannot both hold a well-formed block map: the terminator
/// of the shorter map is an inner entry of the longer one.
pub proof fn lemma_length_change_breaks_block_map(s: Seq<u8>, t: Seq<u8>)
    requires
        s.len() == t.len(),
        forall|k: int| 56 <= k < s.len() ==> s[k] == t[k],
        56 <= header_length(s) <= s.len(),
        56 <= header_length(t) <= t.len(),
        header_length(s) != header_length(t),
        block_map_holds(s),
    ensures
        !block_map_holds(t),
{
    if block_map_holds(t) {
        let n = block_map_slots(s);
        let m = block_map_slots(t);
        assert(header_length(s) == 56 + 8 * n);
        assert(header_length(t) == 56 + 8 * m);
        if m > n {
            assert(slot_is_zero(s, n - 1));
            assert(slot_is_zero(t, n - 1) == slot_is_zero(s, n - 1));
            assert(!slot_is_zero(t, n - 1));
        } else {
            assert(slot_is_zero(t, m - 1));
            assert(slot_is_zero(t, m - 1) == slot_is_zero(s, m - 1));
            assert(!slot_is_zero(s, m - 1));
        }
    }
}

/// For every valid volume the header's 16-bit words add up to zero modulo
/// 65536, and changing any single byte of the header, the block map
/// included, makes the buffer invalid.
pub proof fn lemma_header_byte_change_invalidates(s: Seq<u8>, i: int, byte: u8)
    requires
        valid_volume(s),
        0 <= i < header_length(s),
        byte != s[i],
    ensures
        word_sum(s, (header_length(s) / 2) as nat) % 65536 == 0,
        !valid_volume(s.update(i, byte)),
{
    let t = s.update(i, byte);
    if i == 48 || i == 49 {
        assert(header_length(t) != header_length(s));
        if 56 <= header_length(t) <= t.len() {
            lemma_length_change_breaks_block_map(s, t);
        }
    } else {
        lemma_byte_change_breaks_checksum(s, i, byte);
    }
}

} // verus!
