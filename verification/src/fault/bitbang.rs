use vstd::prelude::*;

use super::bits::bit_of;

verus! {

/// Line levels of one 8N1 frame: a low start bit, the eight data bits least
/// significant first (high for a one), a high stop bit.
pub open spec fn frame_levels_spec(byte: u8) -> Seq<bool> {
    Seq::new(10, |i: int| if i == 0 { false } else if i == 9 { true } else { bit_of(byte, (i - 1) as u8) == 1 })
}

/// Line levels to drive, one per bit period, to send `byte` as an 8N1 frame.
pub fn frame_levels(byte: u8) -> (r: [bool; 10])
    ensures
        r@ == frame_levels_spec(byte),
{
    let r = [
        false,
        (byte >> 0u8) & 1 == 1,
        (byte >> 1u8) & 1 == 1,
        (byte >> 2u8) & 1 == 1,
        (byte >> 3u8) & 1 == 1,
        (byte >> 4u8) & 1 == 1,
        (byte >> 5u8) & 1 == 1,
        (byte >> 6u8) & 1 == 1,
        (byte >> 7u8) & 1 == 1,
        true,
    ];
    assert(r@ =~= frame_levels_spec(byte));
    r
}

/// The byte whose bit `i` is one exactly when `levels[i]` is high, for the
/// eight data-bit samples of a received frame, least significant first.
pub fn assemble_byte(levels: &[bool]) -> (r: u8)
    requires
        levels@.len() == 8,
    ensures
        forall|i: u8| i < 8 ==> #[trigger] bit_of(r, i) == (if levels@[i as int] { 1u8 } else { 0u8 }),
{
    let mut byte: u8 = 0;
    let mut i: u8 = 0;
    assert forall|j: u8| 0 <= j < 8 implies #[trigger] bit_of(0u8, j) == 0 by {
        assert(((0u8 >> j) & 1) == 0) by (bit_vector);
    }
    while i < 8
        invariant
            i <= 8,
            levels@.len() == 8,
            forall|j: u8| j < i ==> #[trigger] bit_of(byte, j) == (if levels@[j as int] { 1u8 } else { 0u8 }),
            forall|j: u8| i <= j < 8 ==> #[trigger] bit_of(byte, j) == 0,
        decreases 8 - i,
    {
        let old_byte = byte;
        if levels[i as usize] {
            byte = byte | (1u8 << i);
            assert forall|j: u8| j < 8 implies #[trigger] bit_of(byte, j) == (if j == i { 1u8 } else { bit_of(old_byte, j) }) by {
                assert(i < 8 && j < 8 && byte == (old_byte | (1u8 << i)) ==> ((byte >> j) & 1) == (if j == i { 1u8 } else { (old_byte >> j) & 1 })) by (bit_vector);
            }
        }
        i += 1;
    }
    byte
}

/// Two bytes with the same eight bits are equal.
pub proof fn lemma_bits_determine_byte(a: u8, b: u8)
    requires
        forall|i: u8| i < 8 ==> #[trigger] bit_of(a, i) == bit_of(b, i),
    ensures
        a == b,
{
    assert forall|i: u8| i < 8 implies ((a >> i) & 1) == ((b >> i) & 1) by {
        assert(bit_of(a, i) == bit_of(b, i));
    }
    assert((((a >> 0u8) & 1) == ((b >> 0u8) & 1) && ((a >> 1u8) & 1) == ((b >> 1u8) & 1) && ((a >> 2u8) & 1)
        == ((b >> 2u8) & 1) && ((a >> 3u8) & 1) == ((b >> 3u8) & 1) && ((a >> 4u8) & 1) == ((b >> 4u8) & 1)
        && ((a >> 5u8) & 1) == ((b >> 5u8) & 1) && ((a >> 6u8) & 1) == ((b >> 6u8) & 1) && ((a >> 7u8) & 1)
        == ((b >> 7u8) & 1)) ==> a == b) by (bit_vector);
}

/// Sampling the data bits of a transmitted frame gives the byte back.
pub proof fn lemma_frame_roundtrip(byte: u8, r: u8)
    requires
        forall|i: u8| i < 8 ==> #[trigger] bit_of(r, i) == (if frame_levels_spec(byte)[i + 1] { 1u8 } else { 0u8 }),
    ensures
        r == byte,
{
    assert forall|i: u8| i < 8 implies #[trigger] bit_of(r, i) == bit_of(byte, i) by {
        assert(((byte >> i) & 1) < 2) by (bit_vector);
        assert(frame_levels_spec(byte)[i + 1] == (bit_of(byte, i) == 1));
    }
    lemma_bits_determine_byte(r, byte);
}

/// Every 8N1 frame is ten bit periods long, opens with a low start bit and
/// closes with a high stop bit.
pub proof fn lemma_frame_start_stop(byte: u8)
    ensures
        frame_levels_spec(byte).len() == 10,
        !frame_levels_spec(byte)[0],
        frame_levels_spec(byte)[9],
{
}

} // verus!
