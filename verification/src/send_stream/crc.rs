//! The checksum that protects each command of a send stream.
use vstd::prelude::*;

verus! {

/// The reflected CRC-32C (Castagnoli) polynomial.
pub const CRC32C_POLY: u32 = 0x82F6_3B78;

/// One bit of a reflected CRC-32C register: shift it right, folding in the polynomial when the
/// bit shifted out is set.
pub open spec fn crc32c_shift(c: u32) -> u32 {
    if c & 1 == 1 {
        (c >> 1u32) ^ CRC32C_POLY
    } else {
        c >> 1u32
    }
}

/// The register after the eight bits of one byte.
pub open spec fn crc32c_byte(c: u32) -> u32 {
    let c1 = crc32c_shift(c);
    let c2 = crc32c_shift(c1);
    let c3 = crc32c_shift(c2);
    let c4 = crc32c_shift(c3);
    let c5 = crc32c_shift(c4);
    let c6 = crc32c_shift(c5);
    let c7 = crc32c_shift(c6);
    crc32c_shift(c7)
}

/// The register `state` after the bytes of `data`, each folded in from the low bit up.
pub open spec fn crc32c_update(state: u32, data: Seq<u8>) -> u32
    decreases data.len(),
{
    if data.len() == 0 {
        state
    } else {
        crc32c_update(crc32c_byte(state ^ (data[0] as u32)), data.drop_first())
    }
}

/// What `crc32c::crc32c_append(crc, data)` returns: the CRC-32C of `data` continuing from the
/// previous value `crc`, which the register holds inverted.
pub open spec fn crc32c_append_spec(crc: u32, data: Seq<u8>) -> u32 {
    !crc32c_update(!crc, data)
}

/// Calls `crc32c::crc32c_append`.
///
/// The contract claims that it computes the CRC-32C of `data` from `crc`, as its documentation
/// and its polynomial define.
#[verifier::external_body]
fn crc32c_append(crc: u32, data: &[u8]) -> (r: u32)
    ensures
        r == crc32c_append_spec(crc, data@),
{
    crc32c::crc32c_append(crc, data)
}

/// The checksum of a send command: the CRC-32C of its bytes with a zero seed and no final
/// inversion.
pub open spec fn send_checksum(data: Seq<u8>) -> u32 {
    !crc32c_append_spec(u32::MAX, data)
}

/// Computes [`send_checksum`] of `data`.
pub fn checksum(data: &[u8]) -> (r: u32)
    ensures
        r == send_checksum(data@),
{
    !crc32c_append(u32::MAX, data)
}

/// The send checksum is the register of CRC-32C started at zero and not inverted at the end, so
/// that it checks "123456789" to 0x58E3FA20.
pub proof fn lemma_send_checksum_check_value()
    ensures
        send_checksum(seq![0x31u8, 0x32, 0x33, 0x34, 0x35, 0x36, 0x37, 0x38, 0x39]) == 0x58E3_FA20u32,
{
    let d = seq![0x31u8, 0x32, 0x33, 0x34, 0x35, 0x36, 0x37, 0x38, 0x39];
    assert(crc32c_byte(0x00000000u32 ^ 0x31u32) == 0xC288CAB2u32) by (bit_vector);
    assert(crc32c_byte(0xC288CAB2u32 ^ 0x32u32) == 0x8234B3B2u32) by (bit_vector);
    assert(crc32c_byte(0x8234B3B2u32 ^ 0x33u32) == 0x701F8CC8u32) by (bit_vector);
    assert(crc32c_byte(0x701F8CC8u32 ^ 0x34u32) == 0xBE5DBF29u32) by (bit_vector);
    assert(crc32c_byte(0xBE5DBF29u32 ^ 0x35u32) == 0x5DA35500u32) by (bit_vector);
    assert(crc32c_byte(0x5DA35500u32 ^ 0x36u32) == 0x161F0D0Cu32) by (bit_vector);
    assert(crc32c_byte(0x161F0D0Cu32 ^ 0x37u32) == 0xA97CFD87u32) by (bit_vector);
    assert(crc32c_byte(0xA97CFD87u32 ^ 0x38u32) == 0xECAF3210u32) by (bit_vector);
    assert(crc32c_byte(0xECAF3210u32 ^ 0x39u32) == 0x58E3FA20u32) by (bit_vector);
    reveal_with_fuel(crc32c_update, 10);
    assert(d.drop_first() =~= seq![0x32u8, 0x33, 0x34, 0x35, 0x36, 0x37, 0x38, 0x39]);
    assert(!(u32::MAX) == 0u32) by (bit_vector);
    assert(!!0x58E3_FA20u32 == 0x58E3_FA20u32) by (bit_vector);
}

} // verus!
