//! 7-bit-safe multi-byte integer encodings used by the wire format, with
//! their round-trip lemmas.

use vstd::prelude::*;

verus! {

/// A 14-bit value split as `(high 7 bits, low 7 bits)`, each half truncated
/// to a byte.
pub open spec fn spec_encode_preset_number(n: u32) -> (u8, u8) {
    (((n >> 7) as u8), ((n & 0x7f) as u8))
}

/// High and low 7-bit halves of a 14-bit value: `(n >> 7, n & 0x7F)`.
pub(crate) fn encode_preset_number(n: u32) -> (r: (u8, u8))
    ensures
        r == spec_encode_preset_number(n),
{
    (#[verifier::truncate] ((n >> 7) as u8), ((n & 0x7f) as u8))
}

/// The 14-bit value carried by a `(high, low)` pair of 7-bit bytes.
pub open spec fn spec_decode_preset_number(lsb: u8, rsb: u8) -> u32 {
    (((lsb as u32) & 0x7f) << 7) | (rsb as u32)
}

/// Joins the `(high, low)` halves produced by `encode_preset_number`.
pub(crate) fn decode_preset_number(lsb: u8, rsb: u8) -> (r: u32)
    ensures
        r == spec_decode_preset_number(lsb, rsb),
{
    (((lsb as u32) & 0x7f) << 7) | (rsb as u32)
}

/// An effect id split low 7 bits first, then the high bit.
pub open spec fn spec_encode_effect_id(id: u8) -> (u8, u8) {
    ((id & 0x7f), ((id >> 7) & 0x7f))
}

/// Splits an effect id into two 7-bit-safe bytes, low bits first.
pub(crate) fn encode_effect_id(id: u8) -> (r: (u8, u8))
    ensures
        r == spec_encode_effect_id(id),
{
    ((id & 0x7f), ((id >> 7) & 0x7f))
}

/// The value carried by a `(low, high)` pair of 7-bit bytes.
pub open spec fn spec_decode_effect_id(a: u8, b: u8) -> u32 {
    ((a as u32) & 0x7f) | (((b as u32) & 0x7f) << 7)
}

/// Joins a `(low, high)` pair of 7-bit bytes into a value.
pub(crate) fn decode_effect_id(a: &u8, b: &u8) -> (r: u32)
    ensures
        r == spec_decode_effect_id(*a, *b),
{
    ((*a as u32) & 0x7f) | (((*b as u32) & 0x7f) << 7)
}

/// The effect id packed into bytes 3 and 4 of a block-flags record: four
/// bits from the first byte, four from the second.
pub open spec fn spec_decode_blocks_flags_effect_id(a: u8, b: u8) -> u32 {
    ((((a as u32) & 0x78) >> 3) + (((b as u32) & 0x0f) << 4)) as u32
}

/// Decodes the effect id of a block-flags record from its last two bytes.
pub(crate) fn decode_blocks_flags_effect_id(a: &u8, b: &u8) -> (r: u32)
    ensures
        r == spec_decode_blocks_flags_effect_id(*a, *b),
{
    let a = *a;
    let b = *b;
    assert((((a as u32) & 0x78) >> 3) + (((b as u32) & 0x0f) << 4) < 0x100) by (bit_vector);
    (((a as u32) & 0x78) >> 3) + (((b as u32) & 0x0f) << 4)
}

/// A 21-bit parameter value spread low/mid/high over three 7-bit bytes.
pub open spec fn spec_decode_parameter_value(a: u8, b: u8, c: u8) -> u32 {
    ((a as u32) & 0x7f) | (((b as u32) & 0x7f) << 7) | (((c as u32) & 0x7f) << 14)
}

/// Joins the three 7-bit bytes of a parameter value, low bits first.
pub(crate) fn decode_parameter_value(a: u8, b: u8, c: u8) -> (r: u32)
    ensures
        r == spec_decode_parameter_value(a, b, c),
{
    ((a as u32) & 0x7f) | (((b as u32) & 0x7f) << 7) | (((c as u32) & 0x7f) << 14)
}

/// Round trip of the 14-bit preset-number encoding: decoding the two bytes
/// of an encoded value reproduces the value, for every 14-bit value.
pub proof fn lemma_preset_number_round_trip(n: u32)
    requires
        n < 0x4000,
    ensures
        spec_decode_preset_number(
            spec_encode_preset_number(n).0,
            spec_encode_preset_number(n).1,
        ) == n,
{
    assert(((((n >> 7) as u8) as u32 & 0x7f) << 7) | (((n & 0x7f) as u8) as u32) == n)
        by (bit_vector)
        requires
            n < 0x4000,
    ;
}

/// Round trip of the effect-id encoding: joining the two bytes of a split
/// effect id reproduces the id, for every byte-sized id.
pub proof fn lemma_effect_id_round_trip(id: u8)
    ensures
        spec_decode_effect_id(spec_encode_effect_id(id).0, spec_encode_effect_id(id).1)
            == id as u32,
{
    assert((((id & 0x7f) as u32) & 0x7f) | (((((id >> 7) & 0x7f) as u32) & 0x7f) << 7)
        == id as u32) by (bit_vector);
}

/// Round trip of the swapped 14-bit encoding used for the tempo: sending the
/// low half first and joining low-first reproduces the value.
pub proof fn lemma_tempo_round_trip(n: u32)
    requires
        n < 0x4000,
    ensures
        spec_decode_effect_id(
            spec_encode_preset_number(n).1,
            spec_encode_preset_number(n).0,
        ) == n,
{
    assert(((((n & 0x7f) as u8) as u32) & 0x7f) | (((((n >> 7) as u8) as u32) & 0x7f) << 7) == n)
        by (bit_vector)
        requires
            n < 0x4000,
    ;
}

} // verus!
