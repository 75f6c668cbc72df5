//! Frame envelope: checksum computation and SysEx frame wrapping.
//!
//! Every outbound frame is `[0xF0, 0x00, 0x01, 0x74, <model>, <opcode>,
//! ...payload..., <checksum>, 0xF7]`, where the checksum is the XOR of all
//! bytes before it, masked to 7 bits.

use crate::MidiMessage;
use vstd::prelude::*;

verus! {

/// XOR of all bytes of `s`.
pub open spec fn xor_fold(s: Seq<u8>) -> u8
    decreases s.len(),
{
    if s.len() == 0 {
        0u8
    } else {
        xor_fold(s.drop_last()) ^ s.last()
    }
}

/// Checksum of a frame: XOR of every byte except the final one (the
/// terminator), masked to 7 bits.
pub open spec fn spec_checksum(frame: Seq<u8>) -> u8 {
    xor_fold(frame.drop_last()) & 0x7f
}

/// The frame with its checksum inserted before the terminator:
/// all bytes but the last, then the checksum, then the last byte unchanged.
pub open spec fn spec_with_checksum(frame: Seq<u8>) -> Seq<u8> {
    frame.drop_last() + seq![spec_checksum(frame), frame.last()]
}

/// The fixed four-byte manufacturer header that starts every SysEx frame.
pub open spec fn spec_header() -> Seq<u8> {
    seq![0xf0u8, 0x00u8, 0x01u8, 0x74u8]
}

/// A complete outbound frame for `payload` (model code, opcode and data
/// bytes): header, payload, checksum, terminator.
pub open spec fn spec_wrap(payload: Seq<u8>) -> Seq<u8> {
    spec_with_checksum(spec_header() + payload + seq![0xf7u8])
}

/// XOR of all bytes of `v`.
fn xor_all(v: &[u8]) -> (r: u8)
    ensures
        r == xor_fold(v@),
{
    let mut acc: u8 = 0;
    let mut i: usize = 0;
    while i < v.len()
        invariant
            i <= v.len(),
            acc == xor_fold(v@.take(i as int)),
        decreases v.len() - i,
    {
        assert(v@.take(i + 1 as int).drop_last() =~= v@.take(i as int));
        assert(v@.take(i + 1 as int).last() == v@[i as int]);
        acc = acc ^ v[i];
        i = i + 1;
    }
    assert(v@.take(v@.len() as int) =~= v@);
    acc
}

/// Checksum of `msg`: XOR of every byte except the last, masked to 7 bits.
/// A frame must have at least two bytes (one data byte and the terminator).
pub fn checksum(msg: MidiMessage) -> (r: u8)
    requires
        msg@.len() >= 2,
    ensures
        r == spec_checksum(msg@),
{
    let end = msg.len() - 1;
    let mut acc: u8 = 0;
    let mut i: usize = 0;
    while i < end
        invariant
            end == msg@.len() - 1,
            i <= end,
            acc == xor_fold(msg@.take(i as int)),
        decreases end - i,
    {
        assert(msg@.take(i + 1 as int).drop_last() =~= msg@.take(i as int));
        assert(msg@.take(i + 1 as int).last() == msg@[i as int]);
        acc = acc ^ msg[i];
        i = i + 1;
    }
    assert(msg@.take(end as int) =~= msg@.drop_last());
    acc & 0x7f
}

/// Inserts the checksum before the terminator: every byte of `msg` but the
/// last, then the checksum of `msg`, then the terminator unchanged.
pub fn with_checksum(msg: MidiMessage) -> (r: MidiMessage)
    requires
        msg@.len() >= 2,
    ensures
        r@ == spec_with_checksum(msg@),
{
    let ghost orig = msg@;
    let mut r = msg;
    let term = match r.pop() {
        Some(b) => b,
        None => 0,
    };
    let c = xor_all(r.as_slice()) & 0x7f;
    assert(r@ =~= orig.drop_last());
    r.push(c);
    r.push(term);
    assert(r@ =~= spec_with_checksum(orig));
    r
}

/// Wraps `payload` (model code, opcode and data bytes) into a complete
/// frame: header, payload, checksum, terminator.
pub(crate) fn wrap_msg(msg: MidiMessage) -> (r: MidiMessage)
    ensures
        r@ == spec_wrap(msg@),
{
    let mut framed: Vec<u8> = Vec::new();
    framed.push(0xf0);
    framed.push(0x00);
    framed.push(0x01);
    framed.push(0x74);
    let mut i: usize = 0;
    while i < msg.len()
        invariant
            i <= msg@.len(),
            framed@ == spec_header() + msg@.take(i as int),
        decreases msg@.len() - i,
    {
        framed.push(msg[i]);
        assert(spec_header() + msg@.take(i + 1) =~= (spec_header() + msg@.take(i as int)).push(
            msg@[i as int],
        ));
        i = i + 1;
    }
    assert(msg@.take(msg@.len() as int) =~= msg@);
    framed.push(0xf7);
    assert(framed@ =~= spec_header() + msg@ + seq![0xf7u8]);
    with_checksum(framed)
}

/// Helper: XOR over a sequence extended by one byte.
proof fn lemma_xor_fold_push(s: Seq<u8>, b: u8)
    ensures
        xor_fold(s.push(b)) == xor_fold(s) ^ b,
{
    assert(s.push(b).drop_last() =~= s);
    assert(s.push(b).last() == b);
}

/// Checksum invariant of wrapped frames: recomputing the checksum over the
/// frame with its checksum byte zeroed reproduces the stored checksum byte.
#[verifier::rlimit(10)]
pub proof fn lemma_wrap_checksum_invariant(payload: Seq<u8>)
    ensures
        spec_checksum(spec_wrap(payload).update(spec_wrap(payload).len() - 2, 0u8)) == spec_wrap(
            payload,
        )[spec_wrap(payload).len() - 2],
{
    let body = spec_header() + payload;
    let framed = body + seq![0xf7u8];
    let frame = spec_wrap(payload);
    let n = frame.len();
    assert(framed.drop_last() =~= body);
    let c = spec_checksum(framed);
    assert(c == xor_fold(body) & 0x7f);
    assert(frame =~= body + seq![c, 0xf7u8]);
    assert(frame[n - 2] == c);
    let zeroed = frame.update(n - 2, 0u8);
    assert(zeroed.drop_last() =~= body.push(0u8));
    lemma_xor_fold_push(body, 0u8);
    let x = xor_fold(body);
    assert(x ^ 0u8 == x) by (bit_vector);
    assert(spec_checksum(zeroed) == x & 0x7f);
}

} // verus!
