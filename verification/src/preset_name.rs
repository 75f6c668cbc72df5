//! Preset-name text codecs: ASCII filtering for the byte-per-character
//! generation, the non-byte-aligned 7-bit bit-packer of the newer
//! generation, and the inbound name window decoder.

use crate::MidiMessage;
use vstd::prelude::*;
use vstd::string::StrSliceExecFns;

verus! {

/// The ASCII characters of a name, in order, as bytes; characters outside
/// ASCII are dropped, never transcoded.
pub open spec fn spec_ascii_bytes(s: Seq<char>) -> Seq<u8>
    decreases s.len(),
{
    if s.len() == 0 {
        Seq::empty()
    } else {
        let rest = spec_ascii_bytes(s.drop_last());
        if (s.last() as u32) < 128 {
            rest.push(s.last() as u8)
        } else {
            rest
        }
    }
}

/// The ASCII characters of `name` as bytes, non-ASCII characters dropped.
pub(crate) fn ascii_bytes(name: &str) -> (r: Vec<u8>)
    ensures
        r@ == spec_ascii_bytes(name@),
{
    let n = name.unicode_len();
    let mut out: Vec<u8> = Vec::new();
    let mut i: usize = 0;
    while i < n
        invariant
            n == name@.len(),
            i <= n,
            out@ == spec_ascii_bytes(name@.take(i as int)),
        decreases n - i,
    {
        assert(name@.take(i + 1 as int).drop_last() =~= name@.take(i as int));
        assert(name@.take(i + 1 as int).last() == name@[i as int]);
        let c = name.get_char(i);
        if (c as u32) < 128 {
            out.push(#[verifier::truncate] (c as u8));
        }
        i = i + 1;
    }
    assert(name@.take(name@.len() as int) =~= name@);
    out
}

/// One character folded into the bit stream: the running last byte gains the
/// character's high bits, and the character's remaining bits start the next
/// byte. The third component is unused and always absent.
pub open spec fn spec_encode_char_iii(i: u32, last: u8, x: u8) -> (u8, u8, Option<u8>) {
    let p = (i % 7) as u32;
    (last | (x >> ((p + 1) as u32)), 0x7f & (x << ((8 - (p + 1) - 1) as u32)), None)
}

/// Folds one character into the bit stream at character index `i`:
/// returns the updated last byte and the new trailing byte.
pub fn encode_char_iii(i: u32, last: u8, x: u8) -> (r: (u8, u8, Option<u8>))
    ensures
        r == spec_encode_char_iii(i, last, x),
{
    let i = i % 7;
    (last | (x >> (i + 1)), 0x7f & (x << (8 - (i + 1) - 1)), None)
}

/// The packed form of a name's ASCII bytes: a continuous 7-bit-safe bit
/// stream, one fresh byte starting each 7-character group.
pub open spec fn spec_pack_name(bytes: Seq<u8>) -> Seq<u8>
    decreases bytes.len(),
{
    if bytes.len() == 0 {
        seq![0u8]
    } else {
        let prev = spec_pack_name(bytes.drop_last());
        let i = (bytes.len() - 1) as nat;
        let acc = if i % 7 == 0 && i > 0 {
            prev.push(0u8)
        } else {
            prev
        };
        let step = spec_encode_char_iii((i % 7) as u32, acc.last(), bytes.last());
        acc.update(acc.len() - 1, step.0).push(step.1)
    }
}

/// Packs the ASCII characters of `name` into the newer generation's
/// continuous 7-bit-safe bit stream. There is no terminator: the decoder
/// must know the character count from the enclosing frame.
pub fn encode_preset_name_iii(name: &str) -> (r: MidiMessage)
    ensures
        r@ == spec_pack_name(spec_ascii_bytes(name@)),
{
    let bytes = ascii_bytes(name);
    let mut acc: Vec<u8> = Vec::new();
    acc.push(0);
    assert(acc@ =~= spec_pack_name(bytes@.take(0)));
    let mut i: usize = 0;
    while i < bytes.len()
        invariant
            i <= bytes@.len(),
            acc@ == spec_pack_name(bytes@.take(i as int)),
            acc@.len() >= 1 + i,
        decreases bytes@.len() - i,
    {
        assert(bytes@.take(i + 1 as int).drop_last() =~= bytes@.take(i as int));
        assert(bytes@.take(i + 1 as int).last() == bytes@[i as int]);
        let x = bytes[i];
        if i % 7 == 0 && i > 0 {
            acc.push(0);
        }
        let last = acc[acc.len() - 1];
        let step = encode_char_iii((i % 7) as u32, last, x);
        let end = acc.len() - 1;
        acc.set(end, step.0);
        acc.push(step.1);
        i = i + 1;
    }
    assert(bytes@.take(bytes@.len() as int) =~= bytes@);
    acc
}

/// Whether a byte's character is trimmed from the end of a decoded name:
/// the whitespace characters among the 8-bit code points.
pub open spec fn spec_is_name_ws(b: u8) -> bool {
    b == 0x20 || (0x09 <= b && b <= 0x0d) || b == 0x85 || b == 0xa0
}

fn is_name_ws(b: u8) -> (r: bool)
    ensures
        r == spec_is_name_ws(b),
{
    b == 0x20 || (0x09 <= b && b <= 0x0d) || b == 0x85 || b == 0xa0
}

/// The bytes of `s` that are not zero, in order.
pub open spec fn spec_keep_nonzero(s: Seq<u8>) -> Seq<u8>
    decreases s.len(),
{
    if s.len() == 0 {
        Seq::empty()
    } else {
        let rest = spec_keep_nonzero(s.drop_last());
        if s.last() > 0 {
            rest.push(s.last())
        } else {
            rest
        }
    }
}

/// `s` without its trailing whitespace bytes.
pub open spec fn spec_trim_trailing_ws(s: Seq<u8>) -> Seq<u8>
    decreases s.len(),
{
    if s.len() > 0 && spec_is_name_ws(s.last()) {
        spec_trim_trailing_ws(s.drop_last())
    } else {
        s
    }
}

/// The cleaned bytes of an inbound name window: at most 32 bytes, zero
/// bytes dropped, trailing whitespace trimmed.
pub open spec fn spec_name_window_bytes(s: Seq<u8>) -> Seq<u8> {
    let window = if s.len() <= 32 {
        s
    } else {
        s.take(32)
    };
    spec_trim_trailing_ws(spec_keep_nonzero(window))
}

/// The decoded name of an inbound name window, each byte read as the
/// character with its code point.
pub open spec fn spec_decode_preset_name(s: Seq<u8>) -> Seq<char> {
    spec_name_window_bytes(s).map_values(|b: u8| b as char)
}

/// Relies on `String`'s `FromIterator` over `char`: collects one character
/// per byte, each the character with that byte's code point.
#[verifier::external_body]
fn byte_chars_string(bytes: &Vec<u8>) -> (r: String)
    ensures
        r@ == bytes@.map_values(|b: u8| b as char),
{
    bytes.iter().map(|b| *b as char).collect()
}

/// Decodes an inbound name window: at most 32 bytes are read, zero bytes
/// are dropped, trailing whitespace is trimmed, and each remaining byte
/// becomes the character with its code point.
pub fn decode_preset_name(msg: MidiMessage) -> (r: String)
    ensures
        r@ == spec_decode_preset_name(msg@),
{
    let end = if msg.len() <= 32 {
        msg.len()
    } else {
        32
    };
    let mut kept: Vec<u8> = Vec::new();
    let mut i: usize = 0;
    while i < end
        invariant
            i <= end,
            end == if msg@.len() <= 32 {
                msg@.len() as int
            } else {
                32
            },
            kept@ == spec_keep_nonzero(msg@.take(i as int)),
        decreases end - i,
    {
        assert(msg@.take(i + 1 as int).drop_last() =~= msg@.take(i as int));
        assert(msg@.take(i + 1 as int).last() == msg@[i as int]);
        if msg[i] > 0 {
            kept.push(msg[i]);
        }
        i = i + 1;
    }
    assert(msg@.len() <= 32 ==> msg@.take(end as int) =~= msg@);
    let ghost cleaned = spec_trim_trailing_ws(kept@);
    while kept.len() > 0 && is_name_ws(kept[kept.len() - 1])
        invariant
            spec_trim_trailing_ws(kept@) == cleaned,
        decreases kept@.len(),
    {
        let _ = kept.pop();
    }
    assert(kept@ == cleaned);
    byte_chars_string(&kept)
}

} // verus!
