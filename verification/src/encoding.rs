//! How token metadata is laid down as bytes: the SCALE encoding of a string,
//! cut to a configured length.

use parity_scale_codec::Encode;
use vstd::prelude::*;
use vstd::utf8::encode_utf8;

verus! {

/// The `width` low bytes of `n`, least significant first.
pub open spec fn le_bytes(n: nat, width: nat) -> Seq<u8>
    decreases width,
{
    if width == 0 {
        Seq::empty()
    } else {
        seq![(n % 256) as u8] + le_bytes(n / 256, (width - 1) as nat)
    }
}

/// The compact encoding of a length below 2^32: the two low bits of the first
/// byte give the mode, the other bits hold the length where it fits in 6, 14
/// or 30 bits; a longer one follows its mode byte as four bytes.
pub open spec fn compact_length(len: nat) -> Seq<u8> {
    if len < 0x40 {
        le_bytes(4 * len, 1)
    } else if len < 0x4000 {
        le_bytes(4 * len + 1, 2)
    } else if len < 0x4000_0000 {
        le_bytes(4 * len + 2, 4)
    } else {
        seq![3u8] + le_bytes(len, 4)
    }
}

/// The SCALE encoding of a string: the compact length of its UTF-8 bytes, then
/// the bytes.
pub open spec fn scale_encoded(text: Seq<char>) -> Seq<u8> {
    compact_length(encode_utf8(text).len()) + encode_utf8(text)
}

/// The first `bound` bytes of `bytes`, or all of them where there are fewer.
pub open spec fn bounded(bytes: Seq<u8>, bound: u32) -> Seq<u8> {
    if bytes.len() <= bound {
        bytes
    } else {
        bytes.take(bound as int)
    }
}

/// UTF-8 takes at most four bytes for a character.
pub proof fn lemma_utf8_length_bound(text: Seq<char>)
    ensures
        encode_utf8(text).len() <= 4 * text.len(),
    decreases text.len(),
{
    if text.len() > 0 {
        lemma_utf8_length_bound(text.drop_first());
    }
}

/// `parity_scale_codec::Encode::encode` on a `String`: the compact encoding of
/// the number of UTF-8 bytes, followed by those bytes. The call panics on a
/// string of more than `u32::MAX` bytes, which `requires` leaves out.
#[verifier::external_body]
pub(crate) fn encode(text: &String) -> (r: Vec<u8>)
    requires
        encode_utf8(text@).len() <= u32::MAX,
    ensures
        r@ == scale_encoded(text@),
{
    Encode::encode(text)
}

/// Cuts `unbound` to at most `bound` bytes, dropping what lies beyond.
pub fn truncate_from(unbound: Vec<u8>, bound: u32) -> (r: Vec<u8>)
    ensures
        r@ == bounded(unbound@, bound),
{
    let mut bytes = unbound;
    bytes.truncate(bound as usize);
    bytes
}

} // verus!
