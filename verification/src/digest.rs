//! Digests, and the byte encodings that they are taken of.

use vstd::prelude::*;
use vstd::string::StrSliceExecFns;
use vstd::string::StringSliceAdditionalSpecFns;

verus! {

/// The BLAKE2b digest of 256 bits of a byte string.
pub uninterp spec fn blake2x256_digest(input: Seq<u8>) -> Seq<u8>;

/// The bytes of `value`, lowest first, `width` of them.
pub open spec fn le_bytes(value: nat, width: nat) -> Seq<u8>
    decreases width,
{
    if width == 0 {
        Seq::empty()
    } else {
        seq![(value % 256) as u8] + le_bytes(value / 256, (width - 1) as nat)
    }
}

/// The compact encoding of a length: one, two or four bytes that hold the
/// length times four and, in their two lowest bits, which of the three it
/// is; or, for a length of 2^30 and more, the byte 3 and the four bytes of
/// the length.
pub open spec fn compact_u32(value: u32) -> Seq<u8> {
    if value <= 0x3f {
        le_bytes((value * 4) as nat, 1)
    } else if value <= 0x3fff {
        le_bytes((value * 4 + 1) as nat, 2)
    } else if value <= 0x3fff_ffff {
        le_bytes((value * 4 + 2) as nat, 4)
    } else {
        seq![3u8] + le_bytes(value as nat, 4)
    }
}

/// Calls `ink::env::hash_bytes` with the `Blake2x256` hasher. The contract
/// names the digest: it is a function of the input bytes alone, and 32 bytes
/// long by the type of the output buffer.
#[verifier::external_body]
pub(crate) fn blake2x256(input: &Vec<u8>) -> (output: [u8; 32])
    ensures
        output@ == blake2x256_digest(input@),
{
    let mut output = [0u8; 32];
    ink::env::hash_bytes::<ink::env::hash::Blake2x256>(input.as_slice(), &mut output);
    output
}

/// Calls `parity_scale_codec::Encode::encode` on a `u64`, which gives its
/// eight bytes, lowest first.
#[verifier::external_body]
pub(crate) fn scale_u64(value: u64) -> (bytes: Vec<u8>)
    ensures
        bytes@ == le_bytes(value as nat, 8),
{
    parity_scale_codec::Encode::encode(&value)
}

/// Calls `parity_scale_codec::Encode::encode` on a `u128`, which gives its
/// sixteen bytes, lowest first.
#[verifier::external_body]
pub(crate) fn scale_u128(value: u128) -> (bytes: Vec<u8>)
    ensures
        bytes@ == le_bytes(value as nat, 16),
{
    parity_scale_codec::Encode::encode(&value)
}

/// Calls `parity_scale_codec::Encode::encode` on a `Compact<u32>`, which
/// gives the compact encoding of the number.
#[verifier::external_body]
pub(crate) fn scale_compact_u32(value: u32) -> (bytes: Vec<u8>)
    ensures
        bytes@ == compact_u32(value),
{
    parity_scale_codec::Encode::encode(&parity_scale_codec::Compact(value))
}

/// Puts `bytes` at the end of `target`.
pub fn append_bytes(target: &mut Vec<u8>, bytes: &[u8])
    ensures
        final(target)@ == old(target)@ + bytes@,
{
    let mut i: usize = 0;
    while i < bytes.len()
        invariant
            i <= bytes.len(),
            target@ == old(target)@ + bytes@.take(i as int),
        decreases bytes.len() - i,
    {
        target.push(bytes[i]);
        assert(bytes@.take(i + 1) =~= bytes@.take(i as int).push(bytes@[i as int]));
        i += 1;
    }
    assert(bytes@.take(bytes.len() as int) =~= bytes@);
}

/// The digest of a description text: the digest of its UTF-8 bytes.
pub fn hash_description(description: &str) -> (digest: [u8; 32])
    ensures
        digest@ == blake2x256_digest(description.spec_bytes()),
{
    let bytes = description.as_bytes_vec();
    blake2x256(&bytes)
}

} // verus!
