use vstd::prelude::*;

verus! {

/// The 20-byte HMAC-SHA1 tag of a message under a key. The tag is a pure
/// function of key and message; its bytes are named here, not written out.
pub uninterp spec fn hmac_sha1(key: Seq<u8>, message: Seq<u8>) -> Seq<u8>;

/// Relies on ring::hmac::Key::new and ring::hmac::sign with
/// HMAC_SHA1_FOR_LEGACY_USE_ONLY: the tag is the HMAC-SHA1 digest of the
/// message under the key, 20 bytes determined by key and message alone.
#[verifier::external_body]
pub(crate) fn hmac_sha1_tag(key: &Vec<u8>, message: &Vec<u8>) -> (r: Vec<u8>)
    ensures
        r@ == hmac_sha1(key@, message@),
        r@.len() == 20,
{
    let k = ring::hmac::Key::new(ring::hmac::HMAC_SHA1_FOR_LEGACY_USE_ONLY, key.as_slice());
    ring::hmac::sign(&k, message.as_slice()).as_ref().to_vec()
}

/// The big-endian 8-byte encoding of a 64-bit counter.
pub open spec fn be_bytes_of_u64(x: u64) -> Seq<u8> {
    seq![
        (x >> 56) as u8,
        (x >> 48) as u8,
        (x >> 40) as u8,
        (x >> 32) as u8,
        (x >> 24) as u8,
        (x >> 16) as u8,
        (x >> 8) as u8,
        x as u8,
    ]
}

/// Writes a counter as its 8 big-endian bytes.
pub fn u64_to_be_bytes(x: u64) -> (r: Vec<u8>)
    ensures
        r@ == be_bytes_of_u64(x),
{
    let mut r: Vec<u8> = Vec::new();
    r.push((x >> 56) as u8);
    r.push((x >> 48) as u8);
    r.push((x >> 40) as u8);
    r.push((x >> 32) as u8);
    r.push((x >> 24) as u8);
    r.push((x >> 16) as u8);
    r.push((x >> 8) as u8);
    r.push(x as u8);
    proof {
        assert(r@ =~= be_bytes_of_u64(x));
    }
    r
}

/// RFC 4226 dynamic truncation of a 20-byte tag: the low nibble of the last
/// byte picks four bytes, whose big-endian value with the top bit masked off
/// is the truncated 31-bit code.
pub open spec fn truncated_value(tag: Seq<u8>) -> nat
    recommends
        tag.len() == 20,
{
    let off = (tag[19] & 0x0f) as int;
    ((tag[off] & 0x7f) as nat) * 0x1000000 + (tag[off + 1] as nat) * 0x10000 + (tag[off
        + 2] as nat) * 0x100 + (tag[off + 3] as nat)
}

/// Truncates an HMAC tag into its 31-bit dynamic-truncation value.
pub fn dynamic_truncate(tag: &Vec<u8>) -> (r: u64)
    requires
        tag@.len() == 20,
    ensures
        r == truncated_value(tag@),
        r < 0x80000000,
{
    let last: u8 = tag[19];
    assert((last & 0x0f) < 16) by (bit_vector);
    let off: usize = (last & 0x0f) as usize;
    let first: u8 = tag[off];
    assert((first & 0x7f) < 0x80) by (bit_vector);
    let b0: u64 = (first & 0x7f) as u64;
    let b1: u64 = tag[off + 1] as u64;
    let b2: u64 = tag[off + 2] as u64;
    let b3: u64 = tag[off + 3] as u64;
    b0 * 0x1000000 + b1 * 0x10000 + b2 * 0x100 + b3
}

} // verus!
