use vstd::prelude::*;

use crate::error::{kind_text, Error, ErrorType};

verus! {

/// The byte sequence that the unpadded RFC 4648 base-32 codec yields for a
/// given character sequence, or `None` where the characters cannot be decoded.
pub uninterp spec fn base32_decode(s: Seq<char>) -> Option<Seq<u8>>;

/// Relies on base32::decode with the unpadded RFC 4648 alphabet: whether the
/// string decodes, and to which bytes, depends on its characters alone.
#[verifier::external_body]
fn decode_rfc4648(s: &str) -> (r: Option<Vec<u8>>)
    ensures
        r is Some <==> base32_decode(s@) is Some,
        r is Some ==> r->0@ == base32_decode(s@)->0,
{
    base32::decode(base32::Alphabet::RFC4648 { padding: false }, s)
}

/// Decodes a base-32 secret into the raw key bytes, rejecting any string
/// that the unpadded RFC 4648 alphabet cannot decode.
pub fn decode_base32(secret: &String) -> (r: Result<Vec<u8>, Error>)
    ensures
        r is Ok <==> base32_decode(secret@) is Some,
        r is Ok ==> r->Ok_0@ == base32_decode(secret@)->0,
        r is Err ==> r->Err_0.kind() == ErrorType::NonBase32,
        r is Err ==> r->Err_0.text() == kind_text(r->Err_0.kind()),
{
    match decode_rfc4648(secret.as_str()) {
        Some(bytes) => Ok(bytes),
        None => Err(
            Error::new(ErrorType::NonBase32, "The secret provided is not a base-32 string."),
        ),
    }
}

} // verus!
