//! Base64 text for binary payloads carried through JSON bodies.

use crate::error::{ErrorKind, ServiceError};
use vstd::prelude::*;

verus! {

/// The standard-alphabet, padded base64 rendering of `data`.
pub uninterp spec fn base64_encoding_of(data: Seq<u8>) -> Seq<char>;

/// The bytes `text` decodes to under the standard alphabet, if it is valid
/// base64.
pub uninterp spec fn base64_decoding_of(text: Seq<char>) -> Option<Seq<u8>>;

/// A base64-encoded payload.
#[derive(Clone, Debug, PartialEq, Eq)]
pub struct Base64(pub String);

/// Relies on `base64::encode`: the standard alphabet with padding, so four
/// output characters per three input bytes, and `base64::decode` recovers
/// exactly the input.
#[verifier::external_body]
fn encode_raw(data: &Vec<u8>) -> (r: String)
    ensures
        r@ == base64_encoding_of(data@),
        r@.len() == 4 * ((data@.len() + 2) / 3),
        base64_decoding_of(r@) == Some(data@),
{
    base64::encode(data.as_slice())
}

/// Relies on `base64::decode`: succeeds exactly on valid standard-alphabet
/// base64, returning the encoded bytes.
#[verifier::external_body]
fn decode_raw(text: &String) -> (r: Result<Vec<u8>, ()>)
    ensures
        r matches Ok(b) ==> base64_decoding_of(text@) == Some(b@),
        r is Ok <==> base64_decoding_of(text@) is Some,
{
    base64::decode(text.as_str()).map_err(|_| ())
}

impl Base64 {
    /// Encode raw bytes.
    pub fn encode(data: Vec<u8>) -> (r: Base64)
        ensures
            r.0@ == base64_encoding_of(data@),
            r.0@.len() == 4 * ((data@.len() + 2) / 3),
            base64_decoding_of(r.0@) == Some(data@),
    {
        Base64(encode_raw(&data))
    }

    /// Decode back to raw bytes; text that is not valid base64 is a
    /// `BadRequest`.
    pub fn decode(self) -> (r: Result<Vec<u8>, ServiceError>)
        ensures
            base64_decoding_of(self.0@) matches Some(b) ==> (r matches Ok(v) && v@ == b),
            base64_decoding_of(self.0@) is None ==> (r matches Err(e) && e.kind
                == ErrorKind::BadRequest),
    {
        match decode_raw(&self.0) {
            Ok(v) => Ok(v),
            Err(_) => Err(ServiceError::bad_request("invalid base64 data")),
        }
    }
}

} // verus!
