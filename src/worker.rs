//! The worker's step: one request message in, one response message out.
use vstd::prelude::*;

use crate::hex::{lower_hex, lower_hex_of};
use crate::message::{decoded_request, HashRequest, HashResponse};

verus! {

/// The SHA-256 digest of the UTF-8 encoding of `data`.
pub uninterp spec fn sha256_of(data: Seq<char>) -> Seq<u8>;

/// Relies on sha2::Sha256 through `Digest::digest`: the SHA-256 digest of the
/// UTF-8 bytes of `data`, which is 32 bytes long.
#[verifier::external_body]
fn sha256_digest(data: &str) -> (r: Vec<u8>)
    ensures
        r@ == sha256_of(data@),
        r@.len() == 32,
{
    <sha2::Sha256 as sha2::Digest>::digest(data.as_bytes()).to_vec()
}

/// The result the worker computes for `data`: its digest in lower-case hex.
pub open spec fn digest_text(data: Seq<char>) -> Seq<char> {
    lower_hex(sha256_of(data))
}

/// The lower-case hexadecimal SHA-256 digest of `data`.
pub fn digest_hex(data: &str) -> (r: String)
    ensures
        r@ == digest_text(data@),
{
    let digest = sha256_digest(data);
    lower_hex_of(&digest)
}

/// The response to `request`: the same correlation id and the digest of its
/// data.
pub fn respond(request: &HashRequest) -> (r: HashResponse)
    ensures
        r.id@ == request.id@,
        r.hash@ == digest_text(request.data@),
{
    HashResponse { id: request.id.clone(), hash: digest_hex(request.data.as_str()) }
}

/// What the worker publishes for one message from the request channel: the
/// response, or none for a malformed message, which is dropped.
pub fn reply_to(payload: &str) -> (r: Option<HashResponse>)
    ensures
        match decoded_request(payload@) {
            Some((id, data)) => r is Some && r.unwrap().id@ == id && r.unwrap().hash@ == digest_text(data),
            None => r is None,
        },
{
    match HashRequest::from_json(payload) {
        Some(request) => Some(respond(&request)),
        None => None,
    }
}

} // verus!
