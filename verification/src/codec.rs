//! Decoding of an extracted part's base64 payload and the plan for
//! persisting it: the joined output path together with either the decoded
//! bytes to write or, in preview mode, the decoded size to report.
use vstd::prelude::*;
use crate::scanner::ExtractedImage;

verus! {

/// What `base64::decode` returns on the given bytes: the decoded bytes where
/// the input is valid base64 under the standard alphabet, and nothing where
/// it is not.  The result depends on the input bytes alone.
pub uninterp spec fn b64_decoding(encoded: Seq<u8>) -> Option<Seq<u8>>;

/// What `base64::encode` returns on the given bytes.  The result depends on
/// the input bytes alone.
pub uninterp spec fn b64_encoded(raw: Seq<u8>) -> Seq<u8>;

/// Relies on `base64::decode` (standard alphabet, RFC 4648 with padding):
/// it returns the decoded bytes exactly on valid base64 input and an error —
/// an invalid byte, an invalid length, or an invalid last symbol — otherwise.
#[verifier::external_body]
fn b64_decode_raw(data: &[u8]) -> (r: Option<Vec<u8>>)
    ensures
        r is Some <==> b64_decoding(data@) is Some,
        r is Some ==> r->Some_0@ == b64_decoding(data@)->Some_0,
{
    match base64::decode(data) {
        Ok(decoded) => Some(decoded),
        Err(_) => None,
    }
}

/// Relies on `base64::encode` (standard alphabet, RFC 4648 with padding): the
/// result is a function of the input bytes alone, and `base64::decode`
/// accepts it and returns the original bytes — the documented round trip.
/// `base64::encode` panics when the encoded size overflows `usize`, so inputs
/// that large are excluded.
#[verifier::external_body]
fn b64_encode_raw(data: &[u8]) -> (r: Vec<u8>)
    requires
        data@.len() <= usize::MAX as nat / 4,
    ensures
        r@ == b64_encoded(data@),
        b64_decoding(r@) == Some(data@),
{
    base64::encode(data).into_bytes()
}

/// Why a part could not be materialized.
#[derive(Debug, Clone, PartialEq, Eq)]
pub enum DecodeError {
    /// The payload bytes are not valid base64.
    InvalidEncoding,
    /// The decoded bytes could not be persisted; the field carries the
    /// underlying reason, for display.
    IoFailure(String),
}

/// Decodes a part's payload as standard base64: the decoded bytes exactly on
/// valid input, `InvalidEncoding` exactly on invalid input.
pub fn decode_payload(data: &Vec<u8>) -> (r: Result<Vec<u8>, DecodeError>)
    ensures
        r is Ok <==> b64_decoding(data@) is Some,
        r is Ok ==> r->Ok_0@ == b64_decoding(data@)->Some_0,
        r is Err ==> r->Err_0 is InvalidEncoding,
{
    match b64_decode_raw(data.as_slice()) {
        Some(decoded) => Ok(decoded),
        None => Err(DecodeError::InvalidEncoding),
    }
}

/// Encoding arbitrary bytes as base64 and decoding the result returns the
/// original bytes, for any input (the empty one included).
pub fn encode_then_decode(data: &Vec<u8>) -> (r: Result<Vec<u8>, DecodeError>)
    requires
        data@.len() <= usize::MAX as nat / 4,
    ensures
        r is Ok,
        r->Ok_0@ == data@,
{
    let encoded = b64_encode_raw(data.as_slice());
    decode_payload(&encoded)
}

/// The output path for a part: the output root and the part's name, joined
/// with a single separator.  The name is used verbatim as a path segment.
pub open spec fn spec_joined_path(root: Seq<u8>, name: Seq<u8>) -> Seq<u8> {
    if root.len() == 0 {
        name
    } else if root.last() == '/' as u8 {
        root + name
    } else {
        root + seq!['/' as u8] + name
    }
}

/// Joins the output root and a part's name into one path.
pub fn joined_path(root: &Vec<u8>, name: &Vec<u8>) -> (r: Vec<u8>)
    ensures
        r@ == spec_joined_path(root@, name@),
{
    let mut r = vstd::slice::slice_to_vec(root.as_slice());
    if root.len() > 0 && root[root.len() - 1] != ('/' as u8) {
        r.push('/' as u8);
        proof {
            assert(r@ =~= root@ + seq!['/' as u8]);
        }
    }
    let mut tail = vstd::slice::slice_to_vec(name.as_slice());
    r.append(&mut tail);
    proof {
        if root@.len() == 0 {
            assert(r@ =~= name@);
        } else if root@.last() == '/' as u8 {
            assert(r@ =~= root@ + name@);
        } else {
            assert(r@ =~= root@ + seq!['/' as u8] + name@);
        }
    }
    r
}

/// How one extracted part is to be persisted.
pub enum MaterializePlan {
    /// Preview mode: nothing is to be written; the path the part would go to
    /// and the decoded size it would have, for display.
    Preview { path: Vec<u8>, size: usize },
    /// The decoded bytes, to be written at the path.
    Write { path: Vec<u8>, bytes: Vec<u8> },
}

/// Decodes one extracted part and plans its persistence: in preview mode the
/// would-be path and decoded size, otherwise the path and the decoded bytes
/// to write there.  Fails with `InvalidEncoding` exactly when the payload is
/// not valid base64; no other failure arises here.
pub fn materialize(image: &ExtractedImage, output_root: &Vec<u8>, preview: bool) -> (r: Result<
    MaterializePlan,
    DecodeError,
>)
    ensures
        r is Ok <==> b64_decoding(image.data@) is Some,
        r is Err ==> r->Err_0 is InvalidEncoding,
        r is Ok && preview ==> (r->Ok_0 matches MaterializePlan::Preview { path, size }
            && path@ == spec_joined_path(output_root@, image.name@) && size == b64_decoding(
            image.data@,
        )->Some_0.len()),
        r is Ok && !preview ==> (r->Ok_0 matches MaterializePlan::Write { path, bytes }
            && path@ == spec_joined_path(output_root@, image.name@) && bytes@ == b64_decoding(
            image.data@,
        )->Some_0),
{
    let decoded = match decode_payload(&image.data) {
        Ok(decoded) => decoded,
        Err(e) => {
            return Err(e);
        },
    };
    let path = joined_path(output_root, &image.name);
    if preview {
        Ok(MaterializePlan::Preview { path, size: decoded.len() })
    } else {
        Ok(MaterializePlan::Write { path, bytes: decoded })
    }
}

} // verus!
