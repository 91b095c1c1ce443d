//! Wire form of the protocol's response vocabulary.
//!
//! An invite answer travels as a single byte; anything else is an
//! unexpected shape and decodes to `None`.

use vstd::prelude::*;
use crate::protocol::RemoteResponse;

verus! {

/// The canonical wire bytes of a response.
pub open spec fn response_encoded(r: RemoteResponse) -> Seq<u8> {
    match r {
        RemoteResponse::InviteAccepted => seq![1u8],
        RemoteResponse::InviteRejected => seq![0u8],
    }
}

/// What a sequence of wire bytes decodes to: exactly the canonical
/// one-byte encodings are accepted.
pub open spec fn response_decoded(bytes: Seq<u8>) -> Option<RemoteResponse> {
    if bytes.len() == 1 && bytes[0] == 1u8 {
        Some(RemoteResponse::InviteAccepted)
    } else if bytes.len() == 1 && bytes[0] == 0u8 {
        Some(RemoteResponse::InviteRejected)
    } else {
        None
    }
}

pub fn encode_response(r: RemoteResponse) -> (bytes: Vec<u8>)
    ensures
        bytes@ == response_encoded(r),
{
    let mut bytes: Vec<u8> = Vec::new();
    match r {
        RemoteResponse::InviteAccepted => bytes.push(1),
        RemoteResponse::InviteRejected => bytes.push(0),
    }
    proof {
        assert(bytes@ =~= response_encoded(r));
    }
    bytes
}

pub fn decode_response(bytes: &Vec<u8>) -> (r: Option<RemoteResponse>)
    ensures
        r == response_decoded(bytes@),
{
    if bytes.len() == 1 {
        let b: u8 = bytes[0];
        if b == 1 {
            Some(RemoteResponse::InviteAccepted)
        } else if b == 0 {
            Some(RemoteResponse::InviteRejected)
        } else {
            None
        }
    } else {
        None
    }
}

} // verus!
