//! The request boundary: which headers carry the signature, and which status and body
//! answer each way a request can end before or after dispatch.

use crate::models::{DiscordInteraction, InteractionKind};
use crate::signature::{verify_outcome, verify_signature, SignatureError};
use crate::text::{lowercased, same_text, to_lowercase};
use vstd::prelude::*;
use vstd::string::*;

verus! {

/// Status of every answer that was delivered.
pub const STATUS_OK: u16 = 200;

/// Status of the answer to a body that did not parse.
pub const STATUS_BAD_REQUEST: u16 = 400;

/// Status of the answer to a request that was not authenticated.
pub const STATUS_UNAUTHORIZED: u16 = 401;

/// One request header.
#[derive(Debug, Clone)]
pub struct Header {
    pub name: String,
    pub value: String,
}

/// Status and JSON body handed back to the transport.
#[derive(Debug, Clone)]
pub struct HttpReply {
    pub status_code: u16,
    pub content_type: String,
    pub body: String,
}

impl HttpReply {
    /// The reply has this status and body and is marked as JSON.
    pub open spec fn carries(&self, status_code: u16, body: Seq<char>) -> bool {
        &&& self.status_code == status_code
        &&& self.content_type@ == "application/json"@
        &&& self.body@ == body
    }
}

/// What to do with a request whose signature was accepted.
#[derive(Debug, Clone)]
pub enum Routed {
    /// Answer at once.
    Respond(HttpReply),
    /// Hand the interaction to the dispatcher.
    Dispatch(DiscordInteraction),
}

/// Value of the header called `name` without regard to case; the last such header
/// counts, and a missing header reads as empty.
pub open spec fn header_value(headers: Seq<Header>, name: Seq<char>) -> Seq<char>
    decreases headers.len(),
{
    if headers.len() == 0 {
        Seq::empty()
    } else if lowercased(headers.last().name@) == name {
        headers.last().value@
    } else {
        header_value(headers.drop_last(), name)
    }
}

/// Body of the rejection of a signature that was not accepted.
pub open spec fn invalid_signature_body() -> Seq<char> {
    "{\"error\":\"Invalid signature\"}"@
}

/// Body of the rejection of a request that could not be checked.
pub open spec fn verification_failed_body() -> Seq<char> {
    "{\"error\":\"Signature verification failed\"}"@
}

/// Body of the answer to a request body that did not parse.
pub open spec fn invalid_interaction_body() -> Seq<char> {
    "{\"error\":\"Invalid interaction data\"}"@
}

/// Body of the handshake acknowledgment.
pub open spec fn handshake_body() -> Seq<char> {
    "{\"type\":1}"@
}

/// A JSON reply.
pub fn json_reply(status_code: u16, body: String) -> (res: HttpReply)
    ensures
        res.carries(status_code, body@),
{
    HttpReply { status_code, content_type: String::from_str("application/json"), body }
}

/// The value to keep after looking at one header whose name is already in lower case.
pub fn pick_header(current: String, lowered_name: &str, value: &str, wanted: &str) -> (res: String)
    ensures
        res@ == if lowered_name@ == wanted@ {
            value@
        } else {
            current@
        },
{
    if same_text(lowered_name, wanted) {
        String::from_str(value)
    } else {
        current
    }
}

/// Looks a header up without regard to the case of its name.
pub fn find_header(headers: &Vec<Header>, name: &str) -> (res: String)
    ensures
        res@ == header_value(headers@, name@),
{
    proof {
        reveal_strlit("");
    }
    let mut found = String::from_str("");
    assert(found@ =~= Seq::<char>::empty());
    let mut i: usize = 0;
    while i < headers.len()
        invariant
            i <= headers.len(),
            found@ == header_value(headers@.take(i as int), name@),
        decreases headers.len() - i,
    {
        let lowered = to_lowercase(headers[i].name.as_str());
        found = pick_header(found, lowered.as_str(), headers[i].value.as_str(), name);
        proof {
            assert(headers@.take(i + 1).drop_last() =~= headers@.take(i as int));
            assert(headers@.take(i + 1).last() == headers@[i as int]);
        }
        i += 1;
    }
    assert(headers@.take(i as int) =~= headers@);
    found
}

/// The rejection that answers a verification result, none for an accepted signature.
pub fn rejection(outcome: Result<bool, SignatureError>) -> (res: Option<HttpReply>)
    ensures
        match outcome {
            Ok(true) => res is None,
            Ok(false) => res is Some && res.unwrap().carries(
                STATUS_UNAUTHORIZED,
                invalid_signature_body(),
            ),
            Err(_) => res is Some && res.unwrap().carries(
                STATUS_UNAUTHORIZED,
                verification_failed_body(),
            ),
        },
{
    match outcome {
        Ok(true) => None,
        Ok(false) => Some(
            json_reply(STATUS_UNAUTHORIZED, String::from_str("{\"error\":\"Invalid signature\"}")),
        ),
        Err(_) => Some(
            json_reply(
                STATUS_UNAUTHORIZED,
                String::from_str("{\"error\":\"Signature verification failed\"}"),
            ),
        ),
    }
}

/// Authenticates a request from its headers and body: the signature and timestamp
/// headers are looked up, the signature is checked against `timestamp || body`, and
/// anything but an accepted signature is answered with a rejection.
pub fn authenticate(headers: &Vec<Header>, body: &str, public_key_hex: &str) -> (res: Option<
    HttpReply,
>)
    ensures
        match verify_outcome(
            vstd::utf8::encode_utf8(header_value(headers@, "x-signature-ed25519"@)),
            vstd::utf8::encode_utf8(header_value(headers@, "x-signature-timestamp"@)),
            body.spec_bytes(),
            public_key_hex.spec_bytes(),
        ) {
            Ok(true) => res is None,
            Ok(false) => res is Some && res.unwrap().carries(
                STATUS_UNAUTHORIZED,
                invalid_signature_body(),
            ),
            Err(_) => res is Some && res.unwrap().carries(
                STATUS_UNAUTHORIZED,
                verification_failed_body(),
            ),
        },
{
    let signature = find_header(headers, "x-signature-ed25519");
    let timestamp = find_header(headers, "x-signature-timestamp");
    rejection(verify_signature(signature.as_str(), timestamp.as_str(), body, public_key_hex))
}

/// Routes an authenticated request by what its body parsed to: a body that did not
/// parse is a bad request, a handshake is acknowledged at once, and every other
/// interaction goes to the dispatcher.
pub fn route(parsed: Option<DiscordInteraction>) -> (res: Routed)
    ensures
        match parsed {
            None => res matches Routed::Respond(r) && r.carries(
                STATUS_BAD_REQUEST,
                invalid_interaction_body(),
            ),
            Some(interaction) => if interaction.kind() == InteractionKind::Handshake {
                res matches Routed::Respond(r) && r.carries(STATUS_OK, handshake_body())
            } else {
                res == Routed::Dispatch(interaction)
            },
        },
{
    match parsed {
        None => Routed::Respond(
            json_reply(
                STATUS_BAD_REQUEST,
                String::from_str("{\"error\":\"Invalid interaction data\"}"),
            ),
        ),
        Some(interaction) => {
            if let InteractionKind::Handshake = interaction.kind() {
                Routed::Respond(json_reply(STATUS_OK, String::from_str("{\"type\":1}")))
            } else {
                Routed::Dispatch(interaction)
            }
        },
    }
}

/// The reply that carries a dispatched interaction's serialized answer. Handler-level
/// failures travel inside the answer, so the status is always a success.
pub fn delivered(serialized: String) -> (res: HttpReply)
    ensures
        res.carries(STATUS_OK, serialized@),
{
    json_reply(STATUS_OK, serialized)
}

} // verus!
