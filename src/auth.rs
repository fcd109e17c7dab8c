use vstd::prelude::*;
use crate::primitives::{parse_public_key, pubkey_parses, random_bytes_32};
use crate::reply::{is_refusal, refuse, refuse_with, NodeReply, Refusal, Status};
use crate::text::{hex_encode, hex_of};
use crate::token::TokenStore;

verus! {

/// A signature in the zbase form that the node's message check reads. It is
/// kept apart from the DER-hex form so that the two cannot be mixed up.
pub struct ZbaseSignature {
    pub text: String,
}

/// Both forms of one message signature, as the node's signing call gives them.
pub struct MessageSignature {
    pub der_hex: String,
    pub zbase: ZbaseSignature,
}

impl MessageSignature {
    /// The form to send for verification.
    pub fn for_verification(&self) -> (r: &ZbaseSignature)
        ensures
            r == &self.zbase,
    {
        &self.zbase
    }
}

/// Issues the hex encoding of `bytes` as an auth challenge. Gives `None`, and
/// leaves the store as it was, when that token is already outstanding or spent.
pub fn auth_challenge_for(store: &mut TokenStore, bytes: &[u8]) -> (r: Option<String>)
    requires
        old(store).wf(),
    ensures
        final(store).wf(),
        final(store).spent() == old(store).spent(),
        r is Some <==> !(old(store)@.contains(hex_of(bytes@)) || old(store).spent().contains(hex_of(bytes@))),
        final(store)@ == if r is Some { old(store)@.insert(hex_of(bytes@)) } else { old(store)@ },
        r is Some ==> r->Some_0@ == hex_of(bytes@),
{
    let k1 = hex_encode(bytes);
    let answer = k1.clone();
    if store.issue(k1) {
        Some(answer)
    } else {
        None
    }
}

/// Answers an auth challenge request with 32 fresh random bytes, hex-encoded.
/// `None` only when that token is already outstanding or spent.
pub fn auth_challenge(store: &mut TokenStore) -> (r: Option<String>)
    requires
        old(store).wf(),
    ensures
        final(store).wf(),
        match r {
            Some(k1) => {
                &&& k1@.len() == 64
                &&& exists|b: Seq<u8>| b.len() == 32 && k1@ == #[trigger] hex_of(b)
                &&& !old(store)@.contains(k1@)
                &&& !old(store).spent().contains(k1@)
                &&& final(store)@ == old(store)@.insert(k1@)
            },
            None => final(store)@ == old(store)@,
        },
        final(store).spent() == old(store).spent(),
        old(store)@ == Set::<Seq<char>>::empty() && old(store).spent() == Set::<Seq<char>>::empty() ==> r is Some,
        r is None ==> exists|c: Seq<char>| #[trigger] old(store)@.contains(c) || old(store).spent().contains(c),
{
    let bytes = random_bytes_32();
    proof {
        lemma_hex_len(bytes@);
    }
    let r = auth_challenge_for(store, bytes.as_slice());
    proof {
        if r is None {
            assert(old(store)@.contains(hex_of(bytes@)) || old(store).spent().contains(hex_of(bytes@)));
        } else {
            assert(bytes@.len() == 32 && r->Some_0@ == hex_of(bytes@));
        }
    }
    r
}

/// The hex encoding has two digits per byte.
pub proof fn lemma_hex_len(b: Seq<u8>)
    ensures
        hex_of(b).len() == 2 * b.len(),
    decreases b.len(),
{
    if b.len() > 0 {
        lemma_hex_len(b.drop_last());
    }
}

/// Query of the auth callback.
pub struct AuthParams {
    pub k1: String,
    pub signature: ZbaseSignature,
    pub pubkey: String,
}

/// What the node is to check: `signature` over `message` by `pubkey`.
pub struct CheckOrder {
    pub message: String,
    pub signature: ZbaseSignature,
    pub pubkey: secp256k1::PublicKey,
    /// The text `pubkey` was read from.
    pub pubkey_text: String,
}

/// What the auth callback decided before any call to the node.
pub enum AuthStep {
    Refused(Refusal),
    Check(CheckOrder),
}

/// The spec of the auth callback's first part, given whether the token was
/// outstanding.
pub open spec fn auth_step_ok(r: AuthStep, k1_valid: bool, params: AuthParams) -> bool {
    if !k1_valid {
        r is Refused && is_refusal(r->Refused_0, Status::BadRequest, "Invalid or expired k1"@)
    } else {
        if !pubkey_parses(params.pubkey@) {
            r is Refused && is_refusal(r->Refused_0, Status::BadRequest, "Invalid pubkey: malformed public key"@)
        } else {
            &&& r is Check
            &&& r->Check_0.message@ == params.k1@
            &&& r->Check_0.signature.text@ == params.signature.text@
            &&& r->Check_0.pubkey_text@ == params.pubkey@
        }
    }
}

/// Auth callback: consumes the token, then checks the public key. The token
/// itself is the signed message.
pub fn auth_response(store: &mut TokenStore, params: &AuthParams) -> (r: AuthStep)
    requires
        old(store).wf(),
    ensures
        final(store).wf(),
        final(store)@ == old(store)@.remove(params.k1@),
        final(store).spent() == if old(store)@.contains(params.k1@) {
            old(store).spent().insert(params.k1@)
        } else {
            old(store).spent()
        },
        auth_step_ok(r, old(store)@.contains(params.k1@), *params),
{
    if !store.validate_and_consume(params.k1.as_str()) {
        return AuthStep::Refused(refuse(Status::BadRequest, "Invalid or expired k1"));
    }
    match parse_public_key(params.pubkey.as_str()) {
        Err(e) => {
            let r = refuse_with(Status::BadRequest, "Invalid pubkey: ", e.as_str());
            proof {
                reveal_strlit("Invalid pubkey: ");
                reveal_strlit("malformed public key");
                reveal_strlit("Invalid pubkey: malformed public key");
                assert(r.reason@ =~= "Invalid pubkey: malformed public key"@);
            }
            AuthStep::Refused(r)
        },
        Ok(pubkey) => AuthStep::Check(CheckOrder {
            message: params.k1.clone(),
            signature: ZbaseSignature { text: params.signature.text.clone() },
            pubkey,
            pubkey_text: params.pubkey.clone(),
        }),
    }
}

/// Final answer of the auth callback.
pub enum AuthReply {
    /// Verified; carries the event to report.
    LoggedIn(String),
    Refused(Refusal),
}

/// The spec of the auth callback's second part.
pub open spec fn auth_verdict_ok(outcome: NodeReply<bool>, r: AuthReply) -> bool {
    match outcome {
        NodeReply::Answer(true) => r is LoggedIn && r->LoggedIn_0@ == "LOGGEDIN"@,
        NodeReply::Answer(false) => r is Refused
            && is_refusal(r->Refused_0, Status::Unauthorized, "Signature verification failed"@),
        NodeReply::Unexpected => r is Refused
            && is_refusal(r->Refused_0, Status::InternalError, "Unexpected response from checkmessage"@),
        NodeReply::Failed(e) => r is Refused
            && is_refusal(r->Refused_0, Status::InternalError, "Verification error: "@ + e@),
    }
}

/// Turns the node's answer to the message check into the callback's answer.
pub fn auth_verdict(outcome: NodeReply<bool>) -> (r: AuthReply)
    ensures
        auth_verdict_ok(outcome, r),
{
    match outcome {
        NodeReply::Answer(verified) => {
            if verified {
                AuthReply::LoggedIn(String::from_str("LOGGEDIN"))
            } else {
                AuthReply::Refused(refuse(Status::Unauthorized, "Signature verification failed"))
            }
        },
        NodeReply::Unexpected => AuthReply::Refused(
            refuse(Status::InternalError, "Unexpected response from checkmessage"),
        ),
        NodeReply::Failed(e) => AuthReply::Refused(
            refuse_with(Status::InternalError, "Verification error: ", e.as_str()),
        ),
    }
}

} // verus!
