use vstd::prelude::*;
use crate::primitives::{parse_public_key, pubkey_parses, random_uuid_text};
use crate::reply::{is_refusal, refuse, refuse_with, NodeReply, Refusal, Status};
use crate::service::ServiceConfig;
use crate::text::join;
use crate::token::TokenStore;

verus! {

/// Size of every channel the service funds, in satoshis.
pub const FUNDING_AMOUNT_SAT: u64 = 100_000;

/// First step of the channel flow: where to connect and where to call back.
pub struct ChannelRequest {
    pub uri: String,
    pub callback: String,
    pub k1: String,
    pub tag: String,
}

pub open spec fn channel_request_matches(q: ChannelRequest, config: ServiceConfig, k1: Seq<char>) -> bool {
    &&& q.k1@ == k1
    &&& q.uri@ == config.node_uri@
    &&& q.callback@ == config.callback_base@ + "open-channel"@
    &&& q.tag@ == "channelRequest"@
}

/// Issues `candidate` as the token of a new channel request. Gives `None`,
/// and leaves the store as it was, when `candidate` is already outstanding or spent.
pub fn channel_request_for(config: &ServiceConfig, store: &mut TokenStore, candidate: String) -> (r: Option<ChannelRequest>)
    requires
        old(store).wf(),
    ensures
        final(store).wf(),
        final(store).spent() == old(store).spent(),
        r is Some <==> !(old(store)@.contains(candidate@) || old(store).spent().contains(candidate@)),
        final(store)@ == if r is Some { old(store)@.insert(candidate@) } else { old(store)@ },
        r is Some ==> channel_request_matches(r->Some_0, *config, candidate@),
{
    let k1 = candidate.clone();
    if store.issue(candidate) {
        Some(ChannelRequest {
            uri: config.node_uri.clone(),
            callback: join(config.callback_base.as_str(), "open-channel"),
            k1,
            tag: String::from_str("channelRequest"),
        })
    } else {
        None
    }
}

/// Answers a channel request with a fresh random token. `None` only when the
/// drawn token is already outstanding or spent.
pub fn request_channel(config: &ServiceConfig, store: &mut TokenStore) -> (r: Option<ChannelRequest>)
    requires
        old(store).wf(),
    ensures
        final(store).wf(),
        match r {
            Some(q) => {
                &&& !old(store)@.contains(q.k1@)
                &&& !old(store).spent().contains(q.k1@)
                &&& final(store)@ == old(store)@.insert(q.k1@)
                &&& channel_request_matches(q, *config, q.k1@)
            },
            None => final(store)@ == old(store)@,
        },
        final(store).spent() == old(store).spent(),
        old(store)@ == Set::<Seq<char>>::empty() && old(store).spent() == Set::<Seq<char>>::empty() ==> r is Some,
        r is None ==> exists|c: Seq<char>| #[trigger] old(store)@.contains(c) || old(store).spent().contains(c),
{
    let candidate = random_uuid_text();
    let ghost c = candidate@;
    let r = channel_request_for(config, store, candidate);
    proof {
        if r is None {
            assert(old(store)@.contains(c) || old(store).spent().contains(c));
        }
    }
    r
}

/// Query of the channel-open callback.
pub struct OpenChannelParams {
    pub remoteid: String,
    pub k1: String,
    /// The privacy flag as it was written: `0`, `1`, `false` or `true`.
    pub private: Option<String>,
}

/// What a flag's text means; `None` for any other text.
pub open spec fn flag_value(s: Seq<char>) -> Option<bool> {
    if s == "0"@ || s == "false"@ {
        Some(false)
    } else if s == "1"@ || s == "true"@ {
        Some(true)
    } else {
        None
    }
}

/// Reads a flag written as `0`, `1`, `false` or `true`.
pub fn read_flag(s: &str) -> (r: Option<bool>)
    ensures
        r == flag_value(s@),
{
    let given = String::from_str(s);
    if given == String::from_str("0") || given == String::from_str("false") {
        Some(false)
    } else if given == String::from_str("1") || given == String::from_str("true") {
        Some(true)
    } else {
        None
    }
}

/// The privacy flag of a query: `Some(None)` where it is absent, `None`
/// where its text is no flag.
pub open spec fn private_flag(p: Option<String>) -> Option<Option<bool>> {
    match p {
        None => Some(None),
        Some(t) => match flag_value(t@) {
            Some(b) => Some(Some(b)),
            None => None,
        },
    }
}

/// What the node is to be asked for: a channel to `node_id`.
pub struct FundChannelOrder {
    pub node_id: secp256k1::PublicKey,
    /// The text `node_id` was read from.
    pub remoteid: String,
    pub amount_sat: u64,
    pub announce: Option<bool>,
}

/// Whether to announce the channel: the inverse of the privacy flag, and the
/// node's default where the flag is absent.
pub open spec fn announce_for(private: Option<bool>) -> Option<bool> {
    match private {
        Some(p) => Some(!p),
        None => None,
    }
}

/// What the callback decided before any call to the node.
pub enum OpenChannelStep {
    Refused(Refusal),
    Fund(FundChannelOrder),
}

/// The spec of the channel-open callback's first part, given whether the
/// token was outstanding.
pub open spec fn open_channel_step_ok(r: OpenChannelStep, k1_valid: bool, params: OpenChannelParams) -> bool {
    if !k1_valid {
        r is Refused && is_refusal(r->Refused_0, Status::BadRequest, "Invalid or already used k1"@)
    } else {
        if !pubkey_parses(params.remoteid@) {
            r is Refused && is_refusal(r->Refused_0, Status::BadRequest, "Invalid node id: malformed public key"@)
        } else {
            match private_flag(params.private) {
                None => r is Refused && is_refusal(
                    r->Refused_0,
                    Status::BadRequest,
                    "Invalid private flag: "@ + params.private->Some_0@,
                ),
                Some(p) => {
                    &&& r is Fund
                    &&& r->Fund_0.remoteid@ == params.remoteid@
                    &&& r->Fund_0.amount_sat == FUNDING_AMOUNT_SAT
                    &&& r->Fund_0.announce == announce_for(p)
                },
            }
        }
    }
}

/// Channel-open callback: consumes the token first, then checks the remote
/// id and the privacy flag. A token is spent even where what follows is
/// refused.
pub fn open_channel(store: &mut TokenStore, params: &OpenChannelParams) -> (r: OpenChannelStep)
    requires
        old(store).wf(),
    ensures
        final(store).wf(),
        final(store)@ == old(store)@.remove(params.k1@),
        final(store).spent() == if old(store)@.contains(params.k1@) {
            old(store).spent().insert(params.k1@)
        } else {
            old(store).spent()
        },
        open_channel_step_ok(r, old(store)@.contains(params.k1@), *params),
{
    if !store.validate_and_consume(params.k1.as_str()) {
        return OpenChannelStep::Refused(refuse(Status::BadRequest, "Invalid or already used k1"));
    }
    match parse_public_key(params.remoteid.as_str()) {
        Err(e) => {
            let r = refuse_with(Status::BadRequest, "Invalid node id: ", e.as_str());
            proof {
                reveal_strlit("Invalid node id: ");
                reveal_strlit("malformed public key");
                reveal_strlit("Invalid node id: malformed public key");
                assert(r.reason@ =~= "Invalid node id: malformed public key"@);
            }
            OpenChannelStep::Refused(r)
        },
        Ok(node_id) => {
            let private = match &params.private {
                None => None,
                Some(t) => match read_flag(t.as_str()) {
                    Some(b) => Some(b),
                    None => {
                        return OpenChannelStep::Refused(
                            refuse_with(Status::BadRequest, "Invalid private flag: ", t.as_str()),
                        );
                    },
                },
            };
            let announce = match private {
                Some(p) => Some(!p),
                None => None,
            };
            OpenChannelStep::Fund(FundChannelOrder {
                node_id,
                remoteid: params.remoteid.clone(),
                amount_sat: FUNDING_AMOUNT_SAT,
                announce,
            })
        },
    }
}

/// What the node reports of a funded channel.
pub struct FundedChannel {
    pub mindepth: Option<u32>,
    pub channel_id: String,
    pub outnum: u32,
    pub tx: String,
    pub txid: String,
}

/// Final answer of the channel-open callback.
pub enum OpenChannelReply {
    Opened(FundedChannel),
    Refused(Refusal),
}

/// Turns the node's answer to the funding call into the callback's answer.
pub fn open_channel_result(outcome: NodeReply<FundedChannel>) -> (r: OpenChannelReply)
    ensures
        match outcome {
            NodeReply::Answer(c) => r == OpenChannelReply::Opened(c),
            NodeReply::Unexpected => r is Refused
                && is_refusal(r->Refused_0, Status::InternalError, "Unexpected response type"@),
            NodeReply::Failed(e) => r is Refused
                && is_refusal(r->Refused_0, Status::InternalError, "Failed to open channel: "@ + e@),
        },
{
    match outcome {
        NodeReply::Answer(c) => OpenChannelReply::Opened(c),
        NodeReply::Unexpected => OpenChannelReply::Refused(refuse(Status::InternalError, "Unexpected response type")),
        NodeReply::Failed(e) => OpenChannelReply::Refused(
            refuse_with(Status::InternalError, "Failed to open channel: ", e.as_str()),
        ),
    }
}

} // verus!
