use vstd::prelude::*;
use crate::primitives::random_uuid_text;
use crate::reply::{is_refusal, refuse, refuse_with, NodeReply, Refusal, Status};
use crate::service::ServiceConfig;
use crate::text::{decimal, decimal_of, join};
use crate::token::TokenStore;

verus! {

/// Smallest amount a withdrawal may ask for, in millisatoshis. The request
/// step advertises it and the callback enforces it.
pub const MIN_WITHDRAWABLE_MSAT: u64 = 1_000;

/// Largest amount a withdrawal may ask for, in millisatoshis. The request
/// step advertises it and the callback enforces it.
pub const MAX_WITHDRAWABLE_MSAT: u64 = 1_000_000;

/// Fee ceiling of a withdrawal payment, in percent of its amount.
pub const PAYMENT_MAX_FEE_PERCENT: u8 = 1;

/// How long the node may keep retrying a withdrawal payment, in seconds.
pub const PAYMENT_RETRY_SECS: u16 = 60;

/// First step of the withdraw flow: the offer.
pub struct WithdrawRequest {
    pub callback: String,
    pub k1: String,
    pub tag: String,
    pub default_description: String,
    pub min_withdrawable: u64,
    pub max_withdrawable: u64,
}

pub open spec fn withdraw_request_matches(q: WithdrawRequest, config: ServiceConfig, k1: Seq<char>) -> bool {
    &&& q.k1@ == k1
    &&& q.callback@ == config.callback_base@ + "withdraw"@
    &&& q.tag@ == "withdrawRequest"@
    &&& q.default_description@ == "Withdrawal from service"@
    &&& q.min_withdrawable == MIN_WITHDRAWABLE_MSAT
    &&& q.max_withdrawable == MAX_WITHDRAWABLE_MSAT
}

/// Issues `candidate` as the token of a new withdraw offer. Gives `None`,
/// and leaves the store as it was, when `candidate` is already outstanding or spent.
pub fn withdraw_request_for(config: &ServiceConfig, store: &mut TokenStore, candidate: String) -> (r: Option<WithdrawRequest>)
    requires
        old(store).wf(),
    ensures
        final(store).wf(),
        final(store).spent() == old(store).spent(),
        r is Some <==> !(old(store)@.contains(candidate@) || old(store).spent().contains(candidate@)),
        final(store)@ == if r is Some { old(store)@.insert(candidate@) } else { old(store)@ },
        r is Some ==> withdraw_request_matches(r->Some_0, *config, candidate@),
{
    let k1 = candidate.clone();
    if store.issue(candidate) {
        Some(WithdrawRequest {
            callback: join(config.callback_base.as_str(), "withdraw"),
            k1,
            tag: String::from_str("withdrawRequest"),
            default_description: String::from_str("Withdrawal from service"),
            min_withdrawable: MIN_WITHDRAWABLE_MSAT,
            max_withdrawable: MAX_WITHDRAWABLE_MSAT,
        })
    } else {
        None
    }
}

/// Answers a withdraw request with a fresh random token. `None` only when the
/// drawn token is already outstanding or spent.
pub fn request_withdraw(config: &ServiceConfig, store: &mut TokenStore) -> (r: Option<WithdrawRequest>)
    requires
        old(store).wf(),
    ensures
        final(store).wf(),
        match r {
            Some(q) => {
                &&& !old(store)@.contains(q.k1@)
                &&& !old(store).spent().contains(q.k1@)
                &&& final(store)@ == old(store)@.insert(q.k1@)
                &&& withdraw_request_matches(q, *config, q.k1@)
            },
            None => final(store)@ == old(store)@,
        },
        final(store).spent() == old(store).spent(),
        old(store)@ == Set::<Seq<char>>::empty() && old(store).spent() == Set::<Seq<char>>::empty() ==> r is Some,
        r is None ==> exists|c: Seq<char>| #[trigger] old(store)@.contains(c) || old(store).spent().contains(c),
{
    let candidate = random_uuid_text();
    let ghost c = candidate@;
    let r = withdraw_request_for(config, store, candidate);
    proof {
        if r is None {
            assert(old(store)@.contains(c) || old(store).spent().contains(c));
        }
    }
    r
}

/// Whether an invoice amount may be withdrawn.
pub open spec fn amount_in_bounds(msat: u64) -> bool {
    MIN_WITHDRAWABLE_MSAT <= msat <= MAX_WITHDRAWABLE_MSAT
}

/// The spec of the amount check on a decoded invoice.
pub open spec fn amount_verdict_ok(amount: Option<u64>, r: Result<u64, Refusal>) -> bool {
    match amount {
        None => r is Err && is_refusal(r->Err_0, Status::BadRequest, "Invoice has no amount"@),
        Some(a) => if a < MIN_WITHDRAWABLE_MSAT {
            r is Err && is_refusal(
                r->Err_0,
                Status::BadRequest,
                "Amount "@ + decimal_of(a as nat) + " msat below minimum 1000 msat"@,
            )
        } else if a > MAX_WITHDRAWABLE_MSAT {
            r is Err && is_refusal(
                r->Err_0,
                Status::BadRequest,
                "Amount "@ + decimal_of(a as nat) + " msat exceeds maximum 1000000 msat"@,
            )
        } else {
            r == Ok::<u64, Refusal>(a)
        },
    }
}

/// Checks a decoded invoice amount against the advertised bounds, inclusive.
pub fn amount_verdict(amount: Option<u64>) -> (r: Result<u64, Refusal>)
    ensures
        amount_verdict_ok(amount, r),
        r is Ok <==> (amount is Some && amount_in_bounds(amount->Some_0)),
{
    match amount {
        None => Err(refuse(Status::BadRequest, "Invoice has no amount")),
        Some(a) => {
            if a < MIN_WITHDRAWABLE_MSAT {
                let mut reason = join("Amount ", decimal(a as u128).as_str());
                reason.append(" msat below minimum 1000 msat");
                Err(Refusal { status: Status::BadRequest, reason })
            } else if a > MAX_WITHDRAWABLE_MSAT {
                let mut reason = join("Amount ", decimal(a as u128).as_str());
                reason.append(" msat exceeds maximum 1000000 msat");
                Err(Refusal { status: Status::BadRequest, reason })
            } else {
                Ok(a)
            }
        },
    }
}

/// Query of the withdraw callback.
pub struct WithdrawParams {
    pub k1: String,
    pub pr: String,
}

/// What the withdraw callback decided before any call to the node.
pub enum WithdrawStep {
    Refused(Refusal),
    /// Decode this invoice, then call `withdraw_decoded`.
    Decode(String),
}

/// The spec of the withdraw callback's first part, given whether the token
/// was outstanding.
pub open spec fn withdraw_step_ok(r: WithdrawStep, k1_valid: bool, params: WithdrawParams) -> bool {
    if k1_valid {
        r is Decode && r->Decode_0@ == params.pr@
    } else {
        r is Refused && is_refusal(r->Refused_0, Status::BadRequest, "Invalid or already used k1"@)
    }
}

/// Withdraw callback: consumes the token before anything else.
pub fn withdraw(store: &mut TokenStore, params: &WithdrawParams) -> (r: WithdrawStep)
    requires
        old(store).wf(),
    ensures
        final(store).wf(),
        final(store)@ == old(store)@.remove(params.k1@),
        final(store).spent() == if old(store)@.contains(params.k1@) {
            old(store).spent().insert(params.k1@)
        } else {
            old(store).spent()
        },
        withdraw_step_ok(r, old(store)@.contains(params.k1@), *params),
{
    if !store.validate_and_consume(params.k1.as_str()) {
        return WithdrawStep::Refused(refuse(Status::BadRequest, "Invalid or already used k1"));
    }
    WithdrawStep::Decode(params.pr.clone())
}

/// A payment the node is to attempt after the callback has answered.
pub struct PaymentOrder {
    pub bolt11: String,
    pub amount_msat: u64,
    pub max_fee_percent: u8,
    pub retry_for_secs: u16,
}

/// Final answer of the withdraw callback. `Accepted` is answered as OK at
/// once; the payment it carries is attempted apart from that answer.
pub enum WithdrawReply {
    Accepted(PaymentOrder),
    Refused(Refusal),
}

/// The spec of the withdraw callback's second part.
pub open spec fn withdraw_decoded_ok(pr: Seq<char>, decoded: NodeReply<Option<u64>>, r: WithdrawReply) -> bool {
    match decoded {
        NodeReply::Answer(amount) => {
            let v = amount_verdict_ok(amount, if r is Accepted { Ok(r->Accepted_0.amount_msat) } else { Err(r->Refused_0) });
            &&& v
            &&& r is Accepted ==> {
                &&& r->Accepted_0.bolt11@ == pr
                &&& r->Accepted_0.max_fee_percent == PAYMENT_MAX_FEE_PERCENT
                &&& r->Accepted_0.retry_for_secs == PAYMENT_RETRY_SECS
            }
        },
        NodeReply::Unexpected => r is Refused
            && is_refusal(r->Refused_0, Status::InternalError, "Failed to decode invoice"@),
        NodeReply::Failed(e) => r is Refused
            && is_refusal(r->Refused_0, Status::InternalError, "Invalid invoice: "@ + e@),
    }
}

/// Decides on a decoded invoice `pr`: accepted for payment when its amount
/// lies within the advertised bounds.
pub fn withdraw_decoded(pr: String, decoded: NodeReply<Option<u64>>) -> (r: WithdrawReply)
    ensures
        withdraw_decoded_ok(pr@, decoded, r),
        r is Accepted <==> (decoded is Answer && decoded->Answer_0 is Some
            && amount_in_bounds(decoded->Answer_0->Some_0)),
{
    match decoded {
        NodeReply::Answer(amount) => match amount_verdict(amount) {
            Ok(amount_msat) => WithdrawReply::Accepted(PaymentOrder {
                bolt11: pr,
                amount_msat,
                max_fee_percent: PAYMENT_MAX_FEE_PERCENT,
                retry_for_secs: PAYMENT_RETRY_SECS,
            }),
            Err(f) => WithdrawReply::Refused(f),
        },
        NodeReply::Unexpected => WithdrawReply::Refused(refuse(Status::InternalError, "Failed to decode invoice")),
        NodeReply::Failed(e) => WithdrawReply::Refused(refuse_with(Status::InternalError, "Invalid invoice: ", e.as_str())),
    }
}

} // verus!
