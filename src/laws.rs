use vstd::prelude::*;
use crate::auth::{auth_step_ok, auth_verdict_ok, AuthParams, AuthReply, AuthStep};
use crate::channel::{open_channel_step_ok, private_flag, OpenChannelParams, OpenChannelStep};
use crate::primitives::pubkey_parses;
use crate::reply::{is_refusal, NodeReply, Status};
use crate::service::ServiceConfig;
use crate::token::issue_accepts;
use crate::withdraw::{amount_in_bounds, withdraw_request_matches, withdraw_step_ok, WithdrawParams, WithdrawRequest, WithdrawStep};

verus! {

/// The answers of `n` successive `validate_and_consume(t)` calls on a store
/// that starts as `s`, in the order in which the calls take the store.
pub open spec fn consume_results(s: Set<Seq<char>>, t: Seq<char>, n: nat) -> Seq<bool>
    decreases n,
{
    if n == 0 {
        Seq::empty()
    } else {
        seq![s.contains(t)] + consume_results(s.remove(t), t, (n - 1) as nat)
    }
}

/// The store after `n` successive `validate_and_consume(t)` calls on `s`.
pub open spec fn store_after_consumes(s: Set<Seq<char>>, t: Seq<char>, n: nat) -> Set<Seq<char>>
    decreases n,
{
    if n == 0 {
        s
    } else {
        store_after_consumes(s.remove(t), t, (n - 1) as nat)
    }
}

/// How many entries of `b` are `true`.
pub open spec fn count_true(b: Seq<bool>) -> nat
    decreases b.len(),
{
    if b.len() == 0 {
        0
    } else {
        (if b[0] { 1nat } else { 0nat }) + count_true(b.drop_first())
    }
}

/// Once `t` is not outstanding, every further consumption of it fails.
pub proof fn lemma_spent_token_stays_spent(s: Set<Seq<char>>, t: Seq<char>, n: nat)
    requires
        !s.contains(t),
    ensures
        consume_results(s, t, n) == Seq::new(n, |i: int| false),
    decreases n,
{
    if n > 0 {
        lemma_spent_token_stays_spent(s.remove(t), t, (n - 1) as nat);
        assert(s.remove(t) =~= s);
        assert(consume_results(s, t, n) =~= Seq::new(n, |i: int| false));
    }
}

/// Of successive consumptions of an outstanding token, the first succeeds
/// and every later one fails; afterwards the token is gone.
pub proof fn lemma_first_consumer_wins(s: Set<Seq<char>>, t: Seq<char>, n: nat)
    requires
        s.contains(t),
        n >= 1,
    ensures
        consume_results(s, t, n) == seq![true] + Seq::new((n - 1) as nat, |i: int| false),
        !store_after_consumes(s, t, n).contains(t),
{
    lemma_spent_token_stays_spent(s.remove(t), t, (n - 1) as nat);
    lemma_spent_store_keeps_spent(s.remove(t), t, (n - 1) as nat);
    assert(consume_results(s, t, n) =~= seq![true] + Seq::new((n - 1) as nat, |i: int| false));
}

/// Consuming a token that is not outstanding keeps it out of the store.
pub proof fn lemma_spent_store_keeps_spent(s: Set<Seq<char>>, t: Seq<char>, n: nat)
    requires
        !s.contains(t),
    ensures
        !store_after_consumes(s, t, n).contains(t),
    decreases n,
{
    if n > 0 {
        lemma_spent_store_keeps_spent(s.remove(t), t, (n - 1) as nat);
    }
}

/// A token that `issue` has just added (it was not outstanding before) is
/// accepted by the first consumption and refused by every later one.
pub proof fn lemma_issued_token_is_single_use(s: Set<Seq<char>>, t: Seq<char>, n: nat)
    requires
        !s.contains(t),
        n >= 1,
    ensures
        consume_results(s.insert(t), t, n) == seq![true] + Seq::new((n - 1) as nat, |i: int| false),
{
    let issued = s.insert(t);
    assert(issued.remove(t) =~= s);
    lemma_first_consumer_wins(issued, t, n);
}

/// A consumed token is never issued again. Consuming `t` from outstanding
/// tokens `s` leaves it spent; issues and consumptions only add to the spent
/// tokens, so in any later state `spent`, `issue(t)` is refused.
pub proof fn lemma_consumed_token_is_never_reissued(
    s: Set<Seq<char>>,
    sp: Set<Seq<char>>,
    t: Seq<char>,
    outstanding: Set<Seq<char>>,
    spent: Set<Seq<char>>,
)
    requires
        s.contains(t),
        sp.insert(t).subset_of(spent),
    ensures
        !issue_accepts(outstanding, spent, t),
        !s.remove(t).contains(t),
{
}

/// Consumptions of one outstanding token by `n` racing callers, which the
/// store's lock puts in some order, give exactly one success and `n - 1`
/// failures.
pub proof fn lemma_racing_consumers(s: Set<Seq<char>>, t: Seq<char>, n: nat)
    requires
        s.contains(t),
        n >= 1,
    ensures
        count_true(consume_results(s, t, n)) == 1,
        consume_results(s, t, n).len() == n,
        !store_after_consumes(s, t, n).contains(t),
{
    lemma_first_consumer_wins(s, t, n);
    let rest = consume_results(s.remove(t), t, (n - 1) as nat);
    lemma_spent_token_stays_spent(s.remove(t), t, (n - 1) as nat);
    lemma_count_all_false((n - 1) as nat);
    let all = consume_results(s, t, n);
    assert(all.drop_first() =~= rest);
}

/// A run of `false` counts no success.
pub proof fn lemma_count_all_false(n: nat)
    ensures
        count_true(Seq::new(n, |i: int| false)) == 0,
    decreases n,
{
    if n > 0 {
        lemma_count_all_false((n - 1) as nat);
        assert(Seq::new(n, |i: int| false).drop_first() =~= Seq::new((n - 1) as nat, |i: int| false));
    }
}

/// Replaying the channel-open callback with one token and a valid remote id:
/// whichever call takes the store first leads to funding, and the other is
/// refused as an invalid or used token.
pub proof fn lemma_channel_callback_replay(
    s: Set<Seq<char>>,
    params: OpenChannelParams,
    first: OpenChannelStep,
    second: OpenChannelStep,
)
    requires
        s.contains(params.k1@),
        pubkey_parses(params.remoteid@),
        private_flag(params.private) is Some,
        open_channel_step_ok(first, s.contains(params.k1@), params),
        open_channel_step_ok(second, s.remove(params.k1@).contains(params.k1@), params),
    ensures
        first is Fund,
        second is Refused,
        is_refusal(second->Refused_0, Status::BadRequest, "Invalid or already used k1"@),
{
}

/// Auth with one token: a valid key and a signature that the node verifies
/// logs in; one that it does not verify is unauthorized; a second use of the
/// token, after either, is refused as invalid or expired.
pub proof fn lemma_auth_outcomes(
    s: Set<Seq<char>>,
    params: AuthParams,
    first: AuthStep,
    verified: bool,
    reply: AuthReply,
    second: AuthStep,
)
    requires
        s.contains(params.k1@),
        pubkey_parses(params.pubkey@),
        auth_step_ok(first, s.contains(params.k1@), params),
        auth_verdict_ok(NodeReply::Answer(verified), reply),
        auth_step_ok(second, s.remove(params.k1@).contains(params.k1@), params),
    ensures
        first is Check,
        first->Check_0.message@ == params.k1@,
        verified ==> reply is LoggedIn && reply->LoggedIn_0@ == "LOGGEDIN"@,
        !verified ==> reply is Refused && reply->Refused_0.status == Status::Unauthorized,
        second is Refused,
        is_refusal(second->Refused_0, Status::BadRequest, "Invalid or expired k1"@),
{
}

/// The bounds a withdraw offer advertises are the bounds its callback
/// enforces: an amount is accepted exactly when it lies between them.
pub proof fn lemma_advertised_bounds_are_enforced(
    q: WithdrawRequest,
    config: ServiceConfig,
    k1: Seq<char>,
    msat: u64,
)
    requires
        withdraw_request_matches(q, config, k1),
    ensures
        amount_in_bounds(msat) <==> q.min_withdrawable <= msat <= q.max_withdrawable,
{
}

/// `n` channel-open callbacks that race with one outstanding token, in the
/// order in which they take the store: the first passes the token check, so
/// at most that one leads to funding; every other is refused as an invalid
/// or used token.
pub proof fn lemma_racing_channel_callbacks(
    s: Set<Seq<char>>,
    k1: Seq<char>,
    calls: Seq<OpenChannelParams>,
    steps: Seq<OpenChannelStep>,
)
    requires
        s.contains(k1),
        calls.len() >= 1,
        steps.len() == calls.len(),
        forall|i: int| 0 <= i < calls.len() ==> (#[trigger] calls[i]).k1@ == k1,
        forall|i: int|
            0 <= i < calls.len() ==> open_channel_step_ok(
                #[trigger] steps[i],
                consume_results(s, k1, calls.len())[i],
                calls[i],
            ),
    ensures
        !(steps[0] is Refused && is_refusal(steps[0]->Refused_0, Status::BadRequest, "Invalid or already used k1"@)),
        forall|i: int| 1 <= i < steps.len() ==> (#[trigger] steps[i]) is Refused
            && is_refusal(steps[i]->Refused_0, Status::BadRequest, "Invalid or already used k1"@),
        forall|i: int| 1 <= i < steps.len() ==> !(#[trigger] steps[i] is Fund),
        !store_after_consumes(s, k1, calls.len()).contains(k1),
{
    lemma_first_consumer_wins(s, k1, calls.len());
    let r = consume_results(s, k1, calls.len());
    assert(r[0]);
    assert forall|i: int| 1 <= i < steps.len() implies !r[i] by {}
    reveal_strlit("Invalid or already used k1");
    reveal_strlit("Invalid node id: malformed public key");
    reveal_strlit("Invalid private flag: ");
    if steps[0] is Refused {
        // The other refusals differ from the token refusal at character 8.
        assert(steps[0]->Refused_0.reason@[8] != "Invalid or already used k1"@[8]);
    }
}

/// `n` withdraw callbacks that race with one outstanding token, in the order
/// in which they take the store: only the first goes on to decode its
/// invoice, so at most one payment can follow; every other is refused as an
/// invalid or used token.
pub proof fn lemma_racing_withdraw_callbacks(
    s: Set<Seq<char>>,
    k1: Seq<char>,
    calls: Seq<WithdrawParams>,
    steps: Seq<WithdrawStep>,
)
    requires
        s.contains(k1),
        calls.len() >= 1,
        steps.len() == calls.len(),
        forall|i: int| 0 <= i < calls.len() ==> (#[trigger] calls[i]).k1@ == k1,
        forall|i: int|
            0 <= i < calls.len() ==> withdraw_step_ok(
                #[trigger] steps[i],
                consume_results(s, k1, calls.len())[i],
                calls[i],
            ),
    ensures
        steps[0] is Decode,
        steps[0]->Decode_0@ == calls[0].pr@,
        forall|i: int| 1 <= i < steps.len() ==> (#[trigger] steps[i]) is Refused
            && is_refusal(steps[i]->Refused_0, Status::BadRequest, "Invalid or already used k1"@),
        !store_after_consumes(s, k1, calls.len()).contains(k1),
{
    lemma_first_consumer_wins(s, k1, calls.len());
    let r = consume_results(s, k1, calls.len());
    assert(r[0]);
    assert forall|i: int| 1 <= i < steps.len() implies !r[i] by {}
}

/// `n` auth callbacks that race with one outstanding token, in the order in
/// which they take the store: only the first can reach the signature check;
/// every other is refused as an invalid or expired token.
pub proof fn lemma_racing_auth_callbacks(
    s: Set<Seq<char>>,
    k1: Seq<char>,
    calls: Seq<AuthParams>,
    steps: Seq<AuthStep>,
)
    requires
        s.contains(k1),
        calls.len() >= 1,
        steps.len() == calls.len(),
        forall|i: int| 0 <= i < calls.len() ==> (#[trigger] calls[i]).k1@ == k1,
        forall|i: int|
            0 <= i < calls.len() ==> auth_step_ok(
                #[trigger] steps[i],
                consume_results(s, k1, calls.len())[i],
                calls[i],
            ),
    ensures
        pubkey_parses(calls[0].pubkey@) ==> steps[0] is Check,
        forall|i: int| 1 <= i < steps.len() ==> (#[trigger] steps[i]) is Refused
            && is_refusal(steps[i]->Refused_0, Status::BadRequest, "Invalid or expired k1"@),
        !store_after_consumes(s, k1, calls.len()).contains(k1),
{
    lemma_first_consumer_wins(s, k1, calls.len());
    let r = consume_results(s, k1, calls.len());
    assert(r[0]);
    assert forall|i: int| 1 <= i < steps.len() implies !r[i] by {}
}

} // verus!
