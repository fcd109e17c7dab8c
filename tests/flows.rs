use lnurl_flow::auth::{auth_challenge_for, auth_response, auth_verdict, AuthParams, AuthReply, AuthStep, MessageSignature, ZbaseSignature};
use lnurl_flow::channel::{
    channel_request_for, open_channel, read_flag, open_channel_result, request_channel, FundedChannel, OpenChannelParams,
    OpenChannelReply, OpenChannelStep, FUNDING_AMOUNT_SAT,
};
use lnurl_flow::reply::{NodeReply, Status};
use lnurl_flow::service::ServiceConfig;
use lnurl_flow::token::TokenStore;
use lnurl_flow::withdraw::{
    amount_verdict, request_withdraw, withdraw, withdraw_decoded, withdraw_request_for, WithdrawParams,
    WithdrawReply, WithdrawStep,
};

const KEY: &str = "0279be667ef9dcbbac55a06295ce870b07029bfcdb2dce28d959f2815b16f81798";

fn config() -> ServiceConfig {
    ServiceConfig::new(format!("{}@10.0.0.1:9735", KEY), "http://10.0.0.1:3000/".to_string())
}

fn funded() -> FundedChannel {
    FundedChannel {
        mindepth: Some(3),
        channel_id: "cid".to_string(),
        outnum: 1,
        tx: "rawtx".to_string(),
        txid: "txid".to_string(),
    }
}

fn channel_params(k1: &str, remoteid: &str, private: Option<&str>) -> OpenChannelParams {
    OpenChannelParams { remoteid: remoteid.to_string(), k1: k1.to_string(), private: private.map(|p| p.to_string()) }
}

fn refusal_of_step(step: OpenChannelStep) -> (u16, String) {
    match step {
        OpenChannelStep::Refused(r) => (r.status.code(), r.reason),
        OpenChannelStep::Fund(_) => panic!("expected a refusal"),
    }
}

#[test]
fn status_codes() {
    assert_eq!(Status::Success.code(), 200);
    assert_eq!(Status::BadRequest.code(), 400);
    assert_eq!(Status::Unauthorized.code(), 401);
    assert_eq!(Status::InternalError.code(), 500);
}

#[test]
fn channel_request_fields() {
    let mut store = TokenStore::new();
    let q = channel_request_for(&config(), &mut store, "T".to_string()).unwrap();
    assert_eq!(q.uri, format!("{}@10.0.0.1:9735", KEY));
    assert_eq!(q.callback, "http://10.0.0.1:3000/open-channel");
    assert_eq!(q.k1, "T");
    assert_eq!(q.tag, "channelRequest");
    assert!(store.contains("T"));
    assert!(channel_request_for(&config(), &mut store, "T".to_string()).is_none());
}

#[test]
fn random_channel_requests_differ() {
    let mut store = TokenStore::new();
    let a = request_channel(&config(), &mut store).unwrap();
    let b = request_channel(&config(), &mut store).unwrap();
    assert_ne!(a.k1, b.k1);
    assert!(store.contains(&a.k1));
    assert!(store.contains(&b.k1));
}

#[test]
fn end_to_end_channel_scenario() {
    let mut store = TokenStore::new();
    let q = request_channel(&config(), &mut store).unwrap();
    let params = channel_params(&q.k1, KEY, Some("0"));
    match open_channel(&mut store, &params) {
        OpenChannelStep::Fund(order) => {
            assert_eq!(order.amount_sat, 100_000);
            assert_eq!(order.amount_sat, FUNDING_AMOUNT_SAT);
            assert_eq!(order.announce, Some(true));
            assert_eq!(order.node_id.to_string(), KEY);
            assert_eq!(order.remoteid, KEY);
        }
        OpenChannelStep::Refused(_) => panic!("expected funding"),
    }
    match open_channel_result(NodeReply::Answer(funded())) {
        OpenChannelReply::Opened(c) => {
            assert_eq!(c.channel_id, "cid");
            assert_eq!(c.txid, "txid");
            assert_eq!(c.tx, "rawtx");
            assert_eq!(c.outnum, 1);
            assert_eq!(c.mindepth, Some(3));
        }
        OpenChannelReply::Refused(_) => panic!("expected an opened channel"),
    }
    let again = open_channel(&mut store, &params);
    assert_eq!(refusal_of_step(again), (400, "Invalid or already used k1".to_string()));
}

#[test]
fn private_channel_is_not_announced() {
    let mut store = TokenStore::new();
    store.issue("p".to_string());
    store.issue("q".to_string());
    match open_channel(&mut store, &channel_params("p", KEY, Some("1"))) {
        OpenChannelStep::Fund(order) => assert_eq!(order.announce, Some(false)),
        OpenChannelStep::Refused(_) => panic!("expected funding"),
    }
    match open_channel(&mut store, &channel_params("q", KEY, None)) {
        OpenChannelStep::Fund(order) => assert_eq!(order.announce, None),
        OpenChannelStep::Refused(_) => panic!("expected funding"),
    }
}

#[test]
fn bad_remote_id_burns_the_token() {
    let mut store = TokenStore::new();
    store.issue("k".to_string());
    let step = open_channel(&mut store, &channel_params("k", "not-a-key", Some("false")));
    assert_eq!(refusal_of_step(step), (400, "Invalid node id: malformed public key".to_string()));
    assert!(!store.contains("k"));
    let step = open_channel(&mut store, &channel_params("k", KEY, Some("true")));
    assert_eq!(refusal_of_step(step), (400, "Invalid or already used k1".to_string()));
}

#[test]
fn privacy_flag_texts() {
    assert_eq!(read_flag("0"), Some(false));
    assert_eq!(read_flag("false"), Some(false));
    assert_eq!(read_flag("1"), Some(true));
    assert_eq!(read_flag("true"), Some(true));
    assert_eq!(read_flag("yes"), None);
    assert_eq!(read_flag(""), None);
    let mut store = TokenStore::new();
    store.issue("f".to_string());
    store.issue("g".to_string());
    match open_channel(&mut store, &channel_params("f", KEY, Some("false"))) {
        OpenChannelStep::Fund(order) => assert_eq!(order.announce, Some(true)),
        OpenChannelStep::Refused(_) => panic!("expected funding"),
    }
    let step = open_channel(&mut store, &channel_params("g", KEY, Some("yes")));
    assert_eq!(refusal_of_step(step), (400, "Invalid private flag: yes".to_string()));
    assert!(!store.contains("g"));
}

#[test]
fn racing_channel_callbacks_fund_once() {
    let mut store = TokenStore::new();
    store.issue("r".to_string());
    let params = channel_params("r", KEY, Some("0"));
    let steps: Vec<OpenChannelStep> = (0..5).map(|_| open_channel(&mut store, &params)).collect();
    let funded = steps.iter().filter(|s| matches!(s, OpenChannelStep::Fund(_))).count();
    assert_eq!(funded, 1);
    assert!(matches!(steps[0], OpenChannelStep::Fund(_)));
    for step in steps.into_iter().skip(1) {
        assert_eq!(refusal_of_step(step), (400, "Invalid or already used k1".to_string()));
    }
}

#[test]
fn first_request_on_an_empty_store_succeeds() {
    assert!(request_channel(&config(), &mut TokenStore::new()).is_some());
    assert!(request_withdraw(&config(), &mut TokenStore::new()).is_some());
    assert!(lnurl_flow::auth::auth_challenge(&mut TokenStore::new()).is_some());
}

#[test]
fn truncated_remote_id_is_refused() {
    let mut store = TokenStore::new();
    store.issue("k".to_string());
    let step = open_channel(&mut store, &channel_params("k", &KEY[..65], None));
    assert_eq!(refusal_of_step(step), (400, "Invalid node id: malformed public key".to_string()));
}

#[test]
fn funding_failures() {
    match open_channel_result(NodeReply::Unexpected) {
        OpenChannelReply::Refused(r) => {
            assert_eq!(r.status.code(), 500);
            assert_eq!(r.reason, "Unexpected response type");
        }
        OpenChannelReply::Opened(_) => panic!("expected a refusal"),
    }
    match open_channel_result(NodeReply::Failed("no funds".to_string())) {
        OpenChannelReply::Refused(r) => {
            assert_eq!(r.status.code(), 500);
            assert_eq!(r.reason, "Failed to open channel: no funds");
        }
        OpenChannelReply::Opened(_) => panic!("expected a refusal"),
    }
}

fn amount_reason(a: Option<u64>) -> Result<u64, (u16, String)> {
    amount_verdict(a).map_err(|r| (r.status.code(), r.reason))
}

#[test]
fn withdraw_amount_bounds() {
    assert_eq!(
        amount_reason(Some(999)),
        Err((400, "Amount 999 msat below minimum 1000 msat".to_string()))
    );
    assert_eq!(amount_reason(Some(1_000)), Ok(1_000));
    assert_eq!(amount_reason(Some(500_000)), Ok(500_000));
    assert_eq!(amount_reason(Some(1_000_000)), Ok(1_000_000));
    assert_eq!(
        amount_reason(Some(1_000_001)),
        Err((400, "Amount 1000001 msat exceeds maximum 1000000 msat".to_string()))
    );
    assert_eq!(amount_reason(Some(0)), Err((400, "Amount 0 msat below minimum 1000 msat".to_string())));
    assert_eq!(amount_reason(None), Err((400, "Invoice has no amount".to_string())));
}

#[test]
fn withdraw_request_fields() {
    let mut store = TokenStore::new();
    let q = withdraw_request_for(&config(), &mut store, "W".to_string()).unwrap();
    assert_eq!(q.callback, "http://10.0.0.1:3000/withdraw");
    assert_eq!(q.k1, "W");
    assert_eq!(q.tag, "withdrawRequest");
    assert_eq!(q.default_description, "Withdrawal from service");
    assert_eq!(q.min_withdrawable, 1_000);
    assert_eq!(q.max_withdrawable, 1_000_000);
}

#[test]
fn end_to_end_withdraw_scenario() {
    let mut store = TokenStore::new();
    let q = request_withdraw(&config(), &mut store).unwrap();
    assert_eq!(q.min_withdrawable, 1_000);
    assert_eq!(q.max_withdrawable, 1_000_000);
    let params = WithdrawParams { k1: q.k1.clone(), pr: "lnbc10u1invoice".to_string() };
    let pr = match withdraw(&mut store, &params) {
        WithdrawStep::Decode(pr) => pr,
        WithdrawStep::Refused(_) => panic!("expected a decode step"),
    };
    assert_eq!(pr, "lnbc10u1invoice");
    match withdraw_decoded(pr, NodeReply::Answer(Some(1_000_000))) {
        WithdrawReply::Accepted(order) => {
            assert_eq!(order.bolt11, "lnbc10u1invoice");
            assert_eq!(order.amount_msat, 1_000_000);
            assert_eq!(order.max_fee_percent, 1);
            assert_eq!(order.retry_for_secs, 60);
        }
        WithdrawReply::Refused(_) => panic!("expected acceptance"),
    }
    match withdraw(&mut store, &params) {
        WithdrawStep::Refused(r) => {
            assert_eq!(r.status.code(), 400);
            assert_eq!(r.reason, "Invalid or already used k1");
        }
        WithdrawStep::Decode(_) => panic!("expected a refusal"),
    }
}

#[test]
fn withdraw_refusals_after_decoding() {
    let cases = vec![
        (NodeReply::Answer(None), "Invoice has no amount"),
        (NodeReply::Answer(Some(999)), "Amount 999 msat below minimum 1000 msat"),
        (NodeReply::Answer(Some(1_000_001)), "Amount 1000001 msat exceeds maximum 1000000 msat"),
    ];
    for (decoded, reason) in cases {
        match withdraw_decoded("pr".to_string(), decoded) {
            WithdrawReply::Refused(r) => {
                assert_eq!(r.status.code(), 400);
                assert_eq!(r.reason, reason);
            }
            WithdrawReply::Accepted(_) => panic!("expected a refusal"),
        }
    }
}

#[test]
fn failed_decode_is_an_internal_error() {
    match withdraw_decoded("pr".to_string(), NodeReply::Failed("bad bech32".to_string())) {
        WithdrawReply::Refused(r) => {
            assert_eq!(r.status.code(), 500);
            assert_eq!(r.reason, "Invalid invoice: bad bech32");
        }
        WithdrawReply::Accepted(_) => panic!("expected a refusal"),
    }
}

#[test]
fn consumed_token_is_not_issued_again_by_any_flow() {
    let mut store = TokenStore::new();
    assert!(channel_request_for(&config(), &mut store, "T".to_string()).is_some());
    assert!(store.validate_and_consume("T"));
    assert!(channel_request_for(&config(), &mut store, "T".to_string()).is_none());
    assert!(withdraw_request_for(&config(), &mut store, "T".to_string()).is_none());
    assert!(!store.contains("T"));
    assert!(!store.validate_and_consume("T"));
    let k1 = auth_challenge_for(&mut store, &[0x01, 0x02]).unwrap();
    assert!(store.validate_and_consume(&k1));
    assert!(auth_challenge_for(&mut store, &[0x01, 0x02]).is_none());
}

#[test]
fn unexpected_decode_answer_is_an_internal_error() {
    match withdraw_decoded("pr".to_string(), NodeReply::Unexpected) {
        WithdrawReply::Refused(r) => {
            assert_eq!(r.status.code(), 500);
            assert_eq!(r.reason, "Failed to decode invoice");
        }
        WithdrawReply::Accepted(_) => panic!("expected a refusal"),
    }
}

fn auth_params(k1: &str, sig: &str, pubkey: &str) -> AuthParams {
    AuthParams {
        k1: k1.to_string(),
        signature: ZbaseSignature { text: sig.to_string() },
        pubkey: pubkey.to_string(),
    }
}

fn auth_refusal(step: AuthStep) -> (u16, String) {
    match step {
        AuthStep::Refused(r) => (r.status.code(), r.reason),
        AuthStep::Check(_) => panic!("expected a refusal"),
    }
}

#[test]
fn auth_verification_outcomes() {
    let mut store = TokenStore::new();
    store.issue("c1".to_string());
    store.issue("c2".to_string());
    match auth_response(&mut store, &auth_params("c1", "d9zbase", KEY)) {
        AuthStep::Check(order) => {
            assert_eq!(order.message, "c1");
            assert_eq!(order.signature.text, "d9zbase");
            assert_eq!(order.pubkey.to_string(), KEY);
            assert_eq!(order.pubkey_text, KEY);
        }
        AuthStep::Refused(_) => panic!("expected a check"),
    }
    match auth_verdict(NodeReply::Answer(true)) {
        AuthReply::LoggedIn(event) => assert_eq!(event, "LOGGEDIN"),
        AuthReply::Refused(_) => panic!("expected a login"),
    }
    let step = auth_response(&mut store, &auth_params("c1", "d9zbase", KEY));
    assert_eq!(auth_refusal(step), (400, "Invalid or expired k1".to_string()));

    assert!(matches!(auth_response(&mut store, &auth_params("c2", "tampered", KEY)), AuthStep::Check(_)));
    match auth_verdict(NodeReply::Answer(false)) {
        AuthReply::Refused(r) => {
            assert_eq!(r.status.code(), 401);
            assert_eq!(r.reason, "Signature verification failed");
        }
        AuthReply::LoggedIn(_) => panic!("expected a refusal"),
    }
    let step = auth_response(&mut store, &auth_params("c2", "tampered", KEY));
    assert_eq!(auth_refusal(step), (400, "Invalid or expired k1".to_string()));
}

#[test]
fn auth_bad_pubkey_and_node_failures() {
    let mut store = TokenStore::new();
    store.issue("c".to_string());
    let step = auth_response(&mut store, &auth_params("c", "sig", "zz"));
    assert_eq!(auth_refusal(step), (400, "Invalid pubkey: malformed public key".to_string()));
    match auth_verdict(NodeReply::Unexpected) {
        AuthReply::Refused(r) => {
            assert_eq!(r.status.code(), 500);
            assert_eq!(r.reason, "Unexpected response from checkmessage");
        }
        AuthReply::LoggedIn(_) => panic!("expected a refusal"),
    }
    match auth_verdict(NodeReply::Failed("rpc down".to_string())) {
        AuthReply::Refused(r) => {
            assert_eq!(r.status.code(), 500);
            assert_eq!(r.reason, "Verification error: rpc down");
        }
        AuthReply::LoggedIn(_) => panic!("expected a refusal"),
    }
}

#[test]
fn only_the_zbase_form_is_sent() {
    let sig = MessageSignature {
        der_hex: "3044022000".to_string(),
        zbase: ZbaseSignature { text: "d9xyz".to_string() },
    };
    assert_eq!(sig.for_verification().text, "d9xyz");
}
