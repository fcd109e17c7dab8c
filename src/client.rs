use vstd::prelude::*;
use crate::auth::ZbaseSignature;
use crate::primitives::{compressed_key_size, parse_port, parse_public_key, port_of, pubkey_parses};
use crate::text::{decimal, decimal_of, join};

verus! {

/// Index of the first `c` in `s`.
pub open spec fn first_index(s: Seq<char>, c: char) -> Option<nat>
    decreases s.len(),
{
    if s.len() == 0 {
        None
    } else if s[0] == c {
        Some(0)
    } else {
        match first_index(s.drop_first(), c) {
            Some(i) => Some(i + 1),
            None => None,
        }
    }
}

proof fn lemma_first_index(s: Seq<char>, c: char, i: int)
    requires
        0 <= i <= s.len(),
        forall|j: int| 0 <= j < i ==> s[j] != c,
    ensures
        i < s.len() && s[i] == c ==> first_index(s, c) == Some(i as nat),
        i == s.len() ==> first_index(s, c) is None,
    decreases i,
{
    if i > 0 {
        lemma_first_index(s.drop_first(), c, i - 1);
    }
}

/// Index of the first `c` in `s`.
fn find_char(s: &str, c: char) -> (r: Option<usize>)
    ensures
        match r {
            Some(i) => first_index(s@, c) == Some(i as nat) && i < s@.len(),
            None => first_index(s@, c) is None,
        },
{
    let n = s.unicode_len();
    let mut i: usize = 0;
    while i < n
        invariant
            n == s@.len(),
            i <= n,
            forall|j: int| 0 <= j < i ==> s@[j] != c,
        decreases n - i,
    {
        if s.get_char(i) == c {
            proof {
                lemma_first_index(s@, c, i as int);
            }
            return Some(i);
        }
        i = i + 1;
    }
    proof {
        lemma_first_index(s@, c, i as int);
    }
    None
}

/// `s` cut at its only `@`: the text before and the text after. `None` where
/// `s` holds no `@` or more than one.
pub open spec fn at_split(s: Seq<char>) -> Option<(Seq<char>, Seq<char>)> {
    match first_index(s, '@') {
        None => None,
        Some(i) => {
            let rest = s.subrange((i + 1) as int, s.len() as int);
            if first_index(rest, '@') is Some {
                None
            } else {
                Some((s.subrange(0, i as int), rest))
            }
        },
    }
}

/// `host:port` cut at its first `:`: the host, and the port text up to any
/// further `:`. `None` where there is no `:`.
pub open spec fn host_port(s: Seq<char>) -> Option<(Seq<char>, Seq<char>)> {
    match first_index(s, ':') {
        None => None,
        Some(i) => {
            let after = s.subrange((i + 1) as int, s.len() as int);
            let port = match first_index(after, ':') {
                Some(k) => after.subrange(0, k as int),
                None => after,
            };
            Some((s.subrange(0, i as int), port))
        },
    }
}

/// Why a node URI was refused.
pub enum NodeUriError {
    /// Not exactly one `@`.
    Malformed,
    /// The key part is no public key; the parser's text.
    BadPubkey(String),
    /// No `:` after the host.
    MissingPort,
    /// The port is no 16-bit number.
    BadPort,
}

/// A peer to connect to. `host` is still to be read as an IPv4 address.
pub struct PeerAddress {
    pub pubkey: secp256k1::PublicKey,
    /// The text `pubkey` was read from.
    pub pubkey_text: String,
    pub host: String,
    pub port: u16,
}

/// The spec of `parse_node_uri`.
pub open spec fn parse_node_uri_ok(uri: Seq<char>, r: Result<PeerAddress, NodeUriError>) -> bool {
    match at_split(uri) {
        None => r is Err && r->Err_0 is Malformed,
        Some((key, rest)) => if !pubkey_parses(key) {
            r is Err && r->Err_0 is BadPubkey && r->Err_0->BadPubkey_0@ == "malformed public key"@
        } else {
            match host_port(rest) {
                None => r is Err && r->Err_0 is MissingPort,
                Some((host, port_text)) => match port_of(port_text) {
                    None => r is Err && r->Err_0 is BadPort,
                    Some(port) => {
                        &&& r is Ok
                        &&& r->Ok_0.pubkey_text@ == key
                        &&& r->Ok_0.host@ == host
                        &&& r->Ok_0.port == port
                    },
                },
            }
        },
    }
}

/// Reads a node URI of the form `<pubkey>@<host>:<port>`.
pub fn parse_node_uri(uri: &str) -> (r: Result<PeerAddress, NodeUriError>)
    ensures
        parse_node_uri_ok(uri@, r),
{
    let n = uri.unicode_len();
    let at = match find_char(uri, '@') {
        Some(i) => i,
        None => return Err(NodeUriError::Malformed),
    };
    let key = uri.substring_char(0, at);
    let rest = uri.substring_char(at + 1, n);
    if find_char(rest, '@').is_some() {
        return Err(NodeUriError::Malformed);
    }
    let pubkey = match parse_public_key(key) {
        Ok(k) => k,
        Err(e) => return Err(NodeUriError::BadPubkey(e)),
    };
    let m = rest.unicode_len();
    let colon = match find_char(rest, ':') {
        Some(j) => j,
        None => return Err(NodeUriError::MissingPort),
    };
    let host = rest.substring_char(0, colon);
    let after = rest.substring_char(colon + 1, m);
    let port_text = match find_char(after, ':') {
        Some(k) => after.substring_char(0, k),
        None => after,
    };
    match parse_port(port_text) {
        Some(port) => Ok(PeerAddress {
            pubkey,
            pubkey_text: String::from_str(key),
            host: String::from_str(host),
            port,
        }),
        None => Err(NodeUriError::BadPort),
    }
}

/// `<pubkey>@<address>`, the form in which a node is named.
pub fn node_uri(pubkey_hex: &str, address: &str) -> (r: String)
    ensures
        r@ == pubkey_hex@ + "@"@ + address@,
{
    let mut r = join(pubkey_hex, "@");
    r.append(address);
    r
}

/// Length of a compressed public key in hex digits.
pub open spec fn key_hex_len() -> nat {
    66
}

/// The remote id to send for a node URI: its first 66 characters, the hex of
/// a compressed public key, without the `@host:port` that follows.
pub fn remote_id(node_uri: &str) -> (r: String)
    requires
        node_uri@.len() >= key_hex_len(),
    ensures
        r@ == node_uri@.subrange(0, key_hex_len() as int),
{
    let len = compressed_key_size() * 2;
    String::from_str(node_uri.substring_char(0, len))
}

/// `s` without the `/` characters that end it.
pub open spec fn trim_slashes(s: Seq<char>) -> Seq<char>
    decreases s.len(),
{
    if s.len() > 0 && s[s.len() - 1] == '/' {
        trim_slashes(s.drop_last())
    } else {
        s
    }
}

fn trim_end_slashes(s: &str) -> (r: &str)
    ensures
        r@ == trim_slashes(s@),
{
    let mut end = s.unicode_len();
    assert(s@.subrange(0, s@.len() as int) =~= s@);
    while end > 0 && s.get_char(end - 1) == '/'
        invariant
            end <= s@.len(),
            trim_slashes(s@.subrange(0, end as int)) == trim_slashes(s@),
        decreases end,
    {
        assert(s@.subrange(0, end as int).drop_last() =~= s@.subrange(0, end - 1));
        end = end - 1;
    }
    s.substring_char(0, end)
}

/// The URL of `endpoint` under the server `base`.
pub fn endpoint_url(base: &str, endpoint: &str) -> (r: String)
    ensures
        r@ == trim_slashes(base@) + "/"@ + endpoint@,
{
    let mut r = join(trim_end_slashes(base), "/");
    r.append(endpoint);
    r
}

/// The channel-open callback URL; the channel is asked to be public.
pub fn open_channel_url(callback: &str, remote_id: &str, k1: &str) -> (r: String)
    ensures
        r@ == callback@ + "?remoteid="@ + remote_id@ + "&k1="@ + k1@ + "&private=0"@,
{
    let mut r = join(callback, "?remoteid=");
    r.append(remote_id);
    r.append("&k1=");
    r.append(k1);
    r.append("&private=0");
    r
}

/// The withdraw callback URL for the invoice `pr`.
pub fn withdraw_callback_url(callback: &str, k1: &str, pr: &str) -> (r: String)
    ensures
        r@ == callback@ + "?k1="@ + k1@ + "&pr="@ + pr@,
{
    let mut r = join(callback, "?k1=");
    r.append(k1);
    r.append("&pr=");
    r.append(pr);
    r
}

/// The auth callback URL. Only the zbase form of the signature can be sent.
pub fn auth_response_url(base: &str, k1: &str, signature: &ZbaseSignature, pubkey: &str) -> (r: String)
    ensures
        r@ == trim_slashes(base@) + "/auth-response?k1="@ + k1@ + "&signature="@ + signature.text@
            + "&pubkey="@ + pubkey@,
{
    let mut r = join(trim_end_slashes(base), "/auth-response?k1=");
    r.append(k1);
    r.append("&signature=");
    r.append(signature.text.as_str());
    r.append("&pubkey=");
    r.append(pubkey);
    r
}

/// Whether a callback's `status` field reports success.
pub fn accepted(status: &str) -> (r: bool)
    ensures
        r == (status@ == "OK"@),
{
    let given = String::from_str(status);
    let ok = String::from_str("OK");
    given == ok
}

/// How long an invoice made for a withdrawal stays payable, in seconds.
pub const INVOICE_EXPIRY_SECS: u64 = 600;

/// The invoice the client asks its node for.
pub struct InvoiceOrder {
    pub amount_msat: u64,
    pub label: String,
    pub description: String,
    pub expiry_secs: u64,
}

/// The invoice for an offer whose largest amount is `max_withdrawable`: the
/// whole of it, labelled by the time `nanos` in nanoseconds, described as the
/// offer says or else as an LNURL withdrawal.
pub fn invoice_order(max_withdrawable: u64, default_description: &Option<String>, nanos: u128) -> (r: InvoiceOrder)
    ensures
        r.amount_msat == max_withdrawable,
        r.label@ == "lnurl-withdraw-"@ + decimal_of(nanos as nat),
        r.description@ == match default_description {
            Some(d) => d@,
            None => "LNURL withdraw"@,
        },
        r.expiry_secs == INVOICE_EXPIRY_SECS,
{
    let label = join("lnurl-withdraw-", decimal(nanos).as_str());
    let description = match default_description {
        Some(d) => d.clone(),
        None => String::from_str("LNURL withdraw"),
    };
    InvoiceOrder { amount_msat: max_withdrawable, label, description, expiry_secs: INVOICE_EXPIRY_SECS }
}

} // verus!
