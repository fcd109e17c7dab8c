use std::str::FromStr;
use rand::RngCore;
use vstd::prelude::*;

verus! {

#[verifier::external_type_specification]
#[verifier::external_body]
pub struct ExPublicKey(secp256k1::PublicKey);

/// Whether `s` is the hex of a valid public key, compressed or not.
pub uninterp spec fn pubkey_parses(s: Seq<char>) -> bool;

/// Relies on secp256k1's `PublicKey::from_str`: it reads 66 or 130 hex
/// digits as a compressed or uncompressed point, depends on the text alone,
/// and fails only with `Error::InvalidPublicKey`, shown as
/// "malformed public key".
#[verifier::external_body]
pub(crate) fn parse_public_key(s: &str) -> (r: Result<secp256k1::PublicKey, String>)
    ensures
        r is Ok == pubkey_parses(s@),
        r is Err ==> r->Err_0@ == "malformed public key"@,
        s@.len() != 66 && s@.len() != 130 ==> r is Err,
{
    match secp256k1::PublicKey::from_str(s) {
        Ok(k) => Ok(k),
        Err(e) => Err(e.to_string()),
    }
}

/// Relies on secp256k1's `constants::PUBLIC_KEY_SIZE`: a compressed public
/// key serializes to 33 bytes.
#[verifier::external_body]
pub(crate) fn compressed_key_size() -> (r: usize)
    ensures
        r == 33,
{
    secp256k1::constants::PUBLIC_KEY_SIZE
}

/// Relies on uuid's `Uuid::new_v4` and its hyphenated text form: a fresh
/// random identifier. Nothing is promised of its value.
#[verifier::external_body]
pub(crate) fn random_uuid_text() -> (r: String) {
    uuid::Uuid::new_v4().to_string()
}

/// Relies on rand's `thread_rng().fill_bytes`: 32 random bytes.
#[verifier::external_body]
pub(crate) fn random_bytes_32() -> (r: Vec<u8>)
    ensures
        r@.len() == 32,
{
    let mut b = [0u8; 32];
    rand::thread_rng().fill_bytes(&mut b);
    b.to_vec()
}

pub open spec fn is_digit(c: char) -> bool {
    48 <= (c as u32) && (c as u32) <= 57
}

/// Decimal value of a run of digits.
pub open spec fn digits_value(d: Seq<char>) -> nat
    decreases d.len(),
{
    if d.len() == 0 {
        0
    } else {
        (digits_value(d.drop_last()) * 10 + (d.last() as u32 - 48)) as nat
    }
}

/// `s` without one leading `+`.
pub open spec fn strip_plus(s: Seq<char>) -> Seq<char> {
    if s.len() > 0 && s[0] == '+' {
        s.drop_first()
    } else {
        s
    }
}

/// The value of one or more decimal digits, where it fits in 16 bits.
pub open spec fn digits_u16(d: Seq<char>) -> Option<u16> {
    if d.len() > 0 && (forall|i: int| 0 <= i < d.len() ==> is_digit(#[trigger] d[i])) && digits_value(d) <= 65535 {
        Some(digits_value(d) as u16)
    } else {
        None
    }
}

/// A 16-bit number written as an optional `+` and then one or more decimal
/// digits; `None` for any other text or a value above 65535.
pub open spec fn port_of(s: Seq<char>) -> Option<u16> {
    digits_u16(strip_plus(s))
}

/// A digit run's value is at least that of any of its prefixes.
proof fn lemma_digits_prefix(d: Seq<char>, k: int)
    requires
        0 <= k <= d.len(),
        forall|i: int| 0 <= i < d.len() ==> is_digit(#[trigger] d[i]),
    ensures
        digits_value(d.subrange(0, k)) <= digits_value(d),
    decreases d.len(),
{
    if k < d.len() {
        let p = d.drop_last();
        lemma_digits_prefix(p, k);
        assert(p.subrange(0, k) =~= d.subrange(0, k));
    } else {
        assert(d.subrange(0, k) =~= d);
    }
}

/// Reads a port number the way `u16::from_str` does: an optional `+`, then
/// decimal digits only, within the type's range.
pub fn parse_port(s: &str) -> (r: Option<u16>)
    ensures
        r == port_of(s@),
{
    let n = s.unicode_len();
    let start: usize = if n > 0 && s.get_char(0) == '+' { 1 } else { 0 };
    let ghost d = strip_plus(s@);
    assert(d =~= s@.subrange(start as int, n as int));
    if start == n {
        return None;
    }
    let mut v: u32 = 0;
    let mut i: usize = start;
    while i < n
        invariant
            n == s@.len(),
            start <= i <= n,
            d == strip_plus(s@),
            d =~= s@.subrange(start as int, n as int),
            v <= 65535,
            v as nat == digits_value(d.subrange(0, i - start)),
            forall|j: int| 0 <= j < i - start ==> is_digit(#[trigger] d[j]),
        decreases n - i,
    {
        let c = s.get_char(i);
        assert(d[i - start] == c);
        let cv = c as u32;
        if cv < 48 || cv > 57 {
            assert(!is_digit(d[i - start]));
            assert(!(forall|j: int| 0 <= j < d.len() ==> is_digit(#[trigger] d[j])));
            assert(digits_u16(d) is None);
            return None;
        }
        let ghost q = d.subrange(0, i - start + 1);
        proof {
            assert(q.drop_last() =~= d.subrange(0, i - start));
            assert(q.last() == c);
        }
        v = v * 10 + (cv - 48);
        assert(v as nat == digits_value(q));
        if v > 65535 {
            proof {
                if forall|j: int| 0 <= j < d.len() ==> is_digit(#[trigger] d[j]) {
                    lemma_digits_prefix(d, i - start + 1);
                    assert(digits_value(d) > 65535);
                }
                assert(digits_u16(d) is None);
            }
            return None;
        }
        i = i + 1;
    }
    assert(d.subrange(0, i - start) =~= d);
    assert(digits_u16(d) == Some(v as u16));
    Some(v as u16)
}

} // verus!
