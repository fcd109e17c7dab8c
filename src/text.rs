use vstd::prelude::*;

verus! {

/// The sixteen lower-case hexadecimal digits, in order.
pub open spec fn hex_digits() -> Seq<char> {
    seq!['0', '1', '2', '3', '4', '5', '6', '7', '8', '9', 'a', 'b', 'c', 'd', 'e', 'f']
}

/// Two lower-case hex digits per byte, high nibble first.
pub open spec fn hex_of(b: Seq<u8>) -> Seq<char>
    decreases b.len(),
{
    if b.len() == 0 {
        Seq::empty()
    } else {
        let last = b[b.len() - 1];
        hex_of(b.drop_last()) + seq![hex_digits()[(last / 16) as int], hex_digits()[(last % 16) as int]]
    }
}

/// Decimal digits of `n`, without leading zeros.
pub open spec fn decimal_of(n: nat) -> Seq<char>
    decreases n,
{
    if n < 10 {
        seq![hex_digits()[n as int]]
    } else {
        decimal_of(n / 10) + seq![hex_digits()[(n % 10) as int]]
    }
}

/// The one-character string of digit `d`.
fn digit(d: u8) -> (r: String)
    requires
        d < 16,
    ensures
        r@ == seq![hex_digits()[d as int]],
{
    let table = "0123456789abcdef";
    proof {
        reveal_strlit("0123456789abcdef");
    }
    assert(table@ =~= hex_digits());
    let one = table.substring_ascii(d as usize, d as usize + 1);
    let r = String::from_str(one);
    assert(r@ =~= seq![hex_digits()[d as int]]);
    r
}

/// Lower-case hex encoding of `bytes`.
pub fn hex_encode(bytes: &[u8]) -> (r: String)
    ensures
        r@ == hex_of(bytes@),
{
    let mut r = String::new();
    let mut i: usize = 0;
    while i < bytes.len()
        invariant
            i <= bytes@.len(),
            r@ == hex_of(bytes@.subrange(0, i as int)),
        decreases bytes@.len() - i,
    {
        let b = bytes[i];
        let hi = digit(b / 16);
        let lo = digit(b % 16);
        r.append(hi.as_str());
        r.append(lo.as_str());
        proof {
            let next = bytes@.subrange(0, i + 1);
            assert(next.drop_last() =~= bytes@.subrange(0, i as int));
            assert(next[next.len() - 1] == b);
        }
        i = i + 1;
    }
    assert(bytes@.subrange(0, bytes@.len() as int) =~= bytes@);
    r
}

/// Decimal rendering of `n`.
pub fn decimal(n: u128) -> (r: String)
    ensures
        r@ == decimal_of(n as nat),
    decreases n,
{
    if n < 10 {
        digit(n as u8)
    } else {
        let mut r = decimal(n / 10);
        let d = digit((n % 10) as u8);
        r.append(d.as_str());
        r
    }
}

/// `a` followed by `b`.
pub fn join(a: &str, b: &str) -> (r: String)
    ensures
        r@ == a@ + b@,
{
    let mut r = String::from_str(a);
    r.append(b);
    r
}

} // verus!
