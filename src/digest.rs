//! The outcome of a wager: the SHA-256 digest of the signature bytes, its
//! first sixteen bytes read as a little-endian integer, and that integer's
//! parity.

use vstd::prelude::*;

verus! {

/// The SHA-256 digest of a byte string.
pub uninterp spec fn sha256_of(data: Seq<u8>) -> Seq<u8>;

/// Relies on near_sdk::env::sha256: the SHA-256 digest of the bytes, handed
/// back as the 32 bytes of a `CryptoHash`.
#[verifier::external_body]
pub(crate) fn sha256(data: &[u8]) -> (r: Vec<u8>)
    ensures
        r@ == sha256_of(data@),
        r@.len() == 32,
{
    near_sdk::env::sha256(data)
}

/// The unsigned integer whose little-endian bytes are `b`.
pub open spec fn le_value(b: Seq<u8>) -> nat
    decreases b.len(),
{
    if b.len() == 0 {
        0
    } else {
        b[0] as nat + 256 * le_value(b.drop_first())
    }
}

/// The number of bytes of a digest that decide the outcome.
pub const PREFIX_LEN: usize = 16;

/// A digest is favourable when its first sixteen bytes, read as a
/// little-endian unsigned integer, are even.
pub open spec fn favorable_digest(d: Seq<u8>) -> bool {
    le_value(d.subrange(0, PREFIX_LEN as int)) % 2 == 0
}

/// 256 to the power `n`: one more than the largest value of `n` bytes.
pub open spec fn byte_span(n: nat) -> nat
    decreases n,
{
    if n == 0 {
        1
    } else {
        256 * byte_span((n - 1) as nat)
    }
}

proof fn lemma_le_value_bound(b: Seq<u8>)
    ensures
        le_value(b) < byte_span(b.len()),
    decreases b.len(),
{
    if b.len() > 0 {
        lemma_le_value_bound(b.drop_first());
        let rest = le_value(b.drop_first());
        let span = byte_span((b.len() - 1) as nat);
        assert(b[0] as nat + 256 * rest < 256 * span) by (nonlinear_arith)
            requires
                rest < span,
                b[0] < 256,
        ;
    }
}

proof fn lemma_byte_span_monotonic(m: nat, n: nat)
    requires
        m <= n,
    ensures
        byte_span(m) <= byte_span(n),
    decreases n,
{
    if m < n {
        lemma_byte_span_monotonic(m, (n - 1) as nat);
    }
}

/// The first sixteen bytes of `d` as a little-endian `u128`, assembled byte
/// by byte from the most significant end.
pub fn prefix_value(d: &[u8]) -> (r: u128)
    requires
        d@.len() >= PREFIX_LEN,
    ensures
        r as nat == le_value(d@.subrange(0, PREFIX_LEN as int)),
{
    let mut acc: u128 = 0;
    let mut i: usize = PREFIX_LEN;
    while i > 0
        invariant
            i <= PREFIX_LEN <= d@.len(),
            acc as nat == le_value(d@.subrange(i as int, PREFIX_LEN as int)),
        decreases i,
    {
        let ghost tail = d@.subrange(i as int, PREFIX_LEN as int);
        let ghost longer = d@.subrange(i - 1, PREFIX_LEN as int);
        proof {
            assert(longer.drop_first() =~= tail);
            lemma_le_value_bound(tail);
            lemma_byte_span_monotonic(tail.len(), 15);
            reveal_with_fuel(byte_span, 16);
            assert(byte_span(15) == 0x1000000000000000000000000000000nat);
        }
        i = i - 1;
        acc = acc * 256 + d[i] as u128;
    }
    assert(d@.subrange(0, PREFIX_LEN as int) =~= d@.subrange(i as int, PREFIX_LEN as int));
    acc
}

/// Whether a digest gives the favourable outcome.
pub fn is_favorable(d: &[u8]) -> (r: bool)
    requires
        d@.len() >= PREFIX_LEN,
    ensures
        r == favorable_digest(d@),
{
    prefix_value(d) % 2 == 0
}

} // verus!
