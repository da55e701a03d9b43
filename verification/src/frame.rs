//! Websocket frames as the gateway and its clients see them, and the
//! big-endian codec of the heartbeat timestamp carried in binary frames.
use vstd::prelude::*;

verus! {

/// A websocket frame. A text frame carries the result of decoding its JSON
/// payload as a `T`: `None` when the text did not decode.
pub enum Frame<T> {
    Text(Option<T>),
    Binary(Vec<u8>),
    Ping,
    Pong,
    Close,
    Other,
}

/// 256 to the power `n`.
pub open spec fn pow256(n: nat) -> nat
    decreases n,
{
    if n == 0 { 1 } else { 256 * pow256((n - 1) as nat) }
}

/// The unsigned integer that the bytes `b` spell in big-endian order.
pub open spec fn be_value(b: Seq<u8>) -> nat
    decreases b.len(),
{
    if b.len() == 0 { 0 } else { be_value(b.drop_last()) * 256 + b.last() as nat }
}

/// The `n` big-endian bytes of `u` (the low `n` bytes when `u` is larger).
pub open spec fn be_bytes(u: nat, n: nat) -> Seq<u8>
    decreases n,
{
    if n == 0 { Seq::empty() } else { be_bytes(u / 256, (n - 1) as nat).push((u % 256) as u8) }
}

/// The two's-complement bit pattern of a 64-bit signed integer, as unsigned.
pub open spec fn i64_bits(t: int) -> nat {
    if t >= 0 { t as nat } else { (t + 0x1_0000_0000_0000_0000) as nat }
}

/// The 64-bit signed integer whose two's-complement bit pattern is `u`.
pub open spec fn i64_of_bits(u: nat) -> int {
    if u >= 0x8000_0000_0000_0000 { u - 0x1_0000_0000_0000_0000 } else { u as int }
}

/// What `i64::to_be_bytes` gives for `t`.
pub open spec fn i64_be_bytes(t: int) -> Seq<u8> {
    be_bytes(i64_bits(t), 8)
}

/// What `i64::from_be_bytes` gives for eight bytes `b`.
pub open spec fn i64_from_be(b: Seq<u8>) -> int {
    i64_of_bits(be_value(b))
}

proof fn lemma_pow256_8()
    ensures
        pow256(8) == 0x1_0000_0000_0000_0000,
{
    reveal_with_fuel(pow256, 9);
}

proof fn lemma_be_value_bound(b: Seq<u8>)
    ensures
        be_value(b) < pow256(b.len()),
    decreases b.len(),
{
    if b.len() > 0 {
        lemma_be_value_bound(b.drop_last());
        let p = pow256((b.len() - 1) as nat);
        let v = be_value(b.drop_last());
        let l = b.last() as nat;
        assert(v * 256 + l < p * 256) by (nonlinear_arith)
            requires v < p, l < 256;
    }
}

proof fn lemma_be_bytes_len(u: nat, n: nat)
    ensures
        be_bytes(u, n).len() == n,
    decreases n,
{
    if n > 0 {
        lemma_be_bytes_len(u / 256, (n - 1) as nat);
    }
}

proof fn lemma_be_value_of_bytes(u: nat, n: nat)
    requires
        u < pow256(n),
    ensures
        be_value(be_bytes(u, n)) == u,
    decreases n,
{
    if n > 0 {
        let q = u / 256;
        let p = pow256((n - 1) as nat);
        assert(q < p) by (nonlinear_arith)
            requires u < 256 * p, q == u / 256;
        lemma_be_value_of_bytes(q, (n - 1) as nat);
        let s = be_bytes(q, (n - 1) as nat).push((u % 256) as u8);
        assert(s.drop_last() =~= be_bytes(q, (n - 1) as nat));
        assert(q * 256 + u % 256 == u) by (nonlinear_arith)
            requires q == u / 256;
    }
}

/// Eight big-endian bytes always spell a signed 64-bit integer.
pub proof fn lemma_i64_from_be_range(b: Seq<u8>)
    requires
        b.len() == 8,
    ensures
        i64::MIN <= i64_from_be(b) <= i64::MAX,
{
    lemma_pow256_8();
    lemma_be_value_bound(b);
}

/// Decoding the big-endian bytes of a signed 64-bit integer gives it back.
pub proof fn lemma_i64_be_roundtrip(t: i64)
    ensures
        i64_be_bytes(t as int).len() == 8,
        i64_from_be(i64_be_bytes(t as int)) == t as int,
{
    lemma_pow256_8();
    lemma_be_bytes_len(i64_bits(t as int), 8);
    lemma_be_value_of_bytes(i64_bits(t as int), 8);
}

/// The eight bytes of `t` in big-endian order, as `t.to_be_bytes()`.
pub fn i64_to_be(t: i64) -> (b: Vec<u8>)
    ensures
        b@ == i64_be_bytes(t as int),
        b@.len() == 8,
{
    let u: u64 = if t >= 0 {
        t as u64
    } else {
        let shifted: u64 = (t as i128 + 0x8000_0000_0000_0000i128) as u64;
        shifted + 0x8000_0000_0000_0000u64
    };
    assert(u as nat == i64_bits(t as int));
    proof {
        lemma_be_bytes_len(u as nat, 8);
    }
    be_bytes_exec(u, 8)
}

fn be_bytes_exec(u: u64, n: usize) -> (b: Vec<u8>)
    ensures
        b@ == be_bytes(u as nat, n as nat),
    decreases n,
{
    if n == 0 {
        Vec::new()
    } else {
        let mut b = be_bytes_exec(u / 256, n - 1);
        b.push((u % 256) as u8);
        b
    }
}

/// The signed integer spelled by eight big-endian bytes, as `i64::from_be_bytes`.
pub fn i64_from_be_bytes(b: &[u8]) -> (t: i64)
    requires
        b@.len() == 8,
    ensures
        t as int == i64_from_be(b@),
{
    let mut acc: u64 = 0;
    let mut i: usize = 0;
    proof {
        lemma_pow256_8();
    }
    while i < 8
        invariant
            b@.len() == 8,
            i <= 8,
            acc as nat == be_value(b@.take(i as int)),
            acc < pow256(i as nat),
            pow256(8) == 0x1_0000_0000_0000_0000,
        decreases 8 - i,
    {
        proof {
            let p = pow256(i as nat);
            let x = b[i as int] as nat;
            assert(acc * 256 + x < p * 256) by (nonlinear_arith)
                requires acc < p, x < 256;
            lemma_pow_mono(i as nat + 1, 8);
            assert(b@.take(i + 1).drop_last() =~= b@.take(i as int));
        }
        acc = acc * 256 + b[i] as u64;
        i = i + 1;
    }
    assert(b@.take(8) =~= b@);
    if acc < 0x8000_0000_0000_0000u64 {
        acc as i64
    } else {
        let low: i64 = (acc - 0x8000_0000_0000_0000u64) as i64;
        low - 0x4000_0000_0000_0000i64 - 0x4000_0000_0000_0000i64
    }
}

proof fn lemma_pow_mono(a: nat, b: nat)
    requires
        a <= b,
    ensures
        pow256(a) <= pow256(b),
    decreases b,
{
    if a < b {
        lemma_pow_mono(a, (b - 1) as nat);
    }
}

} // verus!
