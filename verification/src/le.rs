//! Numbers written as little-endian bytes.
use vstd::arithmetic::power::pow;
use vstd::prelude::*;

verus! {

/// `n` little-endian bytes of `v` (the high part of `v` that does not fit is dropped).
pub open spec fn le_bytes(v: nat, n: nat) -> Seq<u8>
    decreases n,
{
    if n == 0 {
        Seq::empty()
    } else {
        seq![(v % 256) as u8] + le_bytes(v / 256, (n - 1) as nat)
    }
}

/// `256` to the power `n`.
pub open spec fn pow256(n: nat) -> nat
    decreases n,
{
    if n == 0 {
        1
    } else {
        256 * pow256((n - 1) as nat)
    }
}

/// The number that little-endian bytes write.
pub open spec fn le_value(s: Seq<u8>) -> nat
    decreases s.len(),
{
    if s.len() == 0 {
        0
    } else {
        s[0] as nat + 256 * le_value(s.drop_first())
    }
}

pub proof fn lemma_pow256_is_pow(n: nat)
    ensures
        pow256(n) == pow(256, n),
    decreases n,
{
    reveal(pow);
    if n > 0 {
        lemma_pow256_is_pow((n - 1) as nat);
    }
}

pub proof fn lemma_pow256_increases(a: nat, b: nat)
    requires
        a <= b,
    ensures
        pow256(a) <= pow256(b),
    decreases b,
{
    if a < b {
        lemma_pow256_increases(a, (b - 1) as nat);
    }
}

/// `n` little-endian bytes of a number are `n` bytes long.
pub proof fn lemma_le_bytes_len(v: nat, n: nat)
    ensures
        le_bytes(v, n).len() == n,
    decreases n,
{
    if n > 0 {
        lemma_le_bytes_len(v / 256, (n - 1) as nat);
    }
}

/// `n` bytes write a number below `256` to the power `n`.
pub proof fn lemma_le_value_bound(s: Seq<u8>)
    ensures
        le_value(s) < pow256(s.len()),
    decreases s.len(),
{
    if s.len() > 0 {
        lemma_le_value_bound(s.drop_first());
    }
}

/// Writing a number in `n` little-endian bytes and reading them gives the number
/// back, when it is below `256` to the power `n`.
pub proof fn lemma_le_value_of_bytes(v: nat, n: nat)
    requires
        v < pow256(n),
    ensures
        le_value(le_bytes(v, n)) == v,
    decreases n,
{
    if n > 0 {
        let s = le_bytes(v, n);
        lemma_le_bytes_len(v, n);
        assert(s.drop_first() =~= le_bytes(v / 256, (n - 1) as nat));
        lemma_le_value_of_bytes(v / 256, (n - 1) as nat);
    }
}

/// Reading little-endian bytes and writing the number in as many bytes gives the
/// bytes back.
pub proof fn lemma_le_bytes_of_value(s: Seq<u8>)
    ensures
        le_bytes(le_value(s), s.len()) == s,
    decreases s.len(),
{
    if s.len() > 0 {
        lemma_le_bytes_of_value(s.drop_first());
        let v = le_value(s);
        assert(v % 256 == s[0] as nat);
        assert(v / 256 == le_value(s.drop_first()));
        assert(le_bytes(v, s.len()) =~= seq![s[0]] + s.drop_first());
        assert(seq![s[0]] + s.drop_first() =~= s);
    }
}

/// Reads the `count` little-endian bytes of `bytes` from `start` on, `count` at most 8.
pub fn read_le(bytes: &[u8], start: usize, count: usize) -> (value: u64)
    requires
        count <= 8,
        start + count <= bytes.len(),
    ensures
        value as nat == le_value(bytes@.subrange(start as int, start + count)),
{
    proof {
        reveal_with_fuel(pow256, 9);
        assert(pow256(8) == 0x1_0000_0000_0000_0000);
    }
    let end = start + count;
    let mut value: u64 = 0;
    let mut i: usize = end;
    while i > start
        invariant
            start <= i <= end,
            end == start + count,
            count <= 8,
            end <= bytes@.len(),
            pow256(8) == u64::MAX as nat + 1,
            value as nat == le_value(bytes@.subrange(i as int, end as int)),
        decreases i,
    {
        let ghost tail = bytes@.subrange(i as int, end as int);
        let ghost longer = bytes@.subrange(i - 1, end as int);
        proof {
            assert(longer.drop_first() =~= tail);
            lemma_le_value_bound(longer);
            lemma_pow256_increases(longer.len(), 8);
        }
        value = value * 256 + bytes[i - 1] as u64;
        i = i - 1;
    }
    value
}

} // verus!
