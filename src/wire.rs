use vstd::prelude::*;

verus! {

/// Largest payload a frame may declare: 100 MiB.
pub const MAX_FRAME_LEN: usize = 104857600;

/// The four bytes that write `n` (below 2^32) in big-endian order.
pub open spec fn be4(n: nat) -> Seq<u8> {
    seq![
        ((n / 16777216) % 256) as u8,
        ((n / 65536) % 256) as u8,
        ((n / 256) % 256) as u8,
        (n % 256) as u8,
    ]
}

/// The number that four big-endian bytes stand for.
pub open spec fn be4_value(s: Seq<u8>) -> nat {
    (s[0] as nat) * 16777216 + (s[1] as nat) * 65536 + (s[2] as nat) * 256 + (s[3] as nat)
}

/// The `k` bytes that write `n` in little-endian order (its low `k` bytes).
pub open spec fn le_bytes(n: nat, k: nat) -> Seq<u8>
    decreases k,
{
    if k == 0 {
        seq![]
    } else {
        seq![(n % 256) as u8] + le_bytes(n / 256, (k - 1) as nat)
    }
}

/// The number that a little-endian byte sequence stands for.
pub open spec fn le_value(s: Seq<u8>) -> nat
    decreases s.len(),
{
    if s.len() == 0 {
        0
    } else {
        (s[0] as nat) + 256 * le_value(s.drop_first())
    }
}

/// 256 to the power `k`.
pub open spec fn pow256(k: nat) -> nat
    decreases k,
{
    if k == 0 {
        1
    } else {
        256 * pow256((k - 1) as nat)
    }
}

/// Four big-endian bytes read back give the number they were written from.
pub proof fn lemma_be4_round_trip(n: nat)
    requires
        n < 4294967296,
    ensures
        be4(n).len() == 4,
        be4_value(be4(n)) == n,
{
    let a = n / 16777216;
    let r1 = n % 16777216;
    let b = r1 / 65536;
    let r2 = r1 % 65536;
    let c = r2 / 256;
    let d = r2 % 256;
    assert(n == a * 16777216 + r1 && r1 == b * 65536 + r2 && r2 == c * 256 + d) by (nonlinear_arith)
        requires
            a == n / 16777216,
            r1 == n % 16777216,
            b == r1 / 65536,
            r2 == r1 % 65536,
            c == r2 / 256,
            d == r2 % 256,
    ;
    assert(a < 256 && (n / 65536) % 256 == b && (n / 256) % 256 == c && n % 256 == d)
        by (nonlinear_arith)
        requires
            n < 4294967296,
            n == a * 16777216 + r1,
            r1 == b * 65536 + r2,
            r2 == c * 256 + d,
            0 <= r1 < 16777216,
            0 <= r2 < 65536,
            0 <= d < 256,
            0 <= c < 256,
            0 <= b < 256,
    ;
}

/// The little-endian encoding has `k` bytes.
pub proof fn lemma_le_bytes_len(n: nat, k: nat)
    ensures
        le_bytes(n, k).len() == k,
    decreases k,
{
    if k > 0 {
        lemma_le_bytes_len(n / 256, (k - 1) as nat);
    }
}

/// `k` little-endian bytes read back give the number they were written from.
pub proof fn lemma_le_round_trip(n: nat, k: nat)
    requires
        n < pow256(k),
    ensures
        le_value(le_bytes(n, k)) == n,
    decreases k,
{
    if k > 0 {
        let q = n / 256;
        assert(q < pow256((k - 1) as nat)) by (nonlinear_arith)
            requires
                n < 256 * pow256((k - 1) as nat),
                q == n / 256,
        ;
        lemma_le_round_trip(q, (k - 1) as nat);
        lemma_le_bytes_len(q, (k - 1) as nat);
        let s = le_bytes(n, k);
        assert(s.drop_first() =~= le_bytes(q, (k - 1) as nat));
        assert(n == (n % 256) + 256 * q) by (nonlinear_arith)
            requires
                q == n / 256,
        ;
    }
}

} // verus!
