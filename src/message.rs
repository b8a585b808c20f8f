//! The canonical byte layout of a withdrawal authorisation.

use vstd::prelude::*;

verus! {

/// The `n` low-order bytes of `x`, least significant first.
pub open spec fn le_bytes(x: nat, n: nat) -> Seq<u8>
    decreases n,
{
    if n == 0 {
        Seq::empty()
    } else {
        seq![(x % 256) as u8] + le_bytes(x / 256, (n - 1) as nat)
    }
}

/// `256` to the power `n`: the number of values that `n` bytes can hold.
pub open spec fn byte_capacity(n: nat) -> nat
    decreases n,
{
    if n == 0 {
        1
    } else {
        256 * byte_capacity((n - 1) as nat)
    }
}

/// The eight little-endian bytes of a `u64`.
pub open spec fn u64_le(x: u64) -> Seq<u8> {
    le_bytes(x as nat, 8)
}

/// The message that the house signer signs to authorise a withdrawal:
/// the user's identity bytes, then the amount and the nonce, each as eight
/// little-endian bytes.
pub open spec fn withdrawal_message(user: Seq<u8>, amount: u64, nonce: u64) -> Seq<u8> {
    user + u64_le(amount) + u64_le(nonce)
}

/// Appends the eight little-endian bytes of `x` to `out`.
pub fn push_u64_le(out: &mut Vec<u8>, x: u64)
    ensures
        final(out)@ == old(out)@ + u64_le(x),
{
    let mut v: u64 = x;
    let mut i: usize = 0;
    while i < 8
        invariant
            i <= 8,
            out@ + le_bytes(v as nat, (8 - i) as nat) == old(out)@ + u64_le(x),
        decreases 8 - i,
    {
        let b: u8 = (v % 256) as u8;
        let ghost before = out@;
        let ghost rest = le_bytes((v / 256) as nat, (8 - i - 1) as nat);
        assert(le_bytes(v as nat, (8 - i) as nat) == seq![b] + rest);
        out.push(b);
        assert(out@ + rest == before + (seq![b] + rest));
        v = v / 256;
        i = i + 1;
    }
    assert(le_bytes(v as nat, 0) == Seq::<u8>::empty());
    assert(out@ + Seq::<u8>::empty() == out@);
}

/// Builds the canonical withdrawal message for `user`, `amount` and `nonce`.
pub fn build_withdrawal_message(user: &[u8; 32], amount: u64, nonce: u64) -> (r: Vec<u8>)
    ensures
        r@ == withdrawal_message(user@, amount, nonce),
        r@.len() == 48,
{
    let mut out: Vec<u8> = Vec::new();
    let mut i: usize = 0;
    while i < 32
        invariant
            i <= 32,
            user@.len() == 32,
            out@ == user@.subrange(0, i as int),
        decreases 32 - i,
    {
        out.push(user[i]);
        assert(user@.subrange(0, i as int + 1) == user@.subrange(0, i as int).push(user@[i as int]));
        i = i + 1;
    }
    assert(user@.subrange(0, 32) == user@);
    push_u64_le(&mut out, amount);
    push_u64_le(&mut out, nonce);
    proof {
        lemma_le_bytes_len(amount as nat, 8);
        lemma_le_bytes_len(nonce as nat, 8);
    }
    out
}

/// `le_bytes(x, n)` holds exactly `n` bytes.
pub proof fn lemma_le_bytes_len(x: nat, n: nat)
    ensures
        le_bytes(x, n).len() == n,
    decreases n,
{
    if n > 0 {
        lemma_le_bytes_len(x / 256, (n - 1) as nat);
    }
}

/// Two values below `256^n` with the same `n` low-order bytes are equal.
pub proof fn lemma_le_bytes_injective(x: nat, y: nat, n: nat)
    requires
        x < byte_capacity(n),
        y < byte_capacity(n),
        le_bytes(x, n) == le_bytes(y, n),
    ensures
        x == y,
    decreases n,
{
    if n > 0 {
        let m = (n - 1) as nat;
        let c = byte_capacity(m);
        assert(le_bytes(x, n) == seq![(x % 256) as u8] + le_bytes(x / 256, m));
        assert(le_bytes(y, n) == seq![(y % 256) as u8] + le_bytes(y / 256, m));
        assert(le_bytes(x, n)[0] == (x % 256) as u8);
        assert(le_bytes(y, n)[0] == (y % 256) as u8);
        assert(x % 256 == y % 256);
        lemma_le_bytes_len(x / 256, m);
        lemma_le_bytes_len(y / 256, m);
        assert(le_bytes(x / 256, m) == le_bytes(x, n).drop_first());
        assert(le_bytes(y / 256, m) == le_bytes(y, n).drop_first());
        assert(x / 256 < c) by (nonlinear_arith)
            requires x < 256 * c;
        assert(y / 256 < c) by (nonlinear_arith)
            requires y < 256 * c;
        lemma_le_bytes_injective(x / 256, y / 256, m);
        assert(x == 256 * (x / 256) + x % 256) by (nonlinear_arith);
        assert(y == 256 * (y / 256) + y % 256) by (nonlinear_arith);
    }
}

/// Every `u64` fits in eight bytes.
pub proof fn lemma_u64_fits_eight_bytes(x: u64)
    ensures
        (x as nat) < byte_capacity(8),
{
    reveal_with_fuel(byte_capacity, 9);
    assert(byte_capacity(8) == 0x1_0000_0000_0000_0000nat);
}

/// The canonical message determines the user, the amount and the nonce: two
/// authorisations that differ in any one of them are over different bytes.
pub proof fn lemma_withdrawal_message_injective(
    user1: Seq<u8>,
    amount1: u64,
    nonce1: u64,
    user2: Seq<u8>,
    amount2: u64,
    nonce2: u64,
)
    requires
        user1.len() == 32,
        user2.len() == 32,
        withdrawal_message(user1, amount1, nonce1) == withdrawal_message(user2, amount2, nonce2),
    ensures
        user1 == user2,
        amount1 == amount2,
        nonce1 == nonce2,
{
    let m1 = withdrawal_message(user1, amount1, nonce1);
    let m2 = withdrawal_message(user2, amount2, nonce2);
    lemma_le_bytes_len(amount1 as nat, 8);
    lemma_le_bytes_len(amount2 as nat, 8);
    lemma_le_bytes_len(nonce1 as nat, 8);
    lemma_le_bytes_len(nonce2 as nat, 8);
    assert(user1 == m1.subrange(0, 32));
    assert(user2 == m2.subrange(0, 32));
    assert(u64_le(amount1) == m1.subrange(32, 40));
    assert(u64_le(amount2) == m2.subrange(32, 40));
    assert(u64_le(nonce1) == m1.subrange(40, 48));
    assert(u64_le(nonce2) == m2.subrange(40, 48));
    lemma_u64_fits_eight_bytes(amount1);
    lemma_u64_fits_eight_bytes(amount2);
    lemma_u64_fits_eight_bytes(nonce1);
    lemma_u64_fits_eight_bytes(nonce2);
    lemma_le_bytes_injective(amount1 as nat, amount2 as nat, 8);
    lemma_le_bytes_injective(nonce1 as nat, nonce2 as nat, 8);
}

} // verus!
