//! Machine words and the bytes they are made of, least significant byte first
//! (the byte order of x86_64).

use vstd::prelude::*;

verus! {

/// 256 to the power `count`.
pub open spec fn pow256(count: nat) -> nat
    decreases count,
{
    if count == 0 {
        1
    } else {
        256 * pow256((count - 1) as nat)
    }
}

/// The number whose bytes, least significant first, are `bytes`.
pub open spec fn le_value(bytes: Seq<u8>) -> nat
    decreases bytes.len(),
{
    if bytes.len() == 0 {
        0
    } else {
        bytes[0] as nat + 256 * le_value(bytes.drop_first())
    }
}

/// The `count` low bytes of `value`, least significant first.
pub open spec fn le_bytes(value: nat, count: nat) -> Seq<u8>
    decreases count,
{
    if count == 0 {
        Seq::empty()
    } else {
        seq![(value % 256) as u8] + le_bytes(value / 256, (count - 1) as nat)
    }
}

/// The eight bytes of a machine word as they lie in memory.
pub open spec fn word_bytes(word: u64) -> Seq<u8> {
    le_bytes(word as nat, 8)
}

/// `le_bytes` yields exactly `count` bytes.
pub proof fn lemma_le_bytes_len(value: nat, count: nat)
    ensures
        le_bytes(value, count).len() == count,
    decreases count,
{
    if count > 0 {
        lemma_le_bytes_len(value / 256, (count - 1) as nat);
    }
}

/// A number made of `n` bytes is below 256 to the power `n`.
pub proof fn lemma_le_value_bound(bytes: Seq<u8>)
    ensures
        le_value(bytes) < pow256(bytes.len()),
    decreases bytes.len(),
{
    if bytes.len() > 0 {
        lemma_le_value_bound(bytes.drop_first());
    }
}

/// Reading back the bytes of a number gives the number, as far as the bytes
/// hold it.
pub proof fn lemma_le_value_of_le_bytes(value: nat, count: nat)
    ensures
        le_value(le_bytes(value, count)) == value % pow256(count),
    decreases count,
{
    if count == 0 {
    } else {
        let rest = le_bytes(value / 256, (count - 1) as nat);
        let all = le_bytes(value, count);
        lemma_le_value_of_le_bytes(value / 256, (count - 1) as nat);
        assert(all.drop_first() =~= rest);
        assert(all[0] == (value % 256) as u8);
        let p = pow256((count - 1) as nat);
        lemma_pow256_positive((count - 1) as nat);
        lemma_mod_split(value, p);
    }
}

/// `pow256` is never zero.
pub proof fn lemma_pow256_positive(count: nat)
    ensures
        pow256(count) > 0,
    decreases count,
{
    if count > 0 {
        lemma_pow256_positive((count - 1) as nat);
    }
}

/// The remainder by `256 * p` splits into the lowest byte and the remainder of
/// the rest by `p`.
proof fn lemma_mod_split(value: nat, p: nat)
    requires
        p > 0,
    ensures
        value % (256 * p) == value % 256 + 256 * ((value / 256) % p),
{
    let q = value / 256;
    let r = value % 256;
    assert(value == 256 * q + r);
    let qq = q / p;
    let qr = q % p;
    assert(q == p * qq + qr) by (nonlinear_arith)
        requires
            p > 0,
            qq == q / p,
            qr == q % p,
    ;
    assert(value == (256 * p) * qq + (256 * qr + r)) by (nonlinear_arith)
        requires
            value == 256 * q + r,
            q == p * qq + qr,
    ;
    assert(0 <= 256 * qr + r < 256 * p) by (nonlinear_arith)
        requires
            0 <= qr < p,
            0 <= r < 256,
    ;
    vstd::arithmetic::div_mod::lemma_fundamental_div_mod_converse(
        value as int,
        (256 * p) as int,
        qq as int,
        (256 * qr + r) as int,
    );
}

/// The bytes of a number that fits in them are the only bytes with that value.
pub proof fn lemma_le_bytes_of_le_value(bytes: Seq<u8>)
    ensures
        le_bytes(le_value(bytes), bytes.len()) == bytes,
    decreases bytes.len(),
{
    if bytes.len() == 0 {
        assert(le_bytes(le_value(bytes), 0) =~= bytes);
    } else {
        let rest = bytes.drop_first();
        lemma_le_bytes_of_le_value(rest);
        let v = le_value(bytes);
        assert(v % 256 == bytes[0] as nat);
        assert(v / 256 == le_value(rest));
        assert(le_bytes(v, bytes.len()) =~= bytes);
    }
}

/// A machine word is the value of its eight bytes.
pub proof fn lemma_word_bytes_value(word: u64)
    ensures
        word_bytes(word).len() == 8,
        le_value(word_bytes(word)) == word,
{
    lemma_le_bytes_len(word as nat, 8);
    lemma_le_value_of_le_bytes(word as nat, 8);
    assert(pow256(8) == 0x1_0000_0000_0000_0000) by {
        reveal_with_fuel(pow256, 9);
    }
}

/// Reads the number that `count` bytes hold from `offset` on, least
/// significant byte first.
pub fn read_le(raw: &[u8], offset: usize, count: usize) -> (value: u64)
    requires
        count <= 8,
        offset + count <= raw@.len(),
    ensures
        value == le_value(raw@.subrange(offset as int, offset + count)),
{
    let mut value: u64 = 0;
    let mut k: usize = count;
    let total: usize = raw.len();
    assert(raw@.subrange(offset + count, offset + count) =~= Seq::<u8>::empty());
    while k > 0
        invariant
            k <= count <= 8,
            offset + count <= total == raw@.len(),
            value == le_value(raw@.subrange(offset + k, offset + count)),
        decreases k,
    {
        let ghost tail = raw@.subrange(offset + k, offset + count);
        let ghost wider = raw@.subrange(offset + k - 1, offset + count);
        proof {
            lemma_le_value_bound(tail);
            assert(wider.drop_first() =~= tail);
            assert(wider[0] == raw@[offset + k - 1]);
            assert(pow256(7) == 0x1_0000_0000_0000_00) by {
                reveal_with_fuel(pow256, 8);
            }
            lemma_pow256_monotonic(tail.len(), 7);
        }
        k = k - 1;
        value = value * 256 + raw[offset + k] as u64;
    }
    value
}

/// `pow256` grows with its argument.
pub proof fn lemma_pow256_monotonic(a: nat, b: nat)
    requires
        a <= b,
    ensures
        pow256(a) <= pow256(b),
    decreases b,
{
    if a < b {
        lemma_pow256_monotonic(a, (b - 1) as nat);
    }
}

/// Appends the eight bytes of `word` to `out`, least significant first.
pub fn push_word_bytes(out: &mut Vec<u8>, word: u64)
    ensures
        final(out)@ == old(out)@ + word_bytes(word),
{
    let mut rest: u64 = word;
    let mut k: usize = 0;
    assert(le_bytes(word as nat, 8) =~= Seq::<u8>::empty() + le_bytes(rest as nat, 8));
    while k < 8
        invariant
            k <= 8,
            old(out)@ + word_bytes(word) == out@ + le_bytes(rest as nat, (8 - k) as nat),
        decreases 8 - k,
    {
        let ghost before = out@;
        let byte: u8 = (rest % 256) as u8;
        out.push(byte);
        assert(before + le_bytes(rest as nat, (8 - k) as nat) =~= out@ + le_bytes(
            (rest / 256) as nat,
            (8 - k - 1) as nat,
        ));
        rest = rest / 256;
        k = k + 1;
    }
    assert(out@ + le_bytes(rest as nat, 0) =~= out@);
}

} // verus!
