//! Big-endian encodings of integers, as they enter a digest.

use vstd::prelude::*;

verus! {

/// 256 to the power `k`.
pub open spec fn pow256(k: nat) -> nat
    decreases k,
{
    if k == 0 {
        1
    } else {
        256 * pow256((k - 1) as nat)
    }
}

/// The `width` low-order base-256 digits of `value`, most significant first.
pub open spec fn be_bytes(value: nat, width: nat) -> Seq<u8> {
    Seq::new(width, |i: int| ((value / pow256((width - 1 - i) as nat)) % 256) as u8)
}

/// The unsigned 128-bit number with the same bits as `value` in two's
/// complement.
pub open spec fn twos_complement(value: i128) -> nat {
    if value >= 0 {
        value as nat
    } else {
        (value + 0x1_0000_0000_0000_0000_0000_0000_0000_0000) as nat
    }
}

/// The eight bytes of `value`, most significant first.
pub open spec fn u64_be_bytes(value: u64) -> Seq<u8> {
    be_bytes(value as nat, 8)
}

/// The sixteen bytes of `value` in two's complement, most significant first.
pub open spec fn i128_be_bytes(value: i128) -> Seq<u8> {
    be_bytes(twos_complement(value), 16)
}

pub proof fn lemma_pow256_positive(k: nat)
    ensures
        pow256(k) > 0,
    decreases k,
{
    if k > 0 {
        lemma_pow256_positive((k - 1) as nat);
        assert(256 * pow256((k - 1) as nat) > 0) by (nonlinear_arith)
            requires
                pow256((k - 1) as nat) > 0,
        ;
    }
}

/// Dropping one more base-256 digit divides once more by 256.
pub proof fn lemma_pow256_step(value: nat, k: nat)
    ensures
        (value / pow256(k)) / 256 == value / pow256(k + 1),
{
    lemma_pow256_positive(k);
    vstd::arithmetic::div_mod::lemma_div_denominator(value as int, pow256(k) as int, 256);
    assert(pow256(k + 1) == 256 * pow256(k));
    assert(pow256(k) * 256 == 256 * pow256(k)) by (nonlinear_arith);
}

/// Appends the `width` low-order bytes of `value` to `data`, most
/// significant first.
pub fn push_be_bytes(data: &mut Vec<u8>, value: u128, width: usize)
    requires
        width <= 16,
    ensures
        final(data)@ == old(data)@ + be_bytes(value as nat, width as nat),
{
    let mut digits: Vec<u8> = Vec::new();
    let mut rest: u128 = value;
    let mut k: usize = 0;
    proof {
        assert(pow256(0) == 1);
    }
    while k < width
        invariant
            k <= width,
            digits.len() == k,
            rest == value as nat / pow256(k as nat),
            forall|j: int| 0 <= j < k ==> digits@[j] == ((value as nat / pow256(j as nat)) % 256) as u8,
        decreases width - k,
    {
        proof {
            lemma_pow256_step(value as nat, k as nat);
        }
        digits.push((rest % 256) as u8);
        rest = rest / 256;
        k += 1;
    }
    let ghost before = data@;
    let ghost wanted = be_bytes(value as nat, width as nat);
    let mut i: usize = width;
    while i > 0
        invariant
            i <= width,
            digits.len() == width,
            wanted == be_bytes(value as nat, width as nat),
            forall|j: int| 0 <= j < width ==> digits@[j] == ((value as nat / pow256(j as nat)) % 256) as u8,
            data@ == before + wanted.subrange(0, width - i),
        decreases i,
    {
        i -= 1;
        data.push(digits[i]);
        proof {
            let at = width - 1 - i;
            assert(wanted[at] == digits@[i as int]);
            assert(data@ =~= before + wanted.subrange(0, at + 1));
        }
    }
    proof {
        assert(wanted.subrange(0, width as int) =~= wanted);
    }
}

/// Appends the eight bytes of `value`, most significant first.
pub fn push_u64_be(data: &mut Vec<u8>, value: u64)
    ensures
        final(data)@ == old(data)@ + u64_be_bytes(value),
{
    push_be_bytes(data, value as u128, 8);
}

/// Appends the sixteen bytes of `value` in two's complement, most
/// significant first.
pub fn push_i128_be(data: &mut Vec<u8>, value: i128)
    ensures
        final(data)@ == old(data)@ + i128_be_bytes(value),
{
    let bits: u128 = if value >= 0 {
        value as u128
    } else {
        u128::MAX - ((-(value + 1)) as u128)
    };
    push_be_bytes(data, bits, 16);
}

} // verus!
