//! Small integer helpers shared by the CPU's flag computations.

use vstd::prelude::*;
use vstd::arithmetic::power2::{
    lemma2_to64, lemma_pow2_pos, lemma_pow2_strictly_increases, lemma_pow2_unfold, pow2,
};

verus! {

/// Whether adding `a` and `b` carries out of bit `bit`, i.e. the sum of their
/// low `bit + 1` bits does not fit in `bit + 1` bits.
pub open spec fn carries_out_of(bit: nat, a: int, b: int) -> bool {
    a % (pow2(bit + 1) as int) + b % (pow2(bit + 1) as int) >= pow2(bit + 1)
}

/// Sets every bit below the lowest set bit of `x`; for a power of two `x` the
/// result is the mask `2x - 1`, and for zero it is all ones.
pub fn activate_rightmost_zeros(x: u16) -> (r: u16)
    ensures
        x != 0 && x & ((x - 1) as u16) == 0 ==> r == 2 * x - 1,
        x == 0 ==> r == 0xffff,
{
    let r = x | x.wrapping_sub(1);
    assert(x != 0 && x & ((x - 1) as u16) == 0 ==> (x | ((x - 1) as u16)) == 2 * x - 1)
        by (bit_vector);
    assert(x == 0 ==> (x | 0xffffu16) == 0xffff) by (bit_vector);
    r
}

/// Whether `a + b` carries out of bit `bit` (bit 3 gives the half carry of a
/// byte, bit 11 that of a 16-bit word).
pub fn test_add_carry_bit(bit: usize, a: u16, b: u16) -> (r: bool)
    requires
        bit < 16,
    ensures
        r == carries_out_of(bit as nat, a as int, b as int),
{
    let mut modulus: u32 = 1;
    let mut i: usize = 0;
    proof {
        lemma2_to64();
    }
    while i <= bit
        invariant
            i <= bit + 1,
            bit < 16,
            modulus as nat == pow2(i as nat),
            modulus <= 0x10000,
        decreases bit + 1 - i,
    {
        proof {
            lemma_pow2_unfold((i + 1) as nat);
            lemma2_to64();
            if i < 16 {
                lemma_pow2_strictly_increases(i as nat, 16);
            }
        }
        modulus = modulus * 2;
        i = i + 1;
    }
    proof {
        lemma_pow2_pos((bit + 1) as nat);
    }
    (a as u32 % modulus) + (b as u32 % modulus) >= modulus
}

} // verus!
