//! Unsigned 256-bit integers with wrapping arithmetic.
//!
//! A value is stored as four 64-bit limbs, least significant first.  Its
//! mathematical value is the view `@`, a natural number below 2^256.  All
//! ledger arithmetic wraps modulo 2^256.

use vstd::prelude::*;
use vstd::arithmetic::div_mod::lemma_fundamental_div_mod;
use vstd::arithmetic::div_mod::lemma_mod_multiples_vanish;
use vstd::arithmetic::div_mod::lemma_small_mod;

verus! {

/// 2^256, the modulus of all wrapping arithmetic in the ledger.
pub open spec fn u256_modulus() -> nat {
    0x1_00000000_00000000_00000000_00000000_00000000_00000000_00000000_00000000nat
}

/// An unsigned 256-bit integer: four 64-bit limbs, least significant first.
#[derive(Clone, Copy, PartialEq, Eq, Structural, Debug)]
pub struct U256 {
    pub limb0: u64,
    pub limb1: u64,
    pub limb2: u64,
    pub limb3: u64,
}

impl View for U256 {
    type V = nat;

    open spec fn view(&self) -> nat {
        self.limb0 as nat + self.limb1 as nat * 0x1_0000_0000_0000_0000nat
            + self.limb2 as nat * 0x1_00000000_00000000_00000000_00000000nat
            + self.limb3 as nat * 0x1_00000000_00000000_00000000_00000000_00000000_00000000nat
    }
}

/// The value of any `U256` lies below 2^256.
pub proof fn lemma_view_bound(v: U256)
    ensures
        v@ < u256_modulus(),
{
}

impl U256 {
    /// Embeds a 64-bit value.
    pub fn from_u64(value: u64) -> (r: U256)
        ensures
            r@ == value as nat,
    {
        U256 { limb0: value, limb1: 0, limb2: 0, limb3: 0 }
    }

    /// Addition modulo 2^256, by a limb-wise carry chain.
    pub fn wrapping_add(self, other: U256) -> (r: U256)
        ensures
            r@ == (self@ + other@) % u256_modulus(),
    {
        let s0: u128 = self.limb0 as u128 + other.limb0 as u128;
        let r0: u64 = (s0 % 0x1_0000_0000_0000_0000u128) as u64;
        let c1: u128 = s0 / 0x1_0000_0000_0000_0000u128;
        proof {
            lemma_fundamental_div_mod(s0 as int, 0x1_0000_0000_0000_0000int);
        }
        let s1: u128 = self.limb1 as u128 + other.limb1 as u128 + c1;
        let r1: u64 = (s1 % 0x1_0000_0000_0000_0000u128) as u64;
        let c2: u128 = s1 / 0x1_0000_0000_0000_0000u128;
        proof {
            lemma_fundamental_div_mod(s1 as int, 0x1_0000_0000_0000_0000int);
        }
        let s2: u128 = self.limb2 as u128 + other.limb2 as u128 + c2;
        let r2: u64 = (s2 % 0x1_0000_0000_0000_0000u128) as u64;
        let c3: u128 = s2 / 0x1_0000_0000_0000_0000u128;
        proof {
            lemma_fundamental_div_mod(s2 as int, 0x1_0000_0000_0000_0000int);
        }
        let s3: u128 = self.limb3 as u128 + other.limb3 as u128 + c3;
        let r3: u64 = (s3 % 0x1_0000_0000_0000_0000u128) as u64;
        let c4: u128 = s3 / 0x1_0000_0000_0000_0000u128;
        proof {
            lemma_fundamental_div_mod(s3 as int, 0x1_0000_0000_0000_0000int);
        }
        let r = U256 { limb0: r0, limb1: r1, limb2: r2, limb3: r3 };
        proof {
            assert(self@ + other@ == r@ + c4 as nat * u256_modulus());
            lemma_view_bound(r);
            lemma_mod_multiples_vanish(c4 as int, r@ as int, u256_modulus() as int);
            lemma_small_mod(r@, u256_modulus());
        }
        r
    }

    /// Strict comparison of the mathematical values.
    pub fn lt(&self, other: &U256) -> (r: bool)
        ensures
            r == (self@ < other@),
    {
        let r = if self.limb3 != other.limb3 {
            self.limb3 < other.limb3
        } else if self.limb2 != other.limb2 {
            self.limb2 < other.limb2
        } else if self.limb1 != other.limb1 {
            self.limb1 < other.limb1
        } else {
            self.limb0 < other.limb0
        };
        proof {
            if r {
                lemma_limbs_lt(*self, *other);
            } else if !(self.limb3 == other.limb3 && self.limb2 == other.limb2
                && self.limb1 == other.limb1 && self.limb0 == other.limb0) {
                lemma_limbs_lt(*other, *self);
            }
        }
        r
    }
}

/// A value whose limbs are smaller from the most significant limb down is the
/// smaller value.
proof fn lemma_limbs_lt(a: U256, b: U256)
    requires
        a.limb3 < b.limb3 || (a.limb3 == b.limb3 && a.limb2 < b.limb2) || (a.limb3 == b.limb3
            && a.limb2 == b.limb2 && a.limb1 < b.limb1) || (a.limb3 == b.limb3 && a.limb2
            == b.limb2 && a.limb1 == b.limb1 && a.limb0 < b.limb0),
    ensures
        a@ < b@,
{
}

/// The sum of a sequence of values as an unbounded natural number.
pub open spec fn sum_values(s: Seq<U256>) -> nat
    decreases s.len(),
{
    if s.len() == 0 {
        0
    } else {
        sum_values(s.drop_last()) + s.last()@
    }
}

} // verus!
