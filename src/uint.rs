//! Unsigned 256-bit integers, as four 64-bit limbs.

use stylus_sdk::alloy_primitives::U256;
use vstd::prelude::*;

verus! {

/// The weight of one limb: 2^64.
pub open spec fn limb_base() -> nat {
    0x1_0000_0000_0000_0000nat
}

/// 2^256: every arithmetic result wraps around this.
pub open spec fn modulus() -> nat {
    limb_base() * limb_base() * limb_base() * limb_base()
}

/// An unsigned 256-bit integer, least significant limb first.
#[derive(Clone, Copy, Debug, PartialEq, Eq, Structural)]
pub struct Uint256 {
    pub w0: u64,
    pub w1: u64,
    pub w2: u64,
    pub w3: u64,
}

impl Uint256 {
    /// The number this value stands for.
    pub open spec fn value(self) -> nat {
        self.w0 as nat + limb_base() * (self.w1 as nat + limb_base() * (self.w2 as nat
            + limb_base() * self.w3 as nat))
    }

    pub open spec fn spec_zero() -> Uint256 {
        Uint256 { w0: 0, w1: 0, w2: 0, w3: 0 }
    }

    pub fn zero() -> (r: Uint256)
        ensures
            r == Uint256::spec_zero(),
            r.value() == 0,
    {
        Uint256 { w0: 0, w1: 0, w2: 0, w3: 0 }
    }

    pub fn from_u64(x: u64) -> (r: Uint256)
        ensures
            r.value() == x as nat,
            r == (Uint256 { w0: x, w1: 0, w2: 0, w3: 0 }),
    {
        Uint256 { w0: x, w1: 0, w2: 0, w3: 0 }
    }

    /// Only the all-zero limbs stand for zero.
    pub proof fn lemma_zero_iff(self)
        ensures
            (self.value() == 0) <==> (self == Uint256::spec_zero()),
    {
        let b = limb_base();
        let t3 = self.w3 as nat;
        let t2 = self.w2 as nat + b * t3;
        let t1 = self.w1 as nat + b * t2;
        assert(b * t3 >= 0 && b * t2 >= 0 && b * t1 >= 0) by (nonlinear_arith)
            requires b > 0, t3 >= 0, t2 >= 0, t1 >= 0;
        if self.value() == 0 {
            assert(b * t1 == 0);
            assert(t1 == 0) by (nonlinear_arith) requires b * t1 == 0, b > 0;
            assert(b * t2 == 0);
            assert(t2 == 0) by (nonlinear_arith) requires b * t2 == 0, b > 0;
            assert(b * t3 == 0);
            assert(t3 == 0) by (nonlinear_arith) requires b * t3 == 0, b > 0;
        }
    }

    pub fn is_zero(&self) -> (r: bool)
        ensures
            r == (self.value() == 0),
    {
        proof {
            self.lemma_zero_iff();
        }
        self.w0 == 0 && self.w1 == 0 && self.w2 == 0 && self.w3 == 0
    }

    /// Relies on ruint's `<` on `Uint<256, 4>`, which orders by numeric value.
    #[verifier::external_body]
    pub fn lt(&self, other: &Uint256) -> (r: bool)
        ensures
            r == (self.value() < other.value()),
    {
        U256::from_limbs([self.w0, self.w1, self.w2, self.w3]) < U256::from_limbs(
            [other.w0, other.w1, other.w2, other.w3],
        )
    }

    /// Relies on ruint's `*` on `Uint<256, 4>` (its `wrapping_mul`): the product modulo 2^256.
    #[verifier::external_body]
    pub fn wrapping_mul(&self, other: &Uint256) -> (r: Uint256)
        ensures
            r.value() == (self.value() * other.value()) % modulus(),
    {
        let p = U256::from_limbs([self.w0, self.w1, self.w2, self.w3]) * U256::from_limbs(
            [other.w0, other.w1, other.w2, other.w3],
        );
        let l = p.into_limbs();
        Uint256 { w0: l[0], w1: l[1], w2: l[2], w3: l[3] }
    }

    /// Relies on ruint's `/` on `Uint<256, 4>` (its `wrapping_div`): the quotient rounded
    /// down; it panics on a zero divisor.
    #[verifier::external_body]
    pub fn div(&self, other: &Uint256) -> (r: Uint256)
        requires
            other.value() != 0,
        ensures
            r.value() == self.value() / other.value(),
    {
        let q = U256::from_limbs([self.w0, self.w1, self.w2, self.w3]) / U256::from_limbs(
            [other.w0, other.w1, other.w2, other.w3],
        );
        let l = q.into_limbs();
        Uint256 { w0: l[0], w1: l[1], w2: l[2], w3: l[3] }
    }

    /// Relies on ruint's `%` on `Uint<256, 4>` (its `wrapping_rem`): the remainder; it
    /// panics on a zero divisor.
    #[verifier::external_body]
    pub fn rem(&self, other: &Uint256) -> (r: Uint256)
        requires
            other.value() != 0,
        ensures
            r.value() == self.value() % other.value(),
    {
        let m = U256::from_limbs([self.w0, self.w1, self.w2, self.w3]) % U256::from_limbs(
            [other.w0, other.w1, other.w2, other.w3],
        );
        let l = m.into_limbs();
        Uint256 { w0: l[0], w1: l[1], w2: l[2], w3: l[3] }
    }
}

} // verus!
