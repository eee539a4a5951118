//! The Goldilocks prime field: integers modulo `2^64 - 2^32 + 1`.
//!
//! An element is modelled by its canonical representative, an `int` in
//! `[0, ORDER)`. The arithmetic of every evaluation domain is stated over the
//! spec functions `fadd`, `fsub`, `fmul` and `fneg` of this module.

use vstd::arithmetic::div_mod::{
    lemma_add_mod_noop, lemma_mod_bound, lemma_mul_mod_noop, lemma_small_mod, lemma_sub_mod_noop,
};
use vstd::prelude::*;
use vstd::std_specs::cmp::PartialEqSpecImpl;

verus! {

/// The order of the field, `2^64 - 2^32 + 1`.
pub const ORDER: u64 = 0xFFFF_FFFF_0000_0001;

/// The sum of two field elements.
pub open spec fn fadd(a: int, b: int) -> int {
    (a + b) % (ORDER as int)
}

/// The difference of two field elements.
pub open spec fn fsub(a: int, b: int) -> int {
    (a - b) % (ORDER as int)
}

/// The product of two field elements.
pub open spec fn fmul(a: int, b: int) -> int {
    (a * b) % (ORDER as int)
}

/// The additive inverse of a field element.
pub open spec fn fneg(a: int) -> int {
    (-a) % (ORDER as int)
}

/// Whether `a` is the canonical representative of a field element.
pub open spec fn is_canonical(a: int) -> bool {
    0 <= a < ORDER as int
}

/// An element of the Goldilocks field. Any `u64` stands for its residue
/// modulo `ORDER`; two representations of one residue compare equal.
#[derive(Clone, Copy, Debug)]
pub struct GoldilocksField(pub u64);

impl View for GoldilocksField {
    type V = int;

    open spec fn view(&self) -> int {
        (self.0 as int) % (ORDER as int)
    }
}

impl DeepView for GoldilocksField {
    type V = int;

    open spec fn deep_view(&self) -> int {
        self@
    }
}

impl GoldilocksField {
    /// The element `0`.
    pub fn zero() -> (r: Self)
        ensures
            r@ == 0,
    {
        GoldilocksField(0)
    }

    /// The element `1`.
    pub fn one() -> (r: Self)
        ensures
            r@ == 1,
    {
        GoldilocksField(1)
    }

    /// The element that `n` stands for, reduced to its canonical form.
    pub fn from_noncanonical_u64(n: u64) -> (r: Self)
        ensures
            r@ == (n as int) % (ORDER as int),
            r.0 == r@,
    {
        let r = GoldilocksField(n % ORDER);
        proof {
            lemma_mod_bound(n as int, ORDER as int);
            lemma_small_mod((n % ORDER) as nat, ORDER as nat);
        }
        r
    }

    /// The element with canonical representative `n`.
    pub fn from_canonical_u64(n: u64) -> (r: Self)
        requires
            n < ORDER,
        ensures
            r@ == n,
    {
        proof {
            lemma_small_mod(n as nat, ORDER as nat);
        }
        GoldilocksField(n)
    }

    /// The canonical representative of this element.
    pub fn to_canonical_u64(&self) -> (n: u64)
        ensures
            n == self@,
            n < ORDER,
    {
        proof {
            lemma_mod_bound(self.0 as int, ORDER as int);
        }
        self.0 % ORDER
    }

    /// `self + rhs` in the field.
    pub fn add(self, rhs: Self) -> (r: Self)
        ensures
            r@ == fadd(self@, rhs@),
    {
        let wide: u128 = (self.0 as u128 + rhs.0 as u128) % (ORDER as u128);
        proof {
            lemma_mod_bound(self.0 as int + rhs.0 as int, ORDER as int);
            lemma_add_mod_noop(self.0 as int, rhs.0 as int, ORDER as int);
            lemma_small_mod(wide as nat, ORDER as nat);
        }
        GoldilocksField(wide as u64)
    }

    /// `self - rhs` in the field.
    pub fn sub(self, rhs: Self) -> (r: Self)
        ensures
            r@ == fsub(self@, rhs@),
    {
        let a: u64 = self.to_canonical_u64();
        let b: u64 = rhs.to_canonical_u64();
        let d: u64 = if a >= b {
            a - b
        } else {
            ORDER - (b - a)
        };
        proof {
            lemma_canonical_difference(a as int, b as int);
            lemma_small_mod(d as nat, ORDER as nat);
        }
        GoldilocksField(d)
    }

    /// `self * rhs` in the field.
    pub fn mul(self, rhs: Self) -> (r: Self)
        ensures
            r@ == fmul(self@, rhs@),
    {
        proof {
            assert(0 <= (self.0 as int) * (rhs.0 as int) <= 0xFFFF_FFFF_FFFF_FFFF
                * 0xFFFF_FFFF_FFFF_FFFF) by (nonlinear_arith)
                requires
                    0 <= self.0 as int <= 0xFFFF_FFFF_FFFF_FFFF,
                    0 <= rhs.0 as int <= 0xFFFF_FFFF_FFFF_FFFF,
            ;
        }
        let wide: u128 = (self.0 as u128 * rhs.0 as u128) % (ORDER as u128);
        proof {
            lemma_mod_bound(self.0 as int * rhs.0 as int, ORDER as int);
            lemma_mul_mod_noop(self.0 as int, rhs.0 as int, ORDER as int);
            lemma_small_mod(wide as nat, ORDER as nat);
        }
        GoldilocksField(wide as u64)
    }

    /// `-self` in the field.
    pub fn neg(self) -> (r: Self)
        ensures
            r@ == fneg(self@),
    {
        let a: u64 = self.to_canonical_u64();
        let d: u64 = if a == 0 {
            0
        } else {
            ORDER - a
        };
        proof {
            lemma_canonical_difference(0, a as int);
            lemma_small_mod(d as nat, ORDER as nat);
        }
        GoldilocksField(d)
    }
}

impl PartialEq for GoldilocksField {
    fn eq(&self, other: &Self) -> (r: bool) {
        self.to_canonical_u64() == other.to_canonical_u64()
    }
}

impl PartialEqSpecImpl for GoldilocksField {
    open spec fn obeys_eq_spec() -> bool {
        true
    }

    open spec fn eq_spec(&self, other: &Self) -> bool {
        self@ == other@
    }
}

impl Eq for GoldilocksField {

}

/// The difference of two canonical representatives, reduced: it is `a - b`
/// where that is not negative and `a - b + ORDER` where it is.
pub proof fn lemma_canonical_difference(a: int, b: int)
    requires
        is_canonical(a),
        is_canonical(b),
    ensures
        fsub(a, b) == if a >= b {
            a - b
        } else {
            a - b + ORDER as int
        },
{
    let p = ORDER as int;
    if a >= b {
        lemma_small_mod((a - b) as nat, p as nat);
    } else {
        lemma_small_mod((a - b + p) as nat, p as nat);
        vstd::arithmetic::div_mod::lemma_mod_add_multiples_vanish(a - b, p);
    }
}

/// Moving both operands of a difference on by steps changes the difference
/// by the difference of the steps: `((a + x) - (b + y)) - (a - b) = x - y`.
pub proof fn lemma_difference_of_shifted(a: int, x: int, b: int, y: int)
    ensures
        fsub(fsub(fadd(a, x), fadd(b, y)), fsub(a, b)) == fsub(x, y),
{
    let p = ORDER as int;
    lemma_sub_mod_noop(a + x, b + y, p);
    lemma_sub_mod_noop((a + x) - (b + y), a - b, p);
    assert(((a + x) - (b + y)) - (a - b) == x - y);
}

/// The difference of an element and itself is zero.
pub proof fn lemma_self_difference(a: int)
    ensures
        fsub(a, a) == 0,
{
    lemma_small_mod(0, ORDER as nat);
}

/// Field operations give canonical representatives.
pub proof fn lemma_ops_canonical(a: int, b: int)
    ensures
        is_canonical(fadd(a, b)),
        is_canonical(fsub(a, b)),
        is_canonical(fmul(a, b)),
        is_canonical(fneg(a)),
{
    lemma_mod_bound(a + b, ORDER as int);
    lemma_mod_bound(a - b, ORDER as int);
    lemma_mod_bound(a * b, ORDER as int);
    lemma_mod_bound(-a, ORDER as int);
}

} // verus!
