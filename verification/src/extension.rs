//! The quadratic extension of the Goldilocks field, `F[X] / (X^2 - 7)`.
//!
//! An element `a + b X` is modelled by the pair `(a, b)` of canonical
//! representatives. Addition, subtraction and negation act on each
//! coordinate; multiplication reduces `X^2` to `7`.

use crate::field::{fadd, fmul, fneg, fsub, GoldilocksField};
use vstd::prelude::*;
use vstd::std_specs::cmp::PartialEqSpecImpl;

verus! {

/// The non-residue `W` with `X^2 = W` in the extension.
pub const W: u64 = 7;

/// The base element `a` seen as an element of the extension.
pub open spec fn embed(a: int) -> (int, int) {
    (a, 0)
}

/// The sum of two extension elements.
pub open spec fn ext_add(x: (int, int), y: (int, int)) -> (int, int) {
    (fadd(x.0, y.0), fadd(x.1, y.1))
}

/// The difference of two extension elements.
pub open spec fn ext_sub(x: (int, int), y: (int, int)) -> (int, int) {
    (fsub(x.0, y.0), fsub(x.1, y.1))
}

/// The additive inverse of an extension element.
pub open spec fn ext_neg(x: (int, int)) -> (int, int) {
    (fneg(x.0), fneg(x.1))
}

/// The product of two extension elements:
/// `(a + b X)(c + d X) = (ac + 7bd) + (ad + bc) X`.
pub open spec fn ext_mul(x: (int, int), y: (int, int)) -> (int, int) {
    (
        fadd(fmul(x.0, y.0), fmul(W as int, fmul(x.1, y.1))),
        fadd(fmul(x.0, y.1), fmul(x.1, y.0)),
    )
}

/// Each base element of `s` seen as an element of the extension.
pub open spec fn embed_seq(s: Seq<int>) -> Seq<(int, int)> {
    Seq::new(s.len(), |i: int| embed(s[i]))
}

/// An element of the quadratic extension, by its two coordinates.
#[derive(Clone, Copy, Debug)]
pub struct QuadraticExtension(pub [GoldilocksField; 2]);

impl View for QuadraticExtension {
    type V = (int, int);

    open spec fn view(&self) -> (int, int) {
        (self.0@[0]@, self.0@[1]@)
    }
}

impl DeepView for QuadraticExtension {
    type V = (int, int);

    open spec fn deep_view(&self) -> (int, int) {
        self@
    }
}

impl QuadraticExtension {
    /// The element `0`.
    pub fn zero() -> (r: Self)
        ensures
            r@ == (0int, 0int),
    {
        QuadraticExtension([GoldilocksField::zero(), GoldilocksField::zero()])
    }

    /// The element `1`.
    pub fn one() -> (r: Self)
        ensures
            r@ == (1int, 0int),
    {
        QuadraticExtension([GoldilocksField::one(), GoldilocksField::zero()])
    }

    /// The base element `a` seen as an element of the extension.
    pub fn from_basefield(a: GoldilocksField) -> (r: Self)
        ensures
            r@ == embed(a@),
    {
        QuadraticExtension([a, GoldilocksField::zero()])
    }

    /// The two coordinates `[a, b]` of `a + b X`.
    pub fn to_basefield_array(&self) -> (r: [GoldilocksField; 2])
        ensures
            r@[0]@ == self@.0,
            r@[1]@ == self@.1,
    {
        self.0
    }

    /// `self + rhs` in the extension.
    pub fn add(self, rhs: Self) -> (r: Self)
        ensures
            r@ == ext_add(self@, rhs@),
    {
        QuadraticExtension([self.0[0].add(rhs.0[0]), self.0[1].add(rhs.0[1])])
    }

    /// `self - rhs` in the extension.
    pub fn sub(self, rhs: Self) -> (r: Self)
        ensures
            r@ == ext_sub(self@, rhs@),
    {
        QuadraticExtension([self.0[0].sub(rhs.0[0]), self.0[1].sub(rhs.0[1])])
    }

    /// `-self` in the extension.
    pub fn neg(self) -> (r: Self)
        ensures
            r@ == ext_neg(self@),
    {
        QuadraticExtension([self.0[0].neg(), self.0[1].neg()])
    }

    /// `self * rhs` in the extension.
    pub fn mul(self, rhs: Self) -> (r: Self)
        ensures
            r@ == ext_mul(self@, rhs@),
    {
        let w = GoldilocksField::from_canonical_u64(W);
        let c0 = self.0[0].mul(rhs.0[0]).add(w.mul(self.0[1].mul(rhs.0[1])));
        let c1 = self.0[0].mul(rhs.0[1]).add(self.0[1].mul(rhs.0[0]));
        QuadraticExtension([c0, c1])
    }
}

impl PartialEq for QuadraticExtension {
    fn eq(&self, other: &Self) -> (r: bool) {
        self.0[0] == other.0[0] && self.0[1] == other.0[1]
    }
}

impl PartialEqSpecImpl for QuadraticExtension {
    open spec fn obeys_eq_spec() -> bool {
        true
    }

    open spec fn eq_spec(&self, other: &Self) -> bool {
        self@ == other@
    }
}

impl Eq for QuadraticExtension {

}

} // verus!
