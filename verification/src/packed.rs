//! Packed field batches: a fixed number of base-field elements that are
//! computed on together, lane by lane.
//!
//! A packed value is modelled by the sequence of its lanes. Every packed
//! operation is the scalar operation applied in each lane, so evaluating a
//! gate on a packed value is evaluating it on each lane's row.

use crate::field::{fadd, fmul, fneg, fsub, GoldilocksField};
use vstd::prelude::*;

verus! {

/// `a + b`, lane by lane.
pub open spec fn lanes_add(a: Seq<int>, b: Seq<int>) -> Seq<int> {
    Seq::new(a.len(), |l: int| fadd(a[l], b[l]))
}

/// `a - b`, lane by lane.
pub open spec fn lanes_sub(a: Seq<int>, b: Seq<int>) -> Seq<int> {
    Seq::new(a.len(), |l: int| fsub(a[l], b[l]))
}

/// `a * b`, lane by lane.
pub open spec fn lanes_mul(a: Seq<int>, b: Seq<int>) -> Seq<int> {
    Seq::new(a.len(), |l: int| fmul(a[l], b[l]))
}

/// `-a`, lane by lane.
pub open spec fn lanes_neg(a: Seq<int>) -> Seq<int> {
    Seq::new(a.len(), |l: int| fneg(a[l]))
}

/// A field type that holds `spec_width()` base-field elements and computes on
/// all of them at once. The base field itself is the packing of width one.
pub trait PackedField: Copy {
    /// The number of lanes.
    spec fn spec_width() -> nat;

    /// The lanes of this value, each by its canonical representative.
    spec fn lanes(&self) -> Seq<int>;

    /// Every value has exactly `spec_width()` lanes.
    proof fn lemma_lanes_len(&self)
        ensures
            self.lanes().len() == Self::spec_width(),
    ;

    /// The number of lanes.
    fn width() -> (w: usize)
        ensures
            w == Self::spec_width(),
    ;

    /// The packed value whose lanes are the elements of `s`, in order.
    fn from_slice(s: &[GoldilocksField]) -> (r: Self)
        requires
            s@.len() == Self::spec_width(),
        ensures
            r.lanes() == s.deep_view(),
    ;

    /// The element in lane `l`.
    fn lane(&self, l: usize) -> (r: GoldilocksField)
        requires
            l < Self::spec_width(),
        ensures
            r@ == self.lanes()[l as int],
    ;

    /// The packed value that holds `x` in every lane.
    fn broadcast(x: GoldilocksField) -> (r: Self)
        ensures
            r.lanes() == Seq::new(Self::spec_width(), |l: int| x@),
    ;

    /// `self + rhs`, lane by lane.
    fn add(self, rhs: Self) -> (r: Self)
        ensures
            r.lanes() == lanes_add(self.lanes(), rhs.lanes()),
    ;

    /// `self - rhs`, lane by lane.
    fn sub(self, rhs: Self) -> (r: Self)
        ensures
            r.lanes() == lanes_sub(self.lanes(), rhs.lanes()),
    ;

    /// `self * rhs`, lane by lane.
    fn mul(self, rhs: Self) -> (r: Self)
        ensures
            r.lanes() == lanes_mul(self.lanes(), rhs.lanes()),
    ;

    /// `-self`, lane by lane.
    fn neg(self) -> (r: Self)
        ensures
            r.lanes() == lanes_neg(self.lanes()),
    ;
}

impl PackedField for GoldilocksField {
    open spec fn spec_width() -> nat {
        1
    }

    open spec fn lanes(&self) -> Seq<int> {
        seq![self@]
    }

    proof fn lemma_lanes_len(&self) {
    }

    fn width() -> (w: usize) {
        1
    }

    fn from_slice(s: &[GoldilocksField]) -> (r: Self) {
        let r = s[0];
        assert(r.lanes() =~= s.deep_view());
        r
    }

    fn lane(&self, l: usize) -> (r: GoldilocksField) {
        *self
    }

    fn broadcast(x: GoldilocksField) -> (r: Self) {
        assert(x.lanes() =~= Seq::new(1, |l: int| x@));
        x
    }

    fn add(self, rhs: Self) -> (r: Self) {
        let r = GoldilocksField::add(self, rhs);
        assert(r.lanes() =~= lanes_add(self.lanes(), rhs.lanes()));
        r
    }

    fn sub(self, rhs: Self) -> (r: Self) {
        let r = GoldilocksField::sub(self, rhs);
        assert(r.lanes() =~= lanes_sub(self.lanes(), rhs.lanes()));
        r
    }

    fn mul(self, rhs: Self) -> (r: Self) {
        let r = GoldilocksField::mul(self, rhs);
        assert(r.lanes() =~= lanes_mul(self.lanes(), rhs.lanes()));
        r
    }

    fn neg(self) -> (r: Self) {
        let r = GoldilocksField::neg(self);
        assert(r.lanes() =~= lanes_neg(self.lanes()));
        r
    }
}

/// `N` base-field elements side by side.
#[derive(Clone, Copy, Debug)]
pub struct PackedGoldilocks<const N: usize>(pub [GoldilocksField; N]);

impl<const N: usize> PackedField for PackedGoldilocks<N> {
    open spec fn spec_width() -> nat {
        N as nat
    }

    open spec fn lanes(&self) -> Seq<int> {
        self.0.deep_view()
    }

    proof fn lemma_lanes_len(&self) {
    }

    fn width() -> (w: usize) {
        N
    }

    fn from_slice(s: &[GoldilocksField]) -> (r: Self) {
        let mut lanes = [GoldilocksField::zero();N];
        let mut l: usize = 0;
        while l < N
            invariant
                l <= N,
                s@.len() == N,
                forall|k: int| 0 <= k < l ==> lanes@[k] == s@[k],
            decreases N - l,
        {
            lanes[l] = s[l];
            l = l + 1;
        }
        let r = PackedGoldilocks(lanes);
        assert(r.lanes() =~= s.deep_view());
        r
    }

    fn lane(&self, l: usize) -> (r: GoldilocksField) {
        self.0[l]
    }

    fn broadcast(x: GoldilocksField) -> (r: Self) {
        let r = PackedGoldilocks([x;N]);
        assert(r.lanes() =~= Seq::new(N as nat, |l: int| x@));
        r
    }

    fn add(self, rhs: Self) -> (r: Self) {
        let mut lanes = self.0;
        let mut l: usize = 0;
        while l < N
            invariant
                l <= N,
                forall|k: int| 0 <= k < l ==> lanes@[k]@ == fadd(self.0@[k]@, rhs.0@[k]@),
                forall|k: int| l <= k < N ==> lanes@[k] == self.0@[k],
            decreases N - l,
        {
            lanes[l] = lanes[l].add(rhs.0[l]);
            l = l + 1;
        }
        let r = PackedGoldilocks(lanes);
        assert(r.lanes() =~= lanes_add(self.lanes(), rhs.lanes()));
        r
    }

    fn sub(self, rhs: Self) -> (r: Self) {
        let mut lanes = self.0;
        let mut l: usize = 0;
        while l < N
            invariant
                l <= N,
                forall|k: int| 0 <= k < l ==> lanes@[k]@ == fsub(self.0@[k]@, rhs.0@[k]@),
                forall|k: int| l <= k < N ==> lanes@[k] == self.0@[k],
            decreases N - l,
        {
            lanes[l] = lanes[l].sub(rhs.0[l]);
            l = l + 1;
        }
        let r = PackedGoldilocks(lanes);
        assert(r.lanes() =~= lanes_sub(self.lanes(), rhs.lanes()));
        r
    }

    fn mul(self, rhs: Self) -> (r: Self) {
        let mut lanes = self.0;
        let mut l: usize = 0;
        while l < N
            invariant
                l <= N,
                forall|k: int| 0 <= k < l ==> lanes@[k]@ == fmul(self.0@[k]@, rhs.0@[k]@),
                forall|k: int| l <= k < N ==> lanes@[k] == self.0@[k],
            decreases N - l,
        {
            lanes[l] = lanes[l].mul(rhs.0[l]);
            l = l + 1;
        }
        let r = PackedGoldilocks(lanes);
        assert(r.lanes() =~= lanes_mul(self.lanes(), rhs.lanes()));
        r
    }

    fn neg(self) -> (r: Self) {
        let mut lanes = self.0;
        let mut l: usize = 0;
        while l < N
            invariant
                l <= N,
                forall|k: int| 0 <= k < l ==> lanes@[k]@ == fneg(self.0@[k]@),
                forall|k: int| l <= k < N ==> lanes@[k] == self.0@[k],
            decreases N - l,
        {
            lanes[l] = lanes[l].neg();
            l = l + 1;
        }
        let r = PackedGoldilocks(lanes);
        assert(r.lanes() =~= lanes_neg(self.lanes()));
        r
    }
}

} // verus!
