//! The views through which a gate reads a row of the trace: the constants and
//! the wires of the row, over the extension field, over the base field for one
//! row, for a batch of rows, and for a few rows packed into lanes.
//!
//! A batch stores its values column by column: with `b` rows, the value of
//! column `j` in row `i` is at index `j * b + i`.

use crate::extension::QuadraticExtension;
use crate::field::GoldilocksField;
use crate::packed::PackedField;
use crate::circuit_builder::ExtensionTarget;
use core::marker::PhantomData;
use vstd::arithmetic::div_mod::lemma_fundamental_div_mod;
use vstd::prelude::*;
use vstd::slice::slice_subrange;

verus! {

/// Every `stride`-th element of `data`, starting at `index`: the row at
/// `index` of a table that is stored column by column in `data`.
pub open spec fn strided(data: Seq<int>, stride: int, index: int) -> Seq<int> {
    Seq::new(((data.len() as int) / stride) as nat, |j: int| data[index + j * stride])
}

/// In a table of `n` values with rows of `stride` values, column `j` of the
/// row at `index` lies inside the table.
pub proof fn lemma_strided_index(n: int, stride: int, index: int, j: int)
    requires
        stride > 0,
        n >= 0,
        n % stride == 0,
        0 <= index <= stride,
        0 <= j < n / stride,
    ensures
        0 <= j * stride,
        index + j * stride + (stride - index) <= n,
{
    lemma_fundamental_div_mod(n, stride);
    let q = n / stride;
    assert(0 <= j * stride && (j + 1) * stride <= q * stride) by (nonlinear_arith)
        requires
            0 <= j,
            j + 1 <= q,
            stride > 0,
    ;
    assert((j + 1) * stride == j * stride + stride) by (nonlinear_arith);
    assert(stride * q == q * stride) by (nonlinear_arith);
}

/// The constants and wires of one row, over the extension field.
#[derive(Clone, Copy)]
pub struct EvaluationVars<'a> {
    pub local_constants: &'a [QuadraticExtension],
    pub local_wires: &'a [QuadraticExtension],
}

/// The targets that stand for the constants and wires of one row inside a
/// circuit under construction.
#[derive(Clone, Copy)]
pub struct EvaluationTargets<'a> {
    pub local_constants: &'a [ExtensionTarget],
    pub local_wires: &'a [ExtensionTarget],
}

/// A read-only window on a table stored column by column: entry `j` holds,
/// in its lanes, column `j` of the rows `offset .. offset + width`.
pub struct PackedStridedView<'a, P: PackedField> {
    data: &'a [GoldilocksField],
    stride: usize,
    offset: usize,
    packing: PhantomData<P>,
}

impl<'a, P: PackedField> PackedStridedView<'a, P> {
    #[verifier::type_invariant]
    spec fn well_formed(&self) -> bool {
        &&& self.stride > 0
        &&& self.offset + P::spec_width() <= self.stride
        &&& self.data@.len() % (self.stride as nat) == 0
    }

    /// The table, each value by its canonical representative.
    pub closed spec fn data(&self) -> Seq<int> {
        self.data.deep_view()
    }

    /// The number of rows of the table.
    pub closed spec fn stride(&self) -> int {
        self.stride as int
    }

    /// The row that lane `0` reads.
    pub closed spec fn offset(&self) -> int {
        self.offset as int
    }

    /// The number of entries: the number of columns of the table.
    pub open spec fn spec_len(&self) -> nat {
        ((self.data().len() as int) / self.stride()) as nat
    }

    /// The row that lane `l` reads.
    pub open spec fn lane_row(&self, l: int) -> Seq<int> {
        strided(self.data(), self.stride(), self.offset() + l)
    }

    /// A window on `data`, a table with rows of `stride` values, whose lanes
    /// read the rows from `offset` on.
    pub fn new(data: &'a [GoldilocksField], stride: usize, offset: usize) -> (r: Self)
        requires
            stride > 0,
            offset + P::spec_width() <= stride,
            data@.len() % (stride as nat) == 0,
        ensures
            r.data() == data.deep_view(),
            r.stride() == stride,
            r.offset() == offset,
    {
        PackedStridedView { data, stride, offset, packing: PhantomData }
    }

    /// The number of entries.
    pub fn len(&self) -> (n: usize)
        ensures
            n == self.spec_len(),
    {
        proof {
            use_type_invariant(self);
        }
        self.data.len() / self.stride
    }

    /// Entry `j`: lane `l` holds column `j` of the row that lane `l` reads.
    pub fn get(&self, j: usize) -> (r: P)
        requires
            j < self.spec_len(),
        ensures
            r.lanes() == Seq::new(P::spec_width(), |l: int| self.lane_row(l)[j as int]),
    {
        proof {
            use_type_invariant(self);
            lemma_strided_index(
                self.data@.len() as int,
                self.stride as int,
                self.offset as int,
                j as int,
            );
            assert(self.data@.len() == self.data.len());
        }
        let start: usize = self.offset + j * self.stride;
        let r = P::from_slice(slice_subrange(self.data, start, start + P::width()));
        proof {
            r.lemma_lanes_len();
            assert(r.lanes() =~= Seq::new(P::spec_width(), |l: int| self.lane_row(l)[j as int]));
        }
        r
    }
}

/// The constants and wires of one row, over the base field.
pub struct EvaluationVarsBase<'a> {
    pub local_constants: PackedStridedView<'a, GoldilocksField>,
    pub local_wires: PackedStridedView<'a, GoldilocksField>,
}

impl<'a> EvaluationVarsBase<'a> {
    /// The constants of the row.
    pub open spec fn constants(&self) -> Seq<int> {
        self.local_constants.lane_row(0)
    }

    /// The wires of the row.
    pub open spec fn wires(&self) -> Seq<int> {
        self.local_wires.lane_row(0)
    }
}

/// The constants and wires of as many consecutive rows as `P` has lanes, over
/// the base field: lane `l` of every entry belongs to the `l`-th of these
/// rows.
pub struct EvaluationVarsBasePacked<'a, P: PackedField> {
    pub local_constants: PackedStridedView<'a, P>,
    pub local_wires: PackedStridedView<'a, P>,
}

impl<'a, P: PackedField> EvaluationVarsBasePacked<'a, P> {
    /// The constants of the row in lane `l`.
    pub open spec fn constants(&self, l: int) -> Seq<int> {
        self.local_constants.lane_row(l)
    }

    /// The wires of the row in lane `l`.
    pub open spec fn wires(&self, l: int) -> Seq<int> {
        self.local_wires.lane_row(l)
    }
}

/// The constants and wires of a batch of rows, over the base field, each
/// table stored column by column.
#[derive(Clone, Copy)]
pub struct EvaluationVarsBaseBatch<'a> {
    batch_size: usize,
    local_constants: &'a [GoldilocksField],
    local_wires: &'a [GoldilocksField],
}

impl<'a> EvaluationVarsBaseBatch<'a> {
    #[verifier::type_invariant]
    spec fn well_formed(&self) -> bool {
        &&& self.batch_size > 0
        &&& self.local_constants@.len() % (self.batch_size as nat) == 0
        &&& self.local_wires@.len() % (self.batch_size as nat) == 0
    }

    /// The number of rows in the batch.
    pub closed spec fn batch_size(&self) -> int {
        self.batch_size as int
    }

    /// The table of constants.
    pub closed spec fn local_constants(&self) -> Seq<int> {
        self.local_constants.deep_view()
    }

    /// The table of wires.
    pub closed spec fn local_wires(&self) -> Seq<int> {
        self.local_wires.deep_view()
    }

    /// The number of constants of each row.
    pub open spec fn num_constants(&self) -> nat {
        ((self.local_constants().len() as int) / self.batch_size()) as nat
    }

    /// The number of wires of each row.
    pub open spec fn num_wires(&self) -> nat {
        ((self.local_wires().len() as int) / self.batch_size()) as nat
    }

    /// The constants of row `i`.
    pub open spec fn constants(&self, i: int) -> Seq<int> {
        strided(self.local_constants(), self.batch_size(), i)
    }

    /// The wires of row `i`.
    pub open spec fn wires(&self, i: int) -> Seq<int> {
        strided(self.local_wires(), self.batch_size(), i)
    }

    /// A batch of `batch_size` rows over the two tables.
    pub fn new(
        batch_size: usize,
        local_constants: &'a [GoldilocksField],
        local_wires: &'a [GoldilocksField],
    ) -> (r: Self)
        requires
            batch_size > 0,
            local_constants@.len() % (batch_size as nat) == 0,
            local_wires@.len() % (batch_size as nat) == 0,
        ensures
            r.batch_size() == batch_size,
            r.local_constants() == local_constants.deep_view(),
            r.local_wires() == local_wires.deep_view(),
    {
        EvaluationVarsBaseBatch { batch_size, local_constants, local_wires }
    }

    /// The number of rows in the batch.
    pub fn len(&self) -> (n: usize)
        ensures
            n == self.batch_size(),
            n > 0,
    {
        proof {
            use_type_invariant(self);
        }
        self.batch_size
    }

    /// Row `index` of the batch.
    pub fn view(&self, index: usize) -> (r: EvaluationVarsBase<'a>)
        requires
            index < self.batch_size(),
        ensures
            r.constants() == self.constants(index as int),
            r.wires() == self.wires(index as int),
            r.local_constants.spec_len() == self.num_constants(),
            r.local_wires.spec_len() == self.num_wires(),
    {
        proof {
            use_type_invariant(self);
        }
        EvaluationVarsBase {
            local_constants: PackedStridedView::new(self.local_constants, self.batch_size, index),
            local_wires: PackedStridedView::new(self.local_wires, self.batch_size, index),
        }
    }

    /// The rows `start .. start + width` of the batch, one in each lane.
    pub fn view_packed<P: PackedField>(&self, start: usize) -> (r: EvaluationVarsBasePacked<'a, P>)
        requires
            start + P::spec_width() <= self.batch_size(),
        ensures
            forall|l: int| #[trigger] r.constants(l) == self.constants(start + l),
            forall|l: int| #[trigger] r.wires(l) == self.wires(start + l),
            r.local_constants.spec_len() == self.num_constants(),
            r.local_wires.spec_len() == self.num_wires(),
    {
        proof {
            use_type_invariant(self);
        }
        EvaluationVarsBasePacked {
            local_constants: PackedStridedView::new(self.local_constants, self.batch_size, start),
            local_wires: PackedStridedView::new(self.local_wires, self.batch_size, start),
        }
    }
}

} // verus!
