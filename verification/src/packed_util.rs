//! Gates whose evaluation is written once for every packed field, and the
//! batched evaluation that follows from it.

use crate::consumer::{
    emitted, in_window, is_written_slot, lemma_emitted, StridedConstraintConsumer,
};
use crate::extension::embed_seq;
use crate::field::{fmul, is_canonical, GoldilocksField, ORDER};
use crate::gate::{
    base_constraints, batch_constraints, lanewise, packed_constraints, ConstraintFamily,
};
use crate::packed::PackedField;
use crate::vars::{EvaluationVarsBaseBatch, EvaluationVarsBasePacked};
use vstd::arithmetic::div_mod::{lemma_fundamental_div_mod, lemma_small_mod};
use vstd::prelude::*;

verus! {

/// A constraint family whose evaluation over the base field is written once
/// for every packed field.
pub trait PackedEvaluableBase: ConstraintFamily {
    /// Hands the constraints of as many rows as `P` has lanes to
    /// `yield_constr`: lane `l` of constraint `j` is constraint `j` of the
    /// row in lane `l`.
    fn eval_unfiltered_base_packed<P: PackedField>(
        &self,
        vars_base: EvaluationVarsBasePacked<'_, P>,
        yield_constr: &mut StridedConstraintConsumer<P>,
    )
        requires
            vars_base.local_constants.spec_len() >= self.constant_count(),
            vars_base.local_wires.spec_len() >= self.wire_count(),
            old(yield_constr).written() + self.constraint_count() <= old(yield_constr).count(),
        ensures
            old(yield_constr).accepted(packed_constraints(self, vars_base), final(yield_constr)),
    ;
}

/// `buffer` after the first `lanes` of `rows` have been evaluated one row at
/// a time: row `l` goes through a consumer of one lane that starts `l` slots
/// after `at` and is bound to lane `l` of `filter`.
pub open spec fn emitted_by_rows(
    buffer: Seq<int>,
    at: int,
    stride: int,
    filter: Seq<int>,
    rows: Seq<Seq<int>>,
    count: nat,
    lanes: nat,
) -> Seq<int>
    decreases lanes,
{
    if lanes == 0 {
        buffer
    } else {
        let l = (lanes - 1) as nat;
        emitted(
            emitted_by_rows(buffer, at, stride, filter, rows, count, l),
            at + l,
            stride,
            seq![filter[l as int]],
            lanewise(seq![rows[l as int]], count),
        )
    }
}

/// What evaluating the first `lanes` rows one at a time leaves in the
/// buffer: the constraints of these rows in their slots, and every other
/// slot as it was.
proof fn lemma_emitted_by_rows(
    buffer: Seq<int>,
    at: int,
    stride: int,
    filter: Seq<int>,
    rows: Seq<Seq<int>>,
    count: nat,
    lanes: nat,
)
    requires
        0 <= at,
        lanes <= filter.len() <= stride,
        rows.len() == filter.len(),
        count > 0 ==> at + (count - 1) * stride + filter.len() <= buffer.len(),
    ensures
        emitted_by_rows(buffer, at, stride, filter, rows, count, lanes).len() == buffer.len(),
        forall|j: int, l: int|
            0 <= j < count && 0 <= l < lanes ==> #[trigger] emitted_by_rows(
                buffer,
                at,
                stride,
                filter,
                rows,
                count,
                lanes,
            )[at + j * stride + l] == fmul(rows[l][j], filter[l]),
        forall|i: int|
            0 <= i < buffer.len() && !is_written_slot(at, stride, lanes as int, count as int, i)
                ==> #[trigger] emitted_by_rows(buffer, at, stride, filter, rows, count, lanes)[i]
                == buffer[i],
    decreases lanes,
{
    if lanes > 0 {
        let m = (lanes - 1) as nat;
        let earlier = emitted_by_rows(buffer, at, stride, filter, rows, count, m);
        let later = emitted_by_rows(buffer, at, stride, filter, rows, count, lanes);
        let one = seq![filter[m as int]];
        let column = lanewise(seq![rows[m as int]], count);
        lemma_emitted_by_rows(buffer, at, stride, filter, rows, count, m);
        lemma_emitted(earlier, at + m, stride, one, column);
        assert forall|j: int, l: int| 0 <= j < count && 0 <= l < lanes implies #[trigger] later[at
            + j * stride + l] == fmul(rows[l][j], filter[l]) by {
            if l == m {
                assert(later[(at + m) + j * stride + 0] == fmul(column[j][0], one[0]));
            } else {
                let i = at + j * stride + l;
                assert(0 <= j * stride && j * stride <= (count - 1) * stride) by (nonlinear_arith)
                    requires
                        0 <= j <= count - 1,
                        0 <= stride,
                ;
                if is_written_slot(at + m, stride, 1, count as int, i) {
                    let other = choose|other: int|
                        0 <= other < count && #[trigger] in_window(at + m, stride, 1, other, i);
                    assert(false) by (nonlinear_arith)
                        requires
                            m + other * stride == j * stride + l,
                            0 <= l < m,
                            m < stride,
                    ;
                }
                assert(earlier[at + j * stride + l] == fmul(rows[l][j], filter[l]));
            }
        }
        assert forall|i: int|
            0 <= i < buffer.len() && !is_written_slot(
                at,
                stride,
                lanes as int,
                count as int,
                i,
            ) implies #[trigger] later[i] == buffer[i] by {
            if is_written_slot(at + m, stride, 1, count as int, i) {
                let other = choose|other: int|
                    0 <= other < count && #[trigger] in_window(at + m, stride, 1, other, i);
                assert(in_window(at, stride, lanes as int, other, i));
            }
            if is_written_slot(at, stride, m as int, count as int, i) {
                let other = choose|other: int|
                    0 <= other < count && #[trigger] in_window(at, stride, m as int, other, i);
                assert(in_window(at, stride, lanes as int, other, i));
            }
        }
    }
}

/// Packing equivalence: evaluating a few rows at once, one in each lane,
/// leaves in the buffer what evaluating them one at a time leaves there,
/// whatever the number of lanes.
pub proof fn lemma_packing_equivalence(
    buffer: Seq<int>,
    at: int,
    stride: int,
    filter: Seq<int>,
    rows: Seq<Seq<int>>,
    count: nat,
)
    requires
        0 <= at,
        filter.len() <= stride,
        rows.len() == filter.len(),
        count > 0 ==> at + (count - 1) * stride + filter.len() <= buffer.len(),
    ensures
        emitted(buffer, at, stride, filter, lanewise(rows, count)) == emitted_by_rows(
            buffer,
            at,
            stride,
            filter,
            rows,
            count,
            rows.len(),
        ),
{
    let packed = emitted(buffer, at, stride, filter, lanewise(rows, count));
    let single = emitted_by_rows(buffer, at, stride, filter, rows, count, rows.len());
    let width = filter.len() as int;
    lemma_emitted(buffer, at, stride, filter, lanewise(rows, count));
    lemma_emitted_by_rows(buffer, at, stride, filter, rows, count, rows.len());
    assert forall|i: int| 0 <= i < buffer.len() implies packed[i] == single[i] by {
        if is_written_slot(at, stride, width, count as int, i) {
            let j = choose|j: int| 0 <= j < count && #[trigger] in_window(at, stride, width, j, i);
            let l = i - at - j * stride;
            assert(packed[at + j * stride + l] == fmul(lanewise(rows, count)[j][l], filter[l]));
            assert(single[at + j * stride + l] == fmul(rows[l][j], filter[l]));
        }
    }
    assert(packed =~= single);
}

/// Whether `later` is `earlier` with constraint `j` of each of the rows
/// `start .. start + width` of the batch written to its slot, and every
/// other slot as it was.
pub open spec fn rows_written<G: ConstraintFamily>(
    gate: &G,
    vars_batch: EvaluationVarsBaseBatch<'_>,
    earlier: Seq<int>,
    later: Seq<int>,
    start: int,
    width: int,
) -> bool {
    &&& later.len() == earlier.len()
    &&& forall|j: int, i: int|
        0 <= j < gate.constraint_count() && 0 <= i < vars_batch.batch_size() ==> #[trigger] later[j
            * vars_batch.batch_size() + i] == if start <= i < start + width {
            base_constraints(gate, vars_batch.constants(i), vars_batch.wires(i))[j]
        } else {
            earlier[j * vars_batch.batch_size() + i]
        }
}

/// Slot `j * n + i` of a table with rows of `n` slots lies in the window of
/// constraint `j`, and of no other, exactly where `i` lies in
/// `start .. start + width`.
proof fn lemma_window_of_slot(n: int, start: int, width: int, count: int, j: int, i: int)
    requires
        0 <= start,
        0 <= width,
        start + width <= n,
        0 <= j < count,
        0 <= i < n,
    ensures
        is_written_slot(start, n, width, count, j * n + i) <==> start <= i < start + width,
        0 <= j * n + i < count * n,
{
    assert(0 <= j * n && j * n + n <= count * n) by (nonlinear_arith)
        requires
            0 <= j,
            j + 1 <= count,
            0 <= n,
    ;
    if start <= i < start + width {
        assert(in_window(start, n, width, j, j * n + i));
    }
    if is_written_slot(start, n, width, count, j * n + i) {
        let other = choose|other: int|
            0 <= other < count && #[trigger] in_window(start, n, width, other, j * n + i);
        if other < j {
            assert(other * n + n <= j * n) by (nonlinear_arith)
                requires
                    other + 1 <= j,
                    0 <= n,
            ;
        } else if other > j {
            assert(j * n + n <= other * n) by (nonlinear_arith)
                requires
                    j + 1 <= other,
                    0 <= n,
            ;
        }
    }
}

/// Evaluates the rows `start .. start + width` of a batch in one packed
/// call and writes their constraints to `res`.
fn eval_rows_packed<G: PackedEvaluableBase, P: PackedField>(
    gate: &G,
    vars_batch: EvaluationVarsBaseBatch<'_>,
    res: Vec<GoldilocksField>,
    start: usize,
) -> (r: Vec<GoldilocksField>)
    requires
        vars_batch.num_constants() >= gate.constant_count(),
        vars_batch.num_wires() >= gate.wire_count(),
        start + P::spec_width() <= vars_batch.batch_size(),
        res@.len() == vars_batch.batch_size() * gate.constraint_count(),
    ensures
        rows_written(
            gate,
            vars_batch,
            res.deep_view(),
            r.deep_view(),
            start as int,
            P::spec_width() as int,
        ),
{
    let n: usize = vars_batch.len();
    let count: usize = gate.num_constraints();
    let ghost width = P::spec_width() as int;
    let ghost before = res.deep_view();
    proof {
        assert(count > 0 ==> start + (count - 1) * n + width <= n * count) by (nonlinear_arith)
            requires
                start + width <= n,
                0 <= n,
        ;
    }
    let filter = P::broadcast(GoldilocksField::one());
    let mut consumer = StridedConstraintConsumer::<P>::new(res, n, start, count, filter);
    let vars_packed = vars_batch.view_packed::<P>(start);
    gate.eval_unfiltered_base_packed(vars_packed, &mut consumer);
    let r = consumer.into_buffer();
    proof {
        let constraints = packed_constraints(gate, vars_packed);
        let ones = Seq::new(P::spec_width(), |l: int| 1int);
        let after = r.deep_view();
        assert(after == emitted(before, start as int, n as int, ones, constraints));
        lemma_emitted(before, start as int, n as int, ones, constraints);
        assert forall|j: int, i: int| 0 <= j < count && 0 <= i < n implies #[trigger] after[j * n
            + i] == if start <= i < start + width {
            base_constraints(gate, vars_batch.constants(i), vars_batch.wires(i))[j]
        } else {
            before[j * n + i]
        } by {
            lemma_window_of_slot(n as int, start as int, width, count as int, j, i);
            assert(0 <= j * n + i < before.len()) by (nonlinear_arith)
                requires
                    0 <= j * n + i < count * n,
                    before.len() == n * count,
            ;
            if start <= i < start + width {
                let l = i - start;
                assert(vars_packed.constants(l) == vars_batch.constants(start + l));
                assert(vars_packed.wires(l) == vars_batch.wires(start + l));
                gate.lemma_constraints_shape(
                    embed_seq(vars_batch.constants(i)),
                    embed_seq(vars_batch.wires(i)),
                );
                let value = base_constraints(gate, vars_batch.constants(i), vars_batch.wires(i))[j];
                assert(constraints[j][l] == value);
                assert(is_canonical(
                    gate.constraints(
                        embed_seq(vars_batch.constants(i)),
                        embed_seq(vars_batch.wires(i)),
                    )[j].0,
                ));
                lemma_small_mod(value as nat, ORDER as nat);
                assert(value * 1 == value);
                assert(j * n + i == start + j * n + l);
                assert(after[start + j * n + l] == fmul(constraints[j][l], ones[l]));
            } else {
                assert(!is_written_slot(start as int, n as int, width, count as int, j * n + i));
            }
        }
    }
    r
}

/// The constraints of every row of a batch, constraint by constraint,
/// computed `P::width()` rows at a time as far as that goes and one row at a
/// time for the rows that are left over. Whatever the width, the result is
/// what evaluating each row by itself gives.
pub fn eval_unfiltered_base_batch_packed<G: PackedEvaluableBase, P: PackedField>(
    gate: &G,
    vars_batch: EvaluationVarsBaseBatch<'_>,
) -> (res: Vec<GoldilocksField>)
    requires
        vars_batch.num_constants() >= gate.constant_count(),
        vars_batch.num_wires() >= gate.wire_count(),
        vars_batch.batch_size() * gate.constraint_count() <= usize::MAX,
    ensures
        res.deep_view() == batch_constraints(gate, vars_batch),
        res@.len() == vars_batch.batch_size() * gate.constraint_count(),
{
    let n: usize = vars_batch.len();
    let count: usize = gate.num_constraints();
    let width: usize = P::width();
    let total: usize = n * count;
    let mut res: Vec<GoldilocksField> = Vec::new();
    let mut filled: usize = 0;
    while filled < total
        invariant
            filled <= total,
            res@.len() == filled,
        decreases total - filled,
    {
        res.push(GoldilocksField::zero());
        filled = filled + 1;
    }
    let mut i: usize = 0;
    while width > 0 && width <= n - i
        invariant
            i <= n,
            n == vars_batch.batch_size(),
            count == gate.constraint_count(),
            width == P::spec_width(),
            res@.len() == n * count,
            vars_batch.num_constants() >= gate.constant_count(),
            vars_batch.num_wires() >= gate.wire_count(),
            rows_written(gate, vars_batch, res.deep_view(), res.deep_view(), 0, i as int),
        decreases n - i,
    {
        let ghost before = res.deep_view();
        res = eval_rows_packed::<G, P>(gate, vars_batch, res, i);
        i = i + width;
    }
    while i < n
        invariant
            i <= n,
            n == vars_batch.batch_size(),
            count == gate.constraint_count(),
            res@.len() == n * count,
            vars_batch.num_constants() >= gate.constant_count(),
            vars_batch.num_wires() >= gate.wire_count(),
            rows_written(gate, vars_batch, res.deep_view(), res.deep_view(), 0, i as int),
        decreases n - i,
    {
        res = eval_rows_packed::<G, GoldilocksField>(gate, vars_batch, res, i);
        i = i + 1;
    }
    proof {
        let expected = batch_constraints(gate, vars_batch);
        assert(res.deep_view().len() == expected.len()) by (nonlinear_arith)
            requires
                res.deep_view().len() == n * count,
                expected.len() == (n as nat) * (count as nat),
        ;
        assert forall|k: int| 0 <= k < expected.len() implies res.deep_view()[k] == expected[k] by {
            let j = k / (n as int);
            let r = k % (n as int);
            lemma_fundamental_div_mod(k, n as int);
            assert(0 <= j < count) by (nonlinear_arith)
                requires
                    k == (n as int) * j + r,
                    0 <= r < n,
                    0 <= k < n * count,
            ;
            assert((n as int) * j == j * n) by (nonlinear_arith);
            assert(res.deep_view()[j * n + r] == base_constraints(
                gate,
                vars_batch.constants(r),
                vars_batch.wires(r),
            )[j]);
        }
        assert(res.deep_view() =~= expected);
    }
    res
}

} // verus!
