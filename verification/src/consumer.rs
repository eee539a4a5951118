//! The sink through which a gate hands out its constraints.
//!
//! A consumer is bound to a buffer, a stride, an offset, a count and a filter.
//! The `j`-th constraint it accepts is multiplied by the filter, lane by lane,
//! and written at `offset + j * stride`, one slot for each lane. It accepts at
//! most `count` constraints. It need not be given that many: a slot that was
//! not written keeps what the caller had put there, so a caller that wants a
//! neutral value in such a slot fills the buffer with zeros beforehand.

use crate::field::{fmul, GoldilocksField};
use crate::packed::{lanes_mul, PackedField};
use vstd::prelude::*;

verus! {

/// `buffer` with the slots from `at` on replaced by `values`.
pub open spec fn overwrite(buffer: Seq<int>, at: int, values: Seq<int>) -> Seq<int> {
    Seq::new(
        buffer.len(),
        |i: int|
            if at <= i < at + values.len() {
                values[i - at]
            } else {
                buffer[i]
            },
    )
}

/// `buffer` after a consumer has accepted `constraints`, the first of them at
/// `at`, each one `stride` slots after the one before, each multiplied by
/// `filter`.
pub open spec fn emitted(
    buffer: Seq<int>,
    at: int,
    stride: int,
    filter: Seq<int>,
    constraints: Seq<Seq<int>>,
) -> Seq<int>
    decreases constraints.len(),
{
    if constraints.len() == 0 {
        buffer
    } else {
        overwrite(
            emitted(buffer, at, stride, filter, constraints.drop_last()),
            at + (constraints.len() - 1) * stride,
            lanes_mul(constraints.last(), filter),
        )
    }
}

/// Whether slot `i` is one of the `width` slots of constraint `j`, for a
/// consumer that starts at `at` and moves on by `stride` slots.
pub open spec fn in_window(at: int, stride: int, width: int, j: int, i: int) -> bool {
    at + j * stride <= i < at + j * stride + width
}

/// Whether slot `i` belongs to one of the first `count` constraints of a
/// consumer that starts at `at` and writes `width` lanes every `stride`
/// slots.
pub open spec fn is_written_slot(at: int, stride: int, width: int, count: int, i: int) -> bool {
    exists|j: int| 0 <= j < count && #[trigger] in_window(at, stride, width, j, i)
}

/// Accepting constraints changes the written slots and nothing else: the
/// buffer keeps its length, lane `l` of constraint `j` holds the product of
/// that lane with the filter, and every slot outside the written ones holds
/// what it held before.
pub proof fn lemma_emitted(
    buffer: Seq<int>,
    at: int,
    stride: int,
    filter: Seq<int>,
    constraints: Seq<Seq<int>>,
)
    requires
        0 <= at,
        filter.len() <= stride,
        forall|j: int|
            0 <= j < constraints.len() ==> (#[trigger] constraints[j]).len() == filter.len(),
        constraints.len() > 0 ==> at + (constraints.len() - 1) * stride + filter.len()
            <= buffer.len(),
    ensures
        emitted(buffer, at, stride, filter, constraints).len() == buffer.len(),
        forall|j: int, l: int|
            0 <= j < constraints.len() && 0 <= l < filter.len() ==> #[trigger] emitted(
                buffer,
                at,
                stride,
                filter,
                constraints,
            )[at + j * stride + l] == fmul(#[trigger] constraints[j][l], filter[l]),
        forall|i: int|
            0 <= i < buffer.len() && !is_written_slot(
                at,
                stride,
                filter.len() as int,
                constraints.len() as int,
                i,
            ) ==> #[trigger] emitted(buffer, at, stride, filter, constraints)[i] == buffer[i],
    decreases constraints.len(),
{
    let k = constraints.len() as int;
    let w = filter.len() as int;
    if k > 0 {
        let before = constraints.drop_last();
        let last_at = at + (k - 1) * stride;
        assert(k - 1 > 0 ==> (k - 2) * stride + stride == (k - 1) * stride) by (nonlinear_arith);
        assert((k - 1) * stride >= 0) by (nonlinear_arith)
            requires
                k >= 1,
                stride >= 0,
        ;
        lemma_emitted(buffer, at, stride, filter, before);
        let mid = emitted(buffer, at, stride, filter, before);
        let out = emitted(buffer, at, stride, filter, constraints);
        assert forall|j: int, l: int| 0 <= j < k && 0 <= l < w implies #[trigger] out[at + j
            * stride + l] == fmul(#[trigger] constraints[j][l], filter[l]) by {
            if j < k - 1 {
                assert((j + 1) * stride <= (k - 1) * stride) by (nonlinear_arith)
                    requires
                        j + 1 <= k - 1,
                        stride >= 0,
                ;
                assert((j + 1) * stride == j * stride + stride) by (nonlinear_arith);
                assert(before[j] == constraints[j]);
                assert(mid[at + j * stride + l] == fmul(before[j][l], filter[l]));
            }
        }
        assert forall|i: int|
            0 <= i < buffer.len() && !is_written_slot(at, stride, w, k, i) implies #[trigger] out[i]
            == buffer[i] by {
            assert(!in_window(at, stride, w, k - 1, i));
            if is_written_slot(at, stride, w, k - 1, i) {
                let j = choose|j: int| 0 <= j < k - 1 && #[trigger] in_window(at, stride, w, j, i);
                assert(0 <= j < k && in_window(at, stride, w, j, i));
            }
        }
    }
}

/// Stride isolation: a consumer that is bound to the `constraints.len()`
/// slots from `offset` on, one slot for each constraint, leaves every slot
/// outside `[offset, offset + constraints.len())` as it was.
pub proof fn lemma_stride_isolation(
    buffer: Seq<int>,
    offset: int,
    filter: Seq<int>,
    constraints: Seq<Seq<int>>,
    i: int,
)
    requires
        0 <= offset,
        filter.len() == 1,
        forall|j: int| 0 <= j < constraints.len() ==> (#[trigger] constraints[j]).len() == 1,
        offset + constraints.len() <= buffer.len(),
        0 <= i < buffer.len(),
        i < offset || i >= offset + constraints.len(),
    ensures
        emitted(buffer, offset, 1, filter, constraints)[i] == buffer[i],
{
    lemma_emitted(buffer, offset, 1, filter, constraints);
    if is_written_slot(offset, 1, 1, constraints.len() as int, i) {
        let j = choose|j: int|
            0 <= j < constraints.len() && #[trigger] in_window(offset, 1, 1, j, i);
        assert(j * 1 == j);
    }
}

/// A sink bound to a buffer of constraint slots.
pub struct StridedConstraintConsumer<P: PackedField> {
    buffer: Vec<GoldilocksField>,
    stride: usize,
    offset: usize,
    count: usize,
    written: usize,
    filter: P,
}

impl<P: PackedField> StridedConstraintConsumer<P> {
    #[verifier::type_invariant]
    spec fn well_formed(&self) -> bool {
        &&& P::spec_width() <= self.stride
        &&& self.written <= self.count
        &&& self.count > 0 ==> self.offset + (self.count - 1) * self.stride + P::spec_width()
            <= self.buffer@.len()
    }

    /// The buffer, each slot by the canonical representative of its value.
    pub closed spec fn buffer(&self) -> Seq<int> {
        self.buffer.deep_view()
    }

    /// The distance between the slots of two consecutive constraints.
    pub closed spec fn stride(&self) -> int {
        self.stride as int
    }

    /// The slot of the first lane of the first constraint.
    pub closed spec fn offset(&self) -> int {
        self.offset as int
    }

    /// The number of constraints that the consumer accepts in all.
    pub closed spec fn count(&self) -> int {
        self.count as int
    }

    /// The number of constraints accepted so far.
    pub closed spec fn written(&self) -> int {
        self.written as int
    }

    /// The filter, lane by lane.
    pub closed spec fn filter(&self) -> Seq<int> {
        self.filter.lanes()
    }

    /// The slot of the first lane of the next constraint.
    pub open spec fn position(&self) -> int {
        self.offset() + self.written() * self.stride()
    }

    /// The buffer as it will be once `constraints` have been accepted.
    pub open spec fn after(&self, constraints: Seq<Seq<int>>) -> Seq<int> {
        emitted(self.buffer(), self.position(), self.stride(), self.filter(), constraints)
    }

    /// Whether `other` is this consumer after it has accepted `constraints`.
    pub open spec fn accepted(&self, constraints: Seq<Seq<int>>, other: &Self) -> bool {
        &&& other.buffer() == self.after(constraints)
        &&& other.written() == self.written() + constraints.len()
        &&& other.stride() == self.stride()
        &&& other.offset() == self.offset()
        &&& other.count() == self.count()
        &&& other.filter() == self.filter()
    }

    /// A consumer that has accepted `constraints` and then `next` has
    /// accepted `constraints` with `next` at their end.
    pub proof fn lemma_accepted_one_more(
        &self,
        mid: &Self,
        last: &Self,
        constraints: Seq<Seq<int>>,
        next: Seq<int>,
    )
        requires
            self.accepted(constraints, mid),
            mid.accepted(seq![next], last),
        ensures
            self.accepted(constraints.push(next), last),
    {
        let all = constraints.push(next);
        assert(all.drop_last() =~= constraints);
        assert(all.last() == next);
        lemma_emitted_one(mid.buffer(), mid.position(), mid.stride(), mid.filter(), next);
        let n = constraints.len() as int;
        assert(mid.position() == self.position() + n * self.stride()) by (nonlinear_arith)
            requires
                mid.position() == mid.offset() + mid.written() * mid.stride(),
                self.position() == self.offset() + self.written() * self.stride(),
                mid.offset() == self.offset(),
                mid.stride() == self.stride(),
                mid.written() == self.written() + n,
        ;
    }

    /// A consumer that writes into `buffer`: constraint `j` goes to the slots
    /// from `offset + j * stride` on, multiplied by `filter`, and `count`
    /// constraints are accepted in all.
    pub fn new(
        buffer: Vec<GoldilocksField>,
        stride: usize,
        offset: usize,
        count: usize,
        filter: P,
    ) -> (r: Self)
        requires
            P::spec_width() <= stride,
            count > 0 ==> offset + (count - 1) * stride + P::spec_width() <= buffer@.len(),
        ensures
            r.buffer() == buffer.deep_view(),
            r.stride() == stride,
            r.offset() == offset,
            r.count() == count,
            r.written() == 0,
            r.position() == offset,
            r.filter() == filter.lanes(),
    {
        assert(offset + 0 * stride == offset) by (nonlinear_arith);
        StridedConstraintConsumer { buffer, stride, offset, count, written: 0, filter }
    }

    /// The number of constraints that can still be accepted.
    pub fn remaining(&self) -> (n: usize)
        ensures
            n == self.count() - self.written(),
    {
        proof {
            use_type_invariant(self);
        }
        self.count - self.written
    }

    /// Accepts one constraint.
    pub fn one(&mut self, constraint: P)
        requires
            old(self).written() < old(self).count(),
        ensures
            old(self).accepted(seq![constraint.lanes()], final(self)),
            final(self).buffer() == overwrite(
                old(self).buffer(),
                old(self).position(),
                lanes_mul(constraint.lanes(), old(self).filter()),
            ),
            final(self).position() == old(self).position() + old(self).stride(),
    {
        proof {
            use_type_invariant(&*self);
            constraint.lemma_lanes_len();
            self.filter.lemma_lanes_len();
            lemma_window_fits(
                self.offset as int,
                self.stride as int,
                self.count as int,
                self.written as int,
            );
        }
        let width: usize = P::width();
        let len: usize = self.buffer.len();
        assert(self.offset + self.written * self.stride + width <= len);
        let at: usize = self.offset + self.written * self.stride;
        let ghost before = self.buffer.deep_view();
        let ghost values = lanes_mul(constraint.lanes(), self.filter.lanes());
        let mut l: usize = 0;
        while l < width
            invariant
                l <= width,
                width == P::spec_width(),
                at + width <= len,
                len == self.buffer@.len(),
                self.buffer@.len() == before.len(),
                self.stride == old(self).stride,
                self.offset == old(self).offset,
                self.count == old(self).count,
                self.written == old(self).written,
                self.filter == old(self).filter,
                self.well_formed(),
                values == lanes_mul(constraint.lanes(), self.filter.lanes()),
                constraint.lanes().len() == width,
                self.filter.lanes().len() == width,
                forall|i: int|
                    0 <= i < before.len() ==> #[trigger] self.buffer@[i]@ == if at <= i < at + l {
                        values[i - at]
                    } else {
                        before[i]
                    },
            decreases width - l,
        {
            let product = constraint.lane(l).mul(self.filter.lane(l));
            self.buffer[at + l] = product;
            l = l + 1;
        }
        self.written = self.written + 1;
        proof {
            lemma_emitted_one(
                before,
                at as int,
                self.stride as int,
                self.filter.lanes(),
                constraint.lanes(),
            );
            assert(self.buffer.deep_view() =~= overwrite(before, at as int, values));
            assert((self.written as int) * (self.stride as int) == (self.written - 1) * (
            self.stride as int) + self.stride) by (nonlinear_arith);
        }
    }

    /// Accepts each of `constraints`, in order.
    pub fn many(&mut self, constraints: &[P])
        requires
            old(self).written() + constraints@.len() <= old(self).count(),
        ensures
            old(self).accepted(
                Seq::new(constraints@.len(), |j: int| constraints@[j].lanes()),
                final(self),
            ),
    {
        let ghost all = Seq::new(constraints@.len(), |j: int| constraints@[j].lanes());
        let mut j: usize = 0;
        assert(all.take(0) =~= Seq::<Seq<int>>::empty());
        while j < constraints.len()
            invariant
                j <= constraints@.len(),
                all == Seq::new(constraints@.len(), |j: int| constraints@[j].lanes()),
                old(self).written() + constraints@.len() <= old(self).count(),
                old(self).accepted(all.take(j as int), self),
            decreases constraints@.len() - j,
        {
            let ghost mid = *self;
            self.one(constraints[j]);
            proof {
                old(self).lemma_accepted_one_more(
                    &mid,
                    &*self,
                    all.take(j as int),
                    constraints@[j as int].lanes(),
                );
                assert(all.take(j as int + 1) =~= all.take(j as int).push(
                    constraints@[j as int].lanes(),
                ));
            }
            j = j + 1;
        }
        assert(all.take(constraints@.len() as int) =~= all);
    }

    /// Hands the buffer back.
    pub fn into_buffer(self) -> (buffer: Vec<GoldilocksField>)
        ensures
            buffer.deep_view() == self.buffer(),
            buffer@.len() == self.buffer().len(),
    {
        self.buffer
    }
}

/// Accepting one constraint overwrites its slots.
pub proof fn lemma_emitted_one(
    buffer: Seq<int>,
    at: int,
    stride: int,
    filter: Seq<int>,
    constraint: Seq<int>,
)
    ensures
        emitted(buffer, at, stride, filter, seq![constraint]) == overwrite(
            buffer,
            at,
            lanes_mul(constraint, filter),
        ),
{
    let cs = seq![constraint];
    assert(cs.drop_last() =~= Seq::<Seq<int>>::empty());
    assert(cs.last() == constraint);
    assert(emitted(buffer, at, stride, filter, cs.drop_last()) == buffer);
    assert((cs.len() - 1) * stride == 0) by (nonlinear_arith)
        requires
            cs.len() == 1,
    ;
}

/// The slots of constraint `written` lie inside a buffer that has room for
/// `count` constraints.
proof fn lemma_window_fits(offset: int, stride: int, count: int, written: int)
    requires
        0 <= written < count,
        0 <= stride,
    ensures
        0 <= written * stride,
        offset + written * stride <= offset + (count - 1) * stride,
{
    assert(0 <= written * stride && written * stride <= (count - 1) * stride) by (nonlinear_arith)
        requires
            0 <= written <= count - 1,
            0 <= stride,
    ;
}

} // verus!
