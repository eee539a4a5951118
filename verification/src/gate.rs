//! Gates: one constraint family each, evaluated in every domain.
//!
//! A gate is defined by `constraints`, a function from the constants and the
//! wires of a row, over the extension field, to the values that must vanish
//! on a valid row. Every evaluation path of a gate is specified by that one
//! function: the path over the base field computes it on the embedded row,
//! the batched and packed paths compute it row by row, and the circuit path
//! builds targets whose values are its values.

use crate::circuit_builder::{CircuitBuilder, ExtensionTarget};
use crate::consumer::StridedConstraintConsumer;
use crate::extension::{embed, embed_seq, ext_add, ext_sub, QuadraticExtension};
use crate::field::{is_canonical, GoldilocksField};
use crate::generator::WitnessGenerator;
use crate::packed::PackedField;
use crate::vars::{
    EvaluationTargets, EvaluationVars, EvaluationVarsBase, EvaluationVarsBaseBatch,
    EvaluationVarsBasePacked,
};
use vstd::arithmetic::div_mod::lemma_fundamental_div_mod_converse;
use vstd::prelude::*;

verus! {

/// The first coordinate of each element of `s`: the base elements that `s`
/// holds, where `s` holds embedded base elements.
pub open spec fn base_part(s: Seq<(int, int)>) -> Seq<int> {
    Seq::new(s.len(), |j: int| s[j].0)
}

/// The constraints of a few rows, turned so that entry `j` holds constraint
/// `j` of every row, one row in each lane.
pub open spec fn lanewise(rows: Seq<Seq<int>>, count: nat) -> Seq<Seq<int>> {
    Seq::new(count, |j: int| Seq::new(rows.len(), |l: int| rows[l][j]))
}

/// The constraints of a batch of rows in one sequence, constraint by
/// constraint: constraint `j` of row `i` is at index `j * rows.len() + i`.
pub open spec fn interleaved(rows: Seq<Seq<int>>, count: nat) -> Seq<int> {
    Seq::new(
        rows.len() * count,
        |k: int| rows[k % (rows.len() as int)][k / (rows.len() as int)],
    )
}

/// `a + b`, element by element.
pub open spec fn row_add(a: Seq<(int, int)>, b: Seq<(int, int)>) -> Seq<(int, int)> {
    Seq::new(a.len(), |i: int| ext_add(a[i], b[i]))
}

/// The finite difference of order `order` of `f` at the row `(c, w)` along
/// the direction `(dc, dw)`. A polynomial of degree at most `d` is one whose
/// finite difference of order `d + 1` vanishes at every row along every
/// direction.
pub open spec fn finite_difference(
    f: spec_fn(Seq<(int, int)>, Seq<(int, int)>) -> (int, int),
    c: Seq<(int, int)>,
    w: Seq<(int, int)>,
    dc: Seq<(int, int)>,
    dw: Seq<(int, int)>,
    order: nat,
) -> (int, int)
    decreases order,
{
    if order == 0 {
        f(c, w)
    } else {
        ext_sub(
            finite_difference(f, row_add(c, dc), row_add(w, dw), dc, dw, (order - 1) as nat),
            finite_difference(f, c, w, dc, dw, (order - 1) as nat),
        )
    }
}

/// Whether both coordinates of every element of `s` are canonical.
pub open spec fn is_canonical_row(s: Seq<(int, int)>) -> bool {
    forall|i: int| 0 <= i < s.len() ==> is_canonical(#[trigger] s[i].0) && is_canonical(s[i].1)
}

/// A family of constraints on one row of the trace: how many constants and
/// wires it reads, and the values that must vanish.
pub trait ConstraintFamily: Sized {
    /// The number of wires that the constraints read.
    spec fn wire_count(&self) -> nat;

    /// The number of constants that the constraints read.
    spec fn constant_count(&self) -> nat;

    /// The degree of the constraints, as polynomials in the constants and
    /// wires.
    spec fn degree_bound(&self) -> nat;

    /// The number of constraints.
    spec fn constraint_count(&self) -> nat;

    /// The constraints of a row with the given constants and wires.
    spec fn constraints(&self, constants: Seq<(int, int)>, wires: Seq<(int, int)>) -> Seq<
        (int, int),
    >;

    /// A row that is long enough has exactly `constraint_count()`
    /// constraints, each with canonical coordinates.
    proof fn lemma_constraints_shape(&self, constants: Seq<(int, int)>, wires: Seq<(int, int)>)
        requires
            constants.len() >= self.constant_count(),
            wires.len() >= self.wire_count(),
        ensures
            self.constraints(constants, wires).len() == self.constraint_count(),
            is_canonical_row(self.constraints(constants, wires)),
    ;

    /// The constraints of a row of base elements are base elements.
    proof fn lemma_base_closed(&self, constants: Seq<int>, wires: Seq<int>)
        requires
            constants.len() >= self.constant_count(),
            wires.len() >= self.wire_count(),
        ensures
            forall|j: int|
                0 <= j < self.constraint_count() ==> (#[trigger] self.constraints(
                    embed_seq(constants),
                    embed_seq(wires),
                )[j]).1 == 0,
    ;

    /// Every constraint has degree at most `degree_bound()`: its finite
    /// difference of the next order vanishes at every row along every
    /// direction.
    proof fn lemma_low_degree(
        &self,
        constants: Seq<(int, int)>,
        wires: Seq<(int, int)>,
        constants_step: Seq<(int, int)>,
        wires_step: Seq<(int, int)>,
        j: int,
    )
        requires
            constants.len() == constants_step.len(),
            wires.len() == wires_step.len(),
            constants.len() >= self.constant_count(),
            wires.len() >= self.wire_count(),
            0 <= j < self.constraint_count(),
        ensures
            finite_difference(
                |c: Seq<(int, int)>, w: Seq<(int, int)>| self.constraints(c, w)[j],
                constants,
                wires,
                constants_step,
                wires_step,
                self.degree_bound() + 1,
            ) == (0int, 0int),
    ;

    /// The number of wires that the constraints read.
    fn num_wires(&self) -> (n: usize)
        ensures
            n == self.wire_count(),
    ;

    /// The number of constants that the constraints read.
    fn num_constants(&self) -> (n: usize)
        ensures
            n == self.constant_count(),
    ;

    /// The degree of the constraints.
    fn degree(&self) -> (n: usize)
        ensures
            n == self.degree_bound(),
    ;

    /// The number of constraints.
    fn num_constraints(&self) -> (n: usize)
        ensures
            n == self.constraint_count(),
    ;
}

/// The constraints of a row of base elements, as base elements.
pub open spec fn base_constraints<G: ConstraintFamily>(
    gate: &G,
    constants: Seq<int>,
    wires: Seq<int>,
) -> Seq<int> {
    base_part(gate.constraints(embed_seq(constants), embed_seq(wires)))
}

/// The constraints of every row of a batch, constraint by constraint:
/// constraint `j` of row `i` is at index `j * vars_base.batch_size() + i`.
pub open spec fn batch_constraints<G: ConstraintFamily>(
    gate: &G,
    vars_base: EvaluationVarsBaseBatch<'_>,
) -> Seq<int> {
    interleaved(
        Seq::new(
            vars_base.batch_size() as nat,
            |i: int| base_constraints(gate, vars_base.constants(i), vars_base.wires(i)),
        ),
        gate.constraint_count(),
    )
}

/// The constraints of the rows that a packed view holds: lane `l` of
/// constraint `j` is constraint `j` of the row in lane `l`.
pub open spec fn packed_constraints<G: ConstraintFamily, P: PackedField>(
    gate: &G,
    vars_base: EvaluationVarsBasePacked<'_, P>,
) -> Seq<Seq<int>> {
    lanewise(
        Seq::new(
            P::spec_width(),
            |l: int| base_constraints(gate, vars_base.constants(l), vars_base.wires(l)),
        ),
        gate.constraint_count(),
    )
}

/// The constraints of one row, each as a packed value of one lane.
pub open spec fn single_constraints<G: ConstraintFamily>(
    gate: &G,
    vars_base: EvaluationVarsBase<'_>,
) -> Seq<Seq<int>> {
    lanewise(
        seq![base_constraints(gate, vars_base.constants(), vars_base.wires())],
        gate.constraint_count(),
    )
}

/// Whether the targets `outputs` of `builder` compute the constraints of
/// the row whose constants and wires are the targets `constants` and
/// `wires`: whatever values the inputs of the circuit take, the values of
/// `outputs` are the constraints of the values of `constants` and `wires`.
pub open spec fn computes_constraints<G: ConstraintFamily>(
    gate: &G,
    builder: &CircuitBuilder,
    constants: Seq<ExtensionTarget>,
    wires: Seq<ExtensionTarget>,
    outputs: Seq<ExtensionTarget>,
) -> bool {
    forall|inputs: Seq<(int, int)>| #[trigger]
        builder.values(inputs, outputs) == gate.constraints(
            builder.values(inputs, constants),
            builder.values(inputs, wires),
        )
}

/// The evaluation over the base field agrees with the evaluation over the
/// extension field: the constraints of a row of base elements, embedded in
/// the extension, are the constraints of the embedded row.
pub proof fn lemma_cross_domain_equivalence<G: ConstraintFamily>(
    gate: &G,
    constants: Seq<int>,
    wires: Seq<int>,
)
    requires
        constants.len() >= gate.constant_count(),
        wires.len() >= gate.wire_count(),
    ensures
        embed_seq(base_constraints(gate, constants, wires)) == gate.constraints(
            embed_seq(constants),
            embed_seq(wires),
        ),
{
    gate.lemma_constraints_shape(embed_seq(constants), embed_seq(wires));
    gate.lemma_base_closed(constants, wires);
    assert(embed_seq(base_constraints(gate, constants, wires)) =~= gate.constraints(
        embed_seq(constants),
        embed_seq(wires),
    ));
}

/// The batched evaluation over the base field agrees with the evaluation
/// over the extension field, row by row: entry `j * batch_size + i` of the
/// batch's constraints, embedded in the extension, is constraint `j` of the
/// embedded row `i`.
pub proof fn lemma_batch_cross_domain_equivalence<G: ConstraintFamily>(
    gate: &G,
    vars_base: EvaluationVarsBaseBatch<'_>,
    i: int,
    j: int,
)
    requires
        vars_base.batch_size() > 0,
        vars_base.num_constants() >= gate.constant_count(),
        vars_base.num_wires() >= gate.wire_count(),
        0 <= i < vars_base.batch_size(),
        0 <= j < gate.constraint_count(),
    ensures
        0 <= j * vars_base.batch_size() + i < batch_constraints(gate, vars_base).len(),
        embed(batch_constraints(gate, vars_base)[j * vars_base.batch_size() + i])
            == gate.constraints(
            embed_seq(vars_base.constants(i)),
            embed_seq(vars_base.wires(i)),
        )[j],
{
    let n = vars_base.batch_size();
    let count = gate.constraint_count() as int;
    let k = j * n + i;
    assert(0 <= j * n && j * n + n <= count * n && count * n == n * count) by (nonlinear_arith)
        requires
            0 <= j,
            j + 1 <= count,
            0 < n,
    ;
    lemma_fundamental_div_mod_converse(k, n, j, i);
    lemma_cross_domain_equivalence(gate, vars_base.constants(i), vars_base.wires(i));
    let row = base_constraints(gate, vars_base.constants(i), vars_base.wires(i));
    gate.lemma_constraints_shape(
        embed_seq(vars_base.constants(i)),
        embed_seq(vars_base.wires(i)),
    );
    assert(embed_seq(row)[j] == embed(row[j]));
}

/// The circuit that a gate builds computes what that gate evaluates to: where
/// the targets of a row take the values `constants` and `wires`, the targets
/// of the constraints take the values of the constraints of that row.
pub proof fn lemma_recursion_equivalence<G: ConstraintFamily>(
    gate: &G,
    builder: &CircuitBuilder,
    constant_targets: Seq<ExtensionTarget>,
    wire_targets: Seq<ExtensionTarget>,
    outputs: Seq<ExtensionTarget>,
    inputs: Seq<(int, int)>,
    constants: Seq<(int, int)>,
    wires: Seq<(int, int)>,
)
    requires
        computes_constraints(gate, builder, constant_targets, wire_targets, outputs),
        builder.values(inputs, constant_targets) == constants,
        builder.values(inputs, wire_targets) == wires,
    ensures
        builder.values(inputs, outputs) == gate.constraints(constants, wires),
{
}

/// A constraint family that can be evaluated in every domain.
pub trait Gate: ConstraintFamily {
    /// The number of witness generators that this gate contributes to a row.
    spec fn generator_count(&self) -> nat;

    /// Whether this gate can be evaluated over the base field one row at a
    /// time. A gate that cannot is evaluated in batches only.
    spec fn supports_base_one(&self) -> bool;

    /// The identifier of this gate.
    spec fn id_text(&self) -> Seq<char>;

    /// The Circom code that checks the constraints.
    spec fn circom_text(&self) -> Seq<char>;

    /// The Solidity code that checks the constraints.
    spec fn solidity_text(&self) -> Seq<char>;

    /// The wires that are copies of a constant, each as the pair of the
    /// constant's index and the wire's index.
    spec fn constant_wires(&self) -> Seq<(usize, usize)>;

    /// The identifier of this gate, for debugging and serialization.
    fn id(&self) -> (r: String)
        ensures
            r@ == self.id_text(),
    ;

    /// The Circom code that checks the constraints, with every placeholder
    /// of its template filled in.
    fn export_circom_verification_code(&self) -> (r: String)
        ensures
            r@ == self.circom_text(),
            !r@.contains('$'),
    ;

    /// The Solidity code that checks the constraints, with every placeholder
    /// of its template filled in.
    fn export_solidity_verification_code(&self) -> (r: String)
        ensures
            r@ == self.solidity_text(),
            !r@.contains('$'),
    ;

    /// The constraints of a row, over the extension field.
    fn eval_unfiltered(&self, vars: EvaluationVars<'_>) -> (r: Vec<QuadraticExtension>)
        requires
            vars.local_constants@.len() >= self.constant_count(),
            vars.local_wires@.len() >= self.wire_count(),
        ensures
            r.deep_view() == self.constraints(
                vars.local_constants.deep_view(),
                vars.local_wires.deep_view(),
            ),
            r@.len() == self.constraint_count(),
    ;

    /// Whether this gate can be evaluated over the base field one row at a
    /// time.
    fn supports_single_row(&self) -> (b: bool)
        ensures
            b == self.supports_base_one(),
    ;

    /// Hands the constraints of a row, over the base field, to
    /// `yield_constr`.
    fn eval_unfiltered_base_one(
        &self,
        vars_base: EvaluationVarsBase<'_>,
        yield_constr: &mut StridedConstraintConsumer<GoldilocksField>,
    )
        requires
            self.supports_base_one(),
            vars_base.local_constants.spec_len() >= self.constant_count(),
            vars_base.local_wires.spec_len() >= self.wire_count(),
            old(yield_constr).written() + self.constraint_count() <= old(yield_constr).count(),
        ensures
            old(yield_constr).accepted(single_constraints(self, vars_base), final(yield_constr)),
    ;

    /// The constraints of every row of a batch, over the base field,
    /// constraint by constraint: constraint `j` of row `i` is at index
    /// `j * vars_base.len() + i`.
    fn eval_unfiltered_base_batch(&self, vars_base: EvaluationVarsBaseBatch<'_>) -> (r: Vec<
        GoldilocksField,
    >)
        requires
            vars_base.num_constants() >= self.constant_count(),
            vars_base.num_wires() >= self.wire_count(),
            vars_base.batch_size() * self.constraint_count() <= usize::MAX,
        ensures
            r.deep_view() == batch_constraints(self, vars_base),
            r@.len() == vars_base.batch_size() * self.constraint_count(),
    ;

    /// Records in `builder` the operations that compute the constraints of
    /// the row whose constants and wires are the targets in `vars`, and
    /// returns the targets of the constraints. Whatever values the inputs of
    /// the circuit take, the values of the returned targets are the
    /// constraints of the values of the row's targets.
    fn eval_unfiltered_circuit(
        &self,
        builder: &mut CircuitBuilder,
        vars: EvaluationTargets<'_>,
    ) -> (r: Vec<ExtensionTarget>)
        requires
            vars.local_constants@.len() >= self.constant_count(),
            vars.local_wires@.len() >= self.wire_count(),
            old(builder).has_targets(vars.local_constants@),
            old(builder).has_targets(vars.local_wires@),
        ensures
            final(builder).extends(old(builder)),
            final(builder).keeps_values(old(builder)),
            final(builder).num_inputs() == old(builder).num_inputs(),
            final(builder).has_targets(r@),
            r@.len() == self.constraint_count(),
            computes_constraints(
                self,
                final(builder),
                vars.local_constants@,
                vars.local_wires@,
                r@,
            ),
    ;

    /// The witness generators of this gate for row `row`.
    fn generators(&self, row: usize, local_constants: &[GoldilocksField]) -> (r: Vec<
        Box<dyn WitnessGenerator>,
    >)
        ensures
            r@.len() == self.generator_count(),
    ;

    /// The wires that are copies of a constant, each as the pair of the
    /// constant's index and the wire's index.
    fn extra_constant_wires(&self) -> (r: Vec<(usize, usize)>)
        ensures
            r@ == self.constant_wires(),
            forall|i: int|
                0 <= i < r@.len() ==> (#[trigger] r@[i]).0 < self.constant_count() && r@[i].1
                    < self.wire_count(),
    ;
}

} // verus!
