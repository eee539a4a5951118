//! The constant gate: each of its wires equals the constant of the same index.

use crate::circuit_builder::{CircuitBuilder, ExtensionTarget};
use crate::consumer::StridedConstraintConsumer;
use crate::codegen::{
    circom_verification_code, solidity_verification_code, verification_code, CIRCOM_FILTER,
    CIRCOM_TEMPLATE, SOLIDITY_FILTER, SOLIDITY_TEMPLATE,
};
use crate::decimal::{decimal, to_decimal};
use crate::extension::{ext_sub, QuadraticExtension};
use crate::field::{
    is_canonical, lemma_difference_of_shifted, lemma_ops_canonical, lemma_self_difference,
    GoldilocksField,
};
use crate::gate::{finite_difference, packed_constraints, row_add, ConstraintFamily, Gate};
use crate::generator::{is_run_outcome, WitnessGenerator};
use crate::packed::{PackedField, PackedGoldilocks};
use crate::packed_util::{eval_unfiltered_base_batch_packed, PackedEvaluableBase};
use crate::vars::{
    EvaluationTargets, EvaluationVars, EvaluationVarsBase, EvaluationVarsBaseBatch,
    EvaluationVarsBasePacked,
};
use vstd::prelude::*;
use vstd::string::*;

verus! {

/// A gate which takes `num_consts` constants and forces wire `i` to equal
/// constant `i`.
#[derive(Copy, Clone, Debug)]
pub struct ConstantGate {
    pub num_consts: usize,
}

impl ConstantGate {
    /// The index of the constant that input `i` reads.
    pub fn const_input(&self, i: usize) -> (r: usize)
        requires
            i < self.num_consts,
        ensures
            r == i,
    {
        i
    }

    /// The index of the wire that output `i` constrains.
    pub fn wire_output(&self, i: usize) -> (r: usize)
        requires
            i < self.num_consts,
        ensures
            r == i,
    {
        i
    }
}

/// A constant gate has no generator: running its generators leaves every
/// wire as it was.
pub proof fn lemma_generators_idle(
    gate: ConstantGate,
    before: Seq<Option<int>>,
    after: Seq<Option<int>>,
)
    requires
        is_run_outcome(gate.generator_count(), before, after),
    ensures
        after == before,
{
}

/// The identifier and the verification code of a constant gate depend on
/// its number of constants only.
pub proof fn lemma_code_is_determined(a: ConstantGate, b: ConstantGate)
    requires
        a.num_consts == b.num_consts,
    ensures
        a.id_text() == b.id_text(),
        a.circom_text() == b.circom_text(),
        a.solidity_text() == b.solidity_text(),
{
}

impl ConstraintFamily for ConstantGate {
    open spec fn wire_count(&self) -> nat {
        self.num_consts as nat
    }

    open spec fn constant_count(&self) -> nat {
        self.num_consts as nat
    }

    open spec fn degree_bound(&self) -> nat {
        1
    }

    open spec fn constraint_count(&self) -> nat {
        self.num_consts as nat
    }

    /// Constraint `i` is constant `i` less wire `i`.
    open spec fn constraints(&self, constants: Seq<(int, int)>, wires: Seq<(int, int)>) -> Seq<
        (int, int),
    > {
        Seq::new(self.num_consts as nat, |i: int| ext_sub(constants[i], wires[i]))
    }

    proof fn lemma_constraints_shape(&self, constants: Seq<(int, int)>, wires: Seq<(int, int)>) {
        let all = self.constraints(constants, wires);
        assert forall|i: int| 0 <= i < all.len() implies is_canonical(#[trigger] all[i].0)
            && is_canonical(all[i].1) by {
            lemma_ops_canonical(constants[i].0, wires[i].0);
            lemma_ops_canonical(constants[i].1, wires[i].1);
        }
    }

    proof fn lemma_base_closed(&self, constants: Seq<int>, wires: Seq<int>) {
    }

    proof fn lemma_low_degree(
        &self,
        constants: Seq<(int, int)>,
        wires: Seq<(int, int)>,
        constants_step: Seq<(int, int)>,
        wires_step: Seq<(int, int)>,
        j: int,
    ) {
        let f = |c: Seq<(int, int)>, w: Seq<(int, int)>| self.constraints(c, w)[j];
        let c0 = constants;
        let w0 = wires;
        let c1 = row_add(c0, constants_step);
        let w1 = row_add(w0, wires_step);
        let c2 = row_add(c1, constants_step);
        let w2 = row_add(w1, wires_step);
        reveal_with_fuel(finite_difference, 3);
        let first = finite_difference(f, c0, w0, constants_step, wires_step, 1);
        let second = finite_difference(f, c1, w1, constants_step, wires_step, 1);
        assert(first == ext_sub(f(c1, w1), f(c0, w0)));
        assert(second == ext_sub(f(c2, w2), f(c1, w1)));
        lemma_difference_of_shifted(c0[j].0, constants_step[j].0, w0[j].0, wires_step[j].0);
        lemma_difference_of_shifted(c0[j].1, constants_step[j].1, w0[j].1, wires_step[j].1);
        lemma_difference_of_shifted(c1[j].0, constants_step[j].0, w1[j].0, wires_step[j].0);
        lemma_difference_of_shifted(c1[j].1, constants_step[j].1, w1[j].1, wires_step[j].1);
        assert(first == second);
        lemma_self_difference(first.0);
        lemma_self_difference(first.1);
    }

    fn num_wires(&self) -> (n: usize) {
        self.num_consts
    }

    fn num_constants(&self) -> (n: usize) {
        self.num_consts
    }

    fn degree(&self) -> (n: usize) {
        1
    }

    fn num_constraints(&self) -> (n: usize) {
        self.num_consts
    }
}

impl PackedEvaluableBase for ConstantGate {
    fn eval_unfiltered_base_packed<P: PackedField>(
        &self,
        vars_base: EvaluationVarsBasePacked<'_, P>,
        yield_constr: &mut StridedConstraintConsumer<P>,
    ) {
        let ghost all = packed_constraints(self, vars_base);
        let mut i: usize = 0;
        assert(all.take(0) =~= Seq::<Seq<int>>::empty());
        while i < self.num_consts
            invariant
                i <= self.num_consts,
                vars_base.local_constants.spec_len() >= self.num_consts,
                vars_base.local_wires.spec_len() >= self.num_consts,
                old(yield_constr).written() + self.num_consts <= old(yield_constr).count(),
                all == packed_constraints(self, vars_base),
                old(yield_constr).accepted(all.take(i as int), yield_constr),
            decreases self.num_consts - i,
        {
            let ghost mid = *yield_constr;
            let constant = vars_base.local_constants.get(self.const_input(i));
            let wire = vars_base.local_wires.get(self.wire_output(i));
            let difference = constant.sub(wire);
            yield_constr.one(difference);
            proof {
                assert(difference.lanes() =~= all[i as int]);
                old(yield_constr).lemma_accepted_one_more(
                    &mid,
                    &*yield_constr,
                    all.take(i as int),
                    all[i as int],
                );
                assert(all.take(i as int + 1) =~= all.take(i as int).push(all[i as int]));
            }
            i = i + 1;
        }
        assert(all.take(self.num_consts as int) =~= all);
    }
}

impl Gate for ConstantGate {
    /// The wires of this gate are copies of its constants: it has no
    /// generator.
    open spec fn generator_count(&self) -> nat {
        0
    }

    /// This gate is evaluated over the base field in packed form only.
    open spec fn supports_base_one(&self) -> bool {
        false
    }

    open spec fn id_text(&self) -> Seq<char> {
        "ConstantGate { num_consts: "@ + decimal(self.num_consts as nat) + " }"@
    }

    open spec fn circom_text(&self) -> Seq<char> {
        verification_code(CIRCOM_TEMPLATE@, self.num_consts as nat, CIRCOM_FILTER@)
    }

    open spec fn solidity_text(&self) -> Seq<char> {
        verification_code(SOLIDITY_TEMPLATE@, self.num_consts as nat, SOLIDITY_FILTER@)
    }

    open spec fn constant_wires(&self) -> Seq<(usize, usize)> {
        Seq::new(self.num_consts as nat, |i: int| (i as usize, i as usize))
    }

    fn id(&self) -> (r: String) {
        let mut r = String::from_str("ConstantGate { num_consts: ");
        let count = to_decimal(self.num_consts);
        r.append(count.as_str());
        r.append(" }");
        r
    }

    fn export_circom_verification_code(&self) -> (r: String) {
        circom_verification_code(self.num_consts)
    }

    fn export_solidity_verification_code(&self) -> (r: String) {
        solidity_verification_code(self.num_consts)
    }

    fn eval_unfiltered(&self, vars: EvaluationVars<'_>) -> (r: Vec<QuadraticExtension>) {
        let mut r: Vec<QuadraticExtension> = Vec::new();
        let mut i: usize = 0;
        while i < self.num_consts
            invariant
                i <= self.num_consts,
                vars.local_constants@.len() >= self.num_consts,
                vars.local_wires@.len() >= self.num_consts,
                r@.len() == i,
                forall|k: int|
                    0 <= k < i ==> (#[trigger] r@[k])@ == ext_sub(
                        vars.local_constants@[k]@,
                        vars.local_wires@[k]@,
                    ),
            decreases self.num_consts - i,
        {
            let constant = vars.local_constants[self.const_input(i)];
            let wire = vars.local_wires[self.wire_output(i)];
            r.push(constant.sub(wire));
            i = i + 1;
        }
        assert(r.deep_view() =~= self.constraints(
            vars.local_constants.deep_view(),
            vars.local_wires.deep_view(),
        ));
        r
    }

    fn supports_single_row(&self) -> (b: bool) {
        false
    }

    /// This gate has no evaluation of one row by itself: no call of this
    /// function can meet `supports_base_one()`.
    fn eval_unfiltered_base_one(
        &self,
        vars_base: EvaluationVarsBase<'_>,
        yield_constr: &mut StridedConstraintConsumer<GoldilocksField>,
    ) {
    }

    fn eval_unfiltered_base_batch(&self, vars_base: EvaluationVarsBaseBatch<'_>) -> (r: Vec<
        GoldilocksField,
    >) {
        eval_unfiltered_base_batch_packed::<ConstantGate, PackedGoldilocks<4>>(self, vars_base)
    }

    fn eval_unfiltered_circuit(
        &self,
        builder: &mut CircuitBuilder,
        vars: EvaluationTargets<'_>,
    ) -> (r: Vec<ExtensionTarget>) {
        let mut r: Vec<ExtensionTarget> = Vec::new();
        let mut i: usize = 0;
        while i < self.num_consts
            invariant
                i <= self.num_consts,
                vars.local_constants@.len() >= self.num_consts,
                vars.local_wires@.len() >= self.num_consts,
                builder.extends(old(builder)),
                builder.num_inputs() == old(builder).num_inputs(),
                builder.has_targets(vars.local_constants@),
                builder.has_targets(vars.local_wires@),
                builder.has_targets(r@),
                r@.len() == i,
                forall|inputs: Seq<(int, int)>, k: int|
                    0 <= k < i ==> #[trigger] builder.value(inputs, r@[k]) == ext_sub(
                        builder.value(inputs, vars.local_constants@[k]),
                        builder.value(inputs, vars.local_wires@[k]),
                    ),
            decreases self.num_consts - i,
        {
            let ghost before = *builder;
            let ghost made = r@;
            let constant = vars.local_constants[self.const_input(i)];
            let wire = vars.local_wires[self.wire_output(i)];
            assert(before.has_target(vars.local_constants@[i as int]));
            assert(before.has_target(vars.local_wires@[i as int]));
            let difference = builder.sub_extension(constant, wire);
            r.push(difference);
            proof {
                let empty = Seq::<(int, int)>::empty();
                builder.lemma_extends_keeps_values(&before, empty, vars.local_constants@);
                builder.lemma_extends_keeps_values(&before, empty, vars.local_wires@);
                builder.lemma_extends_keeps_values(&before, empty, made);
                assert forall|inputs: Seq<(int, int)>, k: int| 0 <= k <= i implies #[trigger]
                    builder.value(inputs, r@[k]) == ext_sub(
                    builder.value(inputs, vars.local_constants@[k]),
                    builder.value(inputs, vars.local_wires@[k]),
                ) by {
                    assert(before.has_target(vars.local_constants@[k]));
                    assert(before.has_target(vars.local_wires@[k]));
                    builder.lemma_extends_keeps_value(&before, inputs, vars.local_constants@[k]);
                    builder.lemma_extends_keeps_value(&before, inputs, vars.local_wires@[k]);
                    if k < i {
                        assert(before.has_target(made[k]));
                        builder.lemma_extends_keeps_value(&before, inputs, made[k]);
                    }
                }
            }
            i = i + 1;
        }
        proof {
            builder.lemma_extends_keeps(old(builder));
            assert forall|inputs: Seq<(int, int)>| #[trigger]
                builder.values(inputs, r@) == self.constraints(
                    builder.values(inputs, vars.local_constants@),
                    builder.values(inputs, vars.local_wires@),
                ) by {
                assert(builder.values(inputs, r@) =~= self.constraints(
                    builder.values(inputs, vars.local_constants@),
                    builder.values(inputs, vars.local_wires@),
                ));
            }
        }
        r
    }

    /// The wires of this gate are copies of its constants: it has no
    /// generator.
    fn generators(&self, row: usize, local_constants: &[GoldilocksField]) -> (r: Vec<
        Box<dyn WitnessGenerator>,
    >) {
        Vec::new()
    }

    fn extra_constant_wires(&self) -> (r: Vec<(usize, usize)>) {
        let mut r: Vec<(usize, usize)> = Vec::new();
        let mut i: usize = 0;
        while i < self.num_consts
            invariant
                i <= self.num_consts,
                r@.len() == i,
                forall|k: int| 0 <= k < i ==> #[trigger] r@[k] == (k as usize, k as usize),
            decreases self.num_consts - i,
        {
            r.push((self.const_input(i), self.wire_output(i)));
            i = i + 1;
        }
        assert(r@ =~= self.constant_wires());
        r
    }
}

} // verus!
