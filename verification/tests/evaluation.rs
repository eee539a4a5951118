use plonk_gates::circuit_builder::{CircuitBuilder, ExtensionTarget};
use plonk_gates::constant::ConstantGate;
use plonk_gates::consumer::StridedConstraintConsumer;
use plonk_gates::extension::QuadraticExtension;
use plonk_gates::field::{GoldilocksField, ORDER};
use plonk_gates::gate::{ConstraintFamily, Gate};
use plonk_gates::generator::{run_generators, PartialWitness, WitnessGenerator};
use plonk_gates::packed::{PackedField, PackedGoldilocks};
use plonk_gates::packed_util::{eval_unfiltered_base_batch_packed, PackedEvaluableBase};
use plonk_gates::vars::{
    EvaluationTargets, EvaluationVars, EvaluationVarsBaseBatch, PackedStridedView,
};

fn f(n: u64) -> GoldilocksField {
    GoldilocksField::from_canonical_u64(n)
}

fn fs(values: &[u64]) -> Vec<GoldilocksField> {
    values.iter().map(|&n| f(n)).collect()
}

fn e(n: u64) -> QuadraticExtension {
    QuadraticExtension::from_basefield(f(n))
}

fn es(values: &[u64]) -> Vec<QuadraticExtension> {
    values.iter().map(|&n| e(n)).collect()
}

fn canonical(values: &[GoldilocksField]) -> Vec<u64> {
    values.iter().map(|x| x.to_canonical_u64()).collect()
}

/// The table of a batch, column by column, from its rows.
fn column_major(rows: &[Vec<u64>]) -> Vec<GoldilocksField> {
    let columns = rows[0].len();
    let mut table = Vec::new();
    for j in 0..columns {
        for row in rows {
            table.push(f(row[j]));
        }
    }
    table
}

#[test]
fn constant_gate_vanishes_where_wires_equal_constants() {
    let gate = ConstantGate { num_consts: 3 };
    let constants = es(&[5, 7, 9]);
    let wires = es(&[5, 7, 9]);
    let evals = gate.eval_unfiltered(EvaluationVars {
        local_constants: &constants,
        local_wires: &wires,
    });
    assert_eq!(evals, es(&[0, 0, 0]));
}

#[test]
fn constant_gate_is_constant_less_wire() {
    let gate = ConstantGate { num_consts: 3 };
    let constants = es(&[5, 7, 9]);
    let wires = es(&[5, 7, 8]);
    let evals = gate.eval_unfiltered(EvaluationVars {
        local_constants: &constants,
        local_wires: &wires,
    });
    assert_eq!(evals, es(&[0, 0, 1]));
}

#[test]
fn constant_gate_wraps_below_zero() {
    let gate = ConstantGate { num_consts: 1 };
    let constants = es(&[7]);
    let wires = es(&[9]);
    let evals = gate.eval_unfiltered(EvaluationVars {
        local_constants: &constants,
        local_wires: &wires,
    });
    assert_eq!(evals, es(&[ORDER - 2]));
}

#[test]
fn constant_gate_reads_both_coordinates() {
    let gate = ConstantGate { num_consts: 1 };
    let constants = vec![QuadraticExtension([f(10), f(3)])];
    let wires = vec![QuadraticExtension([f(4), f(5)])];
    let evals = gate.eval_unfiltered(EvaluationVars {
        local_constants: &constants,
        local_wires: &wires,
    });
    assert_eq!(evals, vec![QuadraticExtension([f(6), f(ORDER - 2)])]);
}

#[test]
fn constant_gate_ignores_what_lies_behind_its_constants() {
    let gate = ConstantGate { num_consts: 2 };
    let constants = es(&[5, 7, 100]);
    let wires = es(&[1, 2, 3, 4]);
    let evals = gate.eval_unfiltered(EvaluationVars {
        local_constants: &constants,
        local_wires: &wires,
    });
    assert_eq!(evals, es(&[4, 5]));
}

#[test]
fn constant_gate_of_no_constant_has_no_constraint() {
    let gate = ConstantGate { num_consts: 0 };
    let evals = gate.eval_unfiltered(EvaluationVars { local_constants: &[], local_wires: &[] });
    assert!(evals.is_empty());
    let batch = EvaluationVarsBaseBatch::new(3, &[], &[]);
    assert!(gate.eval_unfiltered_base_batch(batch).is_empty());
}

#[test]
fn base_batch_scenario() {
    let gate = ConstantGate { num_consts: 3 };
    let constants = fs(&[5, 7, 9]);
    let equal = fs(&[5, 7, 9]);
    let off = fs(&[5, 7, 8]);
    let evals = gate.eval_unfiltered_base_batch(EvaluationVarsBaseBatch::new(1, &constants, &equal));
    assert_eq!(canonical(&evals), vec![0, 0, 0]);
    let evals = gate.eval_unfiltered_base_batch(EvaluationVarsBaseBatch::new(1, &constants, &off));
    assert_eq!(canonical(&evals), vec![0, 0, 1]);
}

#[test]
fn base_batch_is_laid_out_constraint_by_constraint() {
    let gate = ConstantGate { num_consts: 2 };
    // Three rows: (constants, wires).
    let constants = column_major(&[vec![10, 20], vec![11, 21], vec![12, 22]]);
    let wires = column_major(&[vec![1, 2], vec![3, 4], vec![5, 6]]);
    let evals = gate.eval_unfiltered_base_batch(EvaluationVarsBaseBatch::new(3, &constants, &wires));
    // Constraint 0 of rows 0, 1, 2, then constraint 1 of rows 0, 1, 2.
    assert_eq!(canonical(&evals), vec![9, 8, 7, 18, 17, 16]);
}

fn batch_rows(num_rows: usize, num_columns: usize, seed: u64) -> Vec<Vec<u64>> {
    let mut state = seed;
    (0..num_rows)
        .map(|_| {
            (0..num_columns)
                .map(|_| {
                    state = state.wrapping_mul(6364136223846793005).wrapping_add(1442695040888963407);
                    (state >> 11) % ORDER
                })
                .collect()
        })
        .collect()
}

fn row_by_row(gate: &ConstantGate, constants: &[Vec<u64>], wires: &[Vec<u64>]) -> Vec<u64> {
    let n = constants.len();
    let mut expected = vec![0u64; n * gate.num_constraints()];
    for i in 0..n {
        let c = es(&constants[i]);
        let w = es(&wires[i]);
        let evals = gate.eval_unfiltered(EvaluationVars { local_constants: &c, local_wires: &w });
        for (j, eval) in evals.iter().enumerate() {
            let coordinates = eval.to_basefield_array();
            assert_eq!(coordinates[1].to_canonical_u64(), 0);
            expected[j * n + i] = coordinates[0].to_canonical_u64();
        }
    }
    expected
}

fn packed_equals_row_by_row<P: PackedField>() {
    let gate = ConstantGate { num_consts: 3 };
    for num_rows in 1..12 {
        let constants = batch_rows(num_rows, 3, 17 + num_rows as u64);
        let wires = batch_rows(num_rows, 3, 91 + num_rows as u64);
        let constants_table = column_major(&constants);
        let wires_table = column_major(&wires);
        let batch = EvaluationVarsBaseBatch::new(num_rows, &constants_table, &wires_table);
        let packed = eval_unfiltered_base_batch_packed::<ConstantGate, P>(&gate, batch);
        assert_eq!(canonical(&packed), row_by_row(&gate, &constants, &wires));
    }
}

#[test]
fn packing_equivalence_for_every_width() {
    packed_equals_row_by_row::<GoldilocksField>();
    packed_equals_row_by_row::<PackedGoldilocks<0>>();
    packed_equals_row_by_row::<PackedGoldilocks<1>>();
    packed_equals_row_by_row::<PackedGoldilocks<2>>();
    packed_equals_row_by_row::<PackedGoldilocks<3>>();
    packed_equals_row_by_row::<PackedGoldilocks<4>>();
    packed_equals_row_by_row::<PackedGoldilocks<8>>();
    packed_equals_row_by_row::<PackedGoldilocks<16>>();
}

#[test]
fn packed_evaluation_applies_the_filter_in_each_lane() {
    let gate = ConstantGate { num_consts: 2 };
    // Two rows.
    let constants = column_major(&[vec![10, 20], vec![30, 40]]);
    let wires = column_major(&[vec![1, 2], vec![3, 4]]);
    let batch = EvaluationVarsBaseBatch::new(2, &constants, &wires);
    let filter = PackedGoldilocks::<2>([f(2), f(0)]);
    let buffer = fs(&[100, 101, 102, 103]);
    let mut consumer = StridedConstraintConsumer::new(buffer, 2, 0, 2, filter);
    gate.eval_unfiltered_base_packed(batch.view_packed::<PackedGoldilocks<2>>(0), &mut consumer);
    assert_eq!(consumer.remaining(), 0);
    // Row 0 is doubled, row 1 is filtered out.
    assert_eq!(canonical(&consumer.into_buffer()), vec![18, 0, 36, 0]);
}

#[test]
fn consumer_multiplies_by_its_filter() {
    let buffer = fs(&[0, 0, 0]);
    let mut consumer = StridedConstraintConsumer::new(buffer, 1, 0, 3, f(3));
    consumer.one(f(5));
    consumer.many(&[f(7), f(ORDER - 1)]);
    assert_eq!(canonical(&consumer.into_buffer()), vec![15, 21, ORDER - 3]);
}

#[test]
fn consumer_leaves_other_slots_alone() {
    // Gate A writes two constraints at offset 3 of a vector of eight.
    let buffer = fs(&[10, 11, 12, 13, 14, 15, 16, 17]);
    let mut consumer = StridedConstraintConsumer::new(buffer, 1, 3, 2, f(1));
    consumer.many(&[f(1), f(2)]);
    assert_eq!(canonical(&consumer.into_buffer()), vec![10, 11, 12, 1, 2, 15, 16, 17]);
}

#[test]
fn consumer_strides_over_the_rows_of_a_batch() {
    // Three constraints for rows 1 and 2 of a batch of four.
    let buffer = fs(&[0; 12]);
    let filter = PackedGoldilocks::<2>([f(1), f(1)]);
    let mut consumer = StridedConstraintConsumer::new(buffer, 4, 1, 3, filter);
    consumer.one(PackedGoldilocks([f(1), f(2)]));
    consumer.one(PackedGoldilocks([f(3), f(4)]));
    assert_eq!(consumer.remaining(), 1);
    consumer.one(PackedGoldilocks([f(5), f(6)]));
    assert_eq!(canonical(&consumer.into_buffer()), vec![0, 1, 2, 0, 0, 3, 4, 0, 0, 5, 6, 0]);
}

#[test]
fn consumer_given_fewer_constraints_keeps_what_was_there() {
    let buffer = fs(&[0, 0, 9]);
    let mut consumer = StridedConstraintConsumer::new(buffer, 1, 0, 3, f(1));
    consumer.one(f(4));
    assert_eq!(consumer.remaining(), 2);
    assert_eq!(canonical(&consumer.into_buffer()), vec![4, 0, 9]);
}

#[test]
fn strided_view_reads_one_row_in_each_lane() {
    // Two columns of a batch of three rows.
    let table = fs(&[1, 2, 3, 11, 12, 13]);
    let scalar: PackedStridedView<GoldilocksField> = PackedStridedView::new(&table, 3, 2);
    assert_eq!(scalar.len(), 2);
    assert_eq!(scalar.get(0).to_canonical_u64(), 3);
    assert_eq!(scalar.get(1).to_canonical_u64(), 13);
    let packed: PackedStridedView<PackedGoldilocks<2>> = PackedStridedView::new(&table, 3, 1);
    assert_eq!(canonical(&packed.get(0).0), vec![2, 3]);
    assert_eq!(canonical(&packed.get(1).0), vec![12, 13]);
}

#[test]
fn batch_views() {
    let constants = fs(&[1, 2, 3, 11, 12, 13]);
    let wires = fs(&[4, 5, 6]);
    let batch = EvaluationVarsBaseBatch::new(3, &constants, &wires);
    assert_eq!(batch.len(), 3);
    let row = batch.view(1);
    assert_eq!(row.local_constants.len(), 2);
    assert_eq!(row.local_constants.get(1).to_canonical_u64(), 12);
    assert_eq!(row.local_wires.len(), 1);
    assert_eq!(row.local_wires.get(0).to_canonical_u64(), 5);
    let rows = batch.view_packed::<PackedGoldilocks<2>>(1);
    assert_eq!(canonical(&rows.local_wires.get(0).0), vec![5, 6]);
}

#[test]
fn circuit_of_constant_gate_computes_its_constraints() {
    let gate = ConstantGate { num_consts: 3 };
    let mut builder = CircuitBuilder::new();
    let constants_t = builder.add_virtual_extension_targets(3);
    let wires_t = builder.add_virtual_extension_targets(3);
    let before = builder.num_targets();
    let evals_t = gate.eval_unfiltered_circuit(
        &mut builder,
        EvaluationTargets { local_constants: &constants_t, local_wires: &wires_t },
    );
    assert_eq!(evals_t.len(), 3);
    assert_eq!(builder.num_targets(), before + 3);
    let values = builder.evaluate(&es(&[5, 7, 9, 5, 7, 8]));
    let evals: Vec<QuadraticExtension> = evals_t.iter().map(|t| values[t.index]).collect();
    assert_eq!(evals, es(&[0, 0, 1]));
    // The same circuit on another row.
    let values = builder.evaluate(&es(&[1, 1, 1, 0, 1, 2]));
    let evals: Vec<QuadraticExtension> = evals_t.iter().map(|t| values[t.index]).collect();
    assert_eq!(evals, es(&[1, 0, ORDER - 1]));
}

#[test]
fn builder_subtracts_targets() {
    let mut builder = CircuitBuilder::new();
    let a = builder.add_virtual_extension_target();
    let b = builder.add_virtual_extension_target();
    assert_eq!(a, ExtensionTarget { index: 0 });
    assert_eq!(b, ExtensionTarget { index: 1 });
    let d = builder.sub_extension(a, b);
    let dd = builder.sub_extension(d, b);
    let values = builder.evaluate(&es(&[10, 3]));
    assert_eq!(values[d.index], e(7));
    assert_eq!(values[dd.index], e(4));
    assert_eq!(builder.num_targets(), 4);
}

#[test]
fn constant_gate_has_no_generator() {
    let gate = ConstantGate { num_consts: 3 };
    let generators = gate.generators(0, &fs(&[5, 7, 9]));
    assert!(generators.is_empty());
    let mut witness = PartialWitness::new(3);
    witness.set(1, f(7));
    let pending = run_generators(&generators, &mut witness);
    assert_eq!(pending, 0);
    assert_eq!(witness.len(), 3);
    assert_eq!(witness.get(0), None);
    assert_eq!(witness.get(1), Some(f(7)));
    assert_eq!(witness.get(2), None);
}

/// Sets wire `to` to the double of wire `from`, once that is known.
struct Doubler {
    from: usize,
    to: usize,
}

impl WitnessGenerator for Doubler {
    fn run(&self, witness: &mut PartialWitness) -> bool {
        match witness.get(self.from) {
            Some(x) => {
                if witness.get(self.to).is_none() {
                    witness.set(self.to, x.add(x));
                }
                true
            }
            None => false,
        }
    }
}

#[test]
fn generators_run_in_order_and_report_the_pending() {
    let generators: Vec<Box<dyn WitnessGenerator>> = vec![
        Box::new(Doubler { from: 2, to: 3 }),
        Box::new(Doubler { from: 0, to: 1 }),
        Box::new(Doubler { from: 1, to: 2 }),
    ];
    let mut witness = PartialWitness::new(4);
    witness.set(0, f(5));
    // The first generator waits for wire 2, which the third one writes.
    assert_eq!(run_generators(&generators, &mut witness), 1);
    assert_eq!(witness.get(1), Some(f(10)));
    assert_eq!(witness.get(2), Some(f(20)));
    assert_eq!(witness.get(3), None);
    assert_eq!(run_generators(&generators, &mut witness), 0);
    assert_eq!(witness.get(3), Some(f(40)));
    assert_eq!(witness.get(0), Some(f(5)));
}

#[test]
fn extra_constant_wires_pair_each_constant_with_its_wire() {
    let gate = ConstantGate { num_consts: 3 };
    assert_eq!(gate.extra_constant_wires(), vec![(0, 0), (1, 1), (2, 2)]);
    assert!(ConstantGate { num_consts: 0 }.extra_constant_wires().is_empty());
}
