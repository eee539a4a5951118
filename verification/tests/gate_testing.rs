use plonk_gates::circuit_builder::CircuitBuilder;
use plonk_gates::constant::ConstantGate;
use plonk_gates::extension::QuadraticExtension;
use plonk_gates::field::{GoldilocksField, ORDER};
use plonk_gates::gate::{ConstraintFamily, Gate};
use plonk_gates::vars::{EvaluationTargets, EvaluationVars, EvaluationVarsBaseBatch};

const WITNESS_SIZE: usize = 1 << 5;
const WITNESS_DEGREE: usize = WITNESS_SIZE - 1;

/// The number of constants of the standard recursion configuration.
const STANDARD_NUM_CONSTANTS: usize = 2;

struct Sampler {
    state: u64,
}

impl Sampler {
    fn new(seed: u64) -> Self {
        Sampler { state: seed }
    }

    fn next_u64(&mut self) -> u64 {
        self.state = self.state.wrapping_add(0x9E37_79B9_7F4A_7C15);
        let mut z = self.state;
        z = (z ^ (z >> 30)).wrapping_mul(0xBF58_476D_1CE4_E5B9);
        z = (z ^ (z >> 27)).wrapping_mul(0x94D0_49BB_1331_11EB);
        z ^ (z >> 31)
    }

    fn base(&mut self) -> GoldilocksField {
        GoldilocksField::from_noncanonical_u64(self.next_u64())
    }

    fn base_vec(&mut self, n: usize) -> Vec<GoldilocksField> {
        (0..n).map(|_| self.base()).collect()
    }

    fn extension(&mut self) -> QuadraticExtension {
        QuadraticExtension([self.base(), self.base()])
    }

    fn extension_vec(&mut self, n: usize) -> Vec<QuadraticExtension> {
        (0..n).map(|_| self.extension()).collect()
    }
}

fn power(base: GoldilocksField, exponent: u64) -> GoldilocksField {
    let mut result = GoldilocksField::one();
    let mut square = base;
    let mut e = exponent;
    while e > 0 {
        if e & 1 == 1 {
            result = result.mul(square);
        }
        square = square.mul(square);
        e >>= 1;
    }
    result
}

fn inverse(a: GoldilocksField) -> GoldilocksField {
    power(a, ORDER - 2)
}

fn scale(x: QuadraticExtension, s: GoldilocksField) -> QuadraticExtension {
    x.mul(QuadraticExtension::from_basefield(s))
}

fn evaluate_polynomial(coefficients: &[QuadraticExtension], x: GoldilocksField) -> QuadraticExtension {
    let mut acc = QuadraticExtension::zero();
    for c in coefficients.iter().rev() {
        acc = scale(acc, x).add(*c);
    }
    acc
}

/// For each of `n` columns a random polynomial of degree at most
/// `WITNESS_DEGREE`, evaluated at the points `0, 1, ..`; one row for each
/// point.
fn random_low_degree_matrix(
    sampler: &mut Sampler,
    num_polys: usize,
    num_points: usize,
) -> Vec<Vec<QuadraticExtension>> {
    let polys: Vec<Vec<QuadraticExtension>> =
        (0..num_polys).map(|_| sampler.extension_vec(WITNESS_SIZE)).collect();
    (0..num_points)
        .map(|i| {
            let x = GoldilocksField::from_canonical_u64(i as u64);
            polys.iter().map(|p| evaluate_polynomial(p, x)).collect()
        })
        .collect()
}

/// The degree of the polynomial that takes the value `values[i]` at the
/// point `i`, by Newton's divided differences; `None` for the zero
/// polynomial.
fn degree_of_interpolant(values: &[QuadraticExtension]) -> Option<usize> {
    let n = values.len();
    let inverses: Vec<GoldilocksField> = (0..n)
        .map(|k| {
            if k == 0 {
                GoldilocksField::zero()
            } else {
                inverse(GoldilocksField::from_canonical_u64(k as u64))
            }
        })
        .collect();
    let mut d: Vec<QuadraticExtension> = values.to_vec();
    for k in 1..n {
        for i in (k..n).rev() {
            d[i] = scale(d[i].sub(d[i - 1]), inverses[k]);
        }
    }
    (0..n).rev().find(|&k| d[k] != QuadraticExtension::zero())
}

fn log2_ceil(n: usize) -> usize {
    let mut bits = 0;
    while (1usize << bits) < n {
        bits += 1;
    }
    bits
}

fn test_low_degree<G: Gate>(gate: G) {
    let mut sampler = Sampler::new(0x10AD);
    let rate_bits = log2_ceil(gate.degree() + 1);
    let num_points = WITNESS_SIZE << rate_bits;

    let wire_ldes = random_low_degree_matrix(&mut sampler, gate.num_wires(), num_points);
    let constant_ldes = random_low_degree_matrix(&mut sampler, gate.num_constants(), num_points);
    assert_eq!(wire_ldes.len(), constant_ldes.len());

    let constraint_evals: Vec<Vec<QuadraticExtension>> = wire_ldes
        .iter()
        .zip(constant_ldes.iter())
        .map(|(local_wires, local_constants)| {
            gate.eval_unfiltered(EvaluationVars { local_constants, local_wires })
        })
        .collect();

    let num_constraints = constraint_evals[0].len();
    assert_eq!(num_constraints, gate.num_constraints());
    let expected_eval_degree = WITNESS_DEGREE * gate.degree();
    for j in 0..num_constraints {
        let column: Vec<QuadraticExtension> =
            constraint_evals.iter().map(|row| row[j]).collect();
        let degree = degree_of_interpolant(&column).unwrap_or(0);
        assert!(
            degree <= expected_eval_degree,
            "constraint {} has degree {}, above {}",
            j,
            degree,
            expected_eval_degree
        );
    }
}

fn test_eval_fns<G: Gate>(gate: G) {
    let mut sampler = Sampler::new(0xE7A1);

    // `eval_unfiltered` and `eval_unfiltered_base_batch` agree.
    let wires_base = sampler.base_vec(gate.num_wires());
    let constants_base = sampler.base_vec(gate.num_constants());
    let wires: Vec<QuadraticExtension> =
        wires_base.iter().map(|&x| QuadraticExtension::from_basefield(x)).collect();
    let constants: Vec<QuadraticExtension> =
        constants_base.iter().map(|&x| QuadraticExtension::from_basefield(x)).collect();
    let vars_base_batch = EvaluationVarsBaseBatch::new(1, &constants_base, &wires_base);
    let vars = EvaluationVars { local_constants: &constants, local_wires: &wires };
    let evals_base = gate.eval_unfiltered_base_batch(vars_base_batch);
    let evals = gate.eval_unfiltered(vars);
    // This works because the batch has one row.
    assert_eq!(
        evals,
        evals_base.into_iter().map(QuadraticExtension::from_basefield).collect::<Vec<_>>()
    );

    // `eval_unfiltered` and `eval_unfiltered_circuit` agree.
    let wires = sampler.extension_vec(gate.num_wires());
    let constants = sampler.extension_vec(gate.num_constants());
    let mut builder = CircuitBuilder::new();
    let wires_t = builder.add_virtual_extension_targets(wires.len());
    let constants_t = builder.add_virtual_extension_targets(constants.len());
    let mut inputs = wires.clone();
    inputs.extend(constants.iter().copied());

    let vars = EvaluationVars { local_constants: &constants, local_wires: &wires };
    let evals = gate.eval_unfiltered(vars);

    let vars_t = EvaluationTargets { local_constants: &constants_t, local_wires: &wires_t };
    let evals_t = gate.eval_unfiltered_circuit(&mut builder, vars_t);
    let values = builder.evaluate(&inputs);
    let evals_in_circuit: Vec<QuadraticExtension> =
        evals_t.iter().map(|t| values[t.index]).collect();
    assert_eq!(evals_in_circuit, evals);
}

#[test]
fn low_degree() {
    let num_consts = STANDARD_NUM_CONSTANTS;
    let gate = ConstantGate { num_consts };
    test_low_degree(gate)
}

#[test]
fn eval_fns() {
    let num_consts = STANDARD_NUM_CONSTANTS;
    let gate = ConstantGate { num_consts };
    test_eval_fns(gate)
}

#[test]
fn low_degree_check_sees_a_quadratic() {
    // The square of a polynomial of degree 31 has degree 62, and the degree
    // that `low_degree` computes tells the two apart.
    let mut sampler = Sampler::new(7);
    let rows = random_low_degree_matrix(&mut sampler, 1, 2 * WITNESS_SIZE);
    let linear: Vec<QuadraticExtension> = rows.iter().map(|r| r[0]).collect();
    let squares: Vec<QuadraticExtension> = rows.iter().map(|r| r[0].mul(r[0])).collect();
    assert_eq!(degree_of_interpolant(&linear), Some(WITNESS_DEGREE));
    assert_eq!(degree_of_interpolant(&squares), Some(2 * WITNESS_DEGREE));
}

#[test]
fn declared_shape_of_constant_gate() {
    let gate = ConstantGate { num_consts: 5 };
    assert_eq!(gate.num_wires(), 5);
    assert_eq!(gate.num_constants(), 5);
    assert_eq!(gate.num_constraints(), 5);
    assert_eq!(gate.degree(), 1);
    assert!(!gate.supports_single_row());
    assert_eq!(gate.const_input(3), 3);
    assert_eq!(gate.wire_output(4), 4);
}
