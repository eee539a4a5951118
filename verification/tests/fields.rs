use plonk_gates::extension::QuadraticExtension;
use plonk_gates::field::{GoldilocksField, ORDER};
use plonk_gates::packed::{PackedField, PackedGoldilocks};

fn f(n: u64) -> GoldilocksField {
    GoldilocksField::from_canonical_u64(n)
}

#[test]
fn order_is_the_goldilocks_prime() {
    assert_eq!(ORDER as u128, (1u128 << 64) - (1u128 << 32) + 1);
}

#[test]
fn addition_wraps_at_the_order() {
    assert_eq!(f(ORDER - 1).add(f(1)).to_canonical_u64(), 0);
    assert_eq!(f(ORDER - 1).add(f(ORDER - 1)).to_canonical_u64(), ORDER - 2);
    assert_eq!(f(2).add(f(3)).to_canonical_u64(), 5);
}

#[test]
fn subtraction_wraps_below_zero() {
    assert_eq!(f(5).sub(f(7)).to_canonical_u64(), ORDER - 2);
    assert_eq!(f(7).sub(f(5)).to_canonical_u64(), 2);
    assert_eq!(f(0).sub(f(ORDER - 1)).to_canonical_u64(), 1);
}

#[test]
fn multiplication_reduces_the_wide_product() {
    // (-1) * (-1) = 1
    assert_eq!(f(ORDER - 1).mul(f(ORDER - 1)).to_canonical_u64(), 1);
    // 2^32 * 2^32 = 2^64 = 2^32 - 1
    assert_eq!(f(1 << 32).mul(f(1 << 32)).to_canonical_u64(), (1 << 32) - 1);
    assert_eq!(f(6).mul(f(7)).to_canonical_u64(), 42);
}

#[test]
fn negation() {
    assert_eq!(f(0).neg().to_canonical_u64(), 0);
    assert_eq!(f(1).neg().to_canonical_u64(), ORDER - 1);
    assert_eq!(f(ORDER - 1).neg().to_canonical_u64(), 1);
}

#[test]
fn any_u64_stands_for_its_residue() {
    assert_eq!(GoldilocksField(ORDER), GoldilocksField(0));
    assert_eq!(GoldilocksField(u64::MAX), f(u64::MAX - ORDER));
    assert_ne!(GoldilocksField(1), GoldilocksField(0));
    assert_eq!(GoldilocksField(u64::MAX).to_canonical_u64(), 0xFFFF_FFFE);
    assert_eq!(GoldilocksField::from_noncanonical_u64(ORDER + 5).0, 5);
    assert_eq!(GoldilocksField(u64::MAX).add(GoldilocksField(u64::MAX)).to_canonical_u64(), 0x1_FFFF_FFFC);
    assert_eq!(GoldilocksField(ORDER + 2).mul(GoldilocksField(ORDER + 3)).to_canonical_u64(), 6);
    assert_eq!(GoldilocksField(ORDER + 2).sub(GoldilocksField(ORDER + 3)).to_canonical_u64(), ORDER - 1);
    assert_eq!(GoldilocksField(ORDER).neg().to_canonical_u64(), 0);
}

#[test]
fn zero_and_one() {
    assert_eq!(GoldilocksField::zero().to_canonical_u64(), 0);
    assert_eq!(GoldilocksField::one().to_canonical_u64(), 1);
    assert_eq!(QuadraticExtension::zero(), QuadraticExtension([f(0), f(0)]));
    assert_eq!(QuadraticExtension::one(), QuadraticExtension([f(1), f(0)]));
}

#[test]
fn extension_arithmetic() {
    let x = QuadraticExtension([f(0), f(1)]);
    // X^2 = 7
    assert_eq!(x.mul(x), QuadraticExtension::from_basefield(f(7)));
    let a = QuadraticExtension([f(2), f(3)]);
    let b = QuadraticExtension([f(5), f(4)]);
    // (2 + 3X)(5 + 4X) = 10 + 84 + (8 + 15) X
    assert_eq!(a.mul(b), QuadraticExtension([f(94), f(23)]));
    assert_eq!(a.add(b), QuadraticExtension([f(7), f(7)]));
    assert_eq!(a.sub(b), QuadraticExtension([f(ORDER - 3), f(ORDER - 1)]));
    assert_eq!(a.neg(), QuadraticExtension([f(ORDER - 2), f(ORDER - 3)]));
    assert_eq!(a.mul(QuadraticExtension::one()), a);
    let coordinates = a.to_basefield_array();
    assert_eq!(coordinates[0], f(2));
    assert_eq!(coordinates[1], f(3));
}

#[test]
fn extension_equality_is_by_residue() {
    assert_eq!(
        QuadraticExtension([GoldilocksField(ORDER + 1), GoldilocksField(ORDER)]),
        QuadraticExtension::one()
    );
    assert_ne!(QuadraticExtension([f(1), f(1)]), QuadraticExtension::one());
}

#[test]
fn packed_operations_act_in_each_lane() {
    let a = PackedGoldilocks::<3>::from_slice(&[f(1), f(2), f(ORDER - 1)]);
    let b = PackedGoldilocks::<3>::from_slice(&[f(5), f(7), f(2)]);
    let lanes = |p: PackedGoldilocks<3>| -> Vec<u64> {
        (0..3).map(|l| p.lane(l).to_canonical_u64()).collect()
    };
    assert_eq!(PackedGoldilocks::<3>::width(), 3);
    assert_eq!(lanes(a.add(b)), vec![6, 9, 1]);
    assert_eq!(lanes(a.sub(b)), vec![ORDER - 4, ORDER - 5, ORDER - 3]);
    assert_eq!(lanes(a.mul(b)), vec![5, 14, ORDER - 2]);
    assert_eq!(lanes(a.neg()), vec![ORDER - 1, ORDER - 2, 1]);
    assert_eq!(lanes(PackedGoldilocks::<3>::broadcast(f(9))), vec![9, 9, 9]);
}

#[test]
fn base_field_is_the_packing_of_one_lane() {
    assert_eq!(<GoldilocksField as PackedField>::width(), 1);
    let x = <GoldilocksField as PackedField>::from_slice(&[f(4)]);
    assert_eq!(x, f(4));
    assert_eq!(PackedField::lane(&x, 0), f(4));
    assert_eq!(<GoldilocksField as PackedField>::broadcast(f(3)), f(3));
    assert_eq!(PackedField::sub(x, f(5)), f(ORDER - 1));
    assert_eq!(PackedField::add(x, f(5)), f(9));
    assert_eq!(PackedField::mul(x, f(5)), f(20));
    assert_eq!(PackedField::neg(x), f(ORDER - 4));
}
