//! The value commitment engine on the real curve: homomorphism, the
//! cofactor correction, the registry's cross-pool relation, and the policy
//! bound.
use shielded_airdrop::curve::{
    point_add, point_mul, point_to_bytes, scalar_add, scalar_from_u64, scalar_mul, scalar_random,
};
use shielded_airdrop::engine::{commit, convert_commit, MAX_MONEY};
use shielded_airdrop::registry::{GeneratorRegistry, Pool};
use shielded_airdrop::AirdropError;

#[test]
fn commitment_homomorphism_on_curve() {
    let reg = GeneratorRegistry::new();
    let t1 = scalar_random();
    let t2 = scalar_random();
    let c1 = commit(&reg, Pool::Native, 20, &t1).unwrap();
    let c2 = commit(&reg, Pool::Native, 22, &t2).unwrap();
    let lhs = point_add(&c1, &c2);
    let rhs = commit(&reg, Pool::Native, 42, &scalar_add(&t1, &t2)).unwrap();
    assert_eq!(point_to_bytes(&lhs), point_to_bytes(&rhs));
}

#[test]
fn cofactor_correction_on_curve() {
    let reg = GeneratorRegistry::new();
    let t = scalar_random();
    let eight = scalar_from_u64(8);
    let c = commit(&reg, Pool::Native, 5, &t).unwrap();
    let scaled = point_mul(&c, &eight);
    let renormalized = commit(&reg, Pool::Native, 40, &scalar_mul(&eight, &t)).unwrap();
    assert_eq!(point_to_bytes(&scaled), point_to_bytes(&renormalized));
}

#[test]
fn secondary_pool_is_cofactor_multiple_of_native() {
    // A secondary-pool commitment of value v equals a native commitment of
    // 8 * v under the same trapdoor: the pools' value bases differ exactly
    // by the cofactor, while the randomness basis is shared.
    let reg = GeneratorRegistry::new();
    let t = scalar_random();
    let secondary = commit(&reg, Pool::Secondary, 3, &t).unwrap();
    let native = commit(&reg, Pool::Native, 24, &t).unwrap();
    assert_eq!(point_to_bytes(&secondary), point_to_bytes(&native));
}

#[test]
fn commit_rejects_amount_over_policy_maximum() {
    let reg = GeneratorRegistry::new();
    let t = scalar_random();
    assert!(matches!(
        commit(&reg, Pool::Native, MAX_MONEY + 1, &t),
        Err(AirdropError::InvalidAmount)
    ));
    assert!(commit(&reg, Pool::Native, MAX_MONEY, &t).is_ok());
    assert!(matches!(
        convert_commit(&reg, 1, 1, MAX_MONEY + 1, &t),
        Err(AirdropError::InvalidAmount)
    ));
}

#[test]
fn convert_commitment_blends_both_bases() {
    // At a one-to-one rate, a conversion of value v commits to 7 * v over
    // the native value base (8 minted minus 1 consumed), blinded as usual.
    let reg = GeneratorRegistry::new();
    let t = scalar_random();
    let conv = convert_commit(&reg, 1, 1, 1, &t).unwrap();
    let direct = commit(&reg, Pool::Native, 7, &t).unwrap();
    assert_eq!(point_to_bytes(&conv), point_to_bytes(&direct));
}
