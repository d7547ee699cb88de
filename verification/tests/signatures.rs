//! Binding-signature round trips over the real curve: a balanced airdrop
//! claim verifies, an unbalanced one is rejected.
use ff::Field;
use jubjub::Fr;
use rand::RngExt;
use rand_core::SeedableRng;
use rand_xorshift::XorShiftRng;

use shielded_airdrop::curve::scalar_from_fr;
use shielded_airdrop::signer::{binding_sig, cv_sum, generate_bsk, signature_verification};

#[test]
fn test_sucessfull_signature_verification() {
    // Generates trapdoors for the value commitments.
    let mut rng_native = XorShiftRng::from_seed([
        0x59, 0x62, 0xbe, 0x3d, 0x76, 0x3d, 0x31, 0x8d, 0x17, 0xdb, 0x37, 0x32, 0x54, 0x06, 0xbc,
        0xe5,
    ]);
    let mut rng_secondary = XorShiftRng::from_seed([
        0xf2, 0x84, 0xd7, 0x90, 0xae, 0x2b, 0x15, 0x3c, 0x61, 0x5f, 0x72, 0x49, 0x38, 0xc6, 0x9d,
        0xbc,
    ]);
    let mut rng_mint = XorShiftRng::from_seed([
        0x5a, 0xa5, 0x2f, 0x47, 0x8c, 0x3d, 0x19, 0xe7, 0x6b, 0x1d, 0xf0, 0x22, 0x73, 0x55, 0x99,
        0xbc,
    ]);
    let rcv_mint = scalar_from_fr(Fr::random(&mut rng_mint));
    let rcv_secondary = scalar_from_fr(Fr::random(&mut rng_secondary));
    let rcv_native = scalar_from_fr(Fr::random(&mut rng_native));

    // Generates the secret key.
    let bsk = generate_bsk(&rcv_mint, &rcv_secondary, &rcv_native);

    // Computes the public key (balanced airdrop case, claiming one secondary
    // unit for one native unit).
    let cv = cv_sum(1, 1, &rcv_native, &rcv_secondary, &rcv_mint);

    // Signs using the secret key.
    let fake_sig_hash_bytes: [u8; 32] = rand::rng().random();
    let sig = binding_sig(&bsk, &fake_sig_hash_bytes);

    // Verifies the signature using the public key.
    let result = signature_verification(&fake_sig_hash_bytes, &cv, &sig);

    assert_eq!(result, true);
}

#[test]
fn test_failed_signature_verification() {
    let mut rng_native = XorShiftRng::from_seed([
        0x59, 0x62, 0xbe, 0x3d, 0x76, 0x3d, 0x31, 0x8d, 0x17, 0xdb, 0x37, 0x32, 0x54, 0x06, 0xbc,
        0xe5,
    ]);
    let mut rng_secondary = XorShiftRng::from_seed([
        0xf2, 0x84, 0xd7, 0x90, 0xae, 0x2b, 0x15, 0x3c, 0x61, 0x5f, 0x72, 0x49, 0x38, 0xc6, 0x9d,
        0xbc,
    ]);
    let mut rng_mint = XorShiftRng::from_seed([
        0x5a, 0xa5, 0x2f, 0x47, 0x8c, 0x3d, 0x19, 0xe7, 0x6b, 0x1d, 0xf0, 0x22, 0x73, 0x55, 0x99,
        0xbc,
    ]);
    let rcv_mint = scalar_from_fr(Fr::random(&mut rng_mint));
    let rcv_secondary = scalar_from_fr(Fr::random(&mut rng_secondary));
    let rcv_native = scalar_from_fr(Fr::random(&mut rng_native));

    let bsk = generate_bsk(&rcv_mint, &rcv_secondary, &rcv_native);

    // Not a viable airdrop: claiming four secondary units for one native
    // unit.
    let cv = cv_sum(1, 4, &rcv_native, &rcv_secondary, &rcv_mint);

    let fake_sig_hash_bytes: [u8; 32] = rand::rng().random();
    let sig = binding_sig(&bsk, &fake_sig_hash_bytes);

    let result = signature_verification(&fake_sig_hash_bytes, &cv, &sig);

    assert_eq!(result, false);
}

#[test]
fn wrong_sighash_is_rejected() {
    let rcv = scalar_from_fr(Fr::random(&mut rand::rng()));
    let bsk = generate_bsk(&rcv, &rcv, &rcv);
    let sighash: [u8; 32] = [7u8; 32];
    let other_sighash: [u8; 32] = [8u8; 32];
    let cv = cv_sum(1, 1, &rcv, &rcv, &rcv);
    let sig = binding_sig(&bsk, &sighash);
    // The very same claim verifies under the signed sighash.
    assert!(signature_verification(&sighash, &cv, &sig));
    // It is rejected under any other sighash.
    assert!(!signature_verification(&other_sighash, &cv, &sig));
}
