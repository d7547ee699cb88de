//! Full round trips: a bundle is built, balanced and signed, then replayed
//! through the verification context as a receiver would, description by
//! description.
use rand::RngExt;

use shielded_airdrop::builder::AirdropBuilder;
use shielded_airdrop::bundle::AirdropBundle;
use shielded_airdrop::curve::{native_value_gen, point_identity, scalar_add, scalar_random, Scalar};
use shielded_airdrop::metadata::AirdropMetadata;
use shielded_airdrop::signer::sapling_commitment;
use shielded_airdrop::verification::{verify_bundle, AirdropVerificationContext};
use shielded_airdrop::AirdropError;

struct Claim {
    bundle: AirdropBundle,
    native_total: Scalar,
    secondary_total: Scalar,
    convert_total: Scalar,
}

/// Builds a one-spend, one-convert, one-output airdrop claim of
/// `claimed_secondary` secondary units for one native unit.
fn build_claim(claimed_secondary: u64) -> (Claim, AirdropMetadata) {
    let mut builder = AirdropBuilder::init([0u8; 32]);

    let t_native = scalar_random();
    let cv_spend = sapling_commitment(&t_native, 1);
    builder
        .add_spend_description(cv_spend, [0u8; 32], [1u8; 32], [0u8; 32], [0u8; 192], [0u8; 64])
        .unwrap();

    let t_convert = scalar_random();
    builder.add_convert_description(1, 1, 1, [3u8; 32], &t_convert, [0u8; 192]).unwrap();

    let t_output = scalar_random();
    builder
        .add_output_description(
            Some(native_value_gen()),
            claimed_secondary,
            &t_output,
            [0u8; 32],
            [0u8; 32],
            [0u8; 612],
            [0u8; 80],
            [0u8; 192],
        )
        .unwrap();

    let (bundle, meta, dummy_total) = builder.build().unwrap();
    let claim = Claim {
        bundle,
        native_total: t_native,
        secondary_total: scalar_add(&t_output, &dummy_total),
        convert_total: t_convert,
    };
    (claim, meta)
}

fn replay(bundle: &AirdropBundle, sighash: &[u8; 32]) -> bool {
    // The proving collaborator's verdicts are out of scope here: every proof
    // is reported as accepted, and only the binding signature is judged.
    let mut ctx = AirdropVerificationContext::new();
    for spend in bundle.shielded_spends.iter() {
        ctx.check_spend(spend, true);
    }
    for convert in bundle.shielded_converts.iter() {
        ctx.check_convert(convert, true);
    }
    for output in bundle.shielded_outputs.iter() {
        ctx.check_output(output, true);
    }
    assert!(ctx.proof_failures().is_empty());
    let sig = bundle.authorization.unwrap();
    ctx.final_check(&point_identity(), &sig, sighash)
}

#[test]
fn balanced_bundle_round_trip_accepts() {
    let (mut claim, _meta) = build_claim(1);
    let sighash: [u8; 32] = rand::rng().random();
    claim
        .bundle
        .apply_signatures(&claim.native_total, &claim.secondary_total, &claim.convert_total, &sighash)
        .unwrap();
    assert!(replay(&claim.bundle, &sighash));
}

#[test]
fn unbalanced_bundle_round_trip_rejects() {
    // The same construction claiming four secondary units for one native
    // unit must fail verification.
    let (mut claim, _meta) = build_claim(4);
    let sighash: [u8; 32] = rand::rng().random();
    claim
        .bundle
        .apply_signatures(&claim.native_total, &claim.secondary_total, &claim.convert_total, &sighash)
        .unwrap();
    assert!(!replay(&claim.bundle, &sighash));
}

#[test]
fn verify_bundle_matches_manual_replay() {
    let (mut claim, _meta) = build_claim(1);
    let sighash: [u8; 32] = rand::rng().random();
    // An unauthorized bundle never passes.
    assert!(!verify_bundle(&claim.bundle, &point_identity(), &sighash));
    claim
        .bundle
        .apply_signatures(&claim.native_total, &claim.secondary_total, &claim.convert_total, &sighash)
        .unwrap();
    assert!(verify_bundle(&claim.bundle, &point_identity(), &sighash));
    assert_eq!(
        verify_bundle(&claim.bundle, &point_identity(), &sighash),
        replay(&claim.bundle, &sighash)
    );
    // A declared balance that does not match the bundle's net value fails.
    let wrong_balance = sapling_commitment(&scalar_random(), 1);
    assert!(!verify_bundle(&claim.bundle, &wrong_balance, &sighash));
}

#[test]
fn a_bundle_is_signed_exactly_once() {
    let (mut claim, _meta) = build_claim(1);
    let sighash: [u8; 32] = rand::rng().random();
    claim
        .bundle
        .apply_signatures(&claim.native_total, &claim.secondary_total, &claim.convert_total, &sighash)
        .unwrap();
    let again = claim
        .bundle
        .apply_signatures(&claim.native_total, &claim.secondary_total, &claim.convert_total, &sighash);
    assert_eq!(again.unwrap_err(), AirdropError::AlreadyAuthorized);
}

#[test]
fn manually_reassembled_bundle_verifies_the_same() {
    // A receiver reassembles the bundle from its serialized descriptions and
    // reaches the same verdict.
    let (mut claim, _meta) = build_claim(1);
    let sighash: [u8; 32] = rand::rng().random();
    claim
        .bundle
        .apply_signatures(&claim.native_total, &claim.secondary_total, &claim.convert_total, &sighash)
        .unwrap();

    let mut mirror = AirdropBundle::init();
    for spend in claim.bundle.shielded_spends.iter() {
        mirror
            .add_spend_description(
                spend.cv,
                spend.anchor,
                spend.nullifier,
                spend.rk,
                spend.zkproof,
                spend.spend_auth_sig,
            )
            .unwrap();
    }
    for convert in claim.bundle.shielded_converts.iter() {
        mirror.add_convert_description(convert.cv, convert.anchor, convert.zkproof).unwrap();
    }
    for output in claim.bundle.shielded_outputs.iter() {
        mirror
            .add_output_description(
                output.cv,
                output.cmu,
                output.ephemeral_key,
                output.enc_ciphertext,
                output.out_ciphertext,
                output.zkproof,
            )
            .unwrap();
    }
    mirror.install_signature(claim.bundle.authorization.unwrap()).unwrap();
    assert!(replay(&mirror, &sighash));
}

#[test]
fn mirror_enforces_one_anchor_and_single_signature() {
    let (mut claim, _meta) = build_claim(1);
    let sighash: [u8; 32] = rand::rng().random();
    claim
        .bundle
        .apply_signatures(&claim.native_total, &claim.secondary_total, &claim.convert_total, &sighash)
        .unwrap();
    let sig = claim.bundle.authorization.unwrap();

    let mut mirror = AirdropBundle::init();
    let convert = claim.bundle.shielded_converts[0];
    mirror.add_convert_description(convert.cv, convert.anchor, convert.zkproof).unwrap();
    // A convert under a different anchor is rejected at insertion.
    let foreign = mirror.add_convert_description(convert.cv, [7u8; 32], convert.zkproof);
    assert_eq!(foreign.unwrap_err(), AirdropError::AnchorMismatch);
    assert_eq!(mirror.shielded_converts.len(), 1);
    // The same anchor is accepted again.
    mirror.add_convert_description(convert.cv, convert.anchor, convert.zkproof).unwrap();
    assert_eq!(mirror.shielded_converts.len(), 2);
    // A signature is installed exactly once.
    mirror.install_signature(sig).unwrap();
    assert_eq!(mirror.install_signature(sig).unwrap_err(), AirdropError::AlreadyAuthorized);
}

#[test]
fn rejected_proofs_are_reported_without_aborting() {
    let (claim, _meta) = build_claim(1);
    let mut ctx = AirdropVerificationContext::new();
    // The collaborator rejects the spend's proof and one output's; the
    // checks go on and each failure is recorded under its check position.
    ctx.check_spend(&claim.bundle.shielded_spends[0], false);
    ctx.check_convert(&claim.bundle.shielded_converts[0], true);
    ctx.check_output(&claim.bundle.shielded_outputs[0], false);
    ctx.check_output(&claim.bundle.shielded_outputs[1], true);
    assert_eq!(ctx.proof_failures().as_slice(), &[0usize, 2usize]);
}

#[test]
fn empty_metadata_locates_nothing() {
    let meta = AirdropMetadata::empty();
    assert_eq!(meta.spend_index(0), None);
    assert_eq!(meta.output_index(0), None);
    assert_eq!(meta.convert_index(0), None);
}
