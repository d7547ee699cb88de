//! The bundle assembler: anchor fixation, output padding, shuffle metadata,
//! and the input-validation errors.
use shielded_airdrop::builder::{AirdropBuilder, MIN_SHIELDED_OUTPUTS};
use shielded_airdrop::curve::{native_value_gen, scalar_random};
use shielded_airdrop::engine::MAX_MONEY;
use shielded_airdrop::signer::sapling_commitment;
use shielded_airdrop::AirdropError;

fn spend_with_tag(builder: &mut AirdropBuilder, tag: u8) {
    let t = scalar_random();
    let cv = sapling_commitment(&t, 1);
    builder
        .add_spend_description(cv, [0u8; 32], [tag; 32], [0u8; 32], [0u8; 192], [0u8; 64])
        .unwrap();
}

fn output_with_tag(builder: &mut AirdropBuilder, tag: u8) {
    let t = scalar_random();
    builder
        .add_output_description(
            Some(native_value_gen()),
            1,
            &t,
            [tag; 32],
            [0u8; 32],
            [0u8; 612],
            [0u8; 80],
            [0u8; 192],
        )
        .unwrap();
}

#[test]
fn anchor_fixation() {
    let mut builder = AirdropBuilder::init([0u8; 32]);
    let t = scalar_random();
    // The first convert fixes the anchor.
    assert!(builder.add_convert_description(1, 1, 1, [1u8; 32], &t, [0u8; 192]).is_ok());
    // A different root is rejected.
    assert_eq!(
        builder.add_convert_description(1, 1, 1, [2u8; 32], &t, [0u8; 192]).unwrap_err(),
        AirdropError::AnchorMismatch
    );
    // The same root is accepted again.
    assert!(builder.add_convert_description(1, 1, 1, [1u8; 32], &t, [0u8; 192]).is_ok());
}

#[test]
fn output_validation_errors() {
    let mut builder = AirdropBuilder::init([0u8; 32]);
    let t = scalar_random();
    // A recipient without a diversified base is an invalid address.
    assert_eq!(
        builder
            .add_output_description(
                None,
                1,
                &t,
                [0u8; 32],
                [0u8; 32],
                [0u8; 612],
                [0u8; 80],
                [0u8; 192],
            )
            .unwrap_err(),
        AirdropError::InvalidAddress
    );
    // An amount over the policy maximum is an invalid amount.
    assert_eq!(
        builder
            .add_output_description(
                Some(native_value_gen()),
                MAX_MONEY + 1,
                &t,
                [0u8; 32],
                [0u8; 32],
                [0u8; 612],
                [0u8; 80],
                [0u8; 192],
            )
            .unwrap_err(),
        AirdropError::InvalidAmount
    );
}

#[test]
fn padding_fills_outputs_when_a_spend_exists() {
    let mut builder = AirdropBuilder::init([0u8; 32]);
    spend_with_tag(&mut builder, 1);
    let (bundle, meta, _dummy) = builder.build().unwrap();
    assert_eq!(bundle.shielded_spends.len(), 1);
    assert!(bundle.shielded_outputs.len() >= MIN_SHIELDED_OUTPUTS);
    assert_eq!(bundle.shielded_outputs.len(), 2);
    assert_eq!(meta.output_index(0), Some(meta.output_index(0).unwrap()));
    // Both padded positions are claimed by the metadata.
    let mut seen = [false; 2];
    for n in 0..2usize {
        let pos = meta.output_index(n).unwrap();
        assert!(pos < 2);
        assert!(!seen[pos]);
        seen[pos] = true;
    }
}

#[test]
fn no_padding_without_spends() {
    let mut builder = AirdropBuilder::init([0u8; 32]);
    output_with_tag(&mut builder, 1);
    let (bundle, _meta, _dummy) = builder.build().unwrap();
    assert_eq!(bundle.shielded_outputs.len(), 1);
    assert_eq!(bundle.shielded_spends.len(), 0);
}

#[test]
fn empty_builder_yields_no_bundle() {
    let builder = AirdropBuilder::init([0u8; 32]);
    assert!(builder.build().is_none());
}

#[test]
fn convert_only_builder_yields_no_bundle() {
    let mut builder = AirdropBuilder::init([0u8; 32]);
    let t = scalar_random();
    builder.add_convert_description(1, 1, 1, [1u8; 32], &t, [0u8; 192]).unwrap();
    assert!(builder.build().is_none());
}

#[test]
fn shuffle_metadata_is_a_bijection_and_locates_descriptions() {
    let mut builder = AirdropBuilder::init([0u8; 32]);
    let n: usize = 5;
    for tag in 0..n {
        spend_with_tag(&mut builder, tag as u8);
        output_with_tag(&mut builder, tag as u8);
    }
    let t = scalar_random();
    for _ in 0..3 {
        builder.add_convert_description(1, 1, 1, [9u8; 32], &t, [0u8; 192]).unwrap();
    }
    let (bundle, meta, _dummy) = builder.build().unwrap();
    assert_eq!(bundle.shielded_spends.len(), n);
    assert_eq!(bundle.shielded_outputs.len(), n);
    assert_eq!(bundle.shielded_converts.len(), 3);

    // Within each category the metadata maps insertion order to final
    // positions bijectively, and the description found there is the one
    // that was inserted.
    let mut spend_seen = vec![false; n];
    let mut output_seen = vec![false; n];
    for i in 0..n {
        let pos = meta.spend_index(i).unwrap();
        assert!(pos < n);
        assert!(!spend_seen[pos]);
        spend_seen[pos] = true;
        assert_eq!(bundle.shielded_spends[pos].nullifier, [i as u8; 32]);

        let opos = meta.output_index(i).unwrap();
        assert!(opos < n);
        assert!(!output_seen[opos]);
        output_seen[opos] = true;
        assert_eq!(bundle.shielded_outputs[opos].cmu, [i as u8; 32]);
    }
    let mut convert_seen = vec![false; 3];
    for i in 0..3usize {
        let pos = meta.convert_index(i).unwrap();
        assert!(pos < 3);
        assert!(!convert_seen[pos]);
        convert_seen[pos] = true;
        assert_eq!(bundle.shielded_converts[pos].anchor, [9u8; 32]);
    }
    // Indices beyond what was inserted are absent.
    assert_eq!(meta.spend_index(n), None);
    assert_eq!(meta.convert_index(3), None);
}
