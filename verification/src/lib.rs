//! Assembly and verification of shielded "airdrop" transaction bundles that
//! mix two value-commitment pools over the jubjub curve: a native pool and a
//! secondary pool whose generator basis is the native basis times a fixed
//! cofactor. The library builds Spend, Output and Convert descriptions,
//! balances their trapdoors into a single binding-signature key, randomises
//! description order while recording position metadata, and mirrors the
//! receiver-side accumulation that checks the binding signature.
use vstd::prelude::*;

pub mod algebra;
pub mod builder;
pub mod bundle;
pub mod curve;
pub mod descriptions;
pub mod metadata;
pub mod engine;
pub mod permutation;
pub mod registry;
pub mod signer;
pub mod verification;

verus! {

/// Recoverable failures while building a bundle, mirroring the error
/// taxonomy of the description builder: malformed recipient address,
/// amount above the policy maximum, a Convert anchored to a different
/// Merkle root than the bundle's fixed one, and an attempt to authorize
/// a bundle twice.
#[derive(Clone, Copy, Debug, PartialEq, Eq, Structural)]
pub enum AirdropError {
    InvalidAddress,
    InvalidAmount,
    AnchorMismatch,
    AlreadyAuthorized,
}

} // verus!
