//! The three description records a bundle carries. Consensus data that the
//! balancing logic never inspects — anchors, nullifiers, verification keys,
//! proofs, ciphertexts — is held as fixed-size byte arrays in the layout the
//! surrounding transaction format expects; the value commitment is a [`Point`]
//! whose model the builder's and verifier's contracts speak of.
use vstd::prelude::*;

use crate::curve::Point;

verus! {

/// Byte length of a Groth16 proof: two 48-byte and one 96-byte group element.
pub const GROTH_PROOF_SIZE: usize = 48 + 96 + 48;

/// A consumed note of the native pool: its value commitment, the Merkle
/// anchor its membership proof was checked against, its nullifier, the
/// randomized verification key, the zero-knowledge proof and the authorizing
/// signature.
#[derive(Clone, Copy)]
pub struct SpendDescription {
    pub cv: Point,
    pub anchor: [u8; 32],
    pub nullifier: [u8; 32],
    pub rk: [u8; 32],
    pub zkproof: [u8; GROTH_PROOF_SIZE],
    pub spend_auth_sig: [u8; 64],
}

/// A created note of the secondary pool: its value commitment, note
/// commitment, key-agreement ephemeral key, the two ciphertexts of the
/// encrypted note, and the zero-knowledge proof. Dummy padding outputs carry
/// a zero-value commitment and random bytes in every other field.
#[derive(Clone, Copy)]
pub struct OutputDescription {
    pub cv: Point,
    pub cmu: [u8; 32],
    pub ephemeral_key: [u8; 32],
    pub enc_ciphertext: [u8; 612],
    pub out_ciphertext: [u8; 80],
    pub zkproof: [u8; GROTH_PROOF_SIZE],
}

/// An asset conversion: its blended-basis value commitment, the Merkle root
/// of the allowed-conversion tree it was proved against, and the proof. All
/// converts of one bundle share one anchor.
#[derive(Clone, Copy)]
pub struct ConvertDescription {
    pub cv: Point,
    pub anchor: [u8; 32],
    pub zkproof: [u8; GROTH_PROOF_SIZE],
}

/// Byte-for-byte equality of two 32-byte words, the comparison behind the
/// anchor-consistency rule.
pub fn bytes32_eq(a: &[u8; 32], b: &[u8; 32]) -> (r: bool)
    ensures
        r <==> a@ == b@,
{
    let mut i: usize = 0;
    while i < 32
        invariant
            i <= 32,
            forall|k: int| 0 <= k < i ==> a@[k] == b@[k],
        decreases 32 - i,
    {
        if a[i] != b[i] {
            return false;
        }
        i = i + 1;
    }
    proof {
        assert(a@ =~= b@);
    }
    true
}

} // verus!
