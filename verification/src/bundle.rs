//! The finished bundle: the shuffled description vectors, the accumulated
//! public value-balance point, and the binding signature once it is applied.
//! A bundle can also be assembled by hand from already-serialized
//! descriptions, which is how a verifier-side mirror of a received
//! transaction is put together; the one-anchor rule for converts is enforced
//! at insertion on this path too, and the authorization slot is filled
//! exactly once, whether by signing or by installing a received signature.
use vstd::prelude::*;

use crate::curve::{Point, Scalar, Sig, point_identity};
use crate::descriptions::{bytes32_eq, ConvertDescription, OutputDescription, SpendDescription};
use crate::signer::{binding_message_model, binding_sig, bsk_model, generate_bsk, key_point_model};
use crate::AirdropError;

verus! {

/// A shielded bundle: the three description vectors in their final
/// (randomized) order, the public value-balance point, and the binding
/// signature, absent until it is applied exactly once. The authorization
/// slot is meant to be filled only through [`Self::apply_signatures`] or
/// [`Self::install_signature`], which reject a second filling.
pub struct AirdropBundle {
    pub shielded_spends: Vec<SpendDescription>,
    pub shielded_converts: Vec<ConvertDescription>,
    pub shielded_outputs: Vec<OutputDescription>,
    pub value_balance: Point,
    pub authorization: Option<Sig>,
}

impl AirdropBundle {

    /// An empty, unauthorized bundle, the starting point of a hand-assembled
    /// (verifier-side) mirror of a received transaction.
    pub fn init() -> (b: AirdropBundle)
        ensures
            b.shielded_spends@.len() == 0,
            b.shielded_converts@.len() == 0,
            b.shielded_outputs@.len() == 0,
            b.value_balance@ == crate::algebra::pm_zero(),
            b.authorization is None,
    {
        AirdropBundle {
            shielded_spends: Vec::new(),
            shielded_converts: Vec::new(),
            shielded_outputs: Vec::new(),
            value_balance: point_identity(),
            authorization: None,
        }
    }

    /// Appends an already-built spend description, field by field.
    pub fn add_spend_description(
        &mut self,
        cv: Point,
        anchor: [u8; 32],
        nullifier: [u8; 32],
        rk: [u8; 32],
        zkproof: [u8; 192],
        spend_auth_sig: [u8; 64],
    ) -> (r: Result<(), AirdropError>)
        ensures
            r is Ok,
            final(self).shielded_spends@ == old(self).shielded_spends@.push(
                (SpendDescription { cv, anchor, nullifier, rk, zkproof, spend_auth_sig }),
            ),
            final(self).shielded_converts@ == old(self).shielded_converts@,
            final(self).shielded_outputs@ == old(self).shielded_outputs@,
            final(self).value_balance == old(self).value_balance,
            final(self).authorization == old(self).authorization,
    {
        self.shielded_spends.push(
            SpendDescription { cv, anchor, nullifier, rk, zkproof, spend_auth_sig },
        );
        Ok(())
    }

    /// Appends an already-built output description, field by field.
    pub fn add_output_description(
        &mut self,
        cv: Point,
        cmu: [u8; 32],
        ephemeral_key: [u8; 32],
        enc_ciphertext: [u8; 612],
        out_ciphertext: [u8; 80],
        zkproof: [u8; 192],
    ) -> (r: Result<(), AirdropError>)
        ensures
            r is Ok,
            final(self).shielded_outputs@ == old(self).shielded_outputs@.push(
                (OutputDescription { cv, cmu, ephemeral_key, enc_ciphertext, out_ciphertext, zkproof }),
            ),
            final(self).shielded_spends@ == old(self).shielded_spends@,
            final(self).shielded_converts@ == old(self).shielded_converts@,
            final(self).value_balance == old(self).value_balance,
            final(self).authorization == old(self).authorization,
    {
        self.shielded_outputs.push(
            OutputDescription { cv, cmu, ephemeral_key, enc_ciphertext, out_ciphertext, zkproof },
        );
        Ok(())
    }

    /// Appends an already-built convert description, field by field. All
    /// converts of one bundle must share one anchor, enforced here at
    /// insertion: a convert whose anchor differs from the first convert's is
    /// rejected and the bundle is left unchanged.
    pub fn add_convert_description(
        &mut self,
        cv: Point,
        anchor: [u8; 32],
        zkproof: [u8; 192],
    ) -> (r: Result<(), AirdropError>)
        ensures
            old(self).shielded_converts@.len() > 0 && old(self).shielded_converts@[0].anchor@
                != anchor@ ==> r == Err::<(), AirdropError>(AirdropError::AnchorMismatch)
                && final(self).shielded_converts@ == old(self).shielded_converts@,
            (old(self).shielded_converts@.len() == 0 || old(self).shielded_converts@[0].anchor@
                == anchor@) ==> r is Ok && final(self).shielded_converts@ == old(self).shielded_converts@.push((ConvertDescription { cv, anchor, zkproof })),
            final(self).shielded_spends@ == old(self).shielded_spends@,
            final(self).shielded_outputs@ == old(self).shielded_outputs@,
            final(self).value_balance == old(self).value_balance,
            final(self).authorization == old(self).authorization,
    {
        if self.shielded_converts.len() > 0 {
            let first_anchor = self.shielded_converts[0].anchor;
            if !bytes32_eq(&first_anchor, &anchor) {
                return Err(AirdropError::AnchorMismatch);
            }
        }
        self.shielded_converts.push(ConvertDescription { cv, anchor, zkproof });
        Ok(())
    }

    /// Installs a binding signature received with the bundle, for a
    /// verifier-side mirror reassembled from serialized descriptions. Like
    /// signing, it fills the authorization slot exactly once: a second
    /// installation is rejected and changes nothing.
    pub fn install_signature(&mut self, sig: Sig) -> (r: Result<(), AirdropError>)
        ensures
            old(self).authorization is Some ==> r == Err::<(), AirdropError>(
                AirdropError::AlreadyAuthorized,
            ) && final(self).authorization == old(self).authorization,
            old(self).authorization is None ==> r is Ok
                && final(self).authorization == Some(sig),
            final(self).shielded_spends@ == old(self).shielded_spends@,
            final(self).shielded_converts@ == old(self).shielded_converts@,
            final(self).shielded_outputs@ == old(self).shielded_outputs@,
            final(self).value_balance == old(self).value_balance,
    {
        if self.authorization.is_some() {
            return Err(AirdropError::AlreadyAuthorized);
        }
        self.authorization = Some(sig);
        Ok(())
    }

    /// Combines the three trapdoor totals into the signing key and signs the
    /// binding message over the given sighash, filling the authorization
    /// placeholder. This is the only mutation allowed on a finished bundle,
    /// and it is allowed exactly once: a second call is rejected and changes
    /// nothing.
    pub fn apply_signatures(
        &mut self,
        rcv_native: &Scalar,
        rcv_secondary: &Scalar,
        rcv_convert: &Scalar,
        sighash: &[u8; 32],
    ) -> (r: Result<(), AirdropError>)
        ensures
            old(self).authorization is Some ==> r == Err::<(), AirdropError>(
                AirdropError::AlreadyAuthorized,
            ) && final(self).authorization == old(self).authorization,
            old(self).authorization is None ==> r is Ok && (match final(self).authorization {
                Some(sig) => {
                    &&& sig@.key == bsk_model(rcv_convert@, rcv_secondary@, rcv_native@)
                    &&& sig@.msg == binding_message_model(
                        key_point_model(bsk_model(rcv_convert@, rcv_secondary@, rcv_native@)),
                        sighash@,
                    )
                },
                None => false,
            }),
            final(self).shielded_spends@ == old(self).shielded_spends@,
            final(self).shielded_converts@ == old(self).shielded_converts@,
            final(self).shielded_outputs@ == old(self).shielded_outputs@,
            final(self).value_balance == old(self).value_balance,
    {
        if self.authorization.is_some() {
            return Err(AirdropError::AlreadyAuthorized);
        }
        let bsk = generate_bsk(rcv_convert, rcv_secondary, rcv_native);
        proof {
            crate::algebra::lemma_fsub_bound(
                crate::algebra::fadd(rcv_convert@, rcv_native@),
                rcv_secondary@,
            );
        }
        let sig = binding_sig(&bsk, sighash);
        self.authorization = Some(sig);
        Ok(())
    }
}

} // verus!
