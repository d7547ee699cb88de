//! The trapdoor balancer and binding signer, with the receiver-side
//! signature check. The signing key is the linear combination of the three
//! per-category trapdoor totals whose commitment counterpart cancels every
//! value term when the declared balance is honest; the binding message is
//! the verification key's encoding followed by the transaction sighash.
use vstd::prelude::*;

use crate::algebra::{fadd, fr_order, fsub, lemma_fr_order_large, pm_add, pm_scale, pm_sub,
    PointModel};
use crate::curve::{native_rand_gen, native_value_gen, point_add, point_bytes, point_mul,
    point_sub, point_to_bytes, scalar_add, scalar_from_u64, scalar_sub, sign_binding,
    verify_binding, Point, Scalar, Sig};
use crate::engine::{commit_model, convert_basis_model, MAX_MONEY};
use crate::registry::{GeneratorRegistry, Pool, COFACTOR};
use vstd::arithmetic::div_mod::{lemma_mod_multiples_vanish, lemma_mod_self_0, lemma_small_mod};

verus! {

/// The point `key * R`: the verification key a binding signature under
/// `key` is checked against.
pub open spec fn key_point_model(key: nat) -> PointModel {
    PointModel { v: 0, r: key }
}

/// The signing key from the three trapdoor totals: the convert total plus
/// the native (spend) total minus the secondary (output) total.
pub open spec fn bsk_model(t_mint: nat, t_secondary: nat, t_native: nat) -> nat {
    fsub(fadd(t_mint, t_native), t_secondary)
}

/// The 64-byte binding message: the verification key's canonical encoding
/// followed by the 32-byte sighash.
pub open spec fn binding_message_model(vk: PointModel, sighash: Seq<u8>) -> Seq<u8> {
    point_bytes(vk) + sighash
}

/// Concatenates the verification key's encoding and the sighash into the
/// message the binding signature covers.
pub fn binding_message(vk: &Point, sighash: &[u8; 32]) -> (msg: Vec<u8>)
    ensures
        msg@ == binding_message_model(vk@, sighash@),
        msg@.len() == 64,
{
    let vk_bytes = point_to_bytes(vk);
    let mut msg: Vec<u8> = Vec::new();
    let mut i: usize = 0;
    while i < 32
        invariant
            i <= 32,
            msg@ =~= vk_bytes@.subrange(0, i as int),
        decreases 32 - i,
    {
        msg.push(vk_bytes[i]);
        i = i + 1;
    }
    let mut j: usize = 0;
    while j < 32
        invariant
            j <= 32,
            msg@ =~= vk_bytes@ + sighash@.subrange(0, j as int),
        decreases 32 - j,
    {
        msg.push(sighash[j]);
        j = j + 1;
    }
    proof {
        assert(msg@ =~= vk_bytes@ + sighash@);
    }
    msg
}

/// Combines the three trapdoor totals into the binding-signature signing
/// key: mint total plus native total minus secondary total.
pub fn generate_bsk(rcv_mint: &Scalar, rcv_secondary: &Scalar, rcv_native: &Scalar) -> (bsk:
    Scalar)
    ensures
        bsk@ == bsk_model(rcv_mint@, rcv_secondary@, rcv_native@),
{
    let sum = scalar_add(rcv_mint, rcv_native);
    scalar_sub(&sum, rcv_secondary)
}

/// Derives the verification key `bsk * R`, forms the binding message over it
/// and the sighash, and signs with `bsk`.
pub fn binding_sig(bsk: &Scalar, sighash: &[u8; 32]) -> (sig: Sig)
    requires
        bsk@ < fr_order(),
    ensures
        sig@.key == bsk@,
        sig@.msg == binding_message_model(key_point_model(bsk@), sighash@),
{
    let r_gen = native_rand_gen();
    let bvk = point_mul(&r_gen, bsk);
    proof {
        lemma_key_point_scale(bsk@);
    }
    let msg = binding_message(&bvk, sighash);
    sign_binding(bsk, &msg)
}

/// Checks a binding signature against an independently accumulated
/// commitment sum: the check passes exactly when the signature was made over
/// this sum's binding message and under the key whose verification point is
/// the sum.
pub fn signature_verification(sighash: &[u8; 32], cv: &Point, sig: &Sig) -> (ok: bool)
    ensures
        ok <==> (sig@.msg == binding_message_model(cv@, sighash@) && cv@ == key_point_model(
            sig@.key,
        )),
{
    let msg = binding_message(cv, sighash);
    verify_binding(cv, &msg, sig)
}

/// Scaling the randomness basis by a reduced key gives the key point.
proof fn lemma_key_point_scale(key: nat)
    requires
        key < fr_order(),
    ensures
        pm_scale((PointModel { v: 0, r: 1 }), key) == key_point_model(key),
{
    vstd::arithmetic::div_mod::lemma_small_mod(key, fr_order());
    vstd::arithmetic::div_mod::lemma_small_mod(0nat, fr_order());
}

/// A native-pool value commitment: `value * V + rcv * R`, the commitment a
/// native spend carries.
pub fn sapling_commitment(rcv_native: &Scalar, value: u64) -> (p: Point)
    ensures
        p@ == commit_model(
            (PointModel { v: 1, r: 0 }),
            (PointModel { v: 0, r: 1 }),
            value as nat,
            rcv_native@,
        ),
{
    let v_gen = native_value_gen();
    let r_gen = native_rand_gen();
    let vs = scalar_from_u64(value);
    point_add(&point_mul(&v_gen, &vs), &point_mul(&r_gen, rcv_native))
}

/// A conversion commitment at the given exchange rate: the blended basis
/// (secondary minted rate minus native consumed rate) times the converted
/// amount, blinded over the secondary pool's randomness basis.
pub fn convert_commitment(
    rcv_convert: &Scalar,
    value: u64,
    rate_secondary: u64,
    rate_native: u64,
) -> (p: Point)
    ensures
        p@ == commit_model(
            convert_basis_model(rate_native as nat, rate_secondary as nat),
            (PointModel { v: 0, r: 1 }),
            value as nat,
            rcv_convert@,
        ),
{
    let reg = GeneratorRegistry::new();
    let rs = scalar_from_u64(rate_secondary);
    let rn = scalar_from_u64(rate_native);
    let minted = point_mul(reg.value_gen(Pool::Secondary), &rs);
    let consumed = point_mul(reg.value_gen(Pool::Native), &rn);
    let basis = point_sub(&minted, &consumed);
    let vs = scalar_from_u64(value);
    let blinding = point_mul(reg.rand_gen(Pool::Secondary), rcv_convert);
    point_add(&point_mul(&basis, &vs), &blinding)
}

/// The commitment sum of a one-for-one airdrop claim: a native commitment of
/// the native value, plus a conversion of that value at a one-to-one rate,
/// minus a secondary-pool commitment of the claimed secondary value.
pub open spec fn cv_sum_model(
    value_native: nat,
    value_secondary: nat,
    t_native: nat,
    t_secondary: nat,
    t_mint: nat,
) -> PointModel {
    pm_sub(
        pm_add(
            commit_model(
                (PointModel { v: 1, r: 0 }),
                (PointModel { v: 0, r: 1 }),
                value_native,
                t_native,
            ),
            commit_model(
                convert_basis_model(1, 1),
                (PointModel { v: 0, r: 1 }),
                value_native,
                t_mint,
            ),
        ),
        commit_model(
            (PointModel { v: COFACTOR as nat, r: 0 }),
            (PointModel { v: 0, r: 1 }),
            value_secondary,
            t_secondary,
        ),
    )
}

/// Accumulates the commitments of an airdrop claim — spend of the native
/// value, conversion of it at a one-to-one rate, and a secondary output of
/// the claimed value — into the public point the binding signature is
/// checked against.
pub fn cv_sum(
    value_native: u64,
    value_secondary: u64,
    rcv_native: &Scalar,
    rcv_secondary: &Scalar,
    rcv_mint: &Scalar,
) -> (p: Point)
    ensures
        p@ == cv_sum_model(
            value_native as nat,
            value_secondary as nat,
            rcv_native@,
            rcv_secondary@,
            rcv_mint@,
        ),
{
    let cv_native = sapling_commitment(rcv_native, value_native);
    let cv_mint = convert_commitment(rcv_mint, value_native, 1, 1);
    let reg = GeneratorRegistry::new();
    let vs = scalar_from_u64(value_secondary);
    let cv_secondary = point_add(
        &point_mul(reg.value_gen(Pool::Secondary), &vs),
        &point_mul(reg.rand_gen(Pool::Secondary), rcv_secondary),
    );
    point_sub(&point_add(&cv_native, &cv_mint), &cv_secondary)
}

/// Balanced airdrop: claiming exactly the converted native value in the
/// secondary pool makes the commitment sum the verification point of the
/// signing key combined from the three trapdoors, so the binding signature
/// under that key is accepted.
pub proof fn lemma_balanced_airdrop(value: nat, t_native: nat, t_secondary: nat, t_mint: nat)
    requires
        value <= MAX_MONEY,
        t_native < fr_order(),
        t_secondary < fr_order(),
        t_mint < fr_order(),
    ensures
        cv_sum_model(value, value, t_native, t_secondary, t_mint) == key_point_model(
            bsk_model(t_mint, t_secondary, t_native),
        ),
{
    let m = fr_order() as int;
    lemma_fr_order_large();
    lemma_cv_sum_components(value, value, t_native, t_secondary, t_mint);
    lemma_mod_self_0(m);
    lemma_mod_multiples_vanish(1, 0, m);
}

/// Unbalanced airdrop: claiming a secondary value different from the
/// converted native value leaves a nonzero native-value component in the
/// commitment sum, which is the verification point of no signing key, so
/// verification rejects every binding signature.
pub proof fn lemma_unbalanced_airdrop(
    value_native: nat,
    value_secondary: nat,
    t_native: nat,
    t_secondary: nat,
    t_mint: nat,
)
    requires
        value_native <= MAX_MONEY,
        value_secondary <= MAX_MONEY,
        value_native != value_secondary,
        t_native < fr_order(),
        t_secondary < fr_order(),
        t_mint < fr_order(),
    ensures
        forall|key: nat|
            cv_sum_model(value_native, value_secondary, t_native, t_secondary, t_mint)
                != key_point_model(key),
{
    lemma_fr_order_large();
    lemma_cv_sum_components(value_native, value_secondary, t_native, t_secondary, t_mint);
    let sum = cv_sum_model(value_native, value_secondary, t_native, t_secondary, t_mint);
    lemma_fsub_nonzero((8 * value_native) as nat, (8 * value_secondary) as nat);
    assert(sum.v != 0);
    assert forall|key: nat|
        cv_sum_model(value_native, value_secondary, t_native, t_secondary, t_mint)
            != key_point_model(key) by {
        assert(key_point_model(key).v == 0);
    }
}

/// The trapdoor balancer: the three per-category trapdoor totals,
/// accumulated alongside the bundle assembler as descriptions are added.
/// Summed with the engine's signs — convert and native (spend) totals
/// positive, the secondary (output) total negative — they form the binding
/// signing key.
pub struct TrapdoorBalancer {
    native_total: Scalar,
    secondary_total: Scalar,
    convert_total: Scalar,
}

impl TrapdoorBalancer {
    /// The native-pool (spend) trapdoor total.
    pub closed spec fn native(&self) -> nat {
        self.native_total@
    }

    /// The secondary-pool (output) trapdoor total.
    pub closed spec fn secondary(&self) -> nat {
        self.secondary_total@
    }

    /// The conversion trapdoor total.
    pub closed spec fn convert(&self) -> nat {
        self.convert_total@
    }

    /// A fresh balancer with all three totals zero.
    pub fn new() -> (b: TrapdoorBalancer)
        ensures
            b.native() == 0,
            b.secondary() == 0,
            b.convert() == 0,
    {
        TrapdoorBalancer {
            native_total: scalar_from_u64(0),
            secondary_total: scalar_from_u64(0),
            convert_total: scalar_from_u64(0),
        }
    }

    /// Folds a native spend's trapdoor into its total.
    pub fn add_native(&mut self, t: &Scalar)
        ensures
            final(self).native() == fadd(old(self).native(), t@),
            final(self).secondary() == old(self).secondary(),
            final(self).convert() == old(self).convert(),
    {
        self.native_total = scalar_add(&self.native_total, t);
    }

    /// Folds a secondary output's trapdoor into its total.
    pub fn add_secondary(&mut self, t: &Scalar)
        ensures
            final(self).secondary() == fadd(old(self).secondary(), t@),
            final(self).native() == old(self).native(),
            final(self).convert() == old(self).convert(),
    {
        self.secondary_total = scalar_add(&self.secondary_total, t);
    }

    /// Folds a conversion's trapdoor into its total.
    pub fn add_convert(&mut self, t: &Scalar)
        ensures
            final(self).convert() == fadd(old(self).convert(), t@),
            final(self).native() == old(self).native(),
            final(self).secondary() == old(self).secondary(),
    {
        self.convert_total = scalar_add(&self.convert_total, t);
    }

    /// The binding signing key: convert total minus secondary total plus
    /// native total, the combination whose commitment counterpart cancels to
    /// the randomness basis when the declared balance is honest.
    pub fn compute_signing_key(&self) -> (bsk: Scalar)
        ensures
            bsk@ == bsk_model(self.convert(), self.secondary(), self.native()),
    {
        generate_bsk(&self.convert_total, &self.secondary_total, &self.native_total)
    }
}

/// Two distinct reduced values have a nonzero difference in the field.
proof fn lemma_fsub_nonzero(a: nat, b: nat)
    requires
        a < fr_order(),
        b < fr_order(),
        a != b,
    ensures
        fsub(a, b) != 0,
{
    let m = fr_order() as int;
    lemma_small_mod(b, fr_order());
    if a > b {
        lemma_mod_multiples_vanish(1, a - b, m);
        lemma_small_mod((a - b) as nat, fr_order());
        assert(a + fr_order() - b == m * 1 + (a - b));
    } else {
        lemma_small_mod((a + fr_order() - b) as nat, fr_order());
    }
}

/// The commitment sum reduces to the plain difference of the scaled values
/// in its native-value component and to the signing-key combination in its
/// randomness component.
proof fn lemma_cv_sum_components(
    value_native: nat,
    value_secondary: nat,
    t_native: nat,
    t_secondary: nat,
    t_mint: nat,
)
    requires
        value_native <= MAX_MONEY,
        value_secondary <= MAX_MONEY,
        t_native < fr_order(),
        t_secondary < fr_order(),
        t_mint < fr_order(),
    ensures
        cv_sum_model(value_native, value_secondary, t_native, t_secondary, t_mint) == (PointModel {
            v: fsub(8 * value_native, 8 * value_secondary),
            r: bsk_model(t_mint, t_secondary, t_native),
        }),
{
    let m = fr_order() as int;
    lemma_fr_order_large();
    lemma_small_mod(t_native, fr_order());
    lemma_small_mod(t_secondary, fr_order());
    lemma_small_mod(t_mint, fr_order());
    lemma_small_mod(0nat, fr_order());
    lemma_small_mod(1nat, fr_order());
    lemma_small_mod(8nat, fr_order());
    lemma_small_mod(7nat, fr_order());
    lemma_small_mod(value_native, fr_order());
    lemma_small_mod((7 * value_native) as nat, fr_order());
    lemma_small_mod((8 * value_native) as nat, fr_order());
    lemma_small_mod((8 * value_secondary) as nat, fr_order());
    lemma_mod_self_0(m);
    lemma_mod_multiples_vanish(1, 7, m);
    assert(fadd(t_native, t_mint) == fadd(t_mint, t_native));
}

} // verus!
