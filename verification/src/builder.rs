//! The bundle assembler. While open it appends Spend, Output and Convert
//! descriptions, keeps the running public commitment sum with the signed,
//! cofactor-weighted convention of the engine, and enforces that every
//! Convert shares the bundle's first anchor. Finalizing pads the outputs to
//! the policy minimum with zero-value dummies when any spend is present,
//! independently randomizes the order of each category, and hands back the
//! sealed bundle together with the position metadata and the trapdoor mass
//! of the synthesized dummies, which the caller's trapdoor balancer must add
//! to the secondary-pool total.
use vstd::prelude::*;

use rand::Rng;

use crate::algebra::{fr_order, lemma_fadd_bound, lemma_fsub_bound, lemma_fsub_chain,
    lemma_fsub_zero, pm_add, pm_sub, pm_wf, pm_zero, PointModel};
use crate::bundle::AirdropBundle;
use crate::curve::{point_add, point_sub, scalar_add, scalar_from_u64, scalar_random, Point,
    Scalar};
use crate::descriptions::{bytes32_eq, ConvertDescription, OutputDescription, SpendDescription};
use crate::engine::{commit, commit_model, convert_basis_model, convert_commit,
    lemma_zero_value_commit, MAX_MONEY};
use crate::metadata::AirdropMetadata;
use crate::permutation::{apply_permutation, invert_permutation, is_permutation,
    random_permutation};
use crate::registry::{GeneratorRegistry, Pool};
use crate::signer::key_point_model;
use crate::verification::{acc_converts, acc_outputs, acc_spends, bundle_acc,
    lemma_acc_converts_shift, lemma_acc_outputs_shift, lemma_acc_shuffle_invariant};
use crate::AirdropError;

verus! {

/// The minimum number of outputs a bundle with at least one spend must show,
/// so that a spend-without-output shape cannot be told apart.
pub const MIN_SHIELDED_OUTPUTS: usize = 2;

/// The output count after padding: at least the policy minimum whenever a
/// spend is present, otherwise the outputs as they are.
pub open spec fn padded_output_count(n_spends: nat, n_outputs: nat) -> nat {
    if n_spends > 0 && n_outputs < MIN_SHIELDED_OUTPUTS as nat {
        MIN_SHIELDED_OUTPUTS as nat
    } else {
        n_outputs
    }
}

/// Whether a convert carrying `root` is consistent with the bundle's anchor
/// state: the first convert fixes the anchor, later ones must repeat it.
pub open spec fn anchor_matches(prev: Option<Seq<u8>>, root: Seq<u8>) -> bool {
    match prev {
        Some(a) => a == root,
        None => true,
    }
}

/// An open bundle under construction: the per-category description vectors,
/// the running public commitment sum, and the anchor state. Building
/// consumes the assembler, so no description can be appended to a sealed
/// bundle.
pub struct AirdropBuilder {
    registry: GeneratorRegistry,
    spend_anchor: [u8; 32],
    convert_anchor: Option<[u8; 32]>,
    value_balance: Point,
    spends: Vec<SpendDescription>,
    converts: Vec<ConvertDescription>,
    outputs: Vec<OutputDescription>,
}

impl AirdropBuilder {
    /// The spends added so far, in insertion order.
    pub closed spec fn spends_seq(&self) -> Seq<SpendDescription> {
        self.spends@
    }

    /// The converts added so far, in insertion order.
    pub closed spec fn converts_seq(&self) -> Seq<ConvertDescription> {
        self.converts@
    }

    /// The outputs added so far, in insertion order.
    pub closed spec fn outputs_seq(&self) -> Seq<OutputDescription> {
        self.outputs@
    }

    /// The running public commitment sum: spends and converts added, outputs
    /// subtracted.
    pub closed spec fn balance(&self) -> PointModel {
        self.value_balance@
    }

    /// The spend-tree anchor the builder was opened with.
    pub closed spec fn anchor_spec(&self) -> Seq<u8> {
        self.spend_anchor@
    }

    /// The convert anchor, fixed by the first successful convert.
    pub closed spec fn convert_anchor_spec(&self) -> Option<Seq<u8>> {
        match self.convert_anchor {
            Some(a) => Some(a@),
            None => None,
        }
    }

    /// A well-formed builder holds the well-formed generator registry and a
    /// reduced commitment sum which is exactly the fold of its description
    /// commitments: spends and converts added, outputs subtracted.
    pub closed spec fn wf(&self) -> bool {
        &&& self.registry.wf()
        &&& pm_wf(self.value_balance@)
        &&& self.value_balance@ == bundle_acc(self.spends@, self.converts@, self.outputs@)
    }

    /// The builder's state other than the spend vector and balance.
    pub open spec fn same_but_spends(&self, other: &AirdropBuilder) -> bool {
        &&& self.converts_seq() == other.converts_seq()
        &&& self.outputs_seq() == other.outputs_seq()
        &&& self.anchor_spec() == other.anchor_spec()
        &&& self.convert_anchor_spec() == other.convert_anchor_spec()
    }

    /// Nothing about the builder changed.
    pub open spec fn unchanged(&self, other: &AirdropBuilder) -> bool {
        &&& self.spends_seq() == other.spends_seq()
        &&& self.converts_seq() == other.converts_seq()
        &&& self.outputs_seq() == other.outputs_seq()
        &&& self.balance() == other.balance()
        &&& self.anchor_spec() == other.anchor_spec()
        &&& self.convert_anchor_spec() == other.convert_anchor_spec()
    }

    /// Opens an assembler pinned to the given spend commitment tree anchor,
    /// with no descriptions, an identity commitment sum and no convert
    /// anchor fixed yet.
    pub fn init(anchor: [u8; 32]) -> (b: AirdropBuilder)
        ensures
            b.wf(),
            b.spends_seq() == Seq::<SpendDescription>::empty(),
            b.converts_seq() == Seq::<ConvertDescription>::empty(),
            b.outputs_seq() == Seq::<OutputDescription>::empty(),
            b.balance() == pm_zero(),
            b.convert_anchor_spec() is None,
            b.anchor_spec() == anchor@,
    {
        AirdropBuilder {
            registry: GeneratorRegistry::new(),
            spend_anchor: anchor,
            convert_anchor: None,
            value_balance: crate::curve::point_identity(),
            spends: Vec::new(),
            converts: Vec::new(),
            outputs: Vec::new(),
        }
    }

    /// Appends a spend description built from already-proved parts and adds
    /// its commitment to the running sum.
    pub fn add_spend_description(
        &mut self,
        cv: Point,
        anchor: [u8; 32],
        nullifier: [u8; 32],
        rk: [u8; 32],
        zkproof: [u8; 192],
        spend_auth_sig: [u8; 64],
    ) -> (r: Result<(), AirdropError>)
        requires
            old(self).wf(),
        ensures
            final(self).wf(),
            r is Ok,
            final(self).spends_seq() == old(self).spends_seq().push(
                (SpendDescription { cv, anchor, nullifier, rk, zkproof, spend_auth_sig }),
            ),
            final(self).balance() == pm_add(old(self).balance(), cv@),
            final(self).same_but_spends(old(self)),
    {
        self.spends.push(SpendDescription { cv, anchor, nullifier, rk, zkproof, spend_auth_sig });
        self.value_balance = point_add(&self.value_balance, &cv);
        proof {
            lemma_fadd_bound(old(self).balance().v, cv@.v);
            lemma_fadd_bound(old(self).balance().r, cv@.r);
            assert(self.spends@.drop_last() =~= old(self).spends@);
            assert(acc_spends(self.spends@, pm_zero()) == pm_add(
                acc_spends(old(self).spends@, pm_zero()),
                cv@,
            ));
            lemma_acc_converts_shift(self.converts@, acc_spends(old(self).spends@, pm_zero()), cv@);
            lemma_acc_outputs_shift(
                self.outputs@,
                acc_converts(self.converts@, acc_spends(old(self).spends@, pm_zero())),
                cv@,
            );
        }
        Ok(())
    }

    /// Validates the recipient and amount, commits to the value over the
    /// secondary pool, and appends the output description; the commitment is
    /// subtracted from the running sum. A missing diversified base — the
    /// recipient address failed basis-point derivation — is rejected first,
    /// an amount over the policy maximum second, and a rejection leaves the
    /// builder untouched.
    pub fn add_output_description(
        &mut self,
        diversified_base: Option<Point>,
        value: u64,
        rcv: &Scalar,
        cmu: [u8; 32],
        ephemeral_key: [u8; 32],
        enc_ciphertext: [u8; 612],
        out_ciphertext: [u8; 80],
        zkproof: [u8; 192],
    ) -> (r: Result<(), AirdropError>)
        requires
            old(self).wf(),
        ensures
            final(self).wf(),
            diversified_base is None ==> r == Err::<(), AirdropError>(AirdropError::InvalidAddress)
                && final(self).unchanged(old(self)),
            diversified_base is Some && value > MAX_MONEY ==> r == Err::<(), AirdropError>(
                AirdropError::InvalidAmount,
            ) && final(self).unchanged(old(self)),
            diversified_base is Some && value <= MAX_MONEY ==> {
                &&& r is Ok
                &&& final(self).outputs_seq().len() == old(self).outputs_seq().len() + 1
                &&& final(self).outputs_seq().drop_last() == old(self).outputs_seq()
                &&& final(self).outputs_seq().last().cv@ == commit_model(
                    (PointModel { v: crate::registry::COFACTOR as nat, r: 0 }),
                    (PointModel { v: 0, r: 1 }),
                    value as nat,
                    rcv@,
                )
                &&& final(self).outputs_seq().last().cmu == cmu
                &&& final(self).outputs_seq().last().ephemeral_key == ephemeral_key
                &&& final(self).outputs_seq().last().enc_ciphertext == enc_ciphertext
                &&& final(self).outputs_seq().last().out_ciphertext == out_ciphertext
                &&& final(self).outputs_seq().last().zkproof == zkproof
                &&& final(self).balance() == pm_sub(
                    old(self).balance(),
                    final(self).outputs_seq().last().cv@,
                )
                &&& final(self).spends_seq() == old(self).spends_seq()
                &&& final(self).converts_seq() == old(self).converts_seq()
                &&& final(self).anchor_spec() == old(self).anchor_spec()
                &&& final(self).convert_anchor_spec() == old(self).convert_anchor_spec()
            },
    {
        if diversified_base.is_none() {
            return Err(AirdropError::InvalidAddress);
        }
        let cv = match commit(&self.registry, Pool::Secondary, value, rcv) {
            Ok(c) => c,
            Err(e) => {
                return Err(e);
            },
        };
        self.outputs.push(
            OutputDescription { cv, cmu, ephemeral_key, enc_ciphertext, out_ciphertext, zkproof },
        );
        self.value_balance = point_sub(&self.value_balance, &cv);
        proof {
            lemma_fsub_bound(old(self).balance().v, cv@.v);
            lemma_fsub_bound(old(self).balance().r, cv@.r);
            assert(final(self).outputs_seq().drop_last() =~= old(self).outputs_seq());
        }
        Ok(())
    }

    /// Checks the convert's Merkle root against the bundle's anchor — the
    /// first convert fixes it, every later one must repeat it — then commits
    /// to the conversion and appends the description; the commitment is
    /// added to the running sum. A rejection leaves the builder untouched.
    pub fn add_convert_description(
        &mut self,
        rate_native: u64,
        rate_secondary: u64,
        value: u64,
        root: [u8; 32],
        rcv: &Scalar,
        zkproof: [u8; 192],
    ) -> (r: Result<(), AirdropError>)
        requires
            old(self).wf(),
        ensures
            final(self).wf(),
            !anchor_matches(old(self).convert_anchor_spec(), root@) ==> r == Err::<(
            ), AirdropError>(AirdropError::AnchorMismatch) && final(self).unchanged(old(self)),
            anchor_matches(old(self).convert_anchor_spec(), root@) && value > MAX_MONEY ==> r
                == Err::<(), AirdropError>(AirdropError::InvalidAmount) && final(self).unchanged(
                old(self),
            ),
            anchor_matches(old(self).convert_anchor_spec(), root@) && value <= MAX_MONEY ==> {
                &&& r is Ok
                &&& final(self).convert_anchor_spec() == Some(root@)
                &&& final(self).converts_seq().len() == old(self).converts_seq().len() + 1
                &&& final(self).converts_seq().drop_last() == old(self).converts_seq()
                &&& final(self).converts_seq().last().cv@ == commit_model(
                    convert_basis_model(rate_native as nat, rate_secondary as nat),
                    (PointModel { v: 0, r: 1 }),
                    value as nat,
                    rcv@,
                )
                &&& final(self).converts_seq().last().anchor == root
                &&& final(self).converts_seq().last().zkproof == zkproof
                &&& final(self).balance() == pm_add(
                    old(self).balance(),
                    final(self).converts_seq().last().cv@,
                )
                &&& final(self).spends_seq() == old(self).spends_seq()
                &&& final(self).outputs_seq() == old(self).outputs_seq()
                &&& final(self).anchor_spec() == old(self).anchor_spec()
            },
    {
        let anchor_ok = match &self.convert_anchor {
            Some(a) => bytes32_eq(a, &root),
            None => true,
        };
        if !anchor_ok {
            return Err(AirdropError::AnchorMismatch);
        }
        let cv = match convert_commit(&self.registry, rate_native, rate_secondary, value, rcv) {
            Ok(c) => c,
            Err(e) => {
                return Err(e);
            },
        };
        self.convert_anchor = Some(root);
        self.converts.push(ConvertDescription { cv, anchor: root, zkproof });
        self.value_balance = point_add(&self.value_balance, &cv);
        proof {
            lemma_fadd_bound(old(self).balance().v, cv@.v);
            lemma_fadd_bound(old(self).balance().r, cv@.r);
            assert(final(self).converts_seq().drop_last() =~= old(self).converts_seq());
            assert(acc_converts(self.converts@, acc_spends(self.spends@, pm_zero())) == pm_add(
                acc_converts(old(self).converts@, acc_spends(self.spends@, pm_zero())),
                cv@,
            ));
            lemma_acc_outputs_shift(
                self.outputs@,
                acc_converts(old(self).converts@, acc_spends(self.spends@, pm_zero())),
                cv@,
            );
        }
        Ok(())
    }

    /// Seals the bundle. With no spend and no output there is nothing worth
    /// representing and no bundle is produced. Otherwise the outputs are
    /// padded to the policy minimum with zero-value dummy outputs whenever a
    /// spend is present, each category is independently shuffled, and the
    /// result carries: the bundle with an empty authorization slot, the
    /// metadata mapping every insertion index to its final position through
    /// a per-category permutation, and the summed trapdoors of the dummy
    /// outputs for the caller's balancer.
    pub fn build(self) -> (r: Option<(AirdropBundle, AirdropMetadata, Scalar)>)
        requires
            self.wf(),
        ensures
            r is None <==> (self.spends_seq().len() == 0 && self.outputs_seq().len() == 0),
            (r matches Some(out) ==> {
                let (bundle, meta, dummy_total) = out;
                let n_spends = self.spends_seq().len();
                let n_converts = self.converts_seq().len();
                let n_outputs = self.outputs_seq().len();
                let n_padded = padded_output_count(n_spends, n_outputs);
                &&& bundle.authorization is None
                &&& bundle_acc(
                    bundle.shielded_spends@,
                    bundle.shielded_converts@,
                    bundle.shielded_outputs@,
                ) == bundle.value_balance@
                &&& dummy_total@ < fr_order()
                &&& bundle.value_balance@ == pm_sub(self.balance(), key_point_model(dummy_total@))
                &&& n_outputs >= MIN_SHIELDED_OUTPUTS || n_spends == 0 ==> dummy_total@ == 0
                &&& bundle.shielded_spends@.len() == n_spends
                &&& bundle.shielded_converts@.len() == n_converts
                &&& bundle.shielded_outputs@.len() == n_padded
                &&& n_spends > 0 ==> bundle.shielded_outputs@.len() >= MIN_SHIELDED_OUTPUTS
                &&& is_permutation(meta.spend_seq(), n_spends)
                &&& is_permutation(meta.convert_seq(), n_converts)
                &&& is_permutation(meta.output_seq(), n_padded)
                &&& forall|o: int|
                    0 <= o < n_spends ==> bundle.shielded_spends@[meta.spend_seq()[o] as int]
                        == self.spends_seq()[o]
                &&& forall|o: int|
                    0 <= o < n_converts ==> bundle.shielded_converts@[meta.convert_seq()[o] as int]
                        == self.converts_seq()[o]
                &&& forall|o: int|
                    0 <= o < n_outputs ==> bundle.shielded_outputs@[meta.output_seq()[o] as int]
                        == self.outputs_seq()[o]
                &&& forall|k: int|
                    n_outputs <= k < n_padded ==> bundle.shielded_outputs@[meta.output_seq()[k] as int].cv@.v
                        == 0
            }),
    {
        let AirdropBuilder {
            registry,
            spend_anchor: _,
            convert_anchor: _,
            value_balance,
            spends,
            converts,
            mut outputs,
        } = self;
        if spends.len() == 0 && outputs.len() == 0 {
            return None;
        }
        let ghost balance0 = value_balance@;
        let ghost orig_outputs = outputs@;
        let mut balance = value_balance;
        let mut dummy_total = scalar_from_u64(0);
        proof {
            lemma_fsub_zero(balance0.v);
            lemma_fsub_zero(balance0.r);
            assert(balance@ == pm_sub(balance0, key_point_model(0)));
        }
        if spends.len() > 0 {
            while outputs.len() < MIN_SHIELDED_OUTPUTS
                invariant
                    registry.wf(),
                    pm_wf(balance0),
                    orig_outputs.len() <= outputs@.len(),
                    if orig_outputs.len() < MIN_SHIELDED_OUTPUTS {
                        outputs@.len() <= MIN_SHIELDED_OUTPUTS
                    } else {
                        outputs@.len() == orig_outputs.len()
                    },
                    outputs@.subrange(0, orig_outputs.len() as int) == orig_outputs,
                    forall|k: int|
                        orig_outputs.len() <= k < outputs@.len() ==> outputs@[k].cv@.v == 0,
                    dummy_total@ < fr_order(),
                    outputs@.len() > orig_outputs.len() || dummy_total@ == 0,
                    balance@ == pm_sub(balance0, key_point_model(dummy_total@)),
                    balance@ == bundle_acc(spends@, converts@, outputs@),
                decreases MIN_SHIELDED_OUTPUTS - outputs.len(),
            {
                let ghost pre_outputs = outputs@;
                let t = scalar_random();
                let cv = match commit(&registry, Pool::Secondary, 0, &t) {
                    Ok(c) => c,
                    Err(_) => {
                        proof {
                            assert(false);
                        }
                        crate::curve::point_identity()
                    },
                };
                proof {
                    lemma_zero_value_commit(t@);
                }
                outputs.push(
                    OutputDescription {
                        cv,
                        cmu: random_bytes(),
                        ephemeral_key: random_bytes(),
                        enc_ciphertext: random_bytes(),
                        out_ciphertext: random_bytes(),
                        zkproof: random_bytes(),
                    },
                );
                proof {
                    lemma_fsub_chain(balance0.v, 0, 0);
                    lemma_fsub_chain(balance0.r, dummy_total@, t@);
                    lemma_fadd_bound(dummy_total@, t@);
                    assert(outputs@.subrange(0, orig_outputs.len() as int) =~= orig_outputs);
                    assert(outputs@.drop_last() =~= pre_outputs);
                }
                balance = point_sub(&balance, &cv);
                dummy_total = scalar_add(&dummy_total, &t);
            }
        }
        let p_spends = random_permutation(spends.len());
        let shuffled_spends = apply_permutation(&spends, &p_spends);
        let spend_indices = invert_permutation(&p_spends);
        let p_converts = random_permutation(converts.len());
        let shuffled_converts = apply_permutation(&converts, &p_converts);
        let convert_indices = invert_permutation(&p_converts);
        let p_outputs = random_permutation(outputs.len());
        let shuffled_outputs = apply_permutation(&outputs, &p_outputs);
        let output_indices = invert_permutation(&p_outputs);
        proof {
            lemma_shuffle_correspondence(spends@, p_spends@, shuffled_spends@, spend_indices@);
            lemma_shuffle_correspondence(
                converts@,
                p_converts@,
                shuffled_converts@,
                convert_indices@,
            );
            lemma_shuffle_correspondence(outputs@, p_outputs@, shuffled_outputs@, output_indices@);
            lemma_acc_shuffle_invariant(
                spends@,
                converts@,
                outputs@,
                shuffled_spends@,
                shuffled_converts@,
                shuffled_outputs@,
            );
        }
        let meta = AirdropMetadata::from_parts(spend_indices, convert_indices, output_indices);
        let bundle = AirdropBundle {
            shielded_spends: shuffled_spends,
            shielded_converts: shuffled_converts,
            shielded_outputs: shuffled_outputs,
            value_balance: balance,
            authorization: None,
        };
        Some((bundle, meta, dummy_total))
    }
}

/// Relies on `rand::Rng::fill_bytes` with the cryptographically secure
/// `rand::rng()`: fills a fresh array with random bytes; nothing is promised
/// of a random draw.
#[verifier::external_body]
fn random_bytes<const N: usize>() -> (b: [u8; N])
    ensures
        b@.len() == N,
{
    let mut b = [0u8; N];
    rand::rng().fill_bytes(&mut b);
    b
}

/// A shuffled vector read back through the inverse permutation yields each
/// original element at its recorded position.
proof fn lemma_shuffle_correspondence<T>(
    items: Seq<T>,
    p: Seq<usize>,
    shuffled: Seq<T>,
    inv: Seq<usize>,
)
    requires
        items.len() <= usize::MAX,
        is_permutation(p, items.len()),
        is_permutation(inv, items.len()),
        shuffled.len() == items.len(),
        forall|j: int| 0 <= j < shuffled.len() ==> shuffled[j] == items[p[j] as int],
        forall|o: int| 0 <= o < items.len() ==> p[inv[o] as int] == o as usize,
    ensures
        forall|o: int| 0 <= o < items.len() ==> shuffled[inv[o] as int] == items[o],
{
    assert forall|o: int| 0 <= o < items.len() implies shuffled[inv[o] as int] == items[o] by {
        assert((inv[o] as nat) < items.len());
        assert(shuffled[inv[o] as int] == items[p[inv[o] as int] as int]);
        assert(p[inv[o] as int] == o as usize);
    }
}

} // verus!
