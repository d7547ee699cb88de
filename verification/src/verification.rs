//! The receiver-side mirror of the builder: a context that re-accumulates
//! the public value commitments of a parsed bundle's descriptions — with the
//! same signs as the builder, and without any trapdoor knowledge — and then
//! checks the binding signature against the declared value balance. Each
//! description's zero-knowledge proof is the proving collaborator's to
//! verify: the caller forwards proof and public inputs there and hands the
//! verdict to `check_*`, which records a rejection under the description's
//! position without aborting the remaining checks (batched failure
//! reporting). Each `check_*` must be called exactly once per description of
//! the bundle before `final_check`; nothing in the context tracks that
//! protocol, the caller must keep it.
use vstd::prelude::*;

use crate::algebra::{lemma_fadd_fsub_swap, lemma_fadd_swap, lemma_fsub_swap, pm_add, pm_sub,
    pm_zero, PointModel, SigModel};
use vstd::seq_lib::{commutative_foldl, lemma_fold_left_permutation};
use crate::curve::{point_add, point_identity, point_sub, Point, Sig};
use crate::descriptions::{ConvertDescription, OutputDescription, SpendDescription};
use crate::signer::{binding_message_model, key_point_model, signature_verification};

verus! {

/// Accumulates the commitment sum of the descriptions checked so far, how
/// many have been checked, and the positions (in check order) whose proofs
/// the proving collaborator rejected.
pub struct AirdropVerificationContext {
    cv_sum: Point,
    checked: usize,
    proof_failures: Vec<usize>,
}

impl AirdropVerificationContext {
    /// The commitment sum accumulated so far.
    pub closed spec fn acc(&self) -> PointModel {
        self.cv_sum@
    }

    /// How many descriptions have been checked.
    pub closed spec fn checked_count(&self) -> nat {
        self.checked as nat
    }

    /// The check positions whose proofs were rejected, in check order.
    pub closed spec fn failures(&self) -> Seq<usize> {
        self.proof_failures@
    }

    /// An empty context: nothing accumulated, nothing checked, no failure.
    pub fn new() -> (ctx: Self)
        ensures
            ctx.acc() == pm_zero(),
            ctx.checked_count() == 0,
            ctx.failures() == Seq::<usize>::empty(),
    {
        AirdropVerificationContext {
            cv_sum: point_identity(),
            checked: 0,
            proof_failures: Vec::new(),
        }
    }

    /// The per-description failure report: the check positions of every
    /// description whose proof the collaborator rejected.
    pub fn proof_failures(&self) -> (f: &Vec<usize>)
        ensures
            f@ == self.failures(),
    {
        &self.proof_failures
    }

    /// Adds a spend's public commitment into the sum: spends add.
    fn accumulate_spend(&mut self, spend: &SpendDescription)
        ensures
            final(self).acc() == pm_add(old(self).acc(), spend.cv@),
            final(self).checked_count() == old(self).checked_count(),
            final(self).failures() == old(self).failures(),
    {
        self.cv_sum = point_add(&self.cv_sum, &spend.cv);
    }

    /// Adds a convert's public commitment into the sum: converts add.
    fn accumulate_convert(&mut self, convert: &ConvertDescription)
        ensures
            final(self).acc() == pm_add(old(self).acc(), convert.cv@),
            final(self).checked_count() == old(self).checked_count(),
            final(self).failures() == old(self).failures(),
    {
        self.cv_sum = point_add(&self.cv_sum, &convert.cv);
    }

    /// Subtracts an output's public commitment from the sum.
    fn accumulate_output(&mut self, output: &OutputDescription)
        ensures
            final(self).acc() == pm_sub(old(self).acc(), output.cv@),
            final(self).checked_count() == old(self).checked_count(),
            final(self).failures() == old(self).failures(),
    {
        self.cv_sum = point_sub(&self.cv_sum, &output.cv);
    }

    /// Counts one checked description and records its position when the
    /// collaborator rejected its proof.
    fn note_verdict(&mut self, proof_valid: bool)
        requires
            old(self).checked_count() < usize::MAX,
        ensures
            final(self).acc() == old(self).acc(),
            final(self).checked_count() == old(self).checked_count() + 1,
            final(self).failures() == if proof_valid {
                old(self).failures()
            } else {
                old(self).failures().push(old(self).checked_count() as usize)
            },
    {
        if !proof_valid {
            self.proof_failures.push(self.checked);
        }
        self.checked = self.checked + 1;
    }

    /// Accumulates a spend's public commitment, with the builder's sign:
    /// spends add. `proof_valid` is the proving collaborator's verdict on
    /// the spend's proof and public inputs, which the caller forwarded to
    /// it; a rejection is recorded under this description's check position
    /// and does not abort the remaining checks.
    pub fn check_spend(&mut self, spend: &SpendDescription, proof_valid: bool)
        requires
            old(self).checked_count() < usize::MAX,
        ensures
            final(self).acc() == pm_add(old(self).acc(), spend.cv@),
            final(self).checked_count() == old(self).checked_count() + 1,
            final(self).failures() == if proof_valid {
                old(self).failures()
            } else {
                old(self).failures().push(old(self).checked_count() as usize)
            },
    {
        self.accumulate_spend(spend);
        self.note_verdict(proof_valid);
    }

    /// Accumulates a convert's public commitment, with the builder's sign:
    /// converts add. `proof_valid` is the collaborator's verdict on the
    /// conversion proof, recorded like a spend's.
    pub fn check_convert(&mut self, convert: &ConvertDescription, proof_valid: bool)
        requires
            old(self).checked_count() < usize::MAX,
        ensures
            final(self).acc() == pm_add(old(self).acc(), convert.cv@),
            final(self).checked_count() == old(self).checked_count() + 1,
            final(self).failures() == if proof_valid {
                old(self).failures()
            } else {
                old(self).failures().push(old(self).checked_count() as usize)
            },
    {
        self.accumulate_convert(convert);
        self.note_verdict(proof_valid);
    }

    /// Accumulates an output's public commitment, with the builder's sign:
    /// outputs subtract. `proof_valid` is the collaborator's verdict on the
    /// output proof, recorded like a spend's.
    pub fn check_output(&mut self, output: &OutputDescription, proof_valid: bool)
        requires
            old(self).checked_count() < usize::MAX,
        ensures
            final(self).acc() == pm_sub(old(self).acc(), output.cv@),
            final(self).checked_count() == old(self).checked_count() + 1,
            final(self).failures() == if proof_valid {
                old(self).failures()
            } else {
                old(self).failures().push(old(self).checked_count() as usize)
            },
    {
        self.accumulate_output(output);
        self.note_verdict(proof_valid);
    }

    /// Reduces the accumulated sum by the declared value balance to the
    /// verification key and checks the binding signature over it and the
    /// sighash. Passes exactly when the signature was made over this key's
    /// binding message and under the signing key whose verification point
    /// the reduced sum is. A malformed signature is a verification failure,
    /// never a fault.
    pub fn final_check(&self, value_balance: &Point, binding_sig: &Sig, sighash: &[u8; 32]) -> (ok:
        bool)
        ensures
            ok <==> (binding_sig@.msg == binding_message_model(
                pm_sub(self.acc(), value_balance@),
                sighash@,
            ) && pm_sub(self.acc(), value_balance@) == key_point_model(binding_sig@.key)),
    {
        let vk = point_sub(&self.cv_sum, value_balance);
        signature_verification(sighash, &vk, binding_sig)
    }
}

/// One spend folded into an accumulated sum: spends add.
pub open spec fn spend_step() -> spec_fn(PointModel, SpendDescription) -> PointModel {
    |acc: PointModel, d: SpendDescription| pm_add(acc, d.cv@)
}

/// One convert folded into an accumulated sum: converts add.
pub open spec fn convert_step() -> spec_fn(PointModel, ConvertDescription) -> PointModel {
    |acc: PointModel, d: ConvertDescription| pm_add(acc, d.cv@)
}

/// One output folded into an accumulated sum: outputs subtract.
pub open spec fn output_step() -> spec_fn(PointModel, OutputDescription) -> PointModel {
    |acc: PointModel, d: OutputDescription| pm_sub(acc, d.cv@)
}

/// The commitment sum of a spend vector folded onto `init`.
pub open spec fn acc_spends(s: Seq<SpendDescription>, init: PointModel) -> PointModel {
    s.fold_left(init, spend_step())
}

/// The commitment sum of a convert vector folded onto `init`.
pub open spec fn acc_converts(s: Seq<ConvertDescription>, init: PointModel) -> PointModel {
    s.fold_left(init, convert_step())
}

/// The commitment sum of an output vector folded onto `init`.
pub open spec fn acc_outputs(s: Seq<OutputDescription>, init: PointModel) -> PointModel {
    s.fold_left(init, output_step())
}

/// The full re-accumulated commitment sum of a bundle's descriptions.
pub open spec fn bundle_acc(
    spends: Seq<SpendDescription>,
    converts: Seq<ConvertDescription>,
    outputs: Seq<OutputDescription>,
) -> PointModel {
    acc_outputs(outputs, acc_converts(converts, acc_spends(spends, pm_zero())))
}

/// Folding one spend after another commutes.
pub proof fn lemma_spend_step_commutes()
    ensures
        commutative_foldl(spend_step()),
{
    assert forall|x: SpendDescription, y: SpendDescription, v: PointModel|
        #[trigger] spend_step()(spend_step()(v, x), y) == spend_step()(
            spend_step()(v, y),
            x,
        ) by {
        lemma_fadd_swap(v.v, x.cv@.v, y.cv@.v);
        lemma_fadd_swap(v.r, x.cv@.r, y.cv@.r);
    }
}

/// Folding one convert after another commutes.
pub proof fn lemma_convert_step_commutes()
    ensures
        commutative_foldl(convert_step()),
{
    assert forall|x: ConvertDescription, y: ConvertDescription, v: PointModel|
        #[trigger] convert_step()(convert_step()(v, x), y) == convert_step()(
            convert_step()(v, y),
            x,
        ) by {
        lemma_fadd_swap(v.v, x.cv@.v, y.cv@.v);
        lemma_fadd_swap(v.r, x.cv@.r, y.cv@.r);
    }
}

/// Folding one output after another commutes.
pub proof fn lemma_output_step_commutes()
    ensures
        commutative_foldl(output_step()),
{
    assert forall|x: OutputDescription, y: OutputDescription, v: PointModel|
        #[trigger] output_step()(output_step()(v, x), y) == output_step()(
            output_step()(v, y),
            x,
        ) by {
        lemma_fsub_swap(v.v, x.cv@.v, y.cv@.v);
        lemma_fsub_swap(v.r, x.cv@.r, y.cv@.r);
    }
}

/// Starting a convert fold from a shifted sum shifts its result by the same
/// amount.
pub proof fn lemma_acc_converts_shift(c: Seq<ConvertDescription>, init: PointModel, y: PointModel)
    ensures
        acc_converts(c, pm_add(init, y)) == pm_add(acc_converts(c, init), y),
    decreases c.len(),
{
    if c.len() > 0 {
        lemma_acc_converts_shift(c.drop_last(), init, y);
        let a = acc_converts(c.drop_last(), init);
        let l = c.last().cv@;
        lemma_fadd_swap(a.v, y.v, l.v);
        lemma_fadd_swap(a.r, y.r, l.r);
    }
}

/// Starting an output fold from a shifted sum shifts its result by the same
/// amount.
pub proof fn lemma_acc_outputs_shift(o: Seq<OutputDescription>, init: PointModel, y: PointModel)
    ensures
        acc_outputs(o, pm_add(init, y)) == pm_add(acc_outputs(o, init), y),
    decreases o.len(),
{
    if o.len() > 0 {
        lemma_acc_outputs_shift(o.drop_last(), init, y);
        let a = acc_outputs(o.drop_last(), init);
        let l = o.last().cv@;
        lemma_fadd_fsub_swap(a.v, y.v, l.v);
        lemma_fadd_fsub_swap(a.r, y.r, l.r);
    }
}

/// Shuffle invariance of re-accumulation: bundles whose description vectors
/// hold the same descriptions, in any order within each category,
/// re-accumulate to the same commitment sum. The random shuffle a builder
/// applies before sealing therefore does not change what a verifier
/// accumulates.
pub proof fn lemma_acc_shuffle_invariant(
    spends1: Seq<SpendDescription>,
    converts1: Seq<ConvertDescription>,
    outputs1: Seq<OutputDescription>,
    spends2: Seq<SpendDescription>,
    converts2: Seq<ConvertDescription>,
    outputs2: Seq<OutputDescription>,
)
    requires
        spends1.to_multiset() == spends2.to_multiset(),
        converts1.to_multiset() == converts2.to_multiset(),
        outputs1.to_multiset() == outputs2.to_multiset(),
    ensures
        bundle_acc(spends1, converts1, outputs1) == bundle_acc(spends2, converts2, outputs2),
{
    lemma_spend_step_commutes();
    lemma_convert_step_commutes();
    lemma_output_step_commutes();
    lemma_fold_left_permutation(spends1, spends2, spend_step(), pm_zero());
    lemma_fold_left_permutation(
        converts1,
        converts2,
        convert_step(),
        acc_spends(spends1, pm_zero()),
    );
    lemma_fold_left_permutation(
        outputs1,
        outputs2,
        output_step(),
        acc_converts(converts1, acc_spends(spends1, pm_zero())),
    );
}

/// Replays a received bundle through a fresh context, description by
/// description, and checks its binding signature against the declared value
/// balance: the round trip passes exactly when the bundle's re-accumulated
/// commitment sum, less the declared balance, is the verification point of
/// the key its signature was made with over this sighash's binding message.
/// An unauthorized bundle never passes. Only the binding signature is
/// judged here; the per-description proof verdicts are the proving
/// collaborator's and are reported through `check_*`.
pub fn verify_bundle(bundle: &crate::bundle::AirdropBundle, value_balance: &Point, sighash: &[u8;
    32]) -> (ok: bool)
    ensures
        bundle.authorization is None ==> !ok,
        (bundle.authorization matches Some(sig) ==> (ok <==> (sig@.msg == binding_message_model(
            pm_sub(
                bundle_acc(
                    bundle.shielded_spends@,
                    bundle.shielded_converts@,
                    bundle.shielded_outputs@,
                ),
                value_balance@,
            ),
            sighash@,
        ) && pm_sub(
            bundle_acc(
                bundle.shielded_spends@,
                bundle.shielded_converts@,
                bundle.shielded_outputs@,
            ),
            value_balance@,
        ) == key_point_model(sig@.key)))),
{
    let mut ctx = AirdropVerificationContext::new();
    let n_spends = bundle.shielded_spends.len();
    let mut i: usize = 0;
    while i < n_spends
        invariant
            i <= n_spends,
            n_spends == bundle.shielded_spends@.len(),
            ctx.acc() == acc_spends(bundle.shielded_spends@.subrange(0, i as int), pm_zero()),
        decreases n_spends - i,
    {
        ctx.accumulate_spend(&bundle.shielded_spends[i]);
        i = i + 1;
        proof {
            let pre = bundle.shielded_spends@.subrange(0, i - 1);
            let cur = bundle.shielded_spends@.subrange(0, i as int);
            assert(cur.drop_last() =~= pre);
        }
    }
    proof {
        assert(bundle.shielded_spends@.subrange(0, n_spends as int)
            =~= bundle.shielded_spends@);
    }
    let ghost after_spends = ctx.acc();
    let n_converts = bundle.shielded_converts.len();
    let mut j: usize = 0;
    while j < n_converts
        invariant
            j <= n_converts,
            n_converts == bundle.shielded_converts@.len(),
            ctx.acc() == acc_converts(
                bundle.shielded_converts@.subrange(0, j as int),
                after_spends,
            ),
        decreases n_converts - j,
    {
        ctx.accumulate_convert(&bundle.shielded_converts[j]);
        j = j + 1;
        proof {
            let pre = bundle.shielded_converts@.subrange(0, j - 1);
            let cur = bundle.shielded_converts@.subrange(0, j as int);
            assert(cur.drop_last() =~= pre);
        }
    }
    proof {
        assert(bundle.shielded_converts@.subrange(0, n_converts as int)
            =~= bundle.shielded_converts@);
    }
    let ghost after_converts = ctx.acc();
    let n_outputs = bundle.shielded_outputs.len();
    let mut k: usize = 0;
    while k < n_outputs
        invariant
            k <= n_outputs,
            n_outputs == bundle.shielded_outputs@.len(),
            ctx.acc() == acc_outputs(
                bundle.shielded_outputs@.subrange(0, k as int),
                after_converts,
            ),
        decreases n_outputs - k,
    {
        ctx.accumulate_output(&bundle.shielded_outputs[k]);
        k = k + 1;
        proof {
            let pre = bundle.shielded_outputs@.subrange(0, k - 1);
            let cur = bundle.shielded_outputs@.subrange(0, k as int);
            assert(cur.drop_last() =~= pre);
        }
    }
    proof {
        assert(bundle.shielded_outputs@.subrange(0, n_outputs as int)
            =~= bundle.shielded_outputs@);
    }
    match &bundle.authorization {
        Some(sig) => ctx.final_check(value_balance, sig, sighash),
        None => false,
    }
}

/// Round trip: a binding signature made under signing key `bsk` passes
/// `final_check` against an accumulated sum `acc` and a declared balance
/// `declared` exactly when `acc` less `declared` is `bsk`'s verification
/// point — that is, exactly when the declared balance accounts for every
/// value component of the accumulated commitments and the trapdoor total
/// behind them is `bsk`. Honest bundles satisfy the right-hand side, so they
/// pass; a bundle whose declared balance differs from its true net value
/// leaves a value component in the difference and fails.
pub proof fn lemma_round_trip(
    acc: PointModel,
    declared: PointModel,
    bsk: nat,
    sighash: Seq<u8>,
    sig: SigModel,
)
    requires
        sig.key == bsk,
        sig.msg == binding_message_model(key_point_model(bsk), sighash),
    ensures
        (sig.msg == binding_message_model(pm_sub(acc, declared), sighash) && pm_sub(acc, declared)
            == key_point_model(sig.key)) <==> pm_sub(acc, declared) == key_point_model(bsk),
{
}

} // verus!
