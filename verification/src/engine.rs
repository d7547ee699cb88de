//! The value commitment engine: a Pedersen-style commitment to a value under
//! a pool's basis, and the blended-basis commitment of an asset conversion.
//! Both are computed from the injected generator registry, and their models
//! are exact; the homomorphism and cofactor laws of the scheme are proved
//! below over those models.
use vstd::prelude::*;

use crate::algebra::{fr_order, lemma_fadd_rearrange, lemma_fmul_assoc, lemma_fmul_distrib,
    lemma_fmul_sum, pm_add, pm_scale, pm_sub, PointModel};
use crate::curve::{point_add, point_mul, point_sub, scalar_from_u64, Point, Scalar};
use crate::registry::{GeneratorRegistry, Pool};
use crate::AirdropError;

verus! {

/// The policy bound on a single committed amount, kept below 2^63 so that
/// signed cross-pool balances of any number of descriptions stay far below
/// the scalar-field order.
pub const MAX_MONEY: u64 = 0x7fff_ffff_ffff_ffff;

/// The model of `commit`: value times the pool's value basis plus trapdoor
/// times the pool's randomness basis.
pub open spec fn commit_model(
    basis: PointModel,
    rand_base: PointModel,
    value: nat,
    trapdoor: nat,
) -> PointModel {
    pm_add(pm_scale(basis, value), pm_scale(rand_base, trapdoor))
}

/// The blended basis of a conversion: the secondary value basis (which
/// carries the cofactor) times the minted rate, minus the native value basis
/// times the consumed rate.
pub open spec fn convert_basis_model(rate_native: nat, rate_secondary: nat) -> PointModel {
    pm_sub(
        pm_scale((PointModel { v: crate::registry::COFACTOR as nat, r: 0 }), rate_secondary),
        pm_scale((PointModel { v: 1, r: 0 }), rate_native),
    )
}

/// Commits to `value` under `pool`'s basis, blinded by `trapdoor`. Fails
/// exactly when the value exceeds the policy maximum. Re-basing an existing
/// native opening into the secondary pool is this same commitment under
/// `Pool::Secondary`: the value and trapdoor are kept and the cofactor
/// enters once through the secondary basis.
pub fn commit(reg: &GeneratorRegistry, pool: Pool, value: u64, trapdoor: &Scalar) -> (r: Result<
    Point,
    AirdropError,
>)
    requires
        reg.wf(),
    ensures
        r is Ok <==> value <= MAX_MONEY,
        (r matches Ok(p) ==> p@ == commit_model(
            reg.value_base(pool),
            reg.rand_base(pool),
            value as nat,
            trapdoor@,
        )),
        (r matches Err(e) ==> e == AirdropError::InvalidAmount),
{
    if value > MAX_MONEY {
        return Err(AirdropError::InvalidAmount);
    }
    let vs = scalar_from_u64(value);
    let committed_value = point_mul(reg.value_gen(pool), &vs);
    let blinding = point_mul(reg.rand_gen(pool), trapdoor);
    Ok(point_add(&committed_value, &blinding))
}

/// Commits to a conversion of `value` units at the fixed exchange rate of
/// `rate_native` consumed native units for `rate_secondary` minted secondary
/// units, blinded by `trapdoor` over the secondary pool's randomness basis.
/// Fails exactly when the value exceeds the policy maximum.
pub fn convert_commit(
    reg: &GeneratorRegistry,
    rate_native: u64,
    rate_secondary: u64,
    value: u64,
    trapdoor: &Scalar,
) -> (r: Result<Point, AirdropError>)
    requires
        reg.wf(),
    ensures
        r is Ok <==> value <= MAX_MONEY,
        (r matches Ok(p) ==> p@ == commit_model(
            convert_basis_model(rate_native as nat, rate_secondary as nat),
            reg.rand_base(Pool::Secondary),
            value as nat,
            trapdoor@,
        )),
        (r matches Err(e) ==> e == AirdropError::InvalidAmount),
{
    if value > MAX_MONEY {
        return Err(AirdropError::InvalidAmount);
    }
    let rs = scalar_from_u64(rate_secondary);
    let rn = scalar_from_u64(rate_native);
    let minted = point_mul(reg.value_gen(Pool::Secondary), &rs);
    let consumed = point_mul(reg.value_gen(Pool::Native), &rn);
    let basis = point_sub(&minted, &consumed);
    let vs = scalar_from_u64(value);
    let committed_value = point_mul(&basis, &vs);
    let blinding = point_mul(reg.rand_gen(Pool::Secondary), trapdoor);
    Ok(point_add(&committed_value, &blinding))
}

/// A zero-value commitment of the secondary pool is pure blinding: its model
/// is the trapdoor's verification point alone.
pub proof fn lemma_zero_value_commit(t: nat)
    requires
        t < fr_order(),
    ensures
        commit_model(
            (PointModel { v: crate::registry::COFACTOR as nat, r: 0 }),
            (PointModel { v: 0, r: 1 }),
            0,
            t,
        ) == (PointModel { v: 0, r: t }),
{
    vstd::arithmetic::div_mod::lemma_small_mod(0nat, fr_order());
    vstd::arithmetic::div_mod::lemma_small_mod(t, fr_order());
}

/// Commitments over one basis are homomorphic: adding the commitments of
/// `(v1, t1)` and `(v2, t2)` gives the commitment of `(v1 + v2, t1 + t2)`.
pub proof fn lemma_commit_homomorphism(
    basis: PointModel,
    rand_base: PointModel,
    v1: nat,
    v2: nat,
    t1: nat,
    t2: nat,
)
    ensures
        pm_add(
            commit_model(basis, rand_base, v1, t1),
            commit_model(basis, rand_base, v2, t2),
        ) == commit_model(basis, rand_base, (v1 + v2) as nat, (t1 + t2) as nat),
{
    lemma_fadd_rearrange(
        crate::algebra::fmul(basis.v, v1),
        crate::algebra::fmul(rand_base.v, t1),
        crate::algebra::fmul(basis.v, v2),
        crate::algebra::fmul(rand_base.v, t2),
    );
    lemma_fadd_rearrange(
        crate::algebra::fmul(basis.r, v1),
        crate::algebra::fmul(rand_base.r, t1),
        crate::algebra::fmul(basis.r, v2),
        crate::algebra::fmul(rand_base.r, t2),
    );
    lemma_fmul_distrib(basis.v, v1, v2);
    lemma_fmul_distrib(basis.r, v1, v2);
    lemma_fmul_distrib(rand_base.v, t1, t2);
    lemma_fmul_distrib(rand_base.r, t1, t2);
}

/// The cofactor correction: a commitment scaled by `c` equals the commitment
/// of the `c`-fold value under the `c`-fold trapdoor, pinning down how a
/// native-pool commitment is renormalised into the secondary pool.
pub proof fn lemma_cofactor_scaling(
    basis: PointModel,
    rand_base: PointModel,
    value: nat,
    trapdoor: nat,
    c: nat,
)
    ensures
        pm_scale(commit_model(basis, rand_base, value, trapdoor), c) == commit_model(
            basis,
            rand_base,
            (c * value) as nat,
            (c * trapdoor) as nat,
        ),
{
    lemma_fmul_sum(
        crate::algebra::fmul(basis.v, value),
        crate::algebra::fmul(rand_base.v, trapdoor),
        c,
    );
    lemma_fmul_sum(
        crate::algebra::fmul(basis.r, value),
        crate::algebra::fmul(rand_base.r, trapdoor),
        c,
    );
    lemma_fmul_assoc(basis.v, value, c);
    lemma_fmul_assoc(basis.r, value, c);
    lemma_fmul_assoc(rand_base.v, trapdoor, c);
    lemma_fmul_assoc(rand_base.r, trapdoor, c);
    vstd::arithmetic::mul::lemma_mul_is_commutative(value as int, c as int);
    vstd::arithmetic::mul::lemma_mul_is_commutative(trapdoor as int, c as int);
}

} // verus!
