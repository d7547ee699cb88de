//! The mathematical model of the commitment scheme: arithmetic in the jubjub
//! scalar field, and points of the prime-order subgroup written as linear
//! combinations of the two fixed generators (the native value generator `V`
//! and the randomness generator `R`). Every curve value the library handles
//! lies in the span of `V` and `R`, so a point is modelled by its pair of
//! coefficients modulo the scalar-field order.
use vstd::prelude::*;

verus! {

use vstd::arithmetic::div_mod::*;
use vstd::arithmetic::mul::*;

/// Order of the jubjub scalar field `Fr`, a prime of 252 bits.
pub open spec fn fr_order() -> nat {
    0x0e7db4ea6533afa906673b0101343b00a6682093ccc81082d0970e5ed6f72cb7nat
}

/// The scalar-field order is far above every integer quantity the library
/// sums: single `u64` values, and value balances of at most `usize::MAX`
/// descriptions of at most `MAX_MONEY` each, scaled by the cofactor.
pub proof fn lemma_fr_order_large()
    ensures
        fr_order() > 0x10_0000_0000_0000_0000_0000_0000_0000_0000_0000nat,
{
}

/// Addition in the scalar field.
pub open spec fn fadd(a: nat, b: nat) -> nat {
    (a + b) % fr_order()
}

/// Subtraction in the scalar field.
pub open spec fn fsub(a: nat, b: nat) -> nat {
    ((a + fr_order() - (b % fr_order())) % (fr_order() as int)) as nat
}

/// Multiplication in the scalar field.
pub open spec fn fmul(a: nat, b: nat) -> nat {
    (a * b) % fr_order()
}

/// A point of the prime-order subgroup, written as `v * V + r * R` over the
/// two fixed generators; `v` and `r` are its coefficients mod `fr_order()`.
pub ghost struct PointModel {
    pub v: nat,
    pub r: nat,
}

/// Well-formed coefficients are reduced.
pub open spec fn pm_wf(p: PointModel) -> bool {
    p.v < fr_order() && p.r < fr_order()
}

/// The identity element.
pub open spec fn pm_zero() -> PointModel {
    PointModel { v: 0, r: 0 }
}

/// Group addition acts coefficient-wise.
pub open spec fn pm_add(a: PointModel, b: PointModel) -> PointModel {
    PointModel { v: fadd(a.v, b.v), r: fadd(a.r, b.r) }
}

/// Group subtraction acts coefficient-wise.
pub open spec fn pm_sub(a: PointModel, b: PointModel) -> PointModel {
    PointModel { v: fsub(a.v, b.v), r: fsub(a.r, b.r) }
}

/// Scalar multiplication scales both coefficients.
pub open spec fn pm_scale(p: PointModel, k: nat) -> PointModel {
    PointModel { v: fmul(p.v, k), r: fmul(p.r, k) }
}

/// What a binding signature commits to: the signing key that produced it and
/// the exact message bytes that were signed.
pub ghost struct SigModel {
    pub key: nat,
    pub msg: Seq<u8>,
}

/// Multiplication distributes over addition in the field: scaling two
/// summands and adding equals scaling the sum.
pub proof fn lemma_fmul_distrib(x: nat, a: nat, b: nat)
    ensures
        fadd(fmul(x, a), fmul(x, b)) == fmul(x, (a + b) as nat),
{
    let m = fr_order() as int;
    lemma_add_mod_noop((x * a) as int, (x * b) as int, m);
    lemma_mul_is_distributive_add(x as int, a as int, b as int);
}

/// Scaling a reduced product again equals scaling by the product of the
/// scalars: `(x * a mod m) * c mod m == x * (a * c) mod m`.
pub proof fn lemma_fmul_assoc(x: nat, a: nat, c: nat)
    ensures
        fmul(fmul(x, a), c) == fmul(x, (a * c) as nat),
{
    let m = fr_order() as int;
    lemma_mul_mod_noop_left((x * a) as int, c as int, m);
    lemma_mul_is_associative(x as int, a as int, c as int);
}

/// Every field operation returns a reduced value.
pub proof fn lemma_fadd_bound(a: nat, b: nat)
    ensures
        fadd(a, b) < fr_order(),
{
    lemma_mod_bound((a + b) as int, fr_order() as int);
}

/// Every field subtraction returns a reduced value.
pub proof fn lemma_fsub_bound(a: nat, b: nat)
    ensures
        fsub(a, b) < fr_order(),
{
    lemma_mod_bound((a + fr_order() - (b % fr_order())) as int, fr_order() as int);
}

/// Subtracting zero changes nothing.
pub proof fn lemma_fsub_zero(a: nat)
    requires
        a < fr_order(),
    ensures
        fsub(a, 0) == a,
{
    lemma_small_mod(0nat, fr_order());
    lemma_mod_multiples_vanish(1, a as int, fr_order() as int);
    lemma_small_mod(a, fr_order());
}

/// Field subtraction agrees with the Euclidean remainder of the integer
/// difference.
pub proof fn lemma_fsub_is_mod(a: nat, b: nat)
    ensures
        fsub(a, b) as int == ((a as int) - (b as int)) % (fr_order() as int),
{
    let m = fr_order() as int;
    lemma_mod_multiples_vanish(1, (a as int) - ((b % fr_order()) as int), m);
    assert(m * 1 + ((a as int) - ((b % fr_order()) as int)) == a + fr_order() - (b % fr_order()));
    lemma_sub_mod_noop_right(a as int, b as int, m);
}

/// The order of two field additions onto the same accumulator is
/// interchangeable.
pub proof fn lemma_fadd_swap(v: nat, x: nat, y: nat)
    ensures
        fadd(fadd(v, x), y) == fadd(fadd(v, y), x),
{
    let m = fr_order() as int;
    lemma_add_mod_noop_right(y as int, (v + x) as int, m);
    lemma_add_mod_noop_right(x as int, (v + y) as int, m);
}

/// The order of two field subtractions from the same accumulator is
/// interchangeable.
pub proof fn lemma_fsub_swap(v: nat, x: nat, y: nat)
    ensures
        fsub(fsub(v, x), y) == fsub(fsub(v, y), x),
{
    let m = fr_order() as int;
    lemma_fsub_is_mod(v, x);
    lemma_fsub_is_mod(fsub(v, x), y);
    lemma_fsub_is_mod(v, y);
    lemma_fsub_is_mod(fsub(v, y), x);
    lemma_sub_mod_noop((v as int) - (x as int), y as int, m);
    lemma_mod_twice(y as int, m);
    lemma_sub_mod_noop((v as int) - (y as int), x as int, m);
    lemma_mod_twice(x as int, m);
}

/// A field addition and a field subtraction on the same accumulator are
/// interchangeable.
pub proof fn lemma_fadd_fsub_swap(v: nat, x: nat, y: nat)
    ensures
        fsub(fadd(v, x), y) == fadd(fsub(v, y), x),
{
    let m = fr_order() as int;
    lemma_fsub_is_mod(fadd(v, x), y);
    lemma_fsub_is_mod(v, y);
    lemma_sub_mod_noop((v + x) as int, y as int, m);
    lemma_mod_twice(y as int, m);
    lemma_add_mod_noop_right(x as int, (v as int) - (y as int), m);
    assert((v + x) - y == x + ((v as int) - (y as int)));
}

/// Subtracting twice equals subtracting the sum.
pub proof fn lemma_fsub_chain(x: nat, b: nat, c: nat)
    requires
        b < fr_order(),
        c < fr_order(),
    ensures
        fsub(fsub(x, b), c) == fsub(x, fadd(b, c)),
{
    let m = fr_order() as int;
    lemma_fsub_is_mod(x, b);
    lemma_fsub_bound(x, b);
    lemma_fsub_is_mod(fsub(x, b), c);
    lemma_small_mod(c, fr_order());
    lemma_sub_mod_noop((x as int) - (b as int), c as int, m);
    lemma_fadd_bound(b, c);
    lemma_fsub_is_mod(x, fadd(b, c));
    lemma_sub_mod_noop_right(x as int, (b + c) as int, m);
}

/// Two modular sums may be regrouped: `(x1 + y1) + (x2 + y2)` equals
/// `(x1 + x2) + (y1 + y2)` in the field.
pub proof fn lemma_fadd_rearrange(x1: nat, y1: nat, x2: nat, y2: nat)
    ensures
        fadd(fadd(x1, y1), fadd(x2, y2)) == fadd(fadd(x1, x2), fadd(y1, y2)),
{
    let m = fr_order() as int;
    lemma_add_mod_noop((x1 + y1) as int, (x2 + y2) as int, m);
    lemma_add_mod_noop((x1 + x2) as int, (y1 + y2) as int, m);
}

/// Scaling a reduced sum scales each summand: `(x + y mod m) * c mod m`
/// equals `(x * c mod m) + (y * c mod m) mod m`.
pub proof fn lemma_fmul_sum(x: nat, y: nat, c: nat)
    ensures
        fmul(fadd(x, y), c) == fadd(fmul(x, c), fmul(y, c)),
{
    let m = fr_order() as int;
    lemma_mul_mod_noop_left((x + y) as int, c as int, m);
    lemma_mul_is_distributive_add_other_way(c as int, x as int, y as int);
    lemma_add_mod_noop((x * c) as int, (y * c) as int, m);
}

} // verus!
