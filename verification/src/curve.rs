//! The trusted boundary to the curve and signature crates. Every executable
//! value of the group lives here behind a library type that pairs the opaque
//! curve value with its mathematical model from [`crate::algebra`]: a scalar
//! carries its value mod the field order, a point carries its coefficients
//! over the two fixed generators `V` (native value generator) and `R`
//! (randomness generator, which is also the RedJubjub binding-signature
//! basepoint), and a signature carries the key and message it binds.
//!
//! The contracts here assume what the underlying crates document: field
//! arithmetic in `jubjub::Fr`, bilinearity of the group operations over the
//! fixed basis, canonical point encoding, and the RedDSA signing equation.
//! The verify contract's "only if" direction additionally assumes that no
//! linear relation between `V` and `R` is known (their discrete logarithms
//! relative to one another are unknown by construction).
use vstd::prelude::*;

use crate::algebra::{fadd, fmul, fr_order, fsub, pm_add, pm_scale, pm_sub, pm_zero, PointModel,
    SigModel};
use ff::Field;
use group::GroupEncoding;

verus! {

#[verifier::external_type_specification]
#[verifier::external_body]
pub struct ExFr(jubjub::Fr);

#[verifier::external_type_specification]
#[verifier::external_body]
pub struct ExExtendedPoint(jubjub::ExtendedPoint);

/// An element of the jubjub scalar field together with its value mod
/// [`fr_order`]. Trapdoors, signing keys and embedded amounts are `Scalar`s.
#[derive(Clone, Copy)]
pub struct Scalar {
    inner: jubjub::Fr,
    model: Ghost<nat>,
}

impl View for Scalar {
    type V = nat;

    closed spec fn view(&self) -> nat {
        self.model@
    }
}

/// A point of the jubjub prime-order subgroup together with its coefficients
/// over the fixed generators `V` and `R`.
#[derive(Clone, Copy)]
pub struct Point {
    inner: jubjub::ExtendedPoint,
    model: Ghost<PointModel>,
}

impl View for Point {
    type V = PointModel;

    closed spec fn view(&self) -> PointModel {
        self.model@
    }
}

/// A RedJubjub binding signature, held as its canonical 64-byte encoding,
/// together with the signing key and message bytes it was created over.
#[derive(Clone, Copy)]
pub struct Sig {
    bytes: [u8; 64],
    model: Ghost<SigModel>,
}

impl View for Sig {
    type V = SigModel;

    closed spec fn view(&self) -> SigModel {
        self.model@
    }
}

/// The canonical 32-byte encoding of a subgroup point, as a function of its
/// coefficients: the point `v * V + r * R` is determined by `(v, r)`, and
/// `group::GroupEncoding::to_bytes` is a function of the point.
pub uninterp spec fn point_bytes(m: PointModel) -> Seq<u8>;

/// Relies on `jubjub::Fr: From<u64>`: embeds an integer into the scalar
/// field; every `u64` is below the field order, so the value is kept.
#[verifier::external_body]
pub fn scalar_from_u64(value: u64) -> (s: Scalar)
    ensures
        s@ == value as nat,
{
    Scalar { inner: jubjub::Fr::from(value), model: Ghost(0) }
}

/// Relies on `jubjub::Fr: Add`: addition in the scalar field.
#[verifier::external_body]
pub fn scalar_add(a: &Scalar, b: &Scalar) -> (s: Scalar)
    ensures
        s@ == fadd(a@, b@),
{
    Scalar { inner: a.inner + b.inner, model: Ghost(0) }
}

/// Relies on `jubjub::Fr: Sub`: subtraction in the scalar field.
#[verifier::external_body]
pub fn scalar_sub(a: &Scalar, b: &Scalar) -> (s: Scalar)
    ensures
        s@ == fsub(a@, b@),
{
    Scalar { inner: a.inner - b.inner, model: Ghost(0) }
}

/// Relies on `jubjub::Fr: Mul`: multiplication in the scalar field.
#[verifier::external_body]
pub fn scalar_mul(a: &Scalar, b: &Scalar) -> (s: Scalar)
    ensures
        s@ == fmul(a@, b@),
{
    Scalar { inner: a.inner * b.inner, model: Ghost(0) }
}

/// Relies on `ff::Field::random` for `jubjub::Fr`, with a cryptographically
/// secure generator: some scalar below the field order; nothing more is
/// promised of a random draw.
#[verifier::external_body]
pub fn scalar_random() -> (s: Scalar)
    ensures
        s@ < fr_order(),
{
    Scalar { inner: jubjub::Fr::random(&mut rand::rng()), model: Ghost(0) }
}

/// Wraps a caller-supplied raw field element. Its value is some reduced
/// scalar; which one is not exposed. Relies on `jubjub::Fr` being reduced.
#[verifier::external_body]
pub fn scalar_from_fr(raw: jubjub::Fr) -> (s: Scalar)
    ensures
        s@ < fr_order(),
{
    Scalar { inner: raw, model: Ghost(0) }
}

/// Relies on `jubjub::ExtendedPoint::identity`: the group identity, the zero
/// combination of the basis.
#[verifier::external_body]
pub fn point_identity() -> (p: Point)
    ensures
        p@ == pm_zero(),
{
    Point { inner: jubjub::ExtendedPoint::identity(), model: Ghost(pm_zero()) }
}

/// Relies on `jubjub::ExtendedPoint: Add`: group addition adds the
/// coefficients of both basis vectors.
#[verifier::external_body]
pub fn point_add(a: &Point, b: &Point) -> (p: Point)
    ensures
        p@ == pm_add(a@, b@),
{
    Point { inner: a.inner + b.inner, model: Ghost(pm_zero()) }
}

/// Relies on `jubjub::ExtendedPoint: Sub`: group subtraction subtracts the
/// coefficients of both basis vectors.
#[verifier::external_body]
pub fn point_sub(a: &Point, b: &Point) -> (p: Point)
    ensures
        p@ == pm_sub(a@, b@),
{
    Point { inner: a.inner - b.inner, model: Ghost(pm_zero()) }
}

/// Relies on `jubjub::ExtendedPoint: Mul<Fr>`: scalar multiplication scales
/// both coefficients (bilinearity of the group law).
#[verifier::external_body]
pub fn point_mul(p: &Point, k: &Scalar) -> (r: Point)
    ensures
        r@ == pm_scale(p@, k@),
{
    Point { inner: p.inner * k.inner, model: Ghost(pm_zero()) }
}

/// Relies on `group::GroupEncoding::to_bytes` for `jubjub::ExtendedPoint`:
/// the canonical 32-byte encoding, a function of the point and hence of its
/// coefficients.
#[verifier::external_body]
pub fn point_to_bytes(p: &Point) -> (b: [u8; 32])
    ensures
        b@ == point_bytes(p@),
{
    p.inner.to_bytes()
}

/// Relies on `sapling_crypto::constants::VALUE_COMMITMENT_VALUE_GENERATOR`:
/// the fixed value generator of the native pool, the basis vector `V`.
#[verifier::external_body]
pub fn native_value_gen() -> (p: Point)
    ensures
        p@ == (PointModel { v: 1, r: 0 }),
{
    Point {
        inner: jubjub::ExtendedPoint::from(
            sapling_crypto::constants::VALUE_COMMITMENT_VALUE_GENERATOR,
        ),
        model: Ghost(pm_zero()),
    }
}

/// Relies on `sapling_crypto::constants::VALUE_COMMITMENT_RANDOMNESS_GENERATOR`:
/// the fixed randomness generator, the basis vector `R`. The same point is
/// the RedJubjub `Binding` basepoint (`reddsa`'s `BINDINGSIG_BASEPOINT_BYTES`),
/// which the signing and verifying wrappers below rely on.
#[verifier::external_body]
pub fn native_rand_gen() -> (p: Point)
    ensures
        p@ == (PointModel { v: 0, r: 1 }),
{
    Point {
        inner: jubjub::ExtendedPoint::from(
            sapling_crypto::constants::VALUE_COMMITMENT_RANDOMNESS_GENERATOR,
        ),
        model: Ghost(pm_zero()),
    }
}

/// Relies on `redjubjub::SigningKey::<Binding>::from_bytes` and `sign`:
/// `from_bytes` accepts every canonical scalar encoding, which
/// `jubjub::Fr::to_bytes` always produces; `sign` draws its nonce from a
/// cryptographically secure generator and produces a RedDSA signature over
/// exactly `msg` under the key `bsk`, with the `Binding` basepoint `R`.
#[verifier::external_body]
pub fn sign_binding(bsk: &Scalar, msg: &Vec<u8>) -> (sig: Sig)
    ensures
        sig@.key == bsk@,
        sig@.msg == msg@,
{
    let sk = redjubjub::SigningKey::<redjubjub::Binding>::from_bytes(&bsk.inner.to_bytes())
        .unwrap();
    let sig: [u8; 64] = sk.sign(rand::rng(), msg.as_slice()).into();
    Sig { bytes: sig, model: Ghost(SigModel { key: 0, msg: Seq::empty() }) }
}

/// Relies on `redjubjub::VerificationKey::<Binding>::try_from` and `verify`:
/// decoding a canonically encoded point succeeds, and the RedDSA equation
/// accepts exactly when the key point equals `key * R` for the key the
/// signature was made with and the message bytes match. The "only if"
/// direction additionally assumes that the challenge hash is non-degenerate
/// and that no linear relation between the fixed generators `V` and `R` is
/// known, so a key with a nonzero `V`-coefficient cannot satisfy the
/// equation.
#[verifier::external_body]
pub fn verify_binding(vk: &Point, msg: &Vec<u8>, sig: &Sig) -> (ok: bool)
    ensures
        ok <==> (sig@.msg == msg@ && vk@ == (PointModel { v: 0, r: sig@.key })),
{
    let parsed = redjubjub::Signature::<redjubjub::Binding>::from(sig.bytes);
    match redjubjub::VerificationKey::<redjubjub::Binding>::try_from(vk.inner.to_bytes()) {
        Ok(key) => key.verify(msg.as_slice(), &parsed).is_ok(),
        Err(_) => false,
    }
}

} // verus!
