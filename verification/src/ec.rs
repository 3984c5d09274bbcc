use vstd::prelude::*;

use curv::cryptographic_primitives::hashing::{Digest, DigestExt};
use curv::cryptographic_primitives::proofs::sigma_dlog::DLogProof;
use curv::elliptic::curves::{Point, Scalar, Secp256k1};
use sha2::Sha256;

verus! {

// Elliptic-curve primitives of the `curv` crate, behind trusted items.
// curv's `Scalar`, `Point` and `DLogProof` are generic over its `Curve`
// trait, which Verus refuses as a bound on a type declaration, so each
// value is held in a private field of an opaque struct instead.
//
// The group algebra itself is not modelled.  Each deterministic
// operation instead carries a named result (an uninterpreted spec
// function), so that callers can state exactly which value flows
// where; the names say nothing about what those values are.

/// A secret scalar of the secp256k1 group, held opaquely.  Relies on
/// curv's `Scalar<Secp256k1>`.
#[verifier::external_body]
pub struct SecretScalar {
    inner: Scalar<Secp256k1>,
}

/// A point of the secp256k1 group, held opaquely.  Relies on curv's
/// `Point<Secp256k1>`.
#[verifier::external_body]
pub struct GroupPoint {
    inner: Point<Secp256k1>,
}

/// A Schnorr proof of knowledge of a discrete logarithm, held opaquely.
/// Relies on curv's `DLogProof<Secp256k1, Sha256>`.
#[verifier::external_body]
pub struct KnowledgeProof {
    inner: DLogProof<Secp256k1, Sha256>,
}

/// The 32-byte serialization of a scalar: a function of the scalar
/// alone.
pub uninterp spec fn sbytes_of(s: SecretScalar) -> Seq<u8>;

/// Whether a byte string deserializes to a scalar: a function of the
/// bytes alone.
pub uninterp spec fn scalar_parses(b: Seq<u8>) -> bool;

/// The scalar a byte string deserializes to (meaningful where
/// `scalar_parses` holds): a function of the bytes alone.
pub uninterp spec fn sparse_of(b: Seq<u8>) -> SecretScalar;

/// The sum of two scalars modulo the group order.
pub uninterp spec fn sadd_of(a: SecretScalar, b: SecretScalar) -> SecretScalar;

/// The difference of two scalars modulo the group order.
pub uninterp spec fn ssub_of(a: SecretScalar, b: SecretScalar) -> SecretScalar;

/// The product of two scalars modulo the group order.
pub uninterp spec fn smul_of(a: SecretScalar, b: SecretScalar) -> SecretScalar;

/// The generator multiplied by a scalar: the scalar's public point.
pub uninterp spec fn gmul_of(s: SecretScalar) -> GroupPoint;

/// A point multiplied by a scalar.
pub uninterp spec fn pmul_of(p: GroupPoint, s: SecretScalar) -> GroupPoint;

/// The sum of two points.
pub uninterp spec fn padd_of(a: GroupPoint, b: GroupPoint) -> GroupPoint;

/// The 33-byte compressed serialization of a point: a function of the
/// point alone.
pub uninterp spec fn pbytes_of(p: GroupPoint) -> Seq<u8>;

/// SHA-256 over four concatenated byte strings, reduced to a scalar: a
/// function of the bytes alone.
pub uninterp spec fn hscal_of(a: Seq<u8>, b: Seq<u8>, c: Seq<u8>, d: Seq<u8>) -> SecretScalar;

/// Whether a proof of knowledge checks out: curv's `DLogProof::verify`
/// is a function of the proof value alone.
pub uninterp spec fn dlog_ok(proof: KnowledgeProof) -> bool;

/// The public point a proof commits to (its `pk` field).
pub uninterp spec fn proof_pk_of(proof: KnowledgeProof) -> GroupPoint;

/// Relies on curv's `Scalar::random`: a fresh uniformly random scalar.
/// Nothing is promised of the value; every use must hold for any
/// scalar.
#[verifier::external_body]
pub fn scalar_random() -> SecretScalar {
    SecretScalar { inner: Scalar::random() }
}

/// Relies on curv's `Scalar::to_bytes` (via `EncodedScalar`): secp256k1
/// scalars always serialize to exactly 32 bytes, deterministically,
/// and the canonical serialization deserializes back to the same
/// scalar (`Scalar::from_bytes` accepts every canonical 32-byte
/// encoding, the zero scalar's included).
#[verifier::external_body]
pub fn scalar_to_bytes(s: &SecretScalar) -> (r: Vec<u8>)
    ensures
        r@ == sbytes_of(*s),
        r@.len() == 32,
        scalar_parses(r@),
        sparse_of(r@) == *s,
{
    s.inner.to_bytes().to_vec()
}

/// Relies on curv's `Scalar::from_bytes`: deterministic in the bytes;
/// the deserialization error (wrong length, or a value outside the
/// scalar field's range) is mapped to `None`.
#[verifier::external_body]
pub fn scalar_from_bytes(b: &Vec<u8>) -> (r: Option<SecretScalar>)
    ensures
        r is Some <==> scalar_parses(b@),
        r matches Some(s) ==> s == sparse_of(b@),
{
    Scalar::from_bytes(b.as_slice()).ok().map(|inner| SecretScalar { inner })
}

/// Relies on curv's scalar addition (modulo the group order).
#[verifier::external_body]
pub fn scalar_add(a: &SecretScalar, b: &SecretScalar) -> (r: SecretScalar)
    ensures
        r == sadd_of(*a, *b),
{
    SecretScalar { inner: &a.inner + &b.inner }
}

/// Relies on curv's scalar subtraction (modulo the group order).  The
/// second clause is the cancellation law of modular arithmetic: if `a`
/// is the sum of `b` and some `y`, subtracting `b` gives back exactly
/// that `y`.
#[verifier::external_body]
pub fn scalar_sub(a: &SecretScalar, b: &SecretScalar) -> (r: SecretScalar)
    ensures
        r == ssub_of(*a, *b),
        forall|y: SecretScalar| *a == sadd_of(*b, y) ==> r == y,
{
    SecretScalar { inner: &a.inner - &b.inner }
}

/// Relies on curv's scalar multiplication (modulo the group order).
#[verifier::external_body]
pub fn scalar_mul(a: &SecretScalar, b: &SecretScalar) -> (r: SecretScalar)
    ensures
        r == smul_of(*a, *b),
{
    SecretScalar { inner: &a.inner * &b.inner }
}

/// Relies on curv's generator multiplication: the public point of a
/// secret scalar, deterministic in the scalar.
#[verifier::external_body]
pub fn generator_mul(s: &SecretScalar) -> (r: GroupPoint)
    ensures
        r == gmul_of(*s),
{
    GroupPoint { inner: Point::generator() * &s.inner }
}

/// Relies on curv's point-scalar multiplication.
#[verifier::external_body]
pub fn point_mul(p: &GroupPoint, s: &SecretScalar) -> (r: GroupPoint)
    ensures
        r == pmul_of(*p, *s),
{
    GroupPoint { inner: &p.inner * &s.inner }
}

/// Relies on curv's point addition.
#[verifier::external_body]
pub fn point_add(a: &GroupPoint, b: &GroupPoint) -> (r: GroupPoint)
    ensures
        r == padd_of(*a, *b),
{
    GroupPoint { inner: &a.inner + &b.inner }
}

/// Relies on curv's `Point::to_bytes` in compressed form: secp256k1
/// points (the zero point included) always serialize to exactly 33
/// bytes, deterministically.
#[verifier::external_body]
pub fn point_to_bytes(p: &GroupPoint) -> (r: Vec<u8>)
    ensures
        r@ == pbytes_of(*p),
        r@.len() == 33,
{
    p.inner.to_bytes(true).to_vec()
}

/// Relies on curv's `Point::clone`: a point is plain data, and its
/// clone is the same value.
#[verifier::external_body]
pub fn point_dup(p: &GroupPoint) -> (r: GroupPoint)
    ensures
        r == *p,
{
    GroupPoint { inner: p.inner.clone() }
}

/// Relies on curv's `Scalar::clone`: a scalar is plain data, and its
/// clone is the same value.
#[verifier::external_body]
pub fn scalar_dup(s: &SecretScalar) -> (r: SecretScalar)
    ensures
        r == *s,
{
    SecretScalar { inner: s.inner.clone() }
}

/// Relies on sha2's `Digest` chaining and curv's
/// `DigestExt::result_scalar`: SHA-256 over the concatenated inputs,
/// reduced to a scalar modulo the group order, a function of the
/// input bytes alone.
#[verifier::external_body]
pub fn hash_to_scalar(a: &Vec<u8>, b: &Vec<u8>, c: &Vec<u8>, d: &Vec<u8>) -> (r: SecretScalar)
    ensures
        r == hscal_of(a@, b@, c@, d@),
{
    SecretScalar {
        inner: Sha256::new().chain(a).chain(b).chain(c).chain(d).result_scalar(),
    }
}

/// Relies on curv's `DLogProof::prove`: a Schnorr proof of knowledge of
/// the discrete logarithm of `sk`'s public point.  The proof's `pk`
/// field is set to exactly `generator * sk`; nothing more is promised
/// of the proof value (it contains a random commitment).
#[verifier::external_body]
pub fn dlog_prove(sk: &SecretScalar) -> (r: KnowledgeProof)
    ensures
        proof_pk_of(r) == gmul_of(*sk),
{
    KnowledgeProof { inner: DLogProof::prove(&sk.inner) }
}

/// Relies on curv's `DLogProof::verify`: deterministic in the proof
/// value; its `ProofError` arm is mapped to `false`.  Nothing is
/// promised about which proofs pass.
#[verifier::external_body]
pub fn dlog_verify(proof: &KnowledgeProof) -> (r: bool)
    ensures
        r == dlog_ok(*proof),
{
    DLogProof::verify(&proof.inner).is_ok()
}

/// Relies on the `pk` field of curv's `DLogProof`: the public point the
/// proof commits to; picks the field out of the opaque proof.
#[verifier::external_body]
pub fn proof_public_share(proof: &KnowledgeProof) -> (r: GroupPoint)
    ensures
        r == proof_pk_of(*proof),
{
    GroupPoint { inner: proof.inner.pk.clone() }
}

/// Relies on curv's `Scalar` arithmetic: perturbs a proof's response
/// scalar by one.  Exists so that callers outside the verified library
/// (tests of the verification failure path) can produce a corrupted
/// proof without reaching into the opaque value.
#[verifier::external_body]
pub fn proof_tamper(proof: &KnowledgeProof) -> KnowledgeProof {
    let mut inner = proof.inner.clone();
    inner.challenge_response = &inner.challenge_response + Scalar::from_bigint(&curv::BigInt::from(1));
    KnowledgeProof { inner }
}

} // verus!
