use vstd::prelude::*;

use crate::chain::bytes_eq;
use crate::ec::{
    dlog_ok, dlog_prove, dlog_verify, generator_mul, gmul_of, padd_of, point_add, proof_pk_of,
    proof_public_share, scalar_random, GroupPoint, KnowledgeProof, SecretScalar,
};
use crate::errors::SwapError;

verus! {

// Two-party distributed key generation for a jointly controlled
// address.  Each party samples a secret share locally and commits to it
// with a proof of knowledge of its public point; the shared public key
// — the sum of the two public shares, so that the full secret is the
// sum of the shares and exists on neither side — is derived only after
// the counterparty's proof has been verified against the fixed public
// salt.  Neither party ever learns the other's share, so neither can
// reconstruct the full key alone (except on the refund path, after a
// time-lock puzzle releases the counterparty's share).
//
// The salt travels in the commitment message and is checked byte for
// byte; curv's `DLogProof` takes no context parameter, so the salt is
// not cryptographically bound into the proof itself — this is the
// strongest binding the dependency offers.

/// The fixed public salt that both parties bind their key-generation
/// commitments to.
pub open spec fn salt_spec() -> Seq<u8> {
    seq![75u8, 90u8, 101u8, 110u8]
}

/// The salt as bytes, for building and checking commitment messages.
pub fn salt_bytes() -> (r: Vec<u8>)
    ensures
        r@ == salt_spec(),
{
    let mut v: Vec<u8> = Vec::new();
    v.push(75);
    v.push(90);
    v.push(101);
    v.push(110);
    proof {
        assert(v@ =~= salt_spec());
    }
    v
}

/// A party's key-generation commitment: the salt it bound itself to and
/// a proof of knowledge of its public share (which carries the public
/// point itself).
pub struct KeyGenCommitMsg {
    pub salt: Vec<u8>,
    pub proof: KnowledgeProof,
}

/// Round 1: sample a fresh local secret share and commit to it.  The
/// commitment carries the fixed salt and a proof of knowledge whose
/// public point is exactly the returned share's public point; the
/// share never leaves the pair, only the commitment message is sent.
pub fn round1() -> (r: (KeyGenCommitMsg, SecretScalar))
    ensures
        r.0.salt@ == salt_spec(),
        proof_pk_of(r.0.proof) == gmul_of(r.1),
{
    let share = scalar_random();
    let proof = dlog_prove(&share);
    (KeyGenCommitMsg { salt: salt_bytes(), proof }, share)
}

/// Round 2: verify the counterparty's commitment and derive the shared
/// public key from the local share and the counterparty's revealed
/// public point.  Succeeds exactly when the salt matches and the proof
/// checks out, and then returns exactly the sum of the counterparty's
/// committed point and the local share's public point; otherwise it
/// fails with `VerificationFailure` and nothing else.  The shared key
/// is never derived from an unauthenticated commitment.
pub fn round2(local_share: &SecretScalar, msg: &KeyGenCommitMsg) -> (r: Result<
    GroupPoint,
    SwapError,
>)
    ensures
        r is Ok <==> msg.salt@ == salt_spec() && dlog_ok(msg.proof),
        r matches Ok(pk) ==> pk == padd_of(proof_pk_of(msg.proof), gmul_of(*local_share)),
        r is Err ==> r == Err::<GroupPoint, SwapError>(SwapError::VerificationFailure),
{
    let expected = salt_bytes();
    if !bytes_eq(&msg.salt, &expected) {
        return Err(SwapError::VerificationFailure);
    }
    if !dlog_verify(&msg.proof) {
        return Err(SwapError::VerificationFailure);
    }
    let counterparty_pub = proof_public_share(&msg.proof);
    Ok(point_add(&counterparty_pub, &generator_mul(local_share)))
}

} // verus!
