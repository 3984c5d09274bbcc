use vstd::prelude::*;

use crate::chain::{bytes_eq, Hash32};
use crate::dkg::{salt_bytes, salt_spec};
use crate::ec::{
    generator_mul, gmul_of, hash_to_scalar, hscal_of, padd_of, pbytes_of, pmul_of, point_add,
    point_dup, point_mul, point_to_bytes, sadd_of, scalar_add, scalar_dup, scalar_mul,
    scalar_random, scalar_sub, smul_of, ssub_of, GroupPoint, SecretScalar,
};

verus! {

// Adaptor pre-signatures over the jointly controlled keys.  The
// scheme is linear: the shared key is the sum of the two parties'
// shares, the nonce point is the sum of both parties' nonce
// commitments and the witness's public point, and each party
// contributes a partial pre-signature over that joint nonce.  The two
// partials combine by scalar addition into a pre-signature that,
// completed with the witness, verifies under the shared public key —
// neither party can produce such a signature alone.  Completing one
// and publishing it reveals the witness to anyone holding the
// combined pre-signature — that extraction is the atomicity mechanism
// of the swap: broadcasting the payout leg hands the counterparty
// exactly what it needs to complete the escrow-claim leg.

/// Round-1 commitments of the pre-signing session: the public nonce
/// commitment and the public point of the session's adaptor witness.
/// One witness and nonce pair is fixed per session, not per message.
pub struct PreSignMsg1 {
    pub nonce_commitment: GroupPoint,
    pub witness_commitment: GroupPoint,
}

/// One party's partial pre-signature over one transaction digest, or
/// (after `combine_presignatures`) the combined pre-signature of both.
/// `nonce_total` already absorbs the witness's public point, so the
/// artifact verifies as well-formed, but `s_pre` lacks the witness
/// itself: only a holder of the witness scalar can complete it.
pub struct PreSignature {
    pub nonce_total: GroupPoint,
    pub s_pre: SecretScalar,
    pub tx_hash: Vec<u8>,
}

/// A completed signature, ready to attach to the composed transaction.
pub struct Signature {
    pub nonce_total: GroupPoint,
    pub s: SecretScalar,
}

/// The challenge scalar a (pre-)signature over `tx_hash` answers:
/// bound to the total nonce point, the signer's public key, the digest
/// and the fixed salt.
pub open spec fn challenge_of(nonce_total: GroupPoint, pk: GroupPoint, tx_hash: Seq<u8>)
    -> SecretScalar {
    hscal_of(pbytes_of(nonce_total), pbytes_of(pk), tx_hash, salt_spec())
}

/// The joint nonce point of a pre-signing session: this party's nonce
/// public point, the counterparty's nonce commitment, and the
/// witness's public point.
pub open spec fn presig_nonce(
    nonce: SecretScalar,
    counterparty_nonce: GroupPoint,
    witness_pub: GroupPoint,
) -> GroupPoint {
    padd_of(padd_of(gmul_of(nonce), counterparty_nonce), witness_pub)
}

/// The response scalar of one party's partial pre-signature: its nonce
/// share plus the challenge (for the joint nonce under the shared key)
/// times its key share.
pub open spec fn presig_response(
    local_share: SecretScalar,
    nonce: SecretScalar,
    nonce_total: GroupPoint,
    joint_pk: GroupPoint,
    tx_hash: Seq<u8>,
) -> SecretScalar {
    sadd_of(nonce, smul_of(challenge_of(nonce_total, joint_pk, tx_hash), local_share))
}

/// Round 1 (once per session): fix the nonce share and publish the
/// commitments — the nonce's public point and the witness's public
/// point, nothing else.  Returns the message for the counterparty and
/// the local nonce, which must be kept for the round-2 legs.
pub fn round1(adaptor_wit: &SecretScalar) -> (r: (PreSignMsg1, SecretScalar))
    ensures
        r.0.nonce_commitment == gmul_of(r.1),
        r.0.witness_commitment == gmul_of(*adaptor_wit),
{
    let nonce = scalar_random();
    let msg = PreSignMsg1 {
        nonce_commitment: generator_mul(&nonce),
        witness_commitment: generator_mul(adaptor_wit),
    };
    (msg, nonce)
}

/// Round 2 (once per leg and party): produce this party's partial
/// pre-signature binding its key share to `tx_hash` under the shared
/// key `joint_pk`, over the joint nonce (own nonce, counterparty's
/// nonce commitment, witness point).  The artifact is exactly
/// determined by those inputs; combined with the counterparty's
/// partial for the same leg it becomes the joint pre-signature.
pub fn presign(
    local_share: &SecretScalar,
    nonce: &SecretScalar,
    counterparty_nonce: &GroupPoint,
    witness_pub: &GroupPoint,
    joint_pk: &GroupPoint,
    tx_hash: &Hash32,
) -> (r: PreSignature)
    ensures
        r.nonce_total == presig_nonce(*nonce, *counterparty_nonce, *witness_pub),
        r.s_pre == presig_response(*local_share, *nonce, r.nonce_total, *joint_pk, tx_hash@),
        r.tx_hash@ == tx_hash@,
{
    let nonce_pub = generator_mul(nonce);
    let nonce_total = point_add(&point_add(&nonce_pub, counterparty_nonce), witness_pub);
    let challenge = hash_to_scalar(
        &point_to_bytes(&nonce_total),
        &point_to_bytes(joint_pk),
        &tx_hash.bytes,
        &salt_bytes(),
    );
    let s_pre = scalar_add(nonce, &scalar_mul(&challenge, local_share));
    PreSignature { nonce_total, s_pre, tx_hash: tx_hash.bytes.clone() }
}

/// Combines the two parties' partial pre-signatures for one leg into
/// the joint pre-signature: the responses add; the nonce point and
/// digest are taken from the first artifact (both parties compute the
/// same ones).
pub fn combine_presignatures(a: &PreSignature, b: &PreSignature) -> (r: PreSignature)
    ensures
        r.nonce_total == a.nonce_total,
        r.s_pre == sadd_of(a.s_pre, b.s_pre),
        r.tx_hash@ == a.tx_hash@,
{
    PreSignature {
        nonce_total: point_dup(&a.nonce_total),
        s_pre: scalar_add(&a.s_pre, &b.s_pre),
        tx_hash: a.tx_hash.clone(),
    }
}

/// Decryption: a received pre-signature plus the witness scalar yields
/// the full signature.  The completed signature keeps the artifact's
/// nonce point, and its response is exactly the artifact's response
/// plus the witness.
pub fn decrypt_signature(pre: &PreSignature, wit: &SecretScalar) -> (r: Signature)
    ensures
        r.nonce_total == pre.nonce_total,
        r.s == sadd_of(pre.s_pre, *wit),
{
    Signature { nonce_total: point_dup(&pre.nonce_total), s: scalar_add(&pre.s_pre, wit) }
}

/// Checks a completed signature against a public key and a transaction
/// digest: whether the response's public point equals the nonce point
/// plus the challenge multiple of the key.  The result is exactly that
/// equation over the (serialized) group values; whether it is true is
/// decided by the group algebra, which the verifier does not model.
pub fn verify_signature(pk: &GroupPoint, tx_hash: &Hash32, sig: &Signature) -> (r: bool)
    ensures
        r == (pbytes_of(gmul_of(sig.s)) == pbytes_of(
            padd_of(sig.nonce_total, pmul_of(*pk, challenge_of(sig.nonce_total, *pk, tx_hash@))),
        )),
{
    let challenge = hash_to_scalar(
        &point_to_bytes(&sig.nonce_total),
        &point_to_bytes(pk),
        &tx_hash.bytes,
        &salt_bytes(),
    );
    let lhs = point_to_bytes(&generator_mul(&sig.s));
    let rhs = point_to_bytes(&point_add(&sig.nonce_total, &point_mul(pk, &challenge)));
    bytes_eq(&lhs, &rhs)
}

/// Extraction: whoever holds the pre-signature and sees the completed
/// signature on-chain recovers the witness as the difference of the
/// response scalars.  For a signature completed from this
/// pre-signature, the result is exactly the witness that completed it
/// (by the cancellation law of scalar subtraction): this is what makes
/// completing one leg reveal the secret needed to complete the other.
pub fn extract_witness(sig: &Signature, pre: &PreSignature) -> (r: SecretScalar)
    ensures
        r == ssub_of(sig.s, pre.s_pre),
        forall|w: SecretScalar| sig.s == sadd_of(pre.s_pre, w) ==> r == w,
{
    scalar_sub(&sig.s, &pre.s_pre)
}

/// A pre-signature is plain data; its copy is field-for-field the same.
pub fn presignature_dup(pre: &PreSignature) -> (r: PreSignature)
    ensures
        r.nonce_total == pre.nonce_total,
        r.s_pre == pre.s_pre,
        r.tx_hash@ == pre.tx_hash@,
{
    PreSignature {
        nonce_total: point_dup(&pre.nonce_total),
        s_pre: scalar_dup(&pre.s_pre),
        tx_hash: pre.tx_hash.clone(),
    }
}

} // verus!
