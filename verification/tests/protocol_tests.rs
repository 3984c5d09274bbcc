use covert_swap::adaptor;
use covert_swap::chain::{bytes_eq, derive_address, tx_digest, Address, Hash32, Transaction};
use covert_swap::dkg;
use covert_swap::ec;
use covert_swap::errors::SwapError;
use covert_swap::taker::{
    CovertTransaction, LockMsg1, LockOutput, MakerLockMsg, MakerSetupMsg, Phase, SetupMsg, Taker,
    REFUND_MODULUS,
};
use covert_swap::vtc;
use covert_swap::vtc::PuzzleParams;

const ONE_UNIT: u128 = 1_000_000_000_000_000_000;

fn addr(tag: u8) -> Address {
    Address { bytes: vec![tag; 20] }
}

fn hash(tag: u8) -> Hash32 {
    Hash32 { bytes: vec![tag; 32] }
}

/// A scripted counterparty built from the same primitives the session
/// uses: its key shares, witness, and nonce.
struct Maker {
    share1: ec::SecretScalar,
    share2: ec::SecretScalar,
    wit: ec::SecretScalar,
    nonce: ec::SecretScalar,
}

fn maker_setup() -> (Maker, MakerSetupMsg) {
    let (m1, share1) = dkg::round1();
    let (m2, share2) = dkg::round1();
    let wit = ec::scalar_random();
    let (_commit, nonce) = adaptor::round1(&wit);
    (
        Maker { share1, share2, wit, nonce },
        MakerSetupMsg { account1: m1, account2: m2 },
    )
}

fn maker_lock_msg(maker: &Maker, difficulty: u64) -> MakerLockMsg {
    let params = PuzzleParams { modulus: REFUND_MODULUS, base: 3, difficulty };
    let share_bytes = ec::scalar_to_bytes(&maker.share1);
    MakerLockMsg {
        commitments: adaptor::PreSignMsg1 {
            nonce_commitment: ec::generator_mul(&maker.nonce),
            witness_commitment: ec::generator_mul(&maker.wit),
        },
        tx_hash: hash(0xab),
        vtc_params: params,
        refund_vtc: vtc::generate(&params, &share_bytes),
    }
}

/// Runs a session up to `Locked`, returning everything both sides hold.
fn locked_session(difficulty: u64) -> (Taker, Maker, LockOutput, SetupMsg, LockMsg1) {
    let mut taker = Taker::new(addr(7), ONE_UNIT, difficulty);
    let setup_msg = taker.setup1().unwrap();
    let (maker, maker_setup_msg) = maker_setup();
    // the maker verifies the taker's commitments the same way
    dkg::round2(&maker.share1, &setup_msg.0).unwrap();
    dkg::round2(&maker.share2, &setup_msg.1).unwrap();
    let lock_msg1 = taker.setup2(maker_setup_msg).unwrap();
    let out = taker
        .lock(maker_lock_msg(&maker, difficulty), CovertTransaction::Swap(ONE_UNIT, addr(9)))
        .unwrap();
    (taker, maker, out, setup_msg, lock_msg1)
}

/// The maker's view of a shared key: the taker's committed public
/// share plus its own share's public point.
fn joint_pk(taker_commit: &dkg::KeyGenCommitMsg, maker_share: &ec::SecretScalar) -> ec::GroupPoint {
    ec::point_add(&ec::proof_public_share(&taker_commit.proof), &ec::generator_mul(maker_share))
}

#[test]
fn setup2_accepts_honest_commitments() {
    let mut taker = Taker::new(addr(1), ONE_UNIT, 8);
    taker.setup1().unwrap();
    let (_maker, msg) = maker_setup();
    assert!(taker.setup2(msg).is_ok());
}

#[test]
fn setup2_rejects_tampered_salt() {
    let mut taker = Taker::new(addr(1), ONE_UNIT, 8);
    taker.setup1().unwrap();
    let (_maker, mut msg) = maker_setup();
    msg.account1.salt = vec![0, 0, 0, 0];
    match taker.setup2(msg) {
        Err(e) => assert_eq!(e, SwapError::VerificationFailure),
        Ok(_) => panic!("tampered salt was accepted"),
    }
    assert_eq!(taker.phase, Phase::Aborted);
}

#[test]
fn setup2_rejects_tampered_proof() {
    let mut taker = Taker::new(addr(1), ONE_UNIT, 8);
    taker.setup1().unwrap();
    let (_maker, mut msg) = maker_setup();
    msg.account2.proof = ec::proof_tamper(&msg.account2.proof);
    match taker.setup2(msg) {
        Err(e) => assert_eq!(e, SwapError::VerificationFailure),
        Ok(_) => panic!("tampered proof was accepted"),
    }
}

#[test]
fn round2_rejects_tampered_proof_directly() {
    let (msg, _share) = dkg::round1();
    let (_, local) = dkg::round1();
    let tampered = dkg::KeyGenCommitMsg {
        salt: dkg::salt_bytes(),
        proof: ec::proof_tamper(&msg.proof),
    };
    assert!(dkg::round2(&local, &tampered).is_err());
    assert!(dkg::round2(&local, &msg).is_ok());
}

#[test]
fn both_parties_derive_the_same_shared_key() {
    // each side adds the other's committed point to its own share
    let (taker_msg, taker_share) = dkg::round1();
    let (maker_msg, maker_share) = dkg::round1();
    let taker_view = dkg::round2(&taker_share, &maker_msg).unwrap();
    let maker_view = dkg::round2(&maker_share, &taker_msg).unwrap();
    assert_eq!(ec::point_to_bytes(&taker_view), ec::point_to_bytes(&maker_view));
}

#[test]
fn lock_composes_deposit_and_payout() {
    let (taker, _maker, out, _setup, _lm1) = locked_session(16);
    assert_eq!(out.deposit.value, ONE_UNIT);
    assert!(out.deposit.priority);
    assert_eq!(out.deposit.from.bytes, vec![7; 20]);
    assert_eq!(out.deposit.to.bytes, taker.s1.address.as_ref().unwrap().bytes);
    let payout = taker.tx.as_ref().unwrap();
    assert_eq!(payout.value, ONE_UNIT);
    assert_eq!(payout.to.bytes, vec![9; 20]);
    assert_eq!(payout.from.bytes, taker.s2_address().bytes);
    assert!(!payout.priority);
    // each partial pre-signature is bound to its own leg
    assert_eq!(out.msg.account1.tx_hash, vec![0xab; 32]);
    assert_eq!(out.msg.account2.tx_hash, tx_digest(payout).bytes);
    assert_eq!(out.msg.vtc_params.difficulty, 16);
    assert_eq!(out.msg.refund_vtc.masked.len(), 32);
}

#[test]
fn lock_rejects_malformed_parameters() {
    let mut taker = Taker::new(addr(7), ONE_UNIT, 16);
    taker.setup1().unwrap();
    let (maker, msg) = maker_setup();
    taker.setup2(msg).unwrap();
    let mut lock_msg = maker_lock_msg(&maker, 16);
    lock_msg.vtc_params.modulus = 1;
    match taker.lock(lock_msg, CovertTransaction::Swap(ONE_UNIT, addr(9))) {
        Err(e) => assert_eq!(e, SwapError::VerificationFailure),
        Ok(_) => panic!("malformed puzzle parameters were accepted"),
    }
    assert_eq!(taker.phase, Phase::Aborted);
}

#[test]
fn combined_presignature_decrypts_only_with_the_right_witness() {
    // a full two-party pre-signing session over one digest
    let x1 = ec::scalar_random();
    let x2 = ec::scalar_random();
    let k1 = ec::scalar_random();
    let k2 = ec::scalar_random();
    let wit = ec::scalar_random();
    let wit_pub = ec::generator_mul(&wit);
    let pk = ec::point_add(&ec::generator_mul(&x1), &ec::generator_mul(&x2));
    let digest = hash(0x5c);

    let pre1 = adaptor::presign(&x1, &k1, &ec::generator_mul(&k2), &wit_pub, &pk, &digest);
    let pre2 = adaptor::presign(&x2, &k2, &ec::generator_mul(&k1), &wit_pub, &pk, &digest);
    let joint = adaptor::combine_presignatures(&pre1, &pre2);

    let good = adaptor::decrypt_signature(&joint, &wit);
    assert!(adaptor::verify_signature(&pk, &digest, &good));

    let wrong = adaptor::decrypt_signature(&joint, &ec::scalar_random());
    assert!(!adaptor::verify_signature(&pk, &digest, &wrong));

    // one party's partial alone never verifies under the shared key
    let alone = adaptor::decrypt_signature(&pre1, &wit);
    assert!(!adaptor::verify_signature(&pk, &digest, &alone));
}

#[test]
fn completed_signature_reveals_the_witness() {
    let x1 = ec::scalar_random();
    let x2 = ec::scalar_random();
    let k1 = ec::scalar_random();
    let k2 = ec::scalar_random();
    let wit = ec::scalar_random();
    let wit_pub = ec::generator_mul(&wit);
    let pk = ec::point_add(&ec::generator_mul(&x1), &ec::generator_mul(&x2));
    let digest = hash(0x11);
    let pre1 = adaptor::presign(&x1, &k1, &ec::generator_mul(&k2), &wit_pub, &pk, &digest);
    let pre2 = adaptor::presign(&x2, &k2, &ec::generator_mul(&k1), &wit_pub, &pk, &digest);
    let joint = adaptor::combine_presignatures(&pre1, &pre2);
    let sig = adaptor::decrypt_signature(&joint, &wit);
    let extracted = adaptor::extract_witness(&sig, &joint);
    assert_eq!(ec::scalar_to_bytes(&extracted), ec::scalar_to_bytes(&wit));
}

#[test]
fn swap_completes_end_to_end() {
    let (mut taker, maker, out, setup_msg, lock_msg1) = locked_session(16);

    // the maker pre-signs the payout leg under the joint S2 key, over
    // the same joint nonce, masked by the taker's witness point
    let payout_hash = Hash32 { bytes: out.msg.account2.tx_hash.clone() };
    let pk2 = joint_pk(&setup_msg.1, &maker.share2);
    let swap_pre = adaptor::presign(
        &maker.share2,
        &maker.nonce,
        &lock_msg1.nonce_commitment,
        &lock_msg1.witness_commitment,
        &pk2,
        &payout_hash,
    );
    let swap_copy = adaptor::presignature_dup(&swap_pre);

    let signed = taker.complete(swap_pre).unwrap();
    assert_eq!(taker.phase, Phase::Completed);
    assert_eq!(signed.tx.value, ONE_UNIT);
    assert_eq!(signed.tx.to.bytes, vec![9; 20]);

    // the broadcast signature verifies under the *shared* S2 key —
    // and under neither party's single share
    assert!(adaptor::verify_signature(&pk2, &payout_hash, &signed.sig));
    assert!(!adaptor::verify_signature(
        &ec::generator_mul(&maker.share2),
        &payout_hash,
        &signed.sig
    ));
    assert!(!adaptor::verify_signature(
        &ec::generator_mul(taker.s2.key_share.as_ref().unwrap()),
        &payout_hash,
        &signed.sig
    ));

    // the maker holds both partials; the broadcast reveals the witness
    let joint_pre = adaptor::combine_presignatures(&swap_copy, &out.msg.account2);
    let revealed = adaptor::extract_witness(&signed.sig, &joint_pre);
    assert_eq!(ec::scalar_to_bytes(&revealed), ec::scalar_to_bytes(&taker.adaptor_wit));

    // ... which completes the escrow-claim leg under the joint S1 key
    let pk1 = joint_pk(&setup_msg.0, &maker.share1);
    let claim_partial = adaptor::presign(
        &maker.share1,
        &maker.nonce,
        &lock_msg1.nonce_commitment,
        &lock_msg1.witness_commitment,
        &pk1,
        &hash(0xab),
    );
    let claim_joint = adaptor::combine_presignatures(&out.msg.account1, &claim_partial);
    let claim_sig = adaptor::decrypt_signature(&claim_joint, &revealed);
    assert!(adaptor::verify_signature(&pk1, &hash(0xab), &claim_sig));
}

#[test]
fn complete_twice_fails_without_corrupting_state() {
    let (mut taker, maker, out, setup_msg, lock_msg1) = locked_session(16);
    let payout_hash = Hash32 { bytes: out.msg.account2.tx_hash.clone() };
    let pk2 = joint_pk(&setup_msg.1, &maker.share2);
    let swap_pre = adaptor::presign(
        &maker.share2,
        &maker.nonce,
        &lock_msg1.nonce_commitment,
        &lock_msg1.witness_commitment,
        &pk2,
        &payout_hash,
    );
    let swap_again = adaptor::presignature_dup(&swap_pre);

    assert!(taker.complete(swap_pre).is_ok());
    match taker.complete(swap_again) {
        Err(e) => assert_eq!(e, SwapError::InvalidState),
        Ok(_) => panic!("a second completion was handed out"),
    }
    assert_eq!(taker.phase, Phase::Completed);
    assert!(taker.tx.is_none());
}

#[test]
fn refund_fires_when_the_deposit_never_moved() {
    let (taker, maker, out, _setup, _lm1) = locked_session(16);
    // the maker went silent; the solver worker finishes its puzzle
    let solved = vtc::solve(&out.solve_job.params, &out.solve_job.puzzle);
    assert_eq!(solved, ec::scalar_to_bytes(&maker.share1));

    // the deposit still sits in escrow: exactly one refund, back to
    // the taker's own wallet, for the full amount
    let claim = taker.check_refund(&solved, ONE_UNIT).unwrap().unwrap();
    assert_eq!(claim.tx.to.bytes, vec![7; 20]);
    assert_eq!(claim.tx.from.bytes, taker.s1.address.as_ref().unwrap().bytes);
    assert_eq!(claim.tx.value, ONE_UNIT);
    // the reconstructed key is the sum of both escrow shares
    let expected = ec::scalar_add(&maker.share1, taker.s1.key_share.as_ref().unwrap());
    assert_eq!(ec::scalar_to_bytes(&claim.signing_key), ec::scalar_to_bytes(&expected));
    // and it controls exactly the shared escrow key
    assert_eq!(
        ec::point_to_bytes(&ec::generator_mul(&claim.signing_key)),
        ec::point_to_bytes(taker.s1.shared_pk.as_ref().unwrap())
    );
}

#[test]
fn no_refund_when_the_deposit_already_moved() {
    let (taker, _maker, out, _setup, _lm1) = locked_session(16);
    let solved = vtc::solve(&out.solve_job.params, &out.solve_job.puzzle);
    // the escrow was emptied by the normal completion path
    assert!(taker.check_refund(&solved, 0).unwrap().is_none());
    assert!(taker.check_refund(&solved, ONE_UNIT - 1).unwrap().is_none());
}

#[test]
fn custom_payout_keeps_the_supplied_digest() {
    let mut taker = Taker::new(addr(7), ONE_UNIT, 8);
    taker.setup1().unwrap();
    let (maker, msg) = maker_setup();
    taker.setup2(msg).unwrap();
    let custom = Transaction { from: addr(3), to: addr(4), value: 5, priority: false };
    let custom_digest = hash(0x77);
    let out = taker
        .lock(maker_lock_msg(&maker, 8), CovertTransaction::CustomTx(custom, custom_digest))
        .unwrap();
    assert_eq!(out.msg.account2.tx_hash, vec![0x77; 32]);
    assert_eq!(taker.tx.as_ref().unwrap().value, 5);
}

#[test]
fn tx_digest_is_deterministic_and_content_sensitive() {
    let a = Transaction { from: addr(1), to: addr(2), value: 10, priority: false };
    let b = Transaction { from: addr(1), to: addr(2), value: 10, priority: false };
    let c = Transaction { from: addr(1), to: addr(2), value: 11, priority: false };
    assert_eq!(tx_digest(&a).bytes, tx_digest(&b).bytes);
    assert_ne!(tx_digest(&a).bytes, tx_digest(&c).bytes);
}

#[test]
fn derive_address_takes_trailing_twenty_bytes() {
    let pk: Vec<u8> = (0..33).collect();
    let a = derive_address(&pk);
    assert_eq!(a.bytes, (13..33).collect::<Vec<u8>>());
}

#[test]
fn bytes_eq_compares_contents() {
    assert!(bytes_eq(&vec![1, 2, 3], &vec![1, 2, 3]));
    assert!(!bytes_eq(&vec![1, 2, 3], &vec![1, 2, 4]));
    assert!(!bytes_eq(&vec![1, 2], &vec![1, 2, 3]));
}

#[test]
fn errors_describe_themselves() {
    assert_eq!(SwapError::VerificationFailure.describe(), "verification failed");
    assert!(!SwapError::ChainSubmissionFailure.describe().is_empty());
}

#[test]
fn scalar_bytes_round_trip() {
    let s = ec::scalar_random();
    let bytes = ec::scalar_to_bytes(&s);
    let back = ec::scalar_from_bytes(&bytes).expect("canonical bytes parse");
    assert_eq!(ec::scalar_to_bytes(&back), bytes);
    // a wrong length never parses
    assert!(ec::scalar_from_bytes(&vec![1, 2, 3]).is_none());
}

#[test]
fn salt_is_the_fixed_public_constant() {
    assert_eq!(dkg::salt_bytes(), vec![75, 90, 101, 110]);
}

#[test]
fn encoding_layout_is_from_to_value_priority() {
    let t = Transaction { from: addr(0xaa), to: addr(0xbb), value: 0x0102, priority: true };
    let mut expected = vec![0xaa; 20];
    expected.extend_from_slice(&[0xbb; 20]);
    expected.extend_from_slice(&[0x02, 0x01, 0, 0, 0, 0, 0, 0, 0, 0, 0, 0, 0, 0, 0, 0]);
    expected.push(1);
    assert_eq!(covert_swap::chain::encode_tx(&t), expected);
}

#[test]
fn sha256_wrapper_matches_the_known_answer() {
    // SHA-256 of the three bytes "abc"
    let digest = covert_swap::chain::sha256_bytes(&vec![0x61, 0x62, 0x63]);
    let expected: Vec<u8> = vec![
        0xba, 0x78, 0x16, 0xbf, 0x8f, 0x01, 0xcf, 0xea, 0x41, 0x41, 0x40, 0xde, 0x5d, 0xae,
        0x22, 0x23, 0xb0, 0x03, 0x61, 0xa3, 0x96, 0x17, 0x7a, 0x9c, 0xb4, 0x10, 0xff, 0x61,
        0xf2, 0x00, 0x15, 0xad,
    ];
    assert_eq!(digest, expected);
}
