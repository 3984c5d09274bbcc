use vstd::prelude::*;

use crate::adaptor;
use crate::adaptor::{presig_nonce, presig_response, PreSignMsg1, PreSignature, Signature};
use crate::chain::{derive_address, tx_digest, tx_digest_spec, Address, Hash32, Transaction};
use crate::dkg;
use crate::dkg::{salt_spec, KeyGenCommitMsg};
use crate::ec::{dlog_ok, generator_mul, gmul_of, padd_of, pbytes_of, proof_pk_of, sadd_of,
    sbytes_of, scalar_add, scalar_from_bytes, scalar_parses, scalar_random, scalar_to_bytes,
    sparse_of, GroupPoint, SecretScalar};
use crate::errors::SwapError;
use crate::vtc;
use crate::vtc::{mask_seq, Puzzle, PuzzleParams};

verus! {

// The Taker's session state machine.  One session drives one swap
// attempt through setup -> lock -> complete, or until the time-lock
// refund fires.  The session never performs I/O: the driver submits
// the transactions it composes, runs the puzzle solver it hands out,
// and relays the protocol messages.

/// The modulus of the refund puzzle's squaring map.
pub const REFUND_MODULUS: u64 = 0xffff_ffff_ffff_ffc5;

/// The seed of the refund puzzle's squaring map.
pub const REFUND_BASE: u64 = 3;

/// Protocol position of a session.  Messages are consumed strictly in
/// order; any protocol-level failure moves the session to `Aborted`,
/// from which nothing resumes.
#[derive(Clone, Copy, Debug, PartialEq, Eq, Structural)]
pub enum Phase {
    Created,
    KeysCommitted,
    KeysExchanged,
    Locked,
    Completed,
    Aborted,
}

/// One jointly controlled account, as this party sees it: the local
/// secret share (never transmitted), the counterparty's commitment,
/// and — only once both rounds of key generation have verified — the
/// shared public key and its ledger address.
pub struct SharedAccountState {
    pub key_share: Option<SecretScalar>,
    pub counterparty_commit: Option<KeyGenCommitMsg>,
    pub shared_pk: Option<GroupPoint>,
    pub address: Option<Address>,
}

impl SharedAccountState {
    /// No key material yet.
    pub open spec fn fresh(self) -> bool {
        &&& self.key_share is None
        &&& self.counterparty_commit is None
        &&& self.shared_pk is None
        &&& self.address is None
    }

    /// A local share exists, but the counterparty is unverified: the
    /// shared key must not exist yet.
    pub open spec fn committed(self) -> bool {
        &&& self.key_share is Some
        &&& self.shared_pk is None
        &&& self.address is None
    }

    /// Both rounds succeeded: share, shared key and address are set.
    pub open spec fn ready(self) -> bool {
        &&& self.key_share is Some
        &&& self.shared_pk is Some
        &&& self.address is Some
        &&& (self.address->Some_0).wf()
    }

    fn empty() -> (r: SharedAccountState)
        ensures
            r.fresh(),
    {
        SharedAccountState { key_share: None, counterparty_commit: None, shared_pk: None, address: None }
    }
}

/// The Taker's first message: one key-generation commitment per
/// jointly controlled account (escrow S1, payout source S2).
pub type SetupMsg = (KeyGenCommitMsg, KeyGenCommitMsg);

/// The Maker's reply to `SetupMsg`: its own commitments for both
/// accounts.
pub struct MakerSetupMsg {
    pub account1: KeyGenCommitMsg,
    pub account2: KeyGenCommitMsg,
}

/// The Taker's pre-signing round-1 commitments.
pub type LockMsg1 = PreSignMsg1;

/// The Maker's lock message: its pre-signing commitments, the digest
/// of its escrow-claim leg, and its time-lock puzzle over its escrow
/// key share (the Taker's refund fallback).
pub struct MakerLockMsg {
    pub commitments: PreSignMsg1,
    pub tx_hash: Hash32,
    pub vtc_params: PuzzleParams,
    pub refund_vtc: Puzzle,
}

/// The Taker's lock reply: a pre-signature per leg, and its own
/// time-lock puzzle with the parameters it was generated under.
pub struct LockMsg2 {
    pub account1: PreSignature,
    pub account2: PreSignature,
    pub vtc_params: PuzzleParams,
    pub refund_vtc: Puzzle,
}

/// The Maker's final message: the decryptable adaptor artifact for the
/// payout leg.
pub type SwapMsg = PreSignature;

/// The caller-supplied payout: a plain transfer, or an arbitrary
/// pre-composed call with its digest — on the ledger both look like
/// ordinary transactions.
#[derive(Debug)]
pub enum CovertTransaction {
    Swap(u128, Address),
    CustomTx(Transaction, Hash32),
}

/// Validity of the caller-supplied payout payload.
pub open spec fn covert_tx_wf(c: CovertTransaction) -> bool {
    match c {
        CovertTransaction::Swap(_amount, to) => to.wf(),
        CovertTransaction::CustomTx(tx, h) => tx.wf() && h.wf(),
    }
}

/// The payout transaction the session composes for a payout payload.
pub open spec fn payout_matches(
    c: CovertTransaction,
    s2_addr: Seq<u8>,
    t: Transaction,
) -> bool {
    match c {
        CovertTransaction::Swap(amount, to) => {
            &&& t.from@ == s2_addr
            &&& t.to@ == to@
            &&& t.value == amount
            &&& t.priority == false
        },
        CovertTransaction::CustomTx(tx, _h) => {
            &&& t.from@ == tx.from@
            &&& t.to@ == tx.to@
            &&& t.value == tx.value
            &&& t.priority == tx.priority
        },
    }
}

/// The digest the payout pre-signature is bound to: the composed
/// transfer's own digest, or the caller-supplied one.
pub open spec fn payout_digest(c: CovertTransaction, t: Transaction) -> Seq<u8> {
    match c {
        CovertTransaction::Swap(_amount, _to) => tx_digest_spec(t),
        CovertTransaction::CustomTx(_tx, h) => h@,
    }
}

/// The parameters of the refund puzzle a session generates.
pub open spec fn refund_params_spec(difficulty: u64) -> PuzzleParams {
    PuzzleParams { modulus: REFUND_MODULUS, base: REFUND_BASE, difficulty }
}

/// A puzzle the driver must start solving on a dedicated worker the
/// moment the lock message arrives.
pub struct SolveJob {
    pub params: PuzzleParams,
    pub puzzle: Puzzle,
}

/// Everything `lock` decides: the reply to the counterparty, the
/// deposit the driver must submit with an elevated fee, and the solve
/// job for the refund worker.
pub struct LockOutput {
    pub msg: LockMsg2,
    pub deposit: Transaction,
    pub solve_job: SolveJob,
}

/// A refund the solver worker must carry out: the transaction moving
/// the escrow balance back, and the reconstructed full escrow key that
/// signs it.
pub struct RefundClaim {
    pub tx: Transaction,
    pub signing_key: SecretScalar,
}

/// The payout, completed: the composed transaction and the decrypted
/// signature the driver attaches and broadcasts.
pub struct SignedTransaction {
    pub tx: Transaction,
    pub sig: Signature,
}

/// One swap attempt, Taker side.
pub struct Taker {
    pub amount: u128,
    pub refund_time_param: u64,
    pub wallet: Address,
    pub s1: SharedAccountState,
    pub s2: SharedAccountState,
    pub sign_nonce: Option<SecretScalar>,
    pub sign_local: Option<PreSignature>,
    pub adaptor_wit: SecretScalar,
    pub tx: Option<Transaction>,
    pub phase: Phase,
}

/// The session fields that no protocol step may alter.
pub open spec fn core_unchanged(pre: Taker, post: Taker) -> bool {
    &&& post.amount == pre.amount
    &&& post.refund_time_param == pre.refund_time_param
    &&& post.wallet@ == pre.wallet@
    &&& post.adaptor_wit == pre.adaptor_wit
}

impl Taker {
    /// Session well-formedness: what each protocol position guarantees
    /// about the account states and the pending transaction.
    pub open spec fn wf(self) -> bool {
        &&& self.wallet.wf()
        &&& (self.phase == Phase::Created ==> self.s1.fresh() && self.s2.fresh() && self.tx is None)
        &&& (self.phase == Phase::KeysCommitted ==> self.s1.committed() && self.s2.committed()
            && self.tx is None)
        &&& (self.phase == Phase::KeysExchanged ==> self.s1.ready() && self.s2.ready()
            && self.tx is None && self.sign_nonce is Some)
        &&& (self.phase == Phase::Locked ==> self.s1.ready() && self.s2.ready()
            && self.tx is Some && (self.tx->Some_0).wf() && self.sign_nonce is Some
            && self.sign_local is Some)
        &&& (self.phase == Phase::Completed ==> self.s1.ready() && self.s2.ready()
            && self.tx is None)
    }

    /// Creates a session.  The adaptor witness is sampled here, once
    /// per session, and is never regenerated.
    pub fn new(wallet: Address, amount: u128, refund_time_param: u64) -> (r: Taker)
        requires
            wallet.wf(),
        ensures
            r.wf(),
            r.phase == Phase::Created,
            r.amount == amount,
            r.refund_time_param == refund_time_param,
            r.wallet@ == wallet@,
            r.tx is None,
            r.sign_nonce is None,
            r.sign_local is None,
            r.s1.fresh(),
            r.s2.fresh(),
    {
        Taker {
            amount,
            refund_time_param,
            wallet,
            s1: SharedAccountState::empty(),
            s2: SharedAccountState::empty(),
            sign_nonce: None,
            sign_local: None,
            adaptor_wit: scalar_random(),
            tx: None,
            phase: Phase::Created,
        }
    }

    /// Local round: generates the key-generation commitments for both
    /// accounts.  Cannot fail; both commitments carry the fixed salt.
    pub fn setup1(&mut self) -> (r: Result<SetupMsg, SwapError>)
        requires
            old(self).wf(),
            old(self).phase == Phase::Created,
        ensures
            final(self).wf(),
            final(self).phase == Phase::KeysCommitted,
            core_unchanged(*old(self), *final(self)),
            // only the two local key shares are modified
            final(self).sign_nonce == old(self).sign_nonce,
            final(self).sign_local == old(self).sign_local,
            final(self).tx == old(self).tx,
            final(self).s1.counterparty_commit == old(self).s1.counterparty_commit,
            final(self).s1.shared_pk == old(self).s1.shared_pk,
            final(self).s1.address == old(self).s1.address,
            final(self).s2.counterparty_commit == old(self).s2.counterparty_commit,
            final(self).s2.shared_pk == old(self).s2.shared_pk,
            final(self).s2.address == old(self).s2.address,
            r is Ok,
            // each returned commitment matches the key share stored
            // for its account
            r matches Ok(m) ==> ({
                &&& m.0.salt@ == salt_spec()
                &&& m.1.salt@ == salt_spec()
                &&& proof_pk_of(m.0.proof) == gmul_of(final(self).s1.key_share->Some_0)
                &&& proof_pk_of(m.1.proof) == gmul_of(final(self).s2.key_share->Some_0)
            }),
    {
        let (msg1, share1) = dkg::round1();
        self.s1.key_share = Some(share1);
        let (msg2, share2) = dkg::round1();
        self.s2.key_share = Some(share2);
        self.phase = Phase::KeysCommitted;
        Ok((msg1, msg2))
    }

    /// Consumes the counterparty's commitments for both accounts.
    /// Exactly when either commitment fails verification (a mismatched
    /// salt always does), the session aborts with
    /// `VerificationFailure` and neither shared key is derived.  On
    /// success both accounts are ready and the pre-signing session
    /// opens with this session's witness.
    pub fn setup2(&mut self, msg: MakerSetupMsg) -> (r: Result<LockMsg1, SwapError>)
        requires
            old(self).wf(),
            old(self).phase == Phase::KeysCommitted,
        ensures
            final(self).wf(),
            core_unchanged(*old(self), *final(self)),
            final(self).s1.key_share == old(self).s1.key_share,
            final(self).s2.key_share == old(self).s2.key_share,
            final(self).tx == old(self).tx,
            // success exactly when both commitments carry the salt and
            // both proofs check out
            r is Ok <==> msg.account1.salt@ == salt_spec() && dlog_ok(msg.account1.proof)
                && msg.account2.salt@ == salt_spec() && dlog_ok(msg.account2.proof),
            r is Err ==> r == Err::<LockMsg1, SwapError>(SwapError::VerificationFailure)
                && final(self).phase == Phase::Aborted && final(self).s1.shared_pk is None
                && final(self).s2.shared_pk is None
                && final(self).s1.counterparty_commit == old(self).s1.counterparty_commit
                && final(self).s2.counterparty_commit == old(self).s2.counterparty_commit,
            r is Ok ==> ({
                &&& final(self).phase == Phase::KeysExchanged
                &&& final(self).s1.ready()
                &&& final(self).s2.ready()
                &&& final(self).s1.shared_pk == Some(
                    padd_of(
                        proof_pk_of(msg.account1.proof),
                        gmul_of(old(self).s1.key_share->Some_0),
                    ),
                )
                &&& final(self).s2.shared_pk == Some(
                    padd_of(
                        proof_pk_of(msg.account2.proof),
                        gmul_of(old(self).s2.key_share->Some_0),
                    ),
                )
                &&& (final(self).s1.address->Some_0)@ == pbytes_of(
                    padd_of(
                        proof_pk_of(msg.account1.proof),
                        gmul_of(old(self).s1.key_share->Some_0),
                    ),
                ).subrange(13, 33)
                &&& (final(self).s2.address->Some_0)@ == pbytes_of(
                    padd_of(
                        proof_pk_of(msg.account2.proof),
                        gmul_of(old(self).s2.key_share->Some_0),
                    ),
                ).subrange(13, 33)
                &&& final(self).s1.counterparty_commit == Some(msg.account1)
                &&& final(self).s2.counterparty_commit == Some(msg.account2)
                &&& final(self).sign_nonce is Some
            }),
            r matches Ok(m) ==> m.witness_commitment == gmul_of(old(self).adaptor_wit)
                && m.nonce_commitment == gmul_of(final(self).sign_nonce->Some_0),
    {
        let MakerSetupMsg { account1, account2 } = msg;
        let pk1 = match dkg::round2(self.s1.key_share.as_ref().unwrap(), &account1) {
            Ok(p) => p,
            Err(e) => {
                self.phase = Phase::Aborted;
                return Err(e);
            },
        };
        let pk2 = match dkg::round2(self.s2.key_share.as_ref().unwrap(), &account2) {
            Ok(p) => p,
            Err(e) => {
                self.phase = Phase::Aborted;
                return Err(e);
            },
        };
        let pk1_bytes = crate::ec::point_to_bytes(&pk1);
        self.s1.address = Some(derive_address(&pk1_bytes));
        self.s1.shared_pk = Some(pk1);
        self.s1.counterparty_commit = Some(account1);
        let pk2_bytes = crate::ec::point_to_bytes(&pk2);
        self.s2.address = Some(derive_address(&pk2_bytes));
        self.s2.shared_pk = Some(pk2);
        self.s2.counterparty_commit = Some(account2);
        let (m1, nonce) = adaptor::round1(&self.adaptor_wit);
        self.sign_nonce = Some(nonce);
        self.phase = Phase::KeysExchanged;
        Ok(m1)
    }

    /// Consumes the counterparty's lock message and the caller's
    /// payout payload.  Decides everything at once: rejects malformed
    /// counterparty data; hands the counterparty's puzzle to the
    /// refund worker; composes the elevated-fee escrow deposit;
    /// composes and stores the payout without broadcasting it;
    /// generates this party's own refund puzzle over its escrow key
    /// share; and binds one partial pre-signature to each leg's
    /// digest under that leg's shared key.
    ///
    /// On the puzzle's well-formedness: the message model carries no
    /// correctness proof object, so the session enforces everything
    /// that is checkable before solving — the parameters' validity and
    /// the digest's shape — and treats what the puzzle encloses as
    /// unverifiable until solved; whether it really holds the
    /// counterparty's share is only learned on the refund path, where
    /// a recovered secret that is no key share fails with
    /// `CryptoOperationFailure`.
    pub fn lock(&mut self, msg: MakerLockMsg, covert_tx: CovertTransaction) -> (r: Result<
        LockOutput,
        SwapError,
    >)
        requires
            old(self).wf(),
            old(self).phase == Phase::KeysExchanged,
            covert_tx_wf(covert_tx),
        ensures
            final(self).wf(),
            core_unchanged(*old(self), *final(self)),
            // the session leaves `KeysExchanged` either way, so at most
            // one deposit is ever composed per session
            final(self).phase == Phase::Locked || final(self).phase == Phase::Aborted,
            final(self).s1.key_share == old(self).s1.key_share,
            final(self).s2.key_share == old(self).s2.key_share,
            final(self).sign_nonce == old(self).sign_nonce,
            // success exactly when the counterparty's data is well formed
            r is Ok <==> msg.vtc_params.wf() && msg.tx_hash@.len() == 32,
            r is Err ==> r == Err::<LockOutput, SwapError>(SwapError::VerificationFailure)
                && final(self).phase == Phase::Aborted && final(self).tx == old(self).tx
                && final(self).sign_local == old(self).sign_local,
            r matches Ok(out) ==> ({
                &&& final(self).phase == Phase::Locked
                &&& out.deposit.wf()
                &&& out.deposit.from@ == old(self).wallet@
                &&& out.deposit.to@ == (old(self).s1.address->Some_0)@
                &&& out.deposit.value == old(self).amount
                &&& out.deposit.priority == true
                &&& out.solve_job.params == msg.vtc_params
                &&& out.solve_job.puzzle.masked@ == msg.refund_vtc.masked@
                &&& final(self).tx is Some
                &&& payout_matches(covert_tx, (old(self).s2.address->Some_0)@, final(self).tx->Some_0)
                &&& out.msg.account1.tx_hash@ == msg.tx_hash@
                &&& out.msg.account2.tx_hash@ == payout_digest(covert_tx, final(self).tx->Some_0)
                &&& out.msg.vtc_params == refund_params_spec(old(self).refund_time_param)
                &&& out.msg.refund_vtc.masked@.len() == 32
                &&& out.msg.refund_vtc.masked@ == mask_seq(
                    out.msg.vtc_params,
                    sbytes_of(old(self).s1.key_share->Some_0),
                )
                &&& out.msg.account1.nonce_total == presig_nonce(
                    old(self).sign_nonce->Some_0,
                    msg.commitments.nonce_commitment,
                    gmul_of(old(self).adaptor_wit),
                )
                &&& out.msg.account1.s_pre == presig_response(
                    old(self).s1.key_share->Some_0,
                    old(self).sign_nonce->Some_0,
                    out.msg.account1.nonce_total,
                    old(self).s1.shared_pk->Some_0,
                    msg.tx_hash@,
                )
                &&& out.msg.account2.nonce_total == out.msg.account1.nonce_total
                &&& out.msg.account2.s_pre == presig_response(
                    old(self).s2.key_share->Some_0,
                    old(self).sign_nonce->Some_0,
                    out.msg.account2.nonce_total,
                    old(self).s2.shared_pk->Some_0,
                    payout_digest(covert_tx, final(self).tx->Some_0),
                )
                &&& final(self).sign_local is Some
                &&& (final(self).sign_local->Some_0).s_pre == out.msg.account2.s_pre
                &&& (final(self).sign_local->Some_0).nonce_total == out.msg.account2.nonce_total
                &&& (final(self).sign_local->Some_0).tx_hash@ == out.msg.account2.tx_hash@
            }),
    {
        if !msg.vtc_params.is_wf() || msg.tx_hash.bytes.len() != 32 {
            self.phase = Phase::Aborted;
            return Err(SwapError::VerificationFailure);
        }
        let MakerLockMsg { commitments, tx_hash, vtc_params, refund_vtc } = msg;
        let solve_job = SolveJob { params: vtc_params, puzzle: refund_vtc };

        let deposit = Transaction {
            from: self.wallet.clone(),
            to: self.s1.address.as_ref().unwrap().clone(),
            value: self.amount,
            priority: true,
        };

        let payout: Transaction;
        let payout_hash: Hash32;
        match covert_tx {
            CovertTransaction::Swap(covert_amount, to) => {
                let t = Transaction {
                    from: self.s2.address.as_ref().unwrap().clone(),
                    to,
                    value: covert_amount,
                    priority: false,
                };
                payout_hash = tx_digest(&t);
                payout = t;
            },
            CovertTransaction::CustomTx(t, h) => {
                payout = t;
                payout_hash = h;
            },
        }
        self.tx = Some(payout);

        let params = PuzzleParams {
            modulus: REFUND_MODULUS,
            base: REFUND_BASE,
            difficulty: self.refund_time_param,
        };
        let share_bytes = scalar_to_bytes(self.s1.key_share.as_ref().unwrap());
        let refund_puzzle = vtc::generate(&params, &share_bytes);
        proof {
            assert(share_bytes@.len() == 32 && refund_puzzle.masked@ == mask_seq(
                params,
                share_bytes@,
            ));
        }

        let wit_pub = generator_mul(&self.adaptor_wit);
        let pre1 = adaptor::presign(
            self.s1.key_share.as_ref().unwrap(),
            self.sign_nonce.as_ref().unwrap(),
            &commitments.nonce_commitment,
            &wit_pub,
            self.s1.shared_pk.as_ref().unwrap(),
            &tx_hash,
        );
        let pre2 = adaptor::presign(
            self.s2.key_share.as_ref().unwrap(),
            self.sign_nonce.as_ref().unwrap(),
            &commitments.nonce_commitment,
            &wit_pub,
            self.s2.shared_pk.as_ref().unwrap(),
            &payout_hash,
        );
        self.sign_local = Some(adaptor::presignature_dup(&pre2));
        self.phase = Phase::Locked;
        Ok(LockOutput {
            msg: LockMsg2 { account1: pre1, account2: pre2, vtc_params: params, refund_vtc: refund_puzzle },
            deposit,
            solve_job,
        })
    }

    /// Consumes the counterparty's partial pre-signature for the
    /// payout leg: combines it with this party's stored partial,
    /// decrypts the joint pre-signature with the session witness, and
    /// attaches the result to the stored payout transaction.  Succeeds
    /// exactly once: a second call — or a call out of order — fails
    /// with `InvalidState` and leaves the session untouched, so the
    /// same payout can never be handed out twice.
    pub fn complete(&mut self, swap_adaptor: SwapMsg) -> (r: Result<SignedTransaction, SwapError>)
        requires
            old(self).wf(),
        ensures
            final(self).wf(),
            old(self).phase != Phase::Locked ==> r is Err && *final(self) == *old(self),
            r is Err ==> r == Err::<SignedTransaction, SwapError>(SwapError::InvalidState),
            old(self).phase == Phase::Locked ==> r is Ok && final(self).phase == Phase::Completed
                && final(self).tx is None && core_unchanged(*old(self), *final(self)),
            // no session field changes but the phase and the consumed payout
            final(self).s1 == old(self).s1,
            final(self).s2 == old(self).s2,
            final(self).sign_nonce == old(self).sign_nonce,
            final(self).sign_local == old(self).sign_local,
            r matches Ok(sp) ==> sp.tx == old(self).tx->Some_0 && sp.sig.nonce_total
                == swap_adaptor.nonce_total && sp.sig.s == sadd_of(
                sadd_of(swap_adaptor.s_pre, (old(self).sign_local->Some_0).s_pre),
                old(self).adaptor_wit,
            ),
    {
        match self.phase {
            Phase::Locked => {},
            _ => {
                return Err(SwapError::InvalidState);
            },
        }
        let taken = self.tx.take();
        let tx = match taken {
            Some(t) => t,
            None => {
                return Err(SwapError::InvalidState);
            },
        };
        let combined = adaptor::combine_presignatures(
            &swap_adaptor,
            self.sign_local.as_ref().unwrap(),
        );
        let sig = adaptor::decrypt_signature(&combined, &self.adaptor_wit);
        self.phase = Phase::Completed;
        Ok(SignedTransaction { tx, sig })
    }

    /// The refund decision, run by the solver worker once the
    /// counterparty's puzzle yields its escrow key share.  It only
    /// reads the session.  If the escrow balance has already moved
    /// (the swap progressed), no refund is issued.  Otherwise exactly
    /// one refund is composed, moving the deposited amount from the
    /// escrow back to this party's own wallet, signed by the full key
    /// reconstructed as the sum of the recovered share and the local
    /// one.
    pub fn check_refund(&self, solved_secret: &Vec<u8>, escrow_balance: u128) -> (r: Result<
        Option<RefundClaim>,
        SwapError,
    >)
        requires
            self.wf(),
            self.phase == Phase::Locked || self.phase == Phase::Completed,
        ensures
            escrow_balance < self.amount ==> r == Ok::<Option<RefundClaim>, SwapError>(None),
            r matches Ok(Some(claim)) ==> ({
                &&& escrow_balance >= self.amount
                &&& claim.tx.wf()
                &&& claim.tx.from@ == (self.s1.address->Some_0)@
                &&& claim.tx.to@ == self.wallet@
                &&& claim.tx.value == self.amount
                &&& claim.signing_key == sadd_of(
                    sparse_of(solved_secret@),
                    self.s1.key_share->Some_0,
                )
            }),
            r is Err ==> r == Err::<Option<RefundClaim>, SwapError>(
                SwapError::CryptoOperationFailure,
            ) && escrow_balance >= self.amount,
            // with the deposit stuck, the refund is owed whenever the
            // recovered secret parses as a scalar
            escrow_balance >= self.amount ==> (r is Err <==> !scalar_parses(solved_secret@)),
            escrow_balance >= self.amount && r is Ok ==> r matches Ok(Some(_)),
    {
        if escrow_balance < self.amount {
            return Ok(None);
        }
        let counterparty_share = match scalar_from_bytes(solved_secret) {
            Some(s) => s,
            None => {
                return Err(SwapError::CryptoOperationFailure);
            },
        };
        let full_key = scalar_add(&counterparty_share, self.s1.key_share.as_ref().unwrap());
        let tx = Transaction {
            from: self.s1.address.as_ref().unwrap().clone(),
            to: self.wallet.clone(),
            value: self.amount,
            priority: false,
        };
        Ok(Some(RefundClaim { tx, signing_key: full_key }))
    }

    /// The ledger address of the payout-source account, for drivers
    /// that route a pre-composed payout through it.
    pub fn s2_address(&self) -> (r: Address)
        requires
            self.wf(),
            self.phase == Phase::KeysExchanged || self.phase == Phase::Locked || self.phase
                == Phase::Completed,
        ensures
            r@ == (self.s2.address->Some_0)@,
            r.wf(),
    {
        self.s2.address.as_ref().unwrap().clone()
    }
}

} // verus!
