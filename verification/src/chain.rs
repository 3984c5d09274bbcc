use vstd::prelude::*;

use sha2::{Digest, Sha256};

verus! {

// The library's model of the ledger objects the protocol composes.
// Nonce, gas and RPC details belong to the external ledger driver; the
// session only decides who pays whom, how much, and with which
// priority, and binds pre-signatures to a deterministic digest of that
// decision.

/// A ledger account address: exactly 20 bytes.
#[derive(Debug)]
pub struct Address {
    pub bytes: Vec<u8>,
}

impl Address {
    pub open spec fn wf(self) -> bool {
        self.bytes@.len() == 20
    }

    pub open spec fn view(self) -> Seq<u8> {
        self.bytes@
    }
}

impl Clone for Address {
    fn clone(&self) -> (r: Self)
        ensures
            r@ == self@,
            r.wf() == self.wf(),
    {
        Address { bytes: self.bytes.clone() }
    }
}

/// A 32-byte transaction digest.
#[derive(Debug)]
pub struct Hash32 {
    pub bytes: Vec<u8>,
}

impl Hash32 {
    pub open spec fn wf(self) -> bool {
        self.bytes@.len() == 32
    }

    pub open spec fn view(self) -> Seq<u8> {
        self.bytes@
    }
}

impl Clone for Hash32 {
    fn clone(&self) -> (r: Self)
        ensures
            r@ == self@,
            r.wf() == self.wf(),
    {
        Hash32 { bytes: self.bytes.clone() }
    }
}

/// A composed but unsigned transfer: who pays whom, how much (in the
/// ledger's smallest unit), and whether the driver should attach an
/// elevated priority fee (used for the time-sensitive escrow deposit).
#[derive(Debug)]
pub struct Transaction {
    pub from: Address,
    pub to: Address,
    pub value: u128,
    pub priority: bool,
}

impl Transaction {
    pub open spec fn wf(self) -> bool {
        self.from.wf() && self.to.wf()
    }
}

impl Clone for Transaction {
    fn clone(&self) -> (r: Self)
        ensures
            r.from@ == self.from@,
            r.to@ == self.to@,
            r.value == self.value,
            r.priority == self.priority,
            r.wf() == self.wf(),
    {
        Transaction {
            from: self.from.clone(),
            to: self.to.clone(),
            value: self.value,
            priority: self.priority,
        }
    }
}

/// SHA-256 as a pure function of its input bytes: same bytes, same
/// digest, on every machine.
pub uninterp spec fn sha256_of(data: Seq<u8>) -> Seq<u8>;

/// Relies on sha2's `Sha256::digest`: the SHA-256 digest of the input,
/// always exactly 32 bytes, a function of the input alone.
#[verifier::external_body]
pub fn sha256_bytes(data: &Vec<u8>) -> (r: Vec<u8>)
    ensures
        r@ == sha256_of(data@),
        r@.len() == 32,
{
    Sha256::digest(data.as_slice()).to_vec()
}

/// The little-endian bytes of a 128-bit value.
pub open spec fn u128_le_bytes(v: u128) -> Seq<u8> {
    Seq::new(16, |i: int| ((v >> ((8 * i) as u128)) & 0xff) as u8)
}

fn push_u128_le(out: &mut Vec<u8>, v: u128)
    ensures
        final(out)@ == old(out)@ + u128_le_bytes(v),
{
    let mut i: usize = 0;
    while i < 16
        invariant
            i <= 16,
            out@.len() == old(out)@.len() + i,
            forall|k: int| 0 <= k < old(out)@.len() ==> out@[k] == old(out)@[k],
            forall|k: int|
                0 <= k < i ==> #[trigger] out@[old(out)@.len() + k] == ((v >> ((8
                    * k) as u128)) & 0xff) as u8,
        decreases 16 - i,
    {
        out.push(((v >> ((8 * i) as u128)) & 0xff) as u8);
        i = i + 1;
    }
    proof {
        let base = old(out)@.len() as int;
        assert forall|j: int| 0 <= j < out@.len() implies out@[j] == (old(out)@
            + u128_le_bytes(v))[j] by {
            if j >= base {
                let k = j - base;
                assert(out@[base + k] == ((v >> ((8 * k) as u128)) & 0xff) as u8);
            }
        }
        assert(out@ =~= old(out)@ + u128_le_bytes(v));
    }
}

fn push_bytes(out: &mut Vec<u8>, src: &Vec<u8>)
    ensures
        final(out)@ == old(out)@ + src@,
{
    let mut i: usize = 0;
    while i < src.len()
        invariant
            i <= src@.len(),
            out@.len() == old(out)@.len() + i,
            forall|k: int| 0 <= k < old(out)@.len() ==> out@[k] == old(out)@[k],
            forall|k: int| 0 <= k < i ==> out@[old(out)@.len() + k] == src@[k],
        decreases src@.len() - i,
    {
        out.push(src[i]);
        i = i + 1;
    }
    proof {
        assert(out@ =~= old(out)@ + src@);
    }
}

/// The canonical byte encoding of a composed transaction: sender,
/// recipient, little-endian value, priority flag.
pub open spec fn tx_encoding(tx: Transaction) -> Seq<u8> {
    tx.from@ + tx.to@ + u128_le_bytes(tx.value) + seq![if tx.priority { 1u8 } else { 0u8 }]
}

/// Encodes a transaction canonically.
pub fn encode_tx(tx: &Transaction) -> (r: Vec<u8>)
    ensures
        r@ == tx_encoding(*tx),
{
    let mut out: Vec<u8> = Vec::new();
    push_bytes(&mut out, &tx.from.bytes);
    push_bytes(&mut out, &tx.to.bytes);
    push_u128_le(&mut out, tx.value);
    out.push(if tx.priority { 1u8 } else { 0u8 });
    proof {
        assert(out@ =~= tx_encoding(*tx));
    }
    out
}

/// The digest a pre-signature is bound to: deterministic in the
/// composed transaction alone.
pub open spec fn tx_digest_spec(tx: Transaction) -> Seq<u8> {
    sha256_of(tx_encoding(tx))
}

/// Computes the transaction digest: SHA-256 of the canonical encoding.
pub fn tx_digest(tx: &Transaction) -> (r: Hash32)
    ensures
        r@ == tx_digest_spec(*tx),
        r.wf(),
{
    let encoded = encode_tx(tx);
    Hash32 { bytes: sha256_bytes(&encoded) }
}

/// Byte-for-byte equality of two byte strings.
pub fn bytes_eq(a: &Vec<u8>, b: &Vec<u8>) -> (r: bool)
    ensures
        r == (a@ == b@),
{
    if a.len() != b.len() {
        return false;
    }
    let mut i: usize = 0;
    while i < a.len()
        invariant
            a@.len() == b@.len(),
            i <= a@.len(),
            forall|k: int| 0 <= k < i ==> a@[k] == b@[k],
        decreases a@.len() - i,
    {
        if a[i] != b[i] {
            return false;
        }
        i = i + 1;
    }
    proof {
        assert(a@ =~= b@);
    }
    true
}

/// The digest a pre-signature binds to is deterministic in the
/// composed transaction's content alone: two compositions that agree
/// on sender, recipient, value and priority have the same digest, so
/// re-deriving the payout digest can never diverge from the one the
/// pre-signature was bound to.
pub proof fn lemma_digest_deterministic(a: Transaction, b: Transaction)
    requires
        a.from@ == b.from@,
        a.to@ == b.to@,
        a.value == b.value,
        a.priority == b.priority,
    ensures
        tx_digest_spec(a) == tx_digest_spec(b),
{
    assert(tx_encoding(a) =~= tx_encoding(b));
}

/// Derives the ledger address of a jointly controlled key: the trailing
/// 20 bytes of the compressed public point.
pub fn derive_address(pk_bytes: &Vec<u8>) -> (r: Address)
    requires
        pk_bytes@.len() == 33,
    ensures
        r@ == pk_bytes@.subrange(13, 33),
        r.wf(),
{
    let mut bytes: Vec<u8> = Vec::new();
    let mut i: usize = 13;
    while i < 33
        invariant
            13 <= i <= 33,
            pk_bytes@.len() == 33,
            bytes@.len() == i - 13,
            forall|k: int| 0 <= k < i - 13 ==> bytes@[k] == pk_bytes@[13 + k],
        decreases 33 - i,
    {
        bytes.push(pk_bytes[i]);
        i = i + 1;
    }
    proof {
        assert(bytes@ =~= pk_bytes@.subrange(13, 33));
    }
    Address { bytes }
}

} // verus!
