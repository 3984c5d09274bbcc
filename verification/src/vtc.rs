use vstd::prelude::*;

verus! {

// Time-lock puzzle module: the refund safety net.
//
// A secret (here: a party's escrow key share, as bytes) is masked with
// a keystream drawn from `difficulty` iterations of a squaring map, so
// any party holding the puzzle can recover the secret alone, without a
// trapdoor and without the counterparty's help.  What this module
// guarantees — and what is proved below — is the round-trip law:
// solving a puzzle under the parameters it was generated with recovers
// exactly the enclosed secret.  The work model is deliberately simple:
// `generate` iterates the same map `solve` does (there is no fast
// generation path), and over a fixed public 64-bit modulus the
// iteration count is a cost knob, not a cryptographic hardness claim;
// a driver chooses `difficulty` for the delay it wants both sides to
// pay.  A deployment that needs a real sequential-work delay would
// substitute a puzzle over a hidden-order group behind this same
// interface and round-trip contract.

/// Public parameters of a puzzle: the modulus and seed of the squaring
/// map, and the number of sequential steps a solver must perform.
#[derive(Clone, Copy, Debug, PartialEq, Eq, Structural)]
pub struct PuzzleParams {
    pub modulus: u64,
    pub base: u64,
    pub difficulty: u64,
}

impl PuzzleParams {
    /// The squaring map needs a modulus of at least two.
    pub open spec fn wf(self) -> bool {
        self.modulus >= 2
    }

    pub fn is_wf(&self) -> (r: bool)
        ensures
            r == self.wf(),
    {
        self.modulus >= 2
    }
}

/// A generated puzzle: the secret bytes, masked by the keystream.
#[derive(Debug)]
pub struct Puzzle {
    pub masked: Vec<u8>,
}

impl Clone for Puzzle {
    fn clone(&self) -> (r: Self)
        ensures
            r.masked@ == self.masked@,
    {
        Puzzle { masked: self.masked.clone() }
    }
}

/// One sequential step of the puzzle: squaring modulo `n`.
pub open spec fn square_mod(x: u64, n: u64) -> u64
    recommends
        n >= 2,
{
    (((x as int) * (x as int)) % (n as int)) as u64
}

/// The keystream state after `k` sequential steps from the seed.
pub open spec fn stream_state(p: PuzzleParams, k: nat) -> u64
    decreases k,
{
    if k == 0 {
        ((p.base as int) % (p.modulus as int)) as u64
    } else {
        square_mod(stream_state(p, (k - 1) as nat), p.modulus)
    }
}

/// The mask byte for position `i`: drawn after the `difficulty`
/// sequential steps, one further step per byte.
pub open spec fn mask_byte(p: PuzzleParams, i: nat) -> u8 {
    (stream_state(p, p.difficulty as nat + 1 + i) & 0xff) as u8
}

/// The whole masking map: byte-wise XOR with the keystream.
pub open spec fn mask_seq(p: PuzzleParams, s: Seq<u8>) -> Seq<u8> {
    Seq::new(s.len(), |i: int| s[i] ^ mask_byte(p, i as nat))
}

fn square_mod_exec(x: u64, n: u64) -> (r: u64)
    requires
        n >= 2,
    ensures
        r == square_mod(x, n),
        r < n,
{
    proof {
        assert((x as int) * (x as int) <= (u64::MAX as int) * (u64::MAX as int))
            by (nonlinear_arith)
            requires
                x <= u64::MAX,
        ;
    }
    let prod: u128 = (x as u128) * (x as u128);
    let m: u128 = prod % (n as u128);
    m as u64
}

/// Runs the keystream and XORs it over `data`.  Masking and unmasking
/// are the same operation, so `generate` and `solve` share this body.
fn apply_mask(p: &PuzzleParams, data: &Vec<u8>) -> (r: Vec<u8>)
    requires
        p.wf(),
    ensures
        r@ == mask_seq(*p, data@),
        r@.len() == data@.len(),
{
    let mut x: u64 = p.base % p.modulus;
    let mut j: u64 = 0;
    while j < p.difficulty
        invariant
            p.wf(),
            j <= p.difficulty,
            x == stream_state(*p, j as nat),
        decreases p.difficulty - j,
    {
        x = square_mod_exec(x, p.modulus);
        j = j + 1;
    }
    let mut out: Vec<u8> = Vec::new();
    let mut i: usize = 0;
    while i < data.len()
        invariant
            p.wf(),
            i <= data@.len(),
            out@.len() == i,
            x == stream_state(*p, p.difficulty as nat + i as nat),
            forall|k: int| 0 <= k < i ==> out@[k] == mask_seq(*p, data@)[k],
        decreases data@.len() - i,
    {
        x = square_mod_exec(x, p.modulus);
        out.push(data[i] ^ ((x & 0xff) as u8));
        i = i + 1;
    }
    proof {
        assert(out@ =~= mask_seq(*p, data@));
    }
    out
}

/// Encloses `secret` under the puzzle parameters.  The result's bytes
/// are exactly the secret XORed with the sequential-work keystream.
pub fn generate(params: &PuzzleParams, secret: &Vec<u8>) -> (r: Puzzle)
    requires
        params.wf(),
    ensures
        r.masked@ == mask_seq(*params, secret@),
        r.masked@.len() == secret@.len(),
{
    Puzzle { masked: apply_mask(params, secret) }
}

/// Performs the sequential work and recovers the enclosed secret: for
/// every secret the puzzle was generated from, the result is exactly
/// that secret.
pub fn solve(params: &PuzzleParams, puzzle: &Puzzle) -> (r: Vec<u8>)
    requires
        params.wf(),
    ensures
        r@ == mask_seq(*params, puzzle.masked@),
        forall|s: Seq<u8>| puzzle.masked@ == mask_seq(*params, s) ==> r@ == s,
{
    let r = apply_mask(params, &puzzle.masked);
    proof {
        assert forall|s: Seq<u8>| puzzle.masked@ == mask_seq(*params, s) implies r@ == s by {
            lemma_mask_involution(*params, s);
        }
    }
    r
}

/// Masking is an involution: unmasking a masked secret under the same
/// parameters recovers exactly the secret.  This is the round-trip law
/// behind `solve(params, generate(params, secret)) == secret`.
pub proof fn lemma_mask_involution(p: PuzzleParams, s: Seq<u8>)
    ensures
        mask_seq(p, mask_seq(p, s)) == s,
{
    let m = mask_seq(p, mask_seq(p, s));
    assert forall|i: int| 0 <= i < s.len() implies m[i] == s[i] by {
        let b = s[i];
        let k = mask_byte(p, i as nat);
        assert((b ^ k) ^ k == b) by (bit_vector);
    }
    assert(m =~= s);
}

} // verus!
