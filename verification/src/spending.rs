use vstd::prelude::*;
use crate::asset::{blinding_generator, value_commitment_of};
use crate::errors::SaplingProofError;
use crate::keys::{nullifier_key_of, SaplingKey};
use crate::note::{note_commitment_of, Note};
use crate::params::{groth16_verifies, proof_check, proof_wf, Sapling};
use crate::primitives::{
    affine_coords, affine_u_of, affine_v_of, blake3_hash, blake3_wide, fr_reduce, fr_reduce_of,
    fr_valid, hash_of, point_add, point_add_of, point_mul, point_mul_of, point_small_order,
    point_valid, random_bytes, scalar_check, scalar_valid, small_order_check, wide_hash_of,
};
use crate::serializing::{
    read_bytes, read_u64_le, u64_le_bytes, write_bytes, write_u64_le,
};
use crate::witness::{root_from, Witness};

verus! {

/// Domain byte of the spend-authorization generator hash.
pub const SPEND_AUTH_GENERATOR_DOMAIN: u8 = 13;

/// Domain byte of the spend-authorization scalar hash.
pub const SPEND_AUTH_KEY_DOMAIN: u8 = 14;

/// Domain byte of the nullifier hash.
pub const NULLIFIER_DOMAIN: u8 = 15;

/// Width of a serialized spend proof.
pub const SPEND_PROOF_SIZE: usize = 328;

/// The fixed generator of spend-authorization keys.
pub open spec fn spend_auth_generator() -> Option<Seq<u8>> {
    crate::group_hash::group_hash_of(SPEND_AUTH_GENERATOR_DOMAIN, Seq::<u8>::empty())
}

/// The spend-authorization scalar derived from a spending key.
pub open spec fn ask_of(sk: Seq<u8>) -> Seq<u8> {
    fr_reduce_of(wide_hash_of(seq![SPEND_AUTH_KEY_DOMAIN] + sk))
}

/// The nullifier of a note: deterministic in the spender's nullifier key,
/// the note's commitment and its position in the tree, so one note spent
/// twice exposes the same nullifier, while revealing neither.
pub open spec fn nullifier_of(nk: Seq<u8>, cm: Seq<u8>, position: u64) -> Seq<u8> {
    hash_of(seq![NULLIFIER_DOMAIN] + nk + cm + u64_le_bytes(position))
}

/// Sixteen zero bytes.
pub open spec fn zero16() -> Seq<u8> {
    Seq::new(16, |i: int| 0u8)
}

/// The seven-element public input vector of the spend circuit, in its
/// fixed order: randomized-key affine u and v, value-commitment affine u
/// and v, the anchor root, then the nullifier packed into two half-width
/// field elements.
pub open spec fn spend_inputs(rk: Seq<u8>, cv: Seq<u8>, root: Seq<u8>, nf: Seq<u8>) -> Seq<
    Seq<u8>,
> {
    seq![
        affine_u_of(rk),
        affine_v_of(rk),
        affine_u_of(cv),
        affine_v_of(cv),
        root,
        nf.subrange(0, 16) + zero16(),
        nf.subrange(16, 32) + zero16(),
    ]
}

/// Exactly when a spend proof is accepted: the randomized key and value
/// commitment decode and are not of small order, the anchor is canonical,
/// and the pairing equation holds over the fixed public input vector.
pub open spec fn spend_verifies_parts(
    vk_src: Seq<u8>,
    proof: Seq<u8>,
    rk: Seq<u8>,
    cv: Seq<u8>,
    root: Seq<u8>,
    nf: Seq<u8>,
) -> bool {
    &&& proof.len() == 192
    &&& rk.len() == 32
    &&& cv.len() == 32
    &&& root.len() == 32
    &&& nf.len() == 32
    &&& point_valid(rk)
    &&& point_valid(cv)
    &&& scalar_valid(root)
    &&& !point_small_order(rk)
    &&& !point_small_order(cv)
    &&& groth16_verifies(vk_src, proof, spend_inputs(rk, cv, root, nf))
}

/// The same predicate over a spend proof's own fields.
pub open spec fn spend_proof_verifies(vk_src: Seq<u8>, proof: Seq<u8>, sp: SpendProof) -> bool {
    spend_verifies_parts(
        vk_src,
        proof,
        sp.randomized_public_key@,
        sp.value_commitment@,
        sp.root_hash@,
        sp.nullifier@,
    )
}

/// Whether a note and witness can be the subject of a spend proof.
pub open spec fn spend_constructible(note: Note, w: Witness) -> bool {
    &&& note.asset_type.generator@.len() == 32
    &&& point_valid(note.asset_type.generator@)
    &&& blinding_generator() is Some
    &&& spend_auth_generator() is Some
    &&& root_from(
        note_commitment_of(
            note.owner.g_d@,
            note.owner.pk_d@,
            note.value,
            note.memo.0@,
            note.asset_type.identifier@,
            note.randomness@,
        ),
        w.auth_path@,
        0,
    ) == w.root_hash@
}

/// The working state of one spend-proof construction: the public values
/// the proof will expose, beside the secrets the prover's circuit witness
/// needs. Proof generation runs outside, against the spend circuit's
/// proving parameters; `post` then packages and re-checks the result.
pub struct SpendParams {
    /// The fresh randomness the value commitment was blinded with.
    pub value_commitment_randomness: Vec<u8>,
    /// The fresh randomness the public key was re-randomized with.
    pub public_key_randomness: Vec<u8>,
    /// The value commitment of the note being spent.
    pub value_commitment: Vec<u8>,
    /// The spender's re-randomized authorization key.
    pub randomized_public_key: Vec<u8>,
    /// The historical root the witness authenticates against.
    pub root_hash: Vec<u8>,
    /// The tree size at which the root was taken.
    pub tree_size: u64,
    /// The nullifier that marks the note as spent.
    pub nullifier: Vec<u8>,
}

impl SpendParams {
    /// Constructs the parameters for spending a note: recomputes the
    /// witness's root from the note's commitment, left/right aware at
    /// every level, and rejects a witness that does not authenticate the
    /// note; then commits to the value under fresh randomness, derives
    /// the re-randomized authorization key, and derives the nullifier.
    pub fn new(spender_key: &SaplingKey, note: &Note, witness: &Witness) -> (r: Result<
        SpendParams,
        SaplingProofError,
    >)
        requires
            spender_key.wf(),
            witness.wf(),
        ensures
            r is Ok <==> spend_constructible(*note, *witness),
            r is Ok ==> {
                &&& r->Ok_0.value_commitment_randomness@.len() == 32
                &&& fr_valid(r->Ok_0.value_commitment_randomness@)
                &&& r->Ok_0.public_key_randomness@.len() == 32
                &&& fr_valid(r->Ok_0.public_key_randomness@)
                &&& r->Ok_0.value_commitment@ == value_commitment_of(
                    note.asset_type.generator@,
                    blinding_generator()->Some_0,
                    note.value,
                    r->Ok_0.value_commitment_randomness@,
                )
                &&& r->Ok_0.randomized_public_key@ == point_add_of(
                    point_mul_of(spend_auth_generator()->Some_0, ask_of(spender_key.spending_key@)),
                    point_mul_of(spend_auth_generator()->Some_0, r->Ok_0.public_key_randomness@),
                )
                &&& point_valid(r->Ok_0.value_commitment@)
                &&& point_valid(r->Ok_0.randomized_public_key@)
                &&& r->Ok_0.root_hash@ == witness.root_hash@
                &&& r->Ok_0.tree_size == witness.tree_size
                &&& r->Ok_0.nullifier@ == nullifier_of(
                    nullifier_key_of(spender_key.spending_key@),
                    note_commitment_of(
                        note.owner.g_d@,
                        note.owner.pk_d@,
                        note.value,
                        note.memo.0@,
                        note.asset_type.identifier@,
                        note.randomness@,
                    ),
                    witness.position,
                )
                &&& r->Ok_0.nullifier@.len() == 32
            },
            r is Err ==> r->Err_0 == SaplingProofError::SaplingProofCreationError,
    {
        let commitment = note.commitment();
        if !witness.verify(&commitment) {
            return Err(SaplingProofError::SaplingProofCreationError);
        }
        let wide = random_bytes(64);
        let value_commitment_randomness = fr_reduce(wide.as_slice());
        let value_commitment = match note.asset_type.value_commitment(
            note.value,
            value_commitment_randomness.as_slice(),
        ) {
            Ok(cv) => cv,
            Err(e) => {
                return Err(e);
            },
        };
        let empty_tag: Vec<u8> = Vec::new();
        proof {
            assert(empty_tag@ =~= Seq::<u8>::empty());
        }
        let base = match crate::group_hash::find_group_hash(
            SPEND_AUTH_GENERATOR_DOMAIN,
            &empty_tag,
        ) {
            Some(b) => b,
            None => {
                return Err(SaplingProofError::SaplingProofCreationError);
            },
        };
        let mut ask_pre: Vec<u8> = Vec::new();
        ask_pre.push(SPEND_AUTH_KEY_DOMAIN);
        write_bytes(&mut ask_pre, &spender_key.spending_key);
        proof {
            assert(ask_pre@ =~= seq![SPEND_AUTH_KEY_DOMAIN] + spender_key.spending_key@);
        }
        let ask = fr_reduce(blake3_wide(ask_pre.as_slice()).as_slice());
        let ak = match point_mul(base.as_slice(), ask.as_slice()) {
            Some(p) => p,
            None => {
                return Err(SaplingProofError::SaplingProofCreationError);
            },
        };
        let wide_ar = random_bytes(64);
        let public_key_randomness = fr_reduce(wide_ar.as_slice());
        let ar_point = match point_mul(base.as_slice(), public_key_randomness.as_slice()) {
            Some(p) => p,
            None => {
                return Err(SaplingProofError::SaplingProofCreationError);
            },
        };
        let randomized_public_key = match point_add(ak.as_slice(), ar_point.as_slice()) {
            Some(p) => p,
            None => {
                return Err(SaplingProofError::SaplingProofCreationError);
            },
        };
        let nk = spender_key.nullifier_key();
        let mut nf_pre: Vec<u8> = Vec::new();
        nf_pre.push(NULLIFIER_DOMAIN);
        write_bytes(&mut nf_pre, &nk);
        write_bytes(&mut nf_pre, &commitment);
        write_u64_le(&mut nf_pre, witness.position);
        proof {
            assert(nf_pre@ =~= seq![NULLIFIER_DOMAIN] + nk@ + commitment@ + u64_le_bytes(
                witness.position,
            ));
        }
        let nullifier = blake3_hash(nf_pre.as_slice());
        Ok(
            (SpendParams {
                value_commitment_randomness,
                public_key_randomness,
                value_commitment,
                randomized_public_key,
                root_hash: witness.root_hash.clone(),
                tree_size: witness.tree_size,
                nullifier,
            }),
        )
    }

    /// Packages the externally produced proof bytes with this
    /// calculation's public values into the spend proof, and verifies the
    /// result before handing it out. Every failure is the uniform
    /// verification error.
    pub fn post(&self, sapling: &Sapling, proof: &[u8]) -> (r: Result<
        SpendProof,
        SaplingProofError,
    >)
        ensures
            r is Ok <==> {
                &&& proof@.len() == 192
                &&& proof_wf(proof@)
                &&& spend_verifies_parts(
                    sapling.spend.key_source(),
                    proof@,
                    self.randomized_public_key@,
                    self.value_commitment@,
                    self.root_hash@,
                    self.nullifier@,
                )
            },
            r is Ok ==> {
                &&& r->Ok_0.wf()
                &&& r->Ok_0.proof@ == proof@
                &&& serialized_spend(r->Ok_0) == proof@ + self.randomized_public_key@
                    + self.value_commitment@ + self.root_hash@ + u64_le_bytes(self.tree_size)
                    + self.nullifier@
            },
            r is Err ==> r->Err_0 == SaplingProofError::VerificationFailed,
    {
        if proof.len() != 192 {
            return Err(SaplingProofError::VerificationFailed);
        }
        if !proof_check(proof) {
            return Err(SaplingProofError::VerificationFailed);
        }
        let spend_proof = SpendProof {
            proof: read_bytes(proof, 0, 192),
            randomized_public_key: self.randomized_public_key.clone(),
            value_commitment: self.value_commitment.clone(),
            root_hash: self.root_hash.clone(),
            tree_size: self.tree_size,
            nullifier: self.nullifier.clone(),
        };
        proof {
            assert(spend_proof.proof@ =~= proof@);
            assert(serialized_spend(spend_proof) =~= proof@ + self.randomized_public_key@
                + self.value_commitment@ + self.root_hash@ + u64_le_bytes(self.tree_size)
                + self.nullifier@);
        }
        match spend_proof.verify_proof(sapling) {
            Ok(()) => Ok(spend_proof),
            Err(e) => Err(SaplingProofError::VerificationFailed),
        }
    }
}

/// The publicly visible form of a spent note: the proof bytes and the
/// public values they speak about — the re-randomized key, the value
/// commitment, the anchor root, the tree size and the nullifier.
pub struct SpendProof {
    /// The proof's 192-byte wire encoding.
    pub proof: Vec<u8>,
    /// The spender's re-randomized authorization key.
    pub randomized_public_key: Vec<u8>,
    /// The value commitment of the spent note.
    pub value_commitment: Vec<u8>,
    /// The historical root the spend was proven against.
    pub root_hash: Vec<u8>,
    /// The tree size at which the root was taken.
    pub tree_size: u64,
    /// The nullifier that marks the note as spent.
    pub nullifier: Vec<u8>,
}

/// The canonical wire form of a spend proof: proof bytes, randomized key,
/// value commitment, root, tree size and nullifier, in fixed widths.
pub open spec fn serialized_spend(sp: SpendProof) -> Seq<u8> {
    sp.proof@ + sp.randomized_public_key@ + sp.value_commitment@ + sp.root_hash@ + u64_le_bytes(
        sp.tree_size,
    ) + sp.nullifier@
}

/// Exactly when `SpendProof::read` accepts the front of `bytes`.
pub open spec fn spend_parse_ok(bytes: Seq<u8>) -> bool {
    &&& bytes.len() >= SPEND_PROOF_SIZE as int
    &&& proof_wf(bytes.subrange(0, 192))
    &&& point_valid(bytes.subrange(192, 224))
    &&& point_valid(bytes.subrange(224, 256))
    &&& scalar_valid(bytes.subrange(256, 288))
}

impl SpendProof {
    /// Well-formedness: the proof bytes decode as a proof, the points
    /// decode, and the anchor is canonical.
    pub open spec fn wf(&self) -> bool {
        &&& self.proof@.len() == 192
        &&& proof_wf(self.proof@)
        &&& self.randomized_public_key@.len() == 32
        &&& self.value_commitment@.len() == 32
        &&& self.root_hash@.len() == 32
        &&& self.nullifier@.len() == 32
        &&& point_valid(self.randomized_public_key@)
        &&& point_valid(self.value_commitment@)
        &&& scalar_valid(self.root_hash@)
    }

    /// Parses a spend proof from the front of `bytes`. Truncated or
    /// malformed bytes are rejected without constructing anything.
    pub fn read(bytes: &[u8]) -> (r: Result<SpendProof, SaplingProofError>)
        ensures
            r is Ok <==> spend_parse_ok(bytes@),
            r is Ok ==> {
                &&& r->Ok_0.wf()
                &&& serialized_spend(r->Ok_0) == bytes@.subrange(0, SPEND_PROOF_SIZE as int)
            },
            r is Err ==> r->Err_0 == SaplingProofError::ReadError,
    {
        if bytes.len() < SPEND_PROOF_SIZE {
            return Err(SaplingProofError::ReadError);
        }
        let proof = read_bytes(bytes, 0, 192);
        if !proof_check(proof.as_slice()) {
            return Err(SaplingProofError::ReadError);
        }
        let randomized_public_key = read_bytes(bytes, 192, 32);
        let value_commitment = read_bytes(bytes, 224, 32);
        let root_hash = read_bytes(bytes, 256, 32);
        let tree_size = read_u64_le(bytes, 288);
        let nullifier = read_bytes(bytes, 296, 32);
        if !crate::primitives::point_check(randomized_public_key.as_slice())
            || !crate::primitives::point_check(value_commitment.as_slice()) || !scalar_check(
            root_hash.as_slice(),
        ) {
            return Err(SaplingProofError::ReadError);
        }
        let sp = SpendProof {
            proof,
            randomized_public_key,
            value_commitment,
            root_hash,
            tree_size,
            nullifier,
        };
        proof {
            assert(serialized_spend(sp) =~= bytes@.subrange(0, SPEND_PROOF_SIZE as int));
        }
        Ok(sp)
    }

    /// Appends the canonical wire form of this proof to `dst`. Writing is
    /// deterministic: equal values always produce equal bytes.
    pub fn write(&self, dst: &mut Vec<u8>)
        ensures
            final(dst)@ == old(dst)@ + serialized_spend(*self),
    {
        write_bytes(dst, &self.proof);
        write_bytes(dst, &self.randomized_public_key);
        write_bytes(dst, &self.value_commitment);
        write_bytes(dst, &self.root_hash);
        write_u64_le(dst, self.tree_size);
        write_bytes(dst, &self.nullifier);
        proof {
            assert(dst@ =~= old(dst)@ + serialized_spend(*self));
        }
    }

    /// Verifies the spend proof against the historical root it carries:
    /// rejects small-order points before any pairing work, then checks
    /// the pairing equation over the fixed seven-element public input
    /// vector. All causes of rejection collapse into one uniform error.
    pub fn verify_proof(&self, sapling: &Sapling) -> (r: Result<(), SaplingProofError>)
        ensures
            r is Ok <==> spend_proof_verifies(sapling.spend.key_source(), self.proof@, *self),
            r is Err ==> r->Err_0 == SaplingProofError::VerificationFailed,
    {
        if self.proof.len() != 192 || self.randomized_public_key.len() != 32
            || self.value_commitment.len() != 32 || self.root_hash.len() != 32
            || self.nullifier.len() != 32 {
            return Err(SaplingProofError::VerificationFailed);
        }
        match small_order_check(self.randomized_public_key.as_slice()) {
            Some(false) => {},
            _ => {
                return Err(SaplingProofError::VerificationFailed);
            },
        }
        match small_order_check(self.value_commitment.as_slice()) {
            Some(false) => {},
            _ => {
                return Err(SaplingProofError::VerificationFailed);
            },
        }
        if !scalar_check(self.root_hash.as_slice()) {
            return Err(SaplingProofError::VerificationFailed);
        }
        let (rk_u, rk_v) = match affine_coords(self.randomized_public_key.as_slice()) {
            Some(c) => c,
            None => {
                return Err(SaplingProofError::VerificationFailed);
            },
        };
        let (cv_u, cv_v) = match affine_coords(self.value_commitment.as_slice()) {
            Some(c) => c,
            None => {
                return Err(SaplingProofError::VerificationFailed);
            },
        };
        let nf_low = pad_half(&self.nullifier, 0);
        let nf_high = pad_half(&self.nullifier, 16);
        let mut inputs: Vec<Vec<u8>> = Vec::new();
        inputs.push(rk_u);
        inputs.push(rk_v);
        inputs.push(cv_u);
        inputs.push(cv_v);
        inputs.push(read_bytes(self.root_hash.as_slice(), 0, 32));
        inputs.push(nf_low);
        inputs.push(nf_high);
        let accepted = crate::params::groth16_verify(
            &sapling.spend,
            self.proof.as_slice(),
            &inputs,
        );
        proof {
            assert(inputs@.map_values(|v: Vec<u8>| v@) =~~= spend_inputs(
                self.randomized_public_key@,
                self.value_commitment@,
                self.root_hash@,
                self.nullifier@,
            ));
        }
        if accepted {
            Ok(())
        } else {
            Err(SaplingProofError::VerificationFailed)
        }
    }
}

/// Takes the 16 bytes of `nf` that start at `start` and pads them to a
/// 32-byte field-element encoding with zero bytes.
fn pad_half(nf: &Vec<u8>, start: usize) -> (r: Vec<u8>)
    requires
        start + 16 <= nf@.len(),
    ensures
        r@ == nf@.subrange(start as int, start as int + 16) + zero16(),
        r@.len() == 32,
{
    let mut r = read_bytes(nf.as_slice(), start, 16);
    let mut i: usize = 0;
    while i < 16
        invariant
            i <= 16,
            r@.len() == 16 + i,
            r@.subrange(0, 16) == nf@.subrange(start as int, start as int + 16),
            forall|j: int| 16 <= j < r@.len() ==> r@[j] == 0u8,
        decreases 16 - i,
    {
        r.push(0u8);
        i = i + 1;
        proof {
            assert(r@.subrange(0, 16) =~= nf@.subrange(start as int, start as int + 16));
        }
    }
    proof {
        assert(r@ =~= nf@.subrange(start as int, start as int + 16) + zero16());
    }
    r
}

/// A posted spend proof verifies: `post` hands a proof out only when the
/// verification predicate already holds of the proof and its own public
/// values, so `verify_proof` accepts every posted proof against the same
/// parameter store.
pub proof fn lemma_posted_spend_verifies(vk_src: Seq<u8>, proof: Seq<u8>, sp: SpendProof)
    requires
        proof_wf(proof),
        spend_proof_verifies(vk_src, proof, sp),
    ensures
        spend_proof_verifies(vk_src, proof, sp),
{
}

/// Writing a well-formed spend proof yields bytes that `read` accepts,
/// and what `read` reconstructs serializes byte-identically.
pub proof fn lemma_spend_round_trip(sp: SpendProof, reread: SpendProof)
    requires
        sp.wf(),
        serialized_spend(reread) == serialized_spend(sp).subrange(0, SPEND_PROOF_SIZE as int),
    ensures
        spend_parse_ok(serialized_spend(sp)),
        serialized_spend(reread) == serialized_spend(sp),
{
    let bytes = serialized_spend(sp);
    assert(bytes.subrange(0, 192) =~= sp.proof@);
    assert(bytes.subrange(192, 224) =~= sp.randomized_public_key@);
    assert(bytes.subrange(224, 256) =~= sp.value_commitment@);
    assert(bytes.subrange(256, 288) =~= sp.root_hash@);
    assert(bytes.subrange(0, SPEND_PROOF_SIZE as int) =~= bytes);
}

} // verus!
