use vstd::prelude::*;
use crate::asset::{blinding_generator, value_commitment_of};
use crate::errors::SaplingProofError;
use crate::keys::{ovk_of, SaplingKey};
use crate::merkle_note::{
    note_plaintext_of, outgoing_key_of, serialized_note, shared_key_of, zero_nonce, MerkleNote,
    MERKLE_NOTE_SIZE,
};
use crate::note::{note_commitment_of, Note};
use crate::params::{groth16_verifies, proof_check, proof_wf, Sapling};
use crate::primitives::{
    affine_coords, affine_u_of, affine_v_of, fr_reduce, fr_valid, point_mul_of,
    point_small_order, point_valid, random_bytes, scalar_check, scalar_valid, sealed_with,
    small_order_check,
};
use crate::serializing::read_bytes;

verus! {

/// Width of a proof on the wire: three group elements in compressed form.
pub const PROOF_SIZE: usize = 192;

/// Width of a serialized receipt proof: the proof, then the merkle note.
pub const RECEIPT_PROOF_SIZE: usize = 499;

/// Whether a note can be the subject of a receipt proof: its owner's
/// address and its asset decode to usable curve points, its fields have
/// their exact widths, and the blinding generator exists.
pub open spec fn note_provable(note: Note) -> bool {
    &&& note.owner.wf()
    &&& note.memo.0@.len() == 32
    &&& note.asset_type.generator@.len() == 32
    &&& point_valid(note.asset_type.generator@)
    &&& note.asset_type.identifier@.len() == 32
    &&& note.randomness@.len() == 32
    &&& blinding_generator() is Some
}

/// The five-element public input vector of the receipt circuit, in its
/// fixed order: value-commitment affine u, value-commitment affine v,
/// ephemeral-key affine u, ephemeral-key affine v, note-commitment scalar.
/// This exact order and arity is what the circuit was compiled with.
pub open spec fn receipt_inputs(m: MerkleNote) -> Seq<Seq<u8>> {
    seq![
        affine_u_of(m.value_commitment@),
        affine_v_of(m.value_commitment@),
        affine_u_of(m.ephemeral_public_key@),
        affine_v_of(m.ephemeral_public_key@),
        m.note_commitment@,
    ]
}

/// Exactly when a receipt proof is accepted: the merkle note's points
/// decode and are not of small order, its note commitment is canonical,
/// and the pairing equation holds over the fixed public input vector.
pub open spec fn receipt_proof_verifies(vk_src: Seq<u8>, proof: Seq<u8>, m: MerkleNote) -> bool {
    &&& proof.len() == PROOF_SIZE as int
    &&& m.value_commitment@.len() == 32
    &&& m.ephemeral_public_key@.len() == 32
    &&& m.note_commitment@.len() == 32
    &&& point_valid(m.value_commitment@)
    &&& point_valid(m.ephemeral_public_key@)
    &&& scalar_valid(m.note_commitment@)
    &&& !point_small_order(m.value_commitment@)
    &&& !point_small_order(m.ephemeral_public_key@)
    &&& groth16_verifies(vk_src, proof, receipt_inputs(m))
}

/// The working state of one receipt-proof construction: the public merkle
/// note, beside the secrets the prover's circuit witness needs. Proof
/// generation itself runs outside, against the receipt circuit's proving
/// parameters; `post` then packages and re-checks the produced proof.
pub struct ReceiptParams {
    /// The fresh randomness the value commitment was blinded with.
    pub value_commitment_randomness: Vec<u8>,
    /// The ephemeral Diffie-Hellman secret, part of the circuit witness.
    pub ephemeral_secret_key: Vec<u8>,
    /// The public record of the new note.
    pub merkle_note: MerkleNote,
}

impl ReceiptParams {
    /// Constructs the parameters proving a new note: derives ephemeral
    /// Diffie-Hellman keys from the owner's address, draws fresh
    /// full-width commitment randomness, commits to the value, and builds
    /// the merkle note with its encrypted payloads. Fails exactly when the
    /// note's key or asset material does not decode.
    pub fn new(spender_key: &SaplingKey, note: &Note) -> (r: Result<
        ReceiptParams,
        SaplingProofError,
    >)
        requires
            spender_key.wf(),
        ensures
            r is Ok <==> note_provable(*note),
            r is Ok ==> {
                &&& r->Ok_0.merkle_note.wf()
                &&& r->Ok_0.value_commitment_randomness@.len() == 32
                &&& fr_valid(r->Ok_0.value_commitment_randomness@)
                &&& r->Ok_0.ephemeral_secret_key@.len() == 32
                &&& fr_valid(r->Ok_0.ephemeral_secret_key@)
                &&& r->Ok_0.merkle_note.value_commitment@ == value_commitment_of(
                    note.asset_type.generator@,
                    blinding_generator()->Some_0,
                    note.value,
                    r->Ok_0.value_commitment_randomness@,
                )
                &&& r->Ok_0.merkle_note.ephemeral_public_key@ == point_mul_of(
                    note.owner.g_d@,
                    r->Ok_0.ephemeral_secret_key@,
                )
                &&& r->Ok_0.merkle_note.note_commitment@ == note_commitment_of(
                    note.owner.g_d@,
                    note.owner.pk_d@,
                    note.value,
                    note.memo.0@,
                    note.asset_type.identifier@,
                    note.randomness@,
                )
                &&& r->Ok_0.merkle_note.encrypted_note@ == sealed_with(
                    shared_key_of(
                        point_mul_of(note.owner.pk_d@, r->Ok_0.ephemeral_secret_key@),
                        r->Ok_0.merkle_note.ephemeral_public_key@,
                    ),
                    zero_nonce(),
                    note_plaintext_of(*note),
                )
                &&& r->Ok_0.merkle_note.note_encryption_keys@ == sealed_with(
                    outgoing_key_of(
                        ovk_of(spender_key.spending_key@),
                        r->Ok_0.merkle_note.value_commitment@,
                        r->Ok_0.merkle_note.note_commitment@,
                        r->Ok_0.merkle_note.ephemeral_public_key@,
                    ),
                    zero_nonce(),
                    note.owner.pk_d@ + r->Ok_0.ephemeral_secret_key@,
                )
            },
            r is Err ==> r->Err_0 == SaplingProofError::SaplingProofCreationError,
    {
        let diffie_hellman_keys = match note.owner.generate_diffie_hellman_keys() {
            Ok(k) => k,
            Err(e) => {
                return Err(e);
            },
        };
        let wide = random_bytes(64);
        let value_commitment_randomness = fr_reduce(wide.as_slice());
        let value_commitment = match note.asset_type.value_commitment(
            note.value,
            value_commitment_randomness.as_slice(),
        ) {
            Ok(cv) => cv,
            Err(e) => {
                return Err(e);
            },
        };
        let merkle_note = match MerkleNote::new(
            spender_key,
            note,
            &value_commitment,
            &diffie_hellman_keys,
        ) {
            Ok(m) => m,
            Err(e) => {
                return Err(e);
            },
        };
        Ok(
            (ReceiptParams {
                value_commitment_randomness,
                ephemeral_secret_key: diffie_hellman_keys.0,
                merkle_note,
            }),
        )
    }

    /// Packages the externally produced proof bytes with this calculation's
    /// merkle note into the public receipt proof, and verifies the result
    /// before handing it out: a proof that cannot verify against its own
    /// public output never leaves this engine. Every failure is the uniform
    /// verification error.
    pub fn post(&self, sapling: &Sapling, proof: &[u8]) -> (r: Result<
        ReceiptProof,
        SaplingProofError,
    >)
        ensures
            r is Ok <==> {
                &&& proof@.len() == PROOF_SIZE as int
                &&& proof_wf(proof@)
                &&& self.merkle_note.encrypted_note@.len()
                    == crate::merkle_note::ENCRYPTED_NOTE_SIZE as int
                &&& self.merkle_note.note_encryption_keys@.len()
                    == crate::merkle_note::NOTE_ENCRYPTION_KEYS_SIZE as int
                &&& receipt_proof_verifies(
                    sapling.receipt.key_source(),
                    proof@,
                    self.merkle_note,
                )
            },
            r is Ok ==> {
                &&& r->Ok_0.wf()
                &&& r->Ok_0.proof@ == proof@
                &&& serialized_note(r->Ok_0.merkle_note) == serialized_note(self.merkle_note)
            },
            r is Err ==> r->Err_0 == SaplingProofError::VerificationFailed,
    {
        if proof.len() != PROOF_SIZE {
            return Err(SaplingProofError::VerificationFailed);
        }
        if !proof_check(proof) {
            return Err(SaplingProofError::VerificationFailed);
        }
        if self.merkle_note.encrypted_note.len() != crate::merkle_note::ENCRYPTED_NOTE_SIZE
            || self.merkle_note.note_encryption_keys.len()
            != crate::merkle_note::NOTE_ENCRYPTION_KEYS_SIZE {
            return Err(SaplingProofError::VerificationFailed);
        }
        let receipt_proof = ReceiptProof {
            proof: read_bytes(proof, 0, PROOF_SIZE),
            merkle_note: clone_note(&self.merkle_note),
        };
        proof {
            assert(receipt_proof.proof@ =~= proof@);
            assert(receipt_inputs(receipt_proof.merkle_note) =~= receipt_inputs(
                self.merkle_note,
            ));
        }
        match receipt_proof.verify_proof(sapling) {
            Ok(()) => Ok(receipt_proof),
            Err(e) => Err(SaplingProofError::VerificationFailed),
        }
    }
}

/// The publicly visible form of a received note: the proof bytes and the
/// merkle note they speak about. This is what is serialized into
/// transactions and re-verified by any receiver from public data alone.
pub struct ReceiptProof {
    /// The proof's 192-byte wire encoding.
    pub proof: Vec<u8>,
    /// The public record of the note.
    pub merkle_note: MerkleNote,
}

/// The canonical wire form of a receipt proof: the proof bytes, then the
/// merkle note, with no length prefixes.
pub open spec fn serialized_receipt(rp: ReceiptProof) -> Seq<u8> {
    rp.proof@ + serialized_note(rp.merkle_note)
}

/// Exactly when `ReceiptProof::read` accepts the front of `bytes`.
pub open spec fn receipt_parse_ok(bytes: Seq<u8>) -> bool {
    &&& bytes.len() >= RECEIPT_PROOF_SIZE as int
    &&& proof_wf(bytes.subrange(0, 192))
    &&& point_valid(bytes.subrange(192, 224))
    &&& point_valid(bytes.subrange(224, 256))
    &&& scalar_valid(bytes.subrange(256, 288))
}

impl ReceiptProof {
    /// Well-formedness: the proof bytes decode as a proof and the merkle
    /// note is well-formed.
    pub open spec fn wf(&self) -> bool {
        &&& self.proof@.len() == PROOF_SIZE as int
        &&& proof_wf(self.proof@)
        &&& self.merkle_note.wf()
    }

    /// Parses a receipt proof from the front of `bytes`, the entry point
    /// for reconstructing a serialized transaction. Truncated or malformed
    /// bytes are rejected without constructing anything.
    pub fn read(bytes: &[u8]) -> (r: Result<ReceiptProof, SaplingProofError>)
        ensures
            r is Ok <==> receipt_parse_ok(bytes@),
            r is Ok ==> {
                &&& r->Ok_0.wf()
                &&& serialized_receipt(r->Ok_0) == bytes@.subrange(0, RECEIPT_PROOF_SIZE as int)
            },
            r is Err ==> r->Err_0 == SaplingProofError::ReadError,
    {
        if bytes.len() < RECEIPT_PROOF_SIZE {
            return Err(SaplingProofError::ReadError);
        }
        let proof = read_bytes(bytes, 0, PROOF_SIZE);
        if !proof_check(proof.as_slice()) {
            return Err(SaplingProofError::ReadError);
        }
        let rest = read_bytes(bytes, PROOF_SIZE, MERKLE_NOTE_SIZE);
        proof {
            assert(rest@.subrange(0, 32) =~= bytes@.subrange(192, 224));
            assert(rest@.subrange(32, 64) =~= bytes@.subrange(224, 256));
            assert(rest@.subrange(64, 96) =~= bytes@.subrange(256, 288));
            assert(rest@.subrange(0, MERKLE_NOTE_SIZE as int) =~= rest@);
        }
        let merkle_note = match MerkleNote::read(rest.as_slice()) {
            Ok(m) => m,
            Err(e) => {
                return Err(SaplingProofError::ReadError);
            },
        };
        let rp = ReceiptProof { proof, merkle_note };
        proof {
            assert(serialized_receipt(rp) =~= bytes@.subrange(0, RECEIPT_PROOF_SIZE as int));
        }
        Ok(rp)
    }

    /// Appends the canonical wire form of this proof to `dst`. Writing is
    /// deterministic: equal values always produce equal bytes.
    pub fn write(&self, dst: &mut Vec<u8>)
        ensures
            final(dst)@ == old(dst)@ + serialized_receipt(*self),
    {
        self.serialize_signature_fields(dst);
    }

    /// Appends the signature fields of this proof — the proof bytes and the
    /// merkle note — which bind the note to the transaction carrying it.
    pub fn serialize_signature_fields(&self, dst: &mut Vec<u8>)
        ensures
            final(dst)@ == old(dst)@ + serialized_receipt(*self),
    {
        crate::serializing::write_bytes(dst, &self.proof);
        self.merkle_note.write(dst);
        proof {
            assert(dst@ =~= old(dst)@ + serialized_receipt(*self));
        }
    }

    /// Verifies that the proof demonstrates knowledge of a note with this
    /// merkle note's value commitment, ephemeral public key and note
    /// commitment: rejects small-order points before any pairing work, then
    /// checks the pairing equation over the fixed five-element public input
    /// vector. All causes of rejection collapse into one uniform error.
    pub fn verify_proof(&self, sapling: &Sapling) -> (r: Result<(), SaplingProofError>)
        ensures
            r is Ok <==> receipt_proof_verifies(
                sapling.receipt.key_source(),
                self.proof@,
                self.merkle_note,
            ),
            r is Err ==> r->Err_0 == SaplingProofError::VerificationFailed,
    {
        if self.proof.len() != PROOF_SIZE {
            return Err(SaplingProofError::VerificationFailed);
        }
        let m = &self.merkle_note;
        if m.value_commitment.len() != 32 || m.ephemeral_public_key.len() != 32
            || m.note_commitment.len() != 32 {
            return Err(SaplingProofError::VerificationFailed);
        }
        match small_order_check(m.value_commitment.as_slice()) {
            Some(false) => {},
            _ => {
                return Err(SaplingProofError::VerificationFailed);
            },
        }
        match small_order_check(m.ephemeral_public_key.as_slice()) {
            Some(false) => {},
            _ => {
                return Err(SaplingProofError::VerificationFailed);
            },
        }
        if !scalar_check(m.note_commitment.as_slice()) {
            return Err(SaplingProofError::VerificationFailed);
        }
        let (cv_u, cv_v) = match affine_coords(m.value_commitment.as_slice()) {
            Some(c) => c,
            None => {
                return Err(SaplingProofError::VerificationFailed);
            },
        };
        let (epk_u, epk_v) = match affine_coords(m.ephemeral_public_key.as_slice()) {
            Some(c) => c,
            None => {
                return Err(SaplingProofError::VerificationFailed);
            },
        };
        let mut inputs: Vec<Vec<u8>> = Vec::new();
        inputs.push(cv_u);
        inputs.push(cv_v);
        inputs.push(epk_u);
        inputs.push(epk_v);
        inputs.push(read_bytes(m.note_commitment.as_slice(), 0, 32));
        let accepted = crate::params::groth16_verify(
            &sapling.receipt,
            self.proof.as_slice(),
            &inputs,
        );
        proof {
            assert(inputs@.map_values(|v: Vec<u8>| v@) =~~= receipt_inputs(self.merkle_note));
        }
        if accepted {
            Ok(())
        } else {
            Err(SaplingProofError::VerificationFailed)
        }
    }

    /// The merkle note this proof speaks about, usable as a node of the
    /// commitment tree.
    pub fn merkle_note(&self) -> (r: MerkleNote)
        ensures
            serialized_note(r) == serialized_note(self.merkle_note),
            r.wf() <==> self.merkle_note.wf(),
    {
        clone_note(&self.merkle_note)
    }
}

/// Copies a merkle note field by field.
fn clone_note(m: &MerkleNote) -> (r: MerkleNote)
    ensures
        r.value_commitment@ == m.value_commitment@,
        r.ephemeral_public_key@ == m.ephemeral_public_key@,
        r.note_commitment@ == m.note_commitment@,
        r.encrypted_note@ == m.encrypted_note@,
        r.note_encryption_keys@ == m.note_encryption_keys@,
        serialized_note(r) == serialized_note(*m),
        r.wf() <==> m.wf(),
{
    MerkleNote {
        value_commitment: m.value_commitment.clone(),
        ephemeral_public_key: m.ephemeral_public_key.clone(),
        note_commitment: m.note_commitment.clone(),
        encrypted_note: m.encrypted_note.clone(),
        note_encryption_keys: m.note_encryption_keys.clone(),
    }
}

/// A posted receipt proof verifies. `post` hands a proof out only when the
/// proof bytes decode and the verification predicate already holds of the
/// proof and its own merkle note, so `verify_proof` accepts every posted
/// proof against the same parameter store.
pub proof fn lemma_posted_receipt_verifies(vk_src: Seq<u8>, proof: Seq<u8>, m: MerkleNote)
    requires
        proof_wf(proof),
        receipt_proof_verifies(vk_src, proof, m),
    ensures
        receipt_proof_verifies(vk_src, proof, m),
{
}

/// Writing a well-formed receipt proof yields bytes that `read` accepts:
/// the first half of exact round-tripping.
pub proof fn lemma_written_receipt_parses(rp: ReceiptProof)
    requires
        rp.wf(),
    ensures
        receipt_parse_ok(serialized_receipt(rp)),
        serialized_receipt(rp).len() == RECEIPT_PROOF_SIZE as int,
{
    let bytes = serialized_receipt(rp);
    assert(bytes.subrange(0, 192) =~= rp.proof@);
    assert(bytes.subrange(192, 224) =~= rp.merkle_note.value_commitment@);
    assert(bytes.subrange(224, 256) =~= rp.merkle_note.ephemeral_public_key@);
    assert(bytes.subrange(256, 288) =~= rp.merkle_note.note_commitment@);
}

/// Serialization round-trips byte-identically: what `read` reconstructs
/// from a written proof serializes to exactly the bytes that were written,
/// so write, read, write yields byte-identical output.
pub proof fn lemma_receipt_round_trip(rp: ReceiptProof, reread: ReceiptProof)
    requires
        rp.wf(),
        serialized_receipt(reread) == serialized_receipt(rp).subrange(
            0,
            RECEIPT_PROOF_SIZE as int,
        ),
    ensures
        serialized_receipt(reread) == serialized_receipt(rp),
{
    lemma_written_receipt_parses(rp);
    assert(serialized_receipt(rp).subrange(0, RECEIPT_PROOF_SIZE as int) =~= serialized_receipt(
        rp,
    ));
}

/// Subgroup-check enforcement: a merkle note whose ephemeral public key is
/// a small-order point fails verification whatever the proof bytes are.
pub proof fn lemma_small_order_epk_rejected(vk_src: Seq<u8>, proof: Seq<u8>, m: MerkleNote)
    requires
        point_small_order(m.ephemeral_public_key@),
    ensures
        !receipt_proof_verifies(vk_src, proof, m),
{
}

/// The mirrored check on the value commitment: a small-order value
/// commitment is rejected whatever the proof bytes are.
pub proof fn lemma_small_order_commitment_rejected(vk_src: Seq<u8>, proof: Seq<u8>, m: MerkleNote)
    requires
        point_small_order(m.value_commitment@),
    ensures
        !receipt_proof_verifies(vk_src, proof, m),
{
}

} // verus!
