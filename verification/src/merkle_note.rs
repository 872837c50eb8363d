use vstd::prelude::*;
use crate::errors::SaplingProofError;
use crate::keys::{ovk_of, SaplingKey};
use crate::note::{note_commitment_of, Note};
use crate::primitives::{
    blake3_hash, fr_valid, hash_of, point_check, point_mul, point_mul_of, point_valid,
    scalar_check, scalar_valid, seal, sealed_with,
};
use crate::serializing::{read_bytes, u64_le_bytes, write_bytes};

verus! {

/// Domain byte of the note-encryption key hash.
pub const SHARED_KEY_DOMAIN: u8 = 10;

/// Domain byte of the outgoing-encryption key hash.
pub const OUTGOING_KEY_DOMAIN: u8 = 11;

/// Width of the encrypted note payload: an 115-byte plaintext plus the tag.
pub const ENCRYPTED_NOTE_SIZE: usize = 131;

/// Width of the encrypted key material: a 64-byte plaintext plus the tag.
pub const NOTE_ENCRYPTION_KEYS_SIZE: usize = 80;

/// Width of a serialized merkle note.
pub const MERKLE_NOTE_SIZE: usize = 307;

/// The all-zero nonce: each payload is sealed under a fresh one-time key,
/// so the nonce carries no variability.
pub open spec fn zero_nonce() -> Seq<u8> {
    Seq::new(12, |i: int| 0u8)
}

/// The symmetric key the receiver can derive: bound to the Diffie-Hellman
/// shared secret and the ephemeral public key.
pub open spec fn shared_key_of(shared_secret: Seq<u8>, epk: Seq<u8>) -> Seq<u8> {
    hash_of(seq![SHARED_KEY_DOMAIN] + shared_secret + epk)
}

/// The symmetric key the spender can re-derive from its outgoing view key:
/// bound to the value commitment, the note commitment and the ephemeral key.
pub open spec fn outgoing_key_of(ovk: Seq<u8>, cv: Seq<u8>, cm: Seq<u8>, epk: Seq<u8>) -> Seq<u8> {
    hash_of(seq![OUTGOING_KEY_DOMAIN] + ovk + cv + cm + epk)
}

/// The plaintext of the encrypted note payload: diversifier, value,
/// commitment randomness, memo and asset identifier, in that order.
pub open spec fn note_plaintext_of(note: Note) -> Seq<u8> {
    note.owner.diversifier@ + u64_le_bytes(note.value) + note.randomness@ + note.memo.0@
        + note.asset_type.identifier@
}

/// The publicly visible form of an output note, the exact values the
/// receipt proof speaks about: written verbatim into transactions and into
/// the chain's note tree.
pub struct MerkleNote {
    /// The value commitment the proof opens.
    pub value_commitment: Vec<u8>,
    /// The ephemeral public key of the Diffie-Hellman exchange.
    pub ephemeral_public_key: Vec<u8>,
    /// The note-commitment scalar, the note's leaf in the tree.
    pub note_commitment: Vec<u8>,
    /// The note contents, sealed under the receiver's derived key.
    pub encrypted_note: Vec<u8>,
    /// The key material, sealed under the spender's outgoing key.
    pub note_encryption_keys: Vec<u8>,
}

/// The canonical wire form of a merkle note: its five fields in order, each
/// in its fixed width, with no length prefixes.
pub open spec fn serialized_note(m: MerkleNote) -> Seq<u8> {
    m.value_commitment@ + m.ephemeral_public_key@ + m.note_commitment@ + m.encrypted_note@
        + m.note_encryption_keys@
}

impl MerkleNote {
    /// Well-formedness: exact field widths, both points decode, and the
    /// note commitment is a canonical scalar.
    pub open spec fn wf(&self) -> bool {
        &&& self.value_commitment@.len() == 32
        &&& self.ephemeral_public_key@.len() == 32
        &&& self.note_commitment@.len() == 32
        &&& self.encrypted_note@.len() == ENCRYPTED_NOTE_SIZE as int
        &&& self.note_encryption_keys@.len() == NOTE_ENCRYPTION_KEYS_SIZE as int
        &&& point_valid(self.value_commitment@)
        &&& point_valid(self.ephemeral_public_key@)
        &&& scalar_valid(self.note_commitment@)
    }

    /// Builds the public note record: commits the note, encrypts its
    /// contents under the Diffie-Hellman shared secret, and encrypts the
    /// key material under the spender's outgoing key.
    pub fn new(
        spender_key: &SaplingKey,
        note: &Note,
        value_commitment: &Vec<u8>,
        diffie_hellman_keys: &(Vec<u8>, Vec<u8>),
    ) -> (r: Result<MerkleNote, SaplingProofError>)
        requires
            spender_key.wf(),
        ensures
            r is Ok <==> {
                &&& value_commitment@.len() == 32
                &&& diffie_hellman_keys.0@.len() == 32
                &&& diffie_hellman_keys.1@.len() == 32
                &&& note.owner.pk_d@.len() == 32
                &&& note.owner.diversifier@.len() == 11
                &&& note.memo.0@.len() == 32
                &&& note.asset_type.identifier@.len() == 32
                &&& note.randomness@.len() == 32
                &&& point_valid(value_commitment@)
                &&& point_valid(diffie_hellman_keys.1@)
                &&& point_valid(note.owner.pk_d@)
                &&& fr_valid(diffie_hellman_keys.0@)
            },
            r is Ok ==> {
                &&& r->Ok_0.wf()
                &&& r->Ok_0.value_commitment@ == value_commitment@
                &&& r->Ok_0.ephemeral_public_key@ == diffie_hellman_keys.1@
                &&& r->Ok_0.note_commitment@ == note_commitment_of(
                    note.owner.g_d@,
                    note.owner.pk_d@,
                    note.value,
                    note.memo.0@,
                    note.asset_type.identifier@,
                    note.randomness@,
                )
                &&& r->Ok_0.encrypted_note@ == sealed_with(
                    shared_key_of(
                        point_mul_of(note.owner.pk_d@, diffie_hellman_keys.0@),
                        diffie_hellman_keys.1@,
                    ),
                    zero_nonce(),
                    note_plaintext_of(*note),
                )
                &&& r->Ok_0.note_encryption_keys@ == sealed_with(
                    outgoing_key_of(
                        ovk_of(spender_key.spending_key@),
                        value_commitment@,
                        r->Ok_0.note_commitment@,
                        diffie_hellman_keys.1@,
                    ),
                    zero_nonce(),
                    note.owner.pk_d@ + diffie_hellman_keys.0@,
                )
            },
            r is Err ==> r->Err_0 == SaplingProofError::SaplingProofCreationError,
    {
        let esk = &diffie_hellman_keys.0;
        let epk = &diffie_hellman_keys.1;
        if value_commitment.len() != 32 || esk.len() != 32 || epk.len() != 32
            || note.owner.pk_d.len() != 32 || note.owner.diversifier.len() != 11
            || note.memo.0.len() != 32 || note.asset_type.identifier.len() != 32
            || note.randomness.len() != 32 {
            return Err(SaplingProofError::SaplingProofCreationError);
        }
        if !point_check(value_commitment.as_slice()) || !point_check(epk.as_slice()) {
            return Err(SaplingProofError::SaplingProofCreationError);
        }
        let note_commitment = note.commitment();
        let shared_secret = match point_mul(note.owner.pk_d.as_slice(), esk.as_slice()) {
            Some(s) => s,
            None => {
                return Err(SaplingProofError::SaplingProofCreationError);
            },
        };
        let nonce = zero_nonce_bytes();

        let mut key_pre: Vec<u8> = Vec::new();
        key_pre.push(SHARED_KEY_DOMAIN);
        write_bytes(&mut key_pre, &shared_secret);
        write_bytes(&mut key_pre, epk);
        proof {
            assert(key_pre@ =~= seq![SHARED_KEY_DOMAIN] + shared_secret@ + epk@);
        }
        let shared_key = blake3_hash(key_pre.as_slice());

        let mut plain: Vec<u8> = Vec::new();
        write_bytes(&mut plain, &note.owner.diversifier);
        crate::serializing::write_u64_le(&mut plain, note.value);
        write_bytes(&mut plain, &note.randomness);
        write_bytes(&mut plain, &note.memo.0);
        write_bytes(&mut plain, &note.asset_type.identifier);
        proof {
            assert(plain@ =~= note_plaintext_of(*note));
        }
        let encrypted_note = seal(shared_key.as_slice(), nonce.as_slice(), plain.as_slice());

        let ovk = spender_key.outgoing_view_key();
        let mut out_pre: Vec<u8> = Vec::new();
        out_pre.push(OUTGOING_KEY_DOMAIN);
        write_bytes(&mut out_pre, &ovk);
        write_bytes(&mut out_pre, value_commitment);
        write_bytes(&mut out_pre, &note_commitment);
        write_bytes(&mut out_pre, epk);
        proof {
            assert(out_pre@ =~= seq![OUTGOING_KEY_DOMAIN] + ovk@ + value_commitment@
                + note_commitment@ + epk@);
        }
        let outgoing_key = blake3_hash(out_pre.as_slice());

        let mut keys_plain: Vec<u8> = Vec::new();
        write_bytes(&mut keys_plain, &note.owner.pk_d);
        write_bytes(&mut keys_plain, esk);
        proof {
            assert(keys_plain@ =~= note.owner.pk_d@ + esk@);
        }
        let note_encryption_keys = seal(
            outgoing_key.as_slice(),
            nonce.as_slice(),
            keys_plain.as_slice(),
        );

        Ok(
            (MerkleNote {
                value_commitment: value_commitment.clone(),
                ephemeral_public_key: epk.clone(),
                note_commitment,
                encrypted_note,
                note_encryption_keys,
            }),
        )
    }

    /// Parses a merkle note from the front of `bytes`: five fixed-width
    /// fields, rejecting truncated input, a value commitment or ephemeral
    /// key that is no curve point, and a non-canonical note commitment.
    /// Nothing is constructed on failure.
    pub fn read(bytes: &[u8]) -> (r: Result<MerkleNote, SaplingProofError>)
        ensures
            r is Ok <==> {
                &&& bytes@.len() >= MERKLE_NOTE_SIZE as int
                &&& point_valid(bytes@.subrange(0, 32))
                &&& point_valid(bytes@.subrange(32, 64))
                &&& scalar_valid(bytes@.subrange(64, 96))
            },
            r is Ok ==> {
                &&& r->Ok_0.wf()
                &&& serialized_note(r->Ok_0) == bytes@.subrange(0, MERKLE_NOTE_SIZE as int)
            },
            r is Err ==> r->Err_0 == SaplingProofError::ReadError,
    {
        if bytes.len() < MERKLE_NOTE_SIZE {
            return Err(SaplingProofError::ReadError);
        }
        let value_commitment = read_bytes(bytes, 0, 32);
        let ephemeral_public_key = read_bytes(bytes, 32, 32);
        let note_commitment = read_bytes(bytes, 64, 32);
        let encrypted_note = read_bytes(bytes, 96, ENCRYPTED_NOTE_SIZE);
        let note_encryption_keys = read_bytes(bytes, 227, NOTE_ENCRYPTION_KEYS_SIZE);
        if !point_check(value_commitment.as_slice()) || !point_check(
            ephemeral_public_key.as_slice(),
        ) || !scalar_check(note_commitment.as_slice()) {
            return Err(SaplingProofError::ReadError);
        }
        let m = MerkleNote {
            value_commitment,
            ephemeral_public_key,
            note_commitment,
            encrypted_note,
            note_encryption_keys,
        };
        proof {
            assert(serialized_note(m) =~= bytes@.subrange(0, MERKLE_NOTE_SIZE as int));
        }
        Ok(m)
    }

    /// Appends the canonical wire form of this note to `dst`: the five
    /// fields in order, each in its fixed width.
    pub fn write(&self, dst: &mut Vec<u8>)
        ensures
            final(dst)@ == old(dst)@ + serialized_note(*self),
    {
        write_bytes(dst, &self.value_commitment);
        write_bytes(dst, &self.ephemeral_public_key);
        write_bytes(dst, &self.note_commitment);
        write_bytes(dst, &self.encrypted_note);
        write_bytes(dst, &self.note_encryption_keys);
        proof {
            assert(dst@ =~= old(dst)@ + serialized_note(*self));
        }
    }
}

/// The all-zero 12-byte nonce as a vector.
pub fn zero_nonce_bytes() -> (r: Vec<u8>)
    ensures
        r@ == zero_nonce(),
{
    let mut v: Vec<u8> = Vec::new();
    let mut i: usize = 0;
    while i < 12
        invariant
            i <= 12,
            v@.len() == i,
            forall|j: int| 0 <= j < i ==> v@[j] == 0u8,
        decreases 12 - i,
    {
        v.push(0u8);
        i = i + 1;
    }
    proof {
        assert(v@ =~= zero_nonce());
    }
    v
}

} // verus!
