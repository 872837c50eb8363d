use vstd::prelude::*;
use crate::asset::{value_commitment_of, AssetType};
use crate::keys::PublicAddress;
use crate::primitives::{
    blake3_wide, fr_reduce, fr_reduce_of, fr_valid, random_bytes, scalar_reduce, scalar_reduce_of,
    scalar_valid, wide_hash_of,
};
use crate::serializing::{u64_le_bytes, write_bytes, write_u64_le};

verus! {

/// Domain byte of the note-commitment hash.
pub const NOTE_COMMITMENT_DOMAIN: u8 = 9;

/// The note-commitment scalar: a single field element binding the owner's
/// diversified generator and transmission key, the value, the memo, the
/// asset identifier and the note's blinding randomness.
pub open spec fn note_commitment_of(
    g_d: Seq<u8>,
    pk_d: Seq<u8>,
    value: u64,
    memo: Seq<u8>,
    asset_id: Seq<u8>,
    randomness: Seq<u8>,
) -> Seq<u8> {
    scalar_reduce_of(
        wide_hash_of(
            seq![NOTE_COMMITMENT_DOMAIN] + g_d + pk_d + u64_le_bytes(value) + memo + asset_id
                + randomness,
        ),
    )
}

/// A fixed-size opaque memo carried with a note.
pub struct Memo(pub Vec<u8>);

impl Memo {
    /// A memo holds exactly 32 bytes.
    pub open spec fn wf(&self) -> bool {
        self.0@.len() == 32
    }
}

/// A confidential record of value: who owns it, how much of which asset,
/// an opaque memo, and the per-note randomness that blinds its commitment.
pub struct Note {
    /// The owner's public address.
    pub owner: PublicAddress,
    /// The number of units the note carries.
    pub value: u64,
    /// The fixed-size opaque memo field.
    pub memo: Memo,
    /// The asset the value is denominated in.
    pub asset_type: AssetType,
    /// The per-note randomness blinding the note commitment. Drawn fresh at
    /// construction, never derived from note content.
    pub randomness: Vec<u8>,
}

impl Note {
    /// Structural well-formedness of a note and of everything it embeds.
    pub open spec fn wf(&self) -> bool {
        &&& self.owner.wf()
        &&& self.memo.wf()
        &&& self.asset_type.wf()
        &&& self.randomness@.len() == 32
        &&& fr_valid(self.randomness@)
    }

    /// Creates a note for `owner` over `value` units of `asset_type`,
    /// drawing the commitment-blinding randomness from a full-width 64-byte
    /// uniform draw.
    pub fn new(owner: PublicAddress, value: u64, memo: Memo, asset_type: AssetType) -> (r: Note)
        ensures
            r.owner == owner,
            r.value == value,
            r.memo == memo,
            r.asset_type == asset_type,
            r.randomness@.len() == 32,
            fr_valid(r.randomness@),
            owner.wf() && memo.wf() && asset_type.wf() ==> r.wf(),
    {
        let wide = random_bytes(64);
        let randomness = fr_reduce(wide.as_slice());
        Note { owner, value, memo, asset_type, randomness }
    }

    /// The note-commitment scalar of this note, the leaf value the note
    /// takes in the commitment tree. Deterministic in the note's fields.
    pub fn commitment(&self) -> (r: Vec<u8>)
        ensures
            r@ == note_commitment_of(
                self.owner.g_d@,
                self.owner.pk_d@,
                self.value,
                self.memo.0@,
                self.asset_type.identifier@,
                self.randomness@,
            ),
            r@.len() == 32,
            scalar_valid(r@),
    {
        let mut pre: Vec<u8> = Vec::new();
        pre.push(NOTE_COMMITMENT_DOMAIN);
        write_bytes(&mut pre, &self.owner.g_d);
        write_bytes(&mut pre, &self.owner.pk_d);
        write_u64_le(&mut pre, self.value);
        write_bytes(&mut pre, &self.memo.0);
        write_bytes(&mut pre, &self.asset_type.identifier);
        write_bytes(&mut pre, &self.randomness);
        proof {
            assert(pre@ =~= seq![NOTE_COMMITMENT_DOMAIN] + self.owner.g_d@ + self.owner.pk_d@
                + u64_le_bytes(self.value) + self.memo.0@ + self.asset_type.identifier@
                + self.randomness@);
        }
        scalar_reduce(blake3_wide(pre.as_slice()).as_slice())
    }
}

/// Reusing identical commitment randomness across two distinct notes of the
/// same asset and value produces identical value commitments: the value
/// commitment depends only on the asset's generator, the value and the
/// randomness, never on the owner or the memo.
pub proof fn lemma_commitment_randomness_reuse(n1: Note, n2: Note, blind: Seq<u8>, rand: Seq<u8>)
    requires
        n1.asset_type.generator@ == n2.asset_type.generator@,
        n1.value == n2.value,
    ensures
        value_commitment_of(n1.asset_type.generator@, blind, n1.value, rand)
            == value_commitment_of(n2.asset_type.generator@, blind, n2.value, rand),
{
}

} // verus!
