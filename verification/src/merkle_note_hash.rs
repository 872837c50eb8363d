use vstd::prelude::*;
use crate::errors::SaplingProofError;
use crate::primitives::{
    blake3_wide, scalar_check, scalar_reduce, scalar_reduce_of, scalar_valid, wide_hash_of,
};
use crate::serializing::{read_bytes, write_bytes};

verus! {

/// Domain byte of the merkle combine hash.
pub const MERKLE_HASH_DOMAIN: u8 = 12;

/// The scalar obtained by combining two sibling hashes at a tree depth:
/// the depth byte, then the left operand, then the right operand. Which
/// sibling stands on which side changes the result.
pub open spec fn combined_hash_of(depth: int, left: Seq<u8>, right: Seq<u8>) -> Seq<u8> {
    scalar_reduce_of(wide_hash_of(seq![MERKLE_HASH_DOMAIN, depth as u8] + left + right))
}

/// A node value of the note commitment tree: one field element.
pub struct MerkleNoteHash(pub Vec<u8>);

impl MerkleNoteHash {
    /// Well-formedness: a canonical 32-byte scalar.
    pub open spec fn wf(&self) -> bool {
        &&& self.0@.len() == 32
        &&& scalar_valid(self.0@)
    }

    /// Wraps existing node bytes; rejects anything but a canonical scalar.
    pub fn new(bytes: Vec<u8>) -> (r: Result<MerkleNoteHash, SaplingProofError>)
        ensures
            r is Ok <==> (bytes@.len() == 32 && scalar_valid(bytes@)),
            r is Ok ==> r->Ok_0.0@ == bytes@ && r->Ok_0.wf(),
            r is Err ==> r->Err_0 == SaplingProofError::ReadError,
    {
        if bytes.len() != 32 || !scalar_check(bytes.as_slice()) {
            return Err(SaplingProofError::ReadError);
        }
        Ok(MerkleNoteHash(bytes))
    }

    /// Parses a node value from the front of `bytes`.
    pub fn read(bytes: &[u8]) -> (r: Result<MerkleNoteHash, SaplingProofError>)
        ensures
            r is Ok <==> (bytes@.len() >= 32 && scalar_valid(bytes@.subrange(0, 32))),
            r is Ok ==> r->Ok_0.0@ == bytes@.subrange(0, 32) && r->Ok_0.wf(),
            r is Err ==> r->Err_0 == SaplingProofError::ReadError,
    {
        if bytes.len() < 32 {
            return Err(SaplingProofError::ReadError);
        }
        let v = read_bytes(bytes, 0, 32);
        if !scalar_check(v.as_slice()) {
            return Err(SaplingProofError::ReadError);
        }
        Ok(MerkleNoteHash(v))
    }

    /// Appends the 32-byte node value to `dst`.
    pub fn write(&self, dst: &mut Vec<u8>)
        ensures
            final(dst)@ == old(dst)@ + self.0@,
    {
        write_bytes(dst, &self.0);
    }

    /// Combines two sibling node values at `depth`, left operand first.
    /// Deterministic in its three inputs; swapping the operands changes
    /// what is hashed.
    pub fn combine_hash(depth: u8, left: &Vec<u8>, right: &Vec<u8>) -> (r: Vec<u8>)
        ensures
            r@ == combined_hash_of(depth as int, left@, right@),
            r@.len() == 32,
            scalar_valid(r@),
    {
        let mut pre: Vec<u8> = Vec::new();
        pre.push(MERKLE_HASH_DOMAIN);
        pre.push(depth);
        write_bytes(&mut pre, left);
        write_bytes(&mut pre, right);
        proof {
            assert(pre@ =~= seq![MERKLE_HASH_DOMAIN, depth] + left@ + right@);
            assert(depth as int as u8 == depth);
        }
        scalar_reduce(blake3_wide(pre.as_slice()).as_slice())
    }
}

} // verus!
