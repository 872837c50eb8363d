use vstd::prelude::*;
use crate::errors::SaplingProofError;
use crate::primitives::{
    blake3_hash, blake3_wide, fr_reduce, fr_reduce_of, fr_valid, hash_of, point_mul, point_mul_of,
    point_valid, random_bytes, wide_hash_of,
};
use crate::serializing::read_bytes;

verus! {

/// Domain byte of the incoming-view-scalar hash.
pub const IVK_DOMAIN: u8 = 4;

/// Domain byte of the outgoing-view-key hash.
pub const OVK_DOMAIN: u8 = 5;

/// Domain byte of the diversifier hash.
pub const DIVERSIFIER_DOMAIN: u8 = 6;

/// Domain byte of the nullifier-key hash.
pub const NULLIFIER_KEY_DOMAIN: u8 = 7;

/// Domain byte of the diversified-generator group hash.
pub const DIVERSIFIED_GENERATOR_DOMAIN: u8 = 8;

/// The 11-byte diversifier derived from a spending key.
pub open spec fn diversifier_of(sk: Seq<u8>) -> Seq<u8> {
    hash_of(seq![DIVERSIFIER_DOMAIN] + sk).subrange(0, 11)
}

/// The diversified generator bound to a diversifier, when the group hash
/// clears the cofactor to a usable point.
pub open spec fn g_d_of(d: Seq<u8>) -> Option<Seq<u8>> {
    crate::group_hash::group_hash_of(DIVERSIFIED_GENERATOR_DOMAIN, d)
}

/// The incoming-view scalar derived from a spending key.
pub open spec fn ivk_of(sk: Seq<u8>) -> Seq<u8> {
    fr_reduce_of(wide_hash_of(seq![IVK_DOMAIN] + sk))
}

/// The outgoing view key derived from a spending key.
pub open spec fn ovk_of(sk: Seq<u8>) -> Seq<u8> {
    hash_of(seq![OVK_DOMAIN] + sk)
}

/// The nullifier key derived from a spending key.
pub open spec fn nullifier_key_of(sk: Seq<u8>) -> Seq<u8> {
    hash_of(seq![NULLIFIER_KEY_DOMAIN] + sk)
}

/// A spender's secret key material.
pub struct SaplingKey {
    /// The 32-byte spending key every other key is derived from.
    pub spending_key: Vec<u8>,
}

/// The public address of a note owner: the diversifier, its diversified
/// generator, and the transmission key that receives the note.
pub struct PublicAddress {
    /// The 11-byte diversifier.
    pub diversifier: Vec<u8>,
    /// The diversified generator derived from the diversifier.
    pub g_d: Vec<u8>,
    /// The transmission key: the diversified generator times the owner's
    /// incoming-view scalar.
    pub pk_d: Vec<u8>,
}

impl PublicAddress {
    /// Structural well-formedness: field widths, and both points decode.
    pub open spec fn wf(&self) -> bool {
        &&& self.diversifier@.len() == 11
        &&& self.g_d@.len() == 32
        &&& self.pk_d@.len() == 32
        &&& point_valid(self.g_d@)
        &&& point_valid(self.pk_d@)
    }

    /// Draws a fresh ephemeral Diffie-Hellman pair for this address: a
    /// secret scalar and the matching public point on the address's
    /// diversified generator. The secret is reduced from a full-width
    /// 64-byte uniform draw.
    pub fn generate_diffie_hellman_keys(&self) -> (r: Result<
        (Vec<u8>, Vec<u8>),
        SaplingProofError,
    >)
        ensures
            r is Ok <==> (self.g_d@.len() == 32 && point_valid(self.g_d@)),
            r is Ok ==> {
                &&& r->Ok_0.0@.len() == 32
                &&& fr_valid(r->Ok_0.0@)
                &&& r->Ok_0.1@ == point_mul_of(self.g_d@, r->Ok_0.0@)
                &&& r->Ok_0.1@.len() == 32
                &&& point_valid(r->Ok_0.1@)
            },
            r is Err ==> r->Err_0 == SaplingProofError::SaplingProofCreationError,
    {
        if self.g_d.len() != 32 {
            return Err(SaplingProofError::SaplingProofCreationError);
        }
        let wide = random_bytes(64);
        let esk = fr_reduce(wide.as_slice());
        match point_mul(self.g_d.as_slice(), esk.as_slice()) {
            Some(epk) => Ok((esk, epk)),
            None => Err(SaplingProofError::SaplingProofCreationError),
        }
    }
}

impl SaplingKey {
    /// Structural well-formedness: the spending key is 32 bytes.
    pub open spec fn wf(&self) -> bool {
        self.spending_key@.len() == 32
    }

    /// Wraps existing spending-key bytes; rejects any width but 32.
    pub fn new(spending_key: Vec<u8>) -> (r: Result<SaplingKey, SaplingProofError>)
        ensures
            r is Ok <==> spending_key@.len() == 32,
            r is Ok ==> r->Ok_0.spending_key@ == spending_key@,
            r is Err ==> r->Err_0 == SaplingProofError::SaplingProofCreationError,
    {
        if spending_key.len() != 32 {
            return Err(SaplingProofError::SaplingProofCreationError);
        }
        Ok(SaplingKey { spending_key })
    }

    /// Draws a fresh random spending key.
    pub fn generate_key() -> (r: SaplingKey)
        ensures
            r.wf(),
    {
        SaplingKey { spending_key: random_bytes(32) }
    }

    /// Derives the public address of this key: the diversifier, its
    /// diversified generator, and the transmission key. Fails exactly when
    /// the diversifier's group hash clears the cofactor to nothing usable.
    pub fn generate_public_address(&self) -> (r: Result<PublicAddress, SaplingProofError>)
        requires
            self.wf(),
        ensures
            r is Ok <==> g_d_of(diversifier_of(self.spending_key@)) is Some,
            r is Ok ==> {
                &&& r->Ok_0.wf()
                &&& r->Ok_0.diversifier@ == diversifier_of(self.spending_key@)
                &&& Some(r->Ok_0.g_d@) == g_d_of(r->Ok_0.diversifier@)
                &&& r->Ok_0.pk_d@ == point_mul_of(r->Ok_0.g_d@, ivk_of(self.spending_key@))
            },
            r is Err ==> r->Err_0 == SaplingProofError::SaplingProofCreationError,
    {
        let mut d_pre: Vec<u8> = Vec::new();
        d_pre.push(DIVERSIFIER_DOMAIN);
        crate::serializing::write_bytes(&mut d_pre, &self.spending_key);
        proof {
            assert(d_pre@ =~= seq![DIVERSIFIER_DOMAIN] + self.spending_key@);
        }
        let d_hash = blake3_hash(d_pre.as_slice());
        let diversifier = read_bytes(d_hash.as_slice(), 0, 11);
        let g_d = match crate::group_hash::find_group_hash(
            DIVERSIFIED_GENERATOR_DOMAIN,
            &diversifier,
        ) {
            Some(g) => g,
            None => {
                return Err(SaplingProofError::SaplingProofCreationError);
            },
        };
        let mut ivk_pre: Vec<u8> = Vec::new();
        ivk_pre.push(IVK_DOMAIN);
        crate::serializing::write_bytes(&mut ivk_pre, &self.spending_key);
        proof {
            assert(ivk_pre@ =~= seq![IVK_DOMAIN] + self.spending_key@);
        }
        let ivk = fr_reduce(blake3_wide(ivk_pre.as_slice()).as_slice());
        match point_mul(g_d.as_slice(), ivk.as_slice()) {
            Some(pk_d) => Ok(PublicAddress { diversifier, g_d, pk_d }),
            None => Err(SaplingProofError::SaplingProofCreationError),
        }
    }

    /// Derives the outgoing view key, which lets the spender recover what it
    /// encrypted to a receiver.
    pub fn outgoing_view_key(&self) -> (r: Vec<u8>)
        requires
            self.wf(),
        ensures
            r@ == ovk_of(self.spending_key@),
            r@.len() == 32,
    {
        let mut pre: Vec<u8> = Vec::new();
        pre.push(OVK_DOMAIN);
        crate::serializing::write_bytes(&mut pre, &self.spending_key);
        proof {
            assert(pre@ =~= seq![OVK_DOMAIN] + self.spending_key@);
        }
        blake3_hash(pre.as_slice())
    }

    /// Derives the nullifier key, from which every nullifier of this
    /// spender's notes is computed.
    pub fn nullifier_key(&self) -> (r: Vec<u8>)
        requires
            self.wf(),
        ensures
            r@ == nullifier_key_of(self.spending_key@),
            r@.len() == 32,
    {
        let mut pre: Vec<u8> = Vec::new();
        pre.push(NULLIFIER_KEY_DOMAIN);
        crate::serializing::write_bytes(&mut pre, &self.spending_key);
        proof {
            assert(pre@ =~= seq![NULLIFIER_KEY_DOMAIN] + self.spending_key@);
        }
        blake3_hash(pre.as_slice())
    }
}

} // verus!
