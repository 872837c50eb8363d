use vstd::prelude::*;
use crate::errors::SaplingProofError;
use crate::primitives::{
    blake3_hash, cofactor_point, cofactor_point_of, fr_from_u64, fr_of_u64, fr_valid, hash_of,
    point_add, point_add_of, point_mul, point_mul_of, point_small_order, point_valid,
};

verus! {

/// Domain byte of the asset-identifier hash.
pub const ASSET_IDENTIFIER_DOMAIN: u8 = 1;

/// Domain byte of the asset-generator hash.
pub const ASSET_GENERATOR_DOMAIN: u8 = 2;

/// Domain byte of the blinding-generator hash.
pub const BLINDING_GENERATOR_DOMAIN: u8 = 3;

/// The canonical identifier derived from an asset name and a search nonce.
pub open spec fn asset_identifier_of(nonce: u8, name: Seq<u8>) -> Seq<u8> {
    hash_of(seq![ASSET_IDENTIFIER_DOMAIN, nonce] + name)
}

/// The value-commitment generator bound to an asset identifier: the
/// cofactor-cleared point derived from the identifier's generator hash, or
/// `None` when that derivation yields no usable point.
pub open spec fn asset_generator_of(identifier: Seq<u8>) -> Option<Seq<u8>> {
    cofactor_point_of(hash_of(seq![ASSET_GENERATOR_DOMAIN] + identifier))
}

/// Whether the identifier derived from `name` with nonce `n` has a usable
/// generator.
pub open spec fn asset_nonce_works(name: Seq<u8>, n: u8) -> bool {
    asset_generator_of(asset_identifier_of(n, name)) is Some
}

/// The fixed generator that blinds every value commitment.
pub open spec fn blinding_generator() -> Option<Seq<u8>> {
    crate::group_hash::group_hash_of(BLINDING_GENERATOR_DOMAIN, Seq::<u8>::empty())
}

/// The elliptic-curve value commitment: `value` times the asset's generator
/// plus `randomness` times the blinding generator.
pub open spec fn value_commitment_of(
    generator: Seq<u8>,
    blind: Seq<u8>,
    value: u64,
    randomness: Seq<u8>,
) -> Seq<u8> {
    point_add_of(point_mul_of(generator, fr_of_u64(value)), point_mul_of(blind, randomness))
}

/// An asset: a canonical 32-byte identifier bound to the curve generator
/// used for this asset's value commitments. Identical asset names always
/// derive the identical identifier and generator.
pub struct AssetType {
    /// The canonical identifier of the asset.
    pub identifier: Vec<u8>,
    /// The value-commitment generator bound to the identifier.
    pub generator: Vec<u8>,
    /// The search nonce under which the identifier's generator exists.
    pub nonce: u8,
}

impl AssetType {
    /// A well-formed asset binds a generator that was genuinely derived from
    /// its identifier.
    pub open spec fn wf(&self) -> bool {
        &&& self.identifier@.len() == 32
        &&& self.generator@.len() == 32
        &&& asset_generator_of(self.identifier@) == Some(self.generator@)
        &&& point_valid(self.generator@)
        &&& !point_small_order(self.generator@)
    }

    /// Derives the asset for `name`: the identifier under the smallest nonce
    /// whose generator hash clears the cofactor to a usable point. Fails only
    /// when no nonce works.
    pub fn new(name: &[u8]) -> (r: Result<AssetType, SaplingProofError>)
        ensures
            r is Ok ==> {
                &&& r->Ok_0.wf()
                &&& asset_nonce_works(name@, r->Ok_0.nonce)
                &&& forall|m: u8| m < r->Ok_0.nonce ==> !asset_nonce_works(name@, m)
                &&& r->Ok_0.identifier@ == asset_identifier_of(r->Ok_0.nonce, name@)
            },
            r is Err ==> {
                &&& (forall|m: u8| !asset_nonce_works(name@, m))
                &&& r->Err_0 == SaplingProofError::SaplingProofCreationError
            },
    {
        let mut nonce: usize = 0;
        while nonce < 256
            invariant
                nonce <= 256,
                forall|m: u8| m < nonce ==> !asset_nonce_works(name@, m),
            decreases 256 - nonce,
        {
            let n: u8 = nonce as u8;
            let mut pre: Vec<u8> = Vec::new();
            pre.push(ASSET_IDENTIFIER_DOMAIN);
            pre.push(n);
            let mut j: usize = 0;
            while j < name.len()
                invariant
                    j <= name@.len(),
                    pre@ == seq![ASSET_IDENTIFIER_DOMAIN, n] + name@.subrange(0, j as int),
                decreases name@.len() - j,
            {
                pre.push(name[j]);
                j = j + 1;
                proof {
                    assert(pre@ =~= seq![ASSET_IDENTIFIER_DOMAIN, n] + name@.subrange(
                        0,
                        j as int,
                    ));
                }
            }
            proof {
                assert(pre@ =~= seq![ASSET_IDENTIFIER_DOMAIN, n] + name@);
            }
            let identifier = blake3_hash(pre.as_slice());
            let mut gen_pre: Vec<u8> = Vec::new();
            gen_pre.push(ASSET_GENERATOR_DOMAIN);
            crate::serializing::write_bytes(&mut gen_pre, &identifier);
            proof {
                assert(gen_pre@ =~= seq![ASSET_GENERATOR_DOMAIN] + identifier@);
            }
            let gen_hash = blake3_hash(gen_pre.as_slice());
            match cofactor_point(gen_hash.as_slice()) {
                Some(generator) => {
                    return Ok(AssetType { identifier, generator, nonce: n });
                },
                None => {},
            }
            nonce = nonce + 1;
        }
        Err(SaplingProofError::SaplingProofCreationError)
    }

    /// The value commitment for `value` units of this asset under the given
    /// commitment randomness: deterministic in its three inputs.
    pub fn value_commitment(&self, value: u64, randomness: &[u8]) -> (r: Result<
        Vec<u8>,
        SaplingProofError,
    >)
        ensures
            r is Ok <==> {
                &&& self.generator@.len() == 32
                &&& randomness@.len() == 32
                &&& blinding_generator() is Some
                &&& point_valid(self.generator@)
                &&& fr_valid(randomness@)
            },
            r is Ok ==> {
                &&& r->Ok_0@ == value_commitment_of(
                    self.generator@,
                    blinding_generator()->Some_0,
                    value,
                    randomness@,
                )
                &&& r->Ok_0@.len() == 32
                &&& point_valid(r->Ok_0@)
            },
            r is Err ==> r->Err_0 == SaplingProofError::SaplingProofCreationError,
    {
        if self.generator.len() != 32 || randomness.len() != 32 {
            return Err(SaplingProofError::SaplingProofCreationError);
        }
        let empty_tag: Vec<u8> = Vec::new();
        proof {
            assert(empty_tag@ =~= Seq::<u8>::empty());
        }
        let blind = match crate::group_hash::find_group_hash(BLINDING_GENERATOR_DOMAIN, &empty_tag) {
            Some(b) => b,
            None => {
                return Err(SaplingProofError::SaplingProofCreationError);
            },
        };
        let value_scalar = fr_from_u64(value);
        let value_part = match point_mul(self.generator.as_slice(), value_scalar.as_slice()) {
            Some(p) => p,
            None => {
                return Err(SaplingProofError::SaplingProofCreationError);
            },
        };
        let blind_part = match point_mul(blind.as_slice(), randomness) {
            Some(p) => p,
            None => {
                return Err(SaplingProofError::SaplingProofCreationError);
            },
        };
        match point_add(value_part.as_slice(), blind_part.as_slice()) {
            Some(cv) => Ok(cv),
            None => Err(SaplingProofError::SaplingProofCreationError),
        }
    }
}

/// Identical asset names always derive the identical identifier and
/// generator: any two assets that `AssetType::new` can return for the same
/// name are equal in identifier, nonce and generator.
pub proof fn lemma_asset_derivation_deterministic(name: Seq<u8>, a: AssetType, b: AssetType)
    requires
        a.wf(),
        b.wf(),
        asset_nonce_works(name, a.nonce),
        asset_nonce_works(name, b.nonce),
        forall|m: u8| m < a.nonce ==> !asset_nonce_works(name, m),
        forall|m: u8| m < b.nonce ==> !asset_nonce_works(name, m),
        a.identifier@ == asset_identifier_of(a.nonce, name),
        b.identifier@ == asset_identifier_of(b.nonce, name),
    ensures
        a.nonce == b.nonce,
        a.identifier@ == b.identifier@,
        a.generator@ == b.generator@,
{
    if a.nonce < b.nonce {
        assert(!asset_nonce_works(name, a.nonce));
    }
    if b.nonce < a.nonce {
        assert(!asset_nonce_works(name, b.nonce));
    }
}

} // verus!
