use vstd::prelude::*;
use crate::primitives::{
    blake3_hash, cofactor_point, cofactor_point_of, hash_of, point_small_order, point_valid,
};
use crate::serializing::write_bytes;

verus! {

/// The candidate point of one group-hash attempt: the domain byte and the
/// nonce, then the tag, hashed and cleared of the cofactor.
pub open spec fn group_hash_candidate(domain: u8, tag: Seq<u8>, nonce: u8) -> Option<Seq<u8>> {
    cofactor_point_of(hash_of(seq![domain, nonce] + tag))
}

/// The first usable candidate from nonce `n` upward, if any.
pub open spec fn first_group_hash(domain: u8, tag: Seq<u8>, n: int) -> Option<Seq<u8>>
    decreases 256 - n,
{
    if n < 0 || n >= 256 {
        None
    } else {
        match group_hash_candidate(domain, tag, n as u8) {
            Some(p) => Some(p),
            None => first_group_hash(domain, tag, n + 1),
        }
    }
}

/// The generator a domain and tag hash to: the first nonce whose candidate
/// clears the cofactor to a usable point. Identical inputs always derive
/// the identical generator.
pub open spec fn group_hash_of(domain: u8, tag: Seq<u8>) -> Option<Seq<u8>> {
    first_group_hash(domain, tag, 0)
}

/// Searches the nonces in order for the first usable generator.
pub fn find_group_hash(domain: u8, tag: &Vec<u8>) -> (r: Option<Vec<u8>>)
    ensures
        r is Some <==> group_hash_of(domain, tag@) is Some,
        r is Some ==> {
            &&& Some(r->Some_0@) == group_hash_of(domain, tag@)
            &&& r->Some_0@.len() == 32
            &&& point_valid(r->Some_0@)
            &&& !point_small_order(r->Some_0@)
        },
{
    let mut nonce: usize = 0;
    while nonce < 256
        invariant
            nonce <= 256,
            group_hash_of(domain, tag@) == first_group_hash(domain, tag@, nonce as int),
        decreases 256 - nonce,
    {
        let n: u8 = nonce as u8;
        let mut pre: Vec<u8> = Vec::new();
        pre.push(domain);
        pre.push(n);
        write_bytes(&mut pre, tag);
        proof {
            assert(pre@ =~= seq![domain, n] + tag@);
        }
        let candidate_hash = blake3_hash(pre.as_slice());
        match cofactor_point(candidate_hash.as_slice()) {
            Some(p) => {
                return Some(p);
            },
            None => {},
        }
        nonce = nonce + 1;
    }
    None
}

} // verus!
