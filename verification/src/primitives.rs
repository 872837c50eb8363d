use vstd::prelude::*;

verus! {

// Curve points, curve scalars and hashes are carried through the library as
// plain byte vectors in their canonical encodings:
//   - a point is the 32-byte compressed encoding of a jubjub affine point,
//   - a scalar of the proof system's field (the jubjub base field) is a
//     32-byte little-endian canonical encoding,
//   - a scalar of the jubjub scalar field is a 32-byte little-endian
//     canonical encoding.
// What the curve and hash calls return is named by the uninterpreted spec
// functions below; each name is given meaning solely by the `ensures` of the
// trusted wrapper that applies it.

/// Whether `b` is the canonical encoding of a point on the jubjub curve
/// (whether `jubjub::AffinePoint::from_bytes` accepts it).
pub uninterp spec fn point_valid(b: Seq<u8>) -> bool;

/// Whether the point encoded by `b` has small order (is killed by the
/// cofactor), as `jubjub::ExtendedPoint::is_small_order` reports it.
pub uninterp spec fn point_small_order(b: Seq<u8>) -> bool;

/// The canonical encoding of the affine u-coordinate of the point encoded by
/// `b`, an element of the proof system's scalar field.
pub uninterp spec fn affine_u_of(b: Seq<u8>) -> Seq<u8>;

/// The canonical encoding of the affine v-coordinate of the point encoded by `b`.
pub uninterp spec fn affine_v_of(b: Seq<u8>) -> Seq<u8>;

/// Whether `b` is a canonical encoding of an element of the proof system's
/// scalar field (whether `bls12_381::Scalar::from_bytes` accepts it).
pub uninterp spec fn scalar_valid(b: Seq<u8>) -> bool;

/// Whether `b` is a canonical encoding of a jubjub scalar
/// (whether `jubjub::Fr::from_bytes` accepts it).
pub uninterp spec fn fr_valid(b: Seq<u8>) -> bool;

/// The canonical encoding of the jubjub scalar with the numeric value `v`.
pub uninterp spec fn fr_of_u64(v: u64) -> Seq<u8>;

/// The encoding of the scalar multiple `[s]P` of the point `P` encoded by `p`.
pub uninterp spec fn point_mul_of(p: Seq<u8>, s: Seq<u8>) -> Seq<u8>;

/// The encoding of the sum of the points encoded by `a` and `b`.
pub uninterp spec fn point_add_of(a: Seq<u8>, b: Seq<u8>) -> Seq<u8>;

/// The encoding of the cofactor-cleared point derived from `b`: `None` when
/// `b` does not decode to a curve point or the cleared point is the identity.
pub uninterp spec fn cofactor_point_of(b: Seq<u8>) -> Option<Seq<u8>>;

/// The 32-byte hash of `data`.
pub uninterp spec fn hash_of(data: Seq<u8>) -> Seq<u8>;

/// The 64-byte extended hash of `data`.
pub uninterp spec fn wide_hash_of(data: Seq<u8>) -> Seq<u8>;

/// The canonical encoding of the field element obtained by reducing the
/// 64-byte string `w` into the proof system's scalar field.
pub uninterp spec fn scalar_reduce_of(w: Seq<u8>) -> Seq<u8>;

/// The canonical encoding of the jubjub scalar obtained by reducing the
/// 64-byte string `w` into the jubjub scalar field.
pub uninterp spec fn fr_reduce_of(w: Seq<u8>) -> Seq<u8>;

/// The authenticated ciphertext of `plain` under `key` and `nonce`; it is
/// 16 bytes (one tag) longer than the plaintext.
pub uninterp spec fn sealed_with(key: Seq<u8>, nonce: Seq<u8>, plain: Seq<u8>) -> Seq<u8>;

/// Relies on jubjub::AffinePoint::from_bytes, which succeeds exactly on
/// canonical encodings of points on the curve.
#[verifier::external_body]
pub(crate) fn point_check(b: &[u8]) -> (r: bool)
    requires
        b@.len() == 32,
    ensures
        r == point_valid(b@),
{
    let arr: [u8; 32] = b.try_into().unwrap();
    bool::from(jubjub::AffinePoint::from_bytes(arr).is_some())
}

/// Relies on jubjub::ExtendedPoint::is_small_order (the point is killed by
/// multiplication by the cofactor).
#[verifier::external_body]
pub(crate) fn small_order_check(b: &[u8]) -> (r: Option<bool>)
    requires
        b@.len() == 32,
    ensures
        r is Some <==> point_valid(b@),
        r is Some ==> r->Some_0 == point_small_order(b@),
{
    let arr: [u8; 32] = b.try_into().unwrap();
    let p = Option::<jubjub::AffinePoint>::from(jubjub::AffinePoint::from_bytes(arr))?;
    Some(bool::from(jubjub::ExtendedPoint::from(p).is_small_order()))
}

/// Relies on jubjub::AffinePoint::get_u / get_v and on the canonical
/// little-endian encoding bls12_381::Scalar::to_bytes, which from_bytes
/// accepts back.
#[verifier::external_body]
pub(crate) fn affine_coords(b: &[u8]) -> (r: Option<(Vec<u8>, Vec<u8>)>)
    requires
        b@.len() == 32,
    ensures
        r is Some <==> point_valid(b@),
        r is Some ==> {
            &&& r->Some_0.0@ == affine_u_of(b@)
            &&& r->Some_0.1@ == affine_v_of(b@)
            &&& r->Some_0.0@.len() == 32
            &&& r->Some_0.1@.len() == 32
            &&& scalar_valid(r->Some_0.0@)
            &&& scalar_valid(r->Some_0.1@)
        },
{
    let arr: [u8; 32] = b.try_into().unwrap();
    let p = Option::<jubjub::AffinePoint>::from(jubjub::AffinePoint::from_bytes(arr))?;
    Some((p.get_u().to_bytes().to_vec(), p.get_v().to_bytes().to_vec()))
}

/// Relies on bls12_381::Scalar::from_bytes, which succeeds exactly on
/// canonical encodings.
#[verifier::external_body]
pub(crate) fn scalar_check(b: &[u8]) -> (r: bool)
    requires
        b@.len() == 32,
    ensures
        r == scalar_valid(b@),
{
    let arr: [u8; 32] = b.try_into().unwrap();
    bool::from(bls12_381::Scalar::from_bytes(&arr).is_some())
}

/// Relies on jubjub::Fr::from(u64) and the canonical encoding Fr::to_bytes.
#[verifier::external_body]
pub(crate) fn fr_from_u64(v: u64) -> (r: Vec<u8>)
    ensures
        r@ == fr_of_u64(v),
        r@.len() == 32,
        fr_valid(r@),
{
    jubjub::Fr::from(v).to_bytes().to_vec()
}

/// Relies on scalar multiplication of jubjub::ExtendedPoint by jubjub::Fr,
/// and on the canonical affine encoding of the result.
#[verifier::external_body]
pub(crate) fn point_mul(p: &[u8], s: &[u8]) -> (r: Option<Vec<u8>>)
    requires
        p@.len() == 32,
        s@.len() == 32,
    ensures
        r is Some <==> (point_valid(p@) && fr_valid(s@)),
        r is Some ==> {
            &&& r->Some_0@ == point_mul_of(p@, s@)
            &&& r->Some_0@.len() == 32
            &&& point_valid(r->Some_0@)
        },
{
    let pa: [u8; 32] = p.try_into().unwrap();
    let sa: [u8; 32] = s.try_into().unwrap();
    let pt = Option::<jubjub::AffinePoint>::from(jubjub::AffinePoint::from_bytes(pa))?;
    let fr = Option::<jubjub::Fr>::from(jubjub::Fr::from_bytes(&sa))?;
    let out = jubjub::ExtendedPoint::from(pt) * fr;
    Some(jubjub::AffinePoint::from(&out).to_bytes().to_vec())
}

/// Relies on addition of jubjub::ExtendedPoint, and on the canonical affine
/// encoding of the result.
#[verifier::external_body]
pub(crate) fn point_add(a: &[u8], b: &[u8]) -> (r: Option<Vec<u8>>)
    requires
        a@.len() == 32,
        b@.len() == 32,
    ensures
        r is Some <==> (point_valid(a@) && point_valid(b@)),
        r is Some ==> {
            &&& r->Some_0@ == point_add_of(a@, b@)
            &&& r->Some_0@.len() == 32
            &&& point_valid(r->Some_0@)
        },
{
    let aa: [u8; 32] = a.try_into().unwrap();
    let ba: [u8; 32] = b.try_into().unwrap();
    let pa = Option::<jubjub::AffinePoint>::from(jubjub::AffinePoint::from_bytes(aa))?;
    let pb = Option::<jubjub::AffinePoint>::from(jubjub::AffinePoint::from_bytes(ba))?;
    let out = jubjub::ExtendedPoint::from(pa) + jubjub::ExtendedPoint::from(pb);
    Some(jubjub::AffinePoint::from(&out).to_bytes().to_vec())
}

/// Relies on jubjub::ExtendedPoint::mul_by_cofactor: the result lies in the
/// prime-order subgroup, so when it is not the identity it is not of small
/// order.
#[verifier::external_body]
pub(crate) fn cofactor_point(b: &[u8]) -> (r: Option<Vec<u8>>)
    requires
        b@.len() == 32,
    ensures
        r is Some <==> cofactor_point_of(b@) is Some,
        r is Some ==> {
            &&& r->Some_0@ == cofactor_point_of(b@)->Some_0
            &&& r->Some_0@.len() == 32
            &&& point_valid(r->Some_0@)
            &&& !point_small_order(r->Some_0@)
        },
{
    let arr: [u8; 32] = b.try_into().unwrap();
    let p = Option::<jubjub::AffinePoint>::from(jubjub::AffinePoint::from_bytes(arr))?;
    let q = jubjub::ExtendedPoint::from(p).mul_by_cofactor();
    if bool::from(q.is_identity()) {
        None
    } else {
        Some(jubjub::AffinePoint::from(&q).to_bytes().to_vec())
    }
}

/// Relies on blake3::hash, a 32-byte digest that depends on the input alone.
#[verifier::external_body]
pub(crate) fn blake3_hash(data: &[u8]) -> (r: Vec<u8>)
    ensures
        r@ == hash_of(data@),
        r@.len() == 32,
{
    blake3::hash(data).as_bytes().to_vec()
}

/// Relies on blake3's extended output (Hasher::finalize_xof): the first 64
/// bytes of the stream, which depend on the input alone.
#[verifier::external_body]
pub(crate) fn blake3_wide(data: &[u8]) -> (r: Vec<u8>)
    ensures
        r@ == wide_hash_of(data@),
        r@.len() == 64,
{
    let mut out = vec![0u8; 64];
    let mut hasher = blake3::Hasher::new();
    hasher.update(data);
    hasher.finalize_xof().fill(&mut out[..]);
    out
}

/// Relies on bls12_381::Scalar::from_bytes_wide (reduction of a 64-byte
/// string into the field) and the canonical encoding to_bytes.
#[verifier::external_body]
pub(crate) fn scalar_reduce(w: &[u8]) -> (r: Vec<u8>)
    requires
        w@.len() == 64,
    ensures
        r@ == scalar_reduce_of(w@),
        r@.len() == 32,
        scalar_valid(r@),
{
    let arr: [u8; 64] = w.try_into().unwrap();
    bls12_381::Scalar::from_bytes_wide(&arr).to_bytes().to_vec()
}

/// Relies on jubjub::Fr::from_bytes_wide and the canonical encoding to_bytes.
#[verifier::external_body]
pub(crate) fn fr_reduce(w: &[u8]) -> (r: Vec<u8>)
    requires
        w@.len() == 64,
    ensures
        r@ == fr_reduce_of(w@),
        r@.len() == 32,
        fr_valid(r@),
{
    let arr: [u8; 64] = w.try_into().unwrap();
    jubjub::Fr::from_bytes_wide(&arr).to_bytes().to_vec()
}

/// Relies on rand::thread_rng, a cryptographically secure source. Nothing is
/// promised of the bytes beyond their number.
#[verifier::external_body]
pub(crate) fn random_bytes(n: usize) -> (r: Vec<u8>)
    ensures
        r@.len() == n,
{
    let mut v = vec![0u8; n];
    rand::Rng::fill(&mut rand::thread_rng(), &mut v[..]);
    v
}

/// Relies on the ChaCha20-Poly1305 AEAD seal of crypto_api_chachapoly: the
/// ciphertext depends on key, nonce and plaintext alone and is the plaintext
/// length plus a 16-byte tag.
#[verifier::external_body]
pub(crate) fn seal(key: &[u8], nonce: &[u8], plain: &[u8]) -> (r: Vec<u8>)
    requires
        key@.len() == 32,
        nonce@.len() == 12,
        plain@.len() < 0x10000000,
    ensures
        r@ == sealed_with(key@, nonce@, plain@),
        r@.len() == plain@.len() + 16,
{
    let mut buf = vec![0u8; plain.len() + 16];
    let cipher = crypto_api_chachapoly::ChachaPolyIetf::aead_cipher();
    let n = cipher.seal_to(&mut buf, plain, &[], key, nonce).unwrap();
    buf.truncate(n);
    buf
}

} // verus!
