use vstd::prelude::*;

verus! {

/// Copies the `len` bytes of `bytes` that start at `start` into a fresh vector.
pub fn read_bytes(bytes: &[u8], start: usize, len: usize) -> (r: Vec<u8>)
    requires
        start + len <= bytes@.len(),
    ensures
        r@ == bytes@.subrange(start as int, start as int + len as int),
{
    let n: usize = bytes.len();
    let mut out: Vec<u8> = Vec::new();
    let mut i: usize = 0;
    while i < len
        invariant
            i <= len,
            start + len <= n,
            n == bytes@.len(),
            out@ == bytes@.subrange(start as int, start as int + i as int),
        decreases len - i,
    {
        out.push(bytes[start + i]);
        i = i + 1;
        proof {
            assert(out@ =~= bytes@.subrange(start as int, start as int + i as int));
        }
    }
    out
}

/// Appends all of `src` to `dst`.
pub fn write_bytes(dst: &mut Vec<u8>, src: &Vec<u8>)
    ensures
        final(dst)@ == old(dst)@ + src@,
{
    let mut i: usize = 0;
    while i < src.len()
        invariant
            i <= src@.len(),
            dst@ == old(dst)@ + src@.subrange(0, i as int),
        decreases src@.len() - i,
    {
        dst.push(src[i]);
        i = i + 1;
        proof {
            assert(dst@ =~= old(dst)@ + src@.subrange(0, i as int));
        }
    }
    proof {
        assert(dst@ =~= old(dst)@ + src@);
    }
}

/// The little-endian 8-byte encoding of `v`.
pub open spec fn u64_le_bytes(v: u64) -> Seq<u8> {
    seq![
        (v & 0xff) as u8,
        ((v >> 8) & 0xff) as u8,
        ((v >> 16) & 0xff) as u8,
        ((v >> 24) & 0xff) as u8,
        ((v >> 32) & 0xff) as u8,
        ((v >> 40) & 0xff) as u8,
        ((v >> 48) & 0xff) as u8,
        ((v >> 56) & 0xff) as u8,
    ]
}

/// Appends the little-endian 8-byte encoding of `v` to `dst`.
pub fn write_u64_le(dst: &mut Vec<u8>, v: u64)
    ensures
        final(dst)@ == old(dst)@ + u64_le_bytes(v),
{
    dst.push((v & 0xff) as u8);
    dst.push(((v >> 8) & 0xff) as u8);
    dst.push(((v >> 16) & 0xff) as u8);
    dst.push(((v >> 24) & 0xff) as u8);
    dst.push(((v >> 32) & 0xff) as u8);
    dst.push(((v >> 40) & 0xff) as u8);
    dst.push(((v >> 48) & 0xff) as u8);
    dst.push(((v >> 56) & 0xff) as u8);
    proof {
        assert(dst@ =~= old(dst)@ + u64_le_bytes(v));
    }
}

/// Reads the u64 whose little-endian 8-byte encoding starts at `start`:
/// the exact inverse of `write_u64_le` on those bytes.
pub fn read_u64_le(bytes: &[u8], start: usize) -> (r: u64)
    requires
        start + 8 <= bytes@.len(),
    ensures
        u64_le_bytes(r) == bytes@.subrange(start as int, start as int + 8),
{
    let b0 = bytes[start];
    let b1 = bytes[start + 1];
    let b2 = bytes[start + 2];
    let b3 = bytes[start + 3];
    let b4 = bytes[start + 4];
    let b5 = bytes[start + 5];
    let b6 = bytes[start + 6];
    let b7 = bytes[start + 7];
    let v: u64 = (b0 as u64) | ((b1 as u64) << 8) | ((b2 as u64) << 16) | ((b3 as u64) << 24) | (
    (b4 as u64) << 32) | ((b5 as u64) << 40) | ((b6 as u64) << 48) | ((b7 as u64) << 56);
    proof {
        assert((v & 0xff) == b0 as u64 && ((v >> 8) & 0xff) == b1 as u64 && ((v >> 16) & 0xff)
            == b2 as u64 && ((v >> 24) & 0xff) == b3 as u64 && ((v >> 32) & 0xff) == b4 as u64 && (
        (v >> 40) & 0xff) == b5 as u64 && ((v >> 48) & 0xff) == b6 as u64 && ((v >> 56) & 0xff)
            == b7 as u64) by (bit_vector)
            requires
                v == (b0 as u64) | ((b1 as u64) << 8) | ((b2 as u64) << 16) | ((b3 as u64) << 24)
                    | ((b4 as u64) << 32) | ((b5 as u64) << 40) | ((b6 as u64) << 48) | ((
                b7 as u64) << 56),
        ;
        assert(u64_le_bytes(v) =~= bytes@.subrange(start as int, start as int + 8));
    }
    v
}

/// Whether two byte strings hold the same bytes.
pub fn bytes_eq(a: &[u8], b: &[u8]) -> (r: bool)
    ensures
        r == (a@ == b@),
{
    if a.len() != b.len() {
        proof {
            assert(a@.len() != b@.len());
        }
        return false;
    }
    let n: usize = a.len();
    let mut i: usize = 0;
    while i < n
        invariant
            i <= n,
            n == a@.len(),
            n == b@.len(),
            forall|j: int| 0 <= j < i ==> a@[j] == b@[j],
        decreases n - i,
    {
        if a[i] != b[i] {
            return false;
        }
        i = i + 1;
    }
    proof {
        assert(a@ =~= b@);
    }
    true
}

} // verus!
