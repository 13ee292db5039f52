//! Little-endian, length-prefixed byte encodings used by the canonical
//! serializations that get hashed, together with small byte-vector helpers.

use vstd::prelude::*;

verus! {

/// The four little-endian bytes of a 32-bit integer.
pub open spec fn enc_u32(n: u32) -> Seq<u8> {
    seq![
        (n % 256) as u8,
        ((n / 256) % 256) as u8,
        ((n / 65536) % 256) as u8,
        ((n / 16777216) % 256) as u8,
    ]
}

/// The eight little-endian bytes of a 64-bit integer.
pub open spec fn enc_u64(n: u64) -> Seq<u8> {
    seq![
        (n % 256) as u8,
        ((n / 256) % 256) as u8,
        ((n / 65536) % 256) as u8,
        ((n / 16777216) % 256) as u8,
        ((n / 4294967296) % 256) as u8,
        ((n / 1099511627776) % 256) as u8,
        ((n / 281474976710656) % 256) as u8,
        ((n / 72057594037927936) % 256) as u8,
    ]
}

/// A signed 64-bit integer as a sign byte followed by a magnitude.
/// Negative values store the magnitude of `-(n + 1)` so that the
/// smallest value needs no extra range.
pub open spec fn enc_i64(n: i64) -> Seq<u8> {
    if n >= 0 {
        seq![1u8] + enc_u64(n as u64)
    } else {
        seq![0u8] + enc_u64((-(n + 1)) as u64)
    }
}

/// A byte string, prefixed by its length.
pub open spec fn enc_bytes(s: Seq<u8>) -> Seq<u8> {
    enc_u64(s.len() as u64) + s
}

/// Appends the four little-endian bytes of `n` to `buf`.
pub fn push_u32(buf: &mut Vec<u8>, n: u32)
    ensures
        final(buf)@ == old(buf)@ + enc_u32(n),
{
    buf.push((n % 256) as u8);
    buf.push(((n / 256) % 256) as u8);
    buf.push(((n / 65536) % 256) as u8);
    buf.push(((n / 16777216) % 256) as u8);
    assert(buf@ =~= old(buf)@ + enc_u32(n));
}

/// Appends the eight little-endian bytes of `n` to `buf`.
pub fn push_u64(buf: &mut Vec<u8>, n: u64)
    ensures
        final(buf)@ == old(buf)@ + enc_u64(n),
{
    buf.push((n % 256) as u8);
    buf.push(((n / 256) % 256) as u8);
    buf.push(((n / 65536) % 256) as u8);
    buf.push(((n / 16777216) % 256) as u8);
    buf.push(((n / 4294967296) % 256) as u8);
    buf.push(((n / 1099511627776) % 256) as u8);
    buf.push(((n / 281474976710656) % 256) as u8);
    buf.push(((n / 72057594037927936) % 256) as u8);
    assert(buf@ =~= old(buf)@ + enc_u64(n));
}

/// Appends the sign-and-magnitude encoding of `n` to `buf`.
pub fn push_i64(buf: &mut Vec<u8>, n: i64)
    ensures
        final(buf)@ == old(buf)@ + enc_i64(n),
{
    if n >= 0 {
        buf.push(1u8);
        push_u64(buf, n as u64);
    } else {
        buf.push(0u8);
        push_u64(buf, (-(n + 1)) as u64);
    }
    assert(buf@ =~= old(buf)@ + enc_i64(n));
}

/// Appends the length-prefixed bytes of `s` to `buf`.
pub fn push_bytes(buf: &mut Vec<u8>, s: &Vec<u8>)
    ensures
        final(buf)@ == old(buf)@ + enc_bytes(s@),
{
    push_u64(buf, s.len() as u64);
    let mut i: usize = 0;
    while i < s.len()
        invariant
            i <= s@.len(),
            buf@ == old(buf)@ + enc_u64(s@.len() as u64) + s@.subrange(0, i as int),
        decreases s@.len() - i,
    {
        buf.push(s[i]);
        assert(buf@ =~= old(buf)@ + enc_u64(s@.len() as u64) + s@.subrange(0, i + 1));
        i = i + 1;
    }
    assert(buf@ =~= old(buf)@ + enc_bytes(s@));
}

/// A fresh byte vector with the same contents as `v`.
pub fn clone_bytes(v: &Vec<u8>) -> (r: Vec<u8>)
    ensures
        r@ == v@,
{
    let mut r: Vec<u8> = Vec::new();
    let mut i: usize = 0;
    while i < v.len()
        invariant
            i <= v@.len(),
            r@ == v@.subrange(0, i as int),
        decreases v@.len() - i,
    {
        r.push(v[i]);
        assert(r@ =~= v@.subrange(0, i + 1));
        i = i + 1;
    }
    assert(r@ =~= v@);
    r
}

/// Whether two byte vectors hold the same bytes.
pub fn bytes_eq(a: &Vec<u8>, b: &Vec<u8>) -> (r: bool)
    ensures
        r == (a@ == b@),
{
    if a.len() != b.len() {
        assert(a@ != b@) by {
            assert(a@.len() != b@.len());
        }
        return false;
    }
    let mut i: usize = 0;
    while i < a.len()
        invariant
            i <= a@.len(),
            a@.len() == b@.len(),
            forall|j: int| 0 <= j < i ==> a@[j] == b@[j],
        decreases a@.len() - i,
    {
        if a[i] != b[i] {
            return false;
        }
        i = i + 1;
    }
    assert(a@ =~= b@);
    true
}

} // verus!
