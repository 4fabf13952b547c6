use vstd::prelude::*;

verus! {

/// The little-endian `u16` held by `data[at]` and `data[at + 1]`.
pub open spec fn le_u16(data: Seq<u8>, at: int) -> int {
    data[at] + 256 * data[at + 1]
}

/// The little-endian `u64` held by the first eight bytes of `data`.
pub open spec fn le_u64(data: Seq<u8>) -> int {
    data[0] + 256 * (data[1] + 256 * (data[2] + 256 * (data[3] + 256 * (data[4] + 256 * (
    data[5] + 256 * (data[6] + 256 * data[7]))))))
}

/// Reads the little-endian `u16` at `data[at]`.
pub fn read_le_u16(data: &[u8], at: usize) -> (r: u16)
    requires
        at + 2 <= data@.len(),
    ensures
        r == le_u16(data@, at as int),
{
    (data[at] as u16) + 256 * (data[at + 1] as u16)
}

/// Reads the little-endian `u64` held by the first eight bytes of `data`.
pub fn read_le_u64(data: &[u8]) -> (r: u64)
    requires
        8 <= data@.len(),
    ensures
        r == le_u64(data@),
{
    let mut v: u64 = data[7] as u64;
    v = v * 256 + data[6] as u64;
    v = v * 256 + data[5] as u64;
    v = v * 256 + data[4] as u64;
    v = v * 256 + data[3] as u64;
    v = v * 256 + data[2] as u64;
    v = v * 256 + data[1] as u64;
    v = v * 256 + data[0] as u64;
    v
}

/// `a` followed by `b`, in a new vector.
pub fn concat(a: &[u8], b: &[u8]) -> (r: Vec<u8>)
    ensures
        r@ == a@ + b@,
{
    let mut out: Vec<u8> = Vec::new();
    for i in 0..a.len()
        invariant
            out@ == a@.subrange(0, i as int),
    {
        out.push(a[i]);
        assert(out@ =~= a@.subrange(0, i + 1));
    }
    assert(out@ =~= a@);
    for j in 0..b.len()
        invariant
            out@ == a@ + b@.subrange(0, j as int),
    {
        out.push(b[j]);
        assert(out@ =~= a@ + b@.subrange(0, j + 1));
    }
    assert(out@ =~= a@ + b@);
    out
}

/// Whether the `len` bytes of `data` from `start` on are exactly `expected`.
pub fn range_equals(data: &[u8], start: usize, len: usize, expected: &[u8]) -> (r: bool)
    requires
        start + len <= data@.len(),
    ensures
        r == (data@.subrange(start as int, start + len) == expected@),
{
    if len != expected.len() {
        return false;
    }
    let data_len = data.len();
    for i in 0..len
        invariant
            start + len <= data_len == data@.len(),
            len == expected@.len(),
            forall|k: int| 0 <= k < i ==> data@[start + k] == expected@[k],
    {
        if data[start + i] != expected[i] {
            assert(data@.subrange(start as int, start + len)[i as int] != expected@[i as int]);
            return false;
        }
    }
    assert(data@.subrange(start as int, start + len) =~= expected@);
    true
}

/// Whether the two 32-byte keys are the same.
pub fn keys_equal(a: &[u8; 32], b: &[u8; 32]) -> (r: bool)
    ensures
        r == (*a == *b),
{
    for i in 0..32usize
        invariant
            forall|k: int| 0 <= k < i ==> a@[k] == b@[k],
    {
        if a[i] != b[i] {
            return false;
        }
    }
    assert(*a =~= *b);
    true
}

} // verus!
