//! Byte buffers.

use vstd::prelude::*;

verus! {

/// The `N` bytes of `data` from `start` on.
pub fn array_at<const N: usize>(data: &[u8], start: usize) -> (out: [u8; N])
    requires
        start + N <= data@.len(),
    ensures
        out@ == data@.subrange(start as int, start + N),
{
    let mut out = [0u8;N];
    let n: usize = data.len();
    for i in 0..N
        invariant
            start + N <= data@.len(),
            n == data@.len(),
            forall|j: int| 0 <= j < i ==> out@[j] == data@[start + j],
    {
        out[i] = data[start + i];
    }
    assert(out@ =~= data@.subrange(start as int, start + N));
    out
}

/// Appends `data` to `buffer`.
pub fn append_bytes(buffer: &mut Vec<u8>, data: &[u8])
    ensures
        final(buffer)@ == old(buffer)@ + data@,
{
    let n: usize = data.len();
    for i in 0..n
        invariant
            n == data@.len(),
            buffer@ == old(buffer)@ + data@.take(i as int),
    {
        buffer.push(data[i]);
        assert(data@.take(i + 1) =~= data@.take(i as int).push(data@[i as int]));
    }
    assert(data@.take(n as int) =~= data@);
}

/// A copy of the bytes of `data` from `start` up to, not including, `end`.
pub fn copy_range(data: &[u8], start: usize, end: usize) -> (out: Vec<u8>)
    requires
        start <= end <= data@.len(),
    ensures
        out@ == data@.subrange(start as int, end as int),
{
    let mut out: Vec<u8> = Vec::new();
    for i in start..end
        invariant
            start <= i <= end <= data@.len(),
            out@ == data@.subrange(start as int, i as int),
    {
        out.push(data[i]);
    }
    out
}

/// Whether two byte sequences are the same.
pub fn bytes_eq(a: &[u8], b: &[u8]) -> (r: bool)
    ensures
        r == (a@ == b@),
{
    if a.len() != b.len() {
        return false;
    }
    let n: usize = a.len();
    for i in 0..n
        invariant
            n == a@.len(),
            n == b@.len(),
            forall|j: int| 0 <= j < i ==> a@[j] == b@[j],
    {
        if a[i] != b[i] {
            return false;
        }
    }
    assert(a@ =~= b@);
    true
}

} // verus!
