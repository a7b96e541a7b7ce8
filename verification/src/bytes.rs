//! Byte-string comparisons and copies.

use vstd::prelude::*;

verus! {

/// Whether the 32 bytes of `data` at `at` are `key`.
pub fn matches_at(data: &[u8], at: usize, key: &[u8; 32]) -> (r: bool)
    requires
        at + 32 <= data@.len(),
    ensures
        r == (data@.subrange(at as int, at + 32) == key@),
{
    let mut i: usize = 0;
    while i < 32
        invariant
            i <= 32,
            at + 32 <= data.len(),
            data@.len() == data.len(),
            forall|j: int| 0 <= j < i ==> data@[at + j] == key@[j],
        decreases 32 - i,
    {
        if data[at + i] != key[i] {
            assert(data@.subrange(at as int, at + 32)[i as int] != key@[i as int]);
            return false;
        }
        i = i + 1;
    }
    assert(data@.subrange(at as int, at + 32) =~= key@);
    true
}

/// Whether two 32-byte strings are equal.
pub fn bytes32_eq(a: &[u8; 32], b: &[u8; 32]) -> (r: bool)
    ensures
        r == (a@ == b@),
{
    let r = matches_at(a.as_slice(), 0, b);
    assert(a@.subrange(0, 32) =~= a@);
    r
}

/// The 32 bytes of `data` at `at`.
pub fn copy32(data: &[u8], at: usize) -> (out: [u8; 32])
    requires
        at + 32 <= data@.len(),
    ensures
        out@ == data@.subrange(at as int, at + 32),
{
    let mut out = [0u8; 32];
    let mut k: usize = 0;
    while k < 32
        invariant
            k <= 32,
            at + 32 <= data.len(),
            data@.len() == data.len(),
            forall|j: int| 0 <= j < k ==> out@[j] == data@[at + j],
        decreases 32 - k,
    {
        out[k] = data[at + k];
        k += 1;
    }
    assert(out@ =~= data@.subrange(at as int, at + 32));
    out
}

/// `a` followed by `b`.
pub fn concat32(a: &[u8; 32], b: &[u8; 32]) -> (out: [u8; 64])
    ensures
        out@ == a@ + b@,
{
    let mut out = [0u8; 64];
    let mut k: usize = 0;
    while k < 32
        invariant
            k <= 32,
            forall|j: int| 0 <= j < k ==> out@[j] == a@[j],
        decreases 32 - k,
    {
        out[k] = a[k];
        k += 1;
    }
    while k < 64
        invariant
            32 <= k <= 64,
            forall|j: int| 0 <= j < 32 ==> out@[j] == a@[j],
            forall|j: int| 32 <= j < k ==> out@[j] == b@[j - 32],
        decreases 64 - k,
    {
        out[k] = b[k - 32];
        k += 1;
    }
    assert(out@ =~= a@ + b@);
    out
}

} // verus!
