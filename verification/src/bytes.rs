//! Reading and writing bytes at fixed places.

use vstd::prelude::*;

verus! {

/// The four bytes of `n`, most significant first.
pub open spec fn u32_to_be_bytes(n: u32) -> Seq<u8> {
    seq![
        (n / 0x100_0000) as u8,
        (n / 0x1_0000 % 0x100) as u8,
        (n / 0x100 % 0x100) as u8,
        (n % 0x100) as u8,
    ]
}

/// The number whose four bytes, most significant first, are `bytes`.
pub open spec fn u32_from_be_bytes(bytes: Seq<u8>) -> u32
    recommends
        bytes.len() == 4,
{
    (bytes[0] * 0x100_0000 + bytes[1] * 0x1_0000 + bytes[2] * 0x100 + bytes[3]) as u32
}

/// `old` with the bytes from `start` on replaced by `src`, as far as `src`
/// reaches.
pub open spec fn overwritten(old: Seq<u8>, start: int, src: Seq<u8>) -> Seq<u8>
    recommends
        0 <= start,
        start + src.len() <= old.len(),
{
    old.subrange(0, start) + src + old.subrange(start + src.len(), old.len() as int)
}

/// Reading four bytes as a number and writing the number gives the bytes
/// back.
pub proof fn lemma_u32_bytes_round_trip(bytes: Seq<u8>)
    requires
        bytes.len() == 4,
    ensures
        u32_to_be_bytes(u32_from_be_bytes(bytes)) == bytes,
{
    assert(u32_to_be_bytes(u32_from_be_bytes(bytes)) =~= bytes);
}

/// Writing a number as four bytes and reading them gives the number back.
pub proof fn lemma_u32_value_round_trip(n: u32)
    ensures
        u32_to_be_bytes(n).len() == 4,
        u32_from_be_bytes(u32_to_be_bytes(n)) == n,
{
}

/// Two arrays are equal exactly when they hold the same bytes.
pub proof fn lemma_array_equality<const N: usize>(a: [u8; N], b: [u8; N])
    ensures
        a == b <==> a@ == b@,
{
    if a@ == b@ {
        assert(a =~= b);
    }
}

/// Reads the number that `bytes` holds at `start`, most significant byte
/// first.
pub(crate) fn read_u32_be(bytes: &[u8], start: usize) -> (n: u32)
    requires
        start + 4 <= bytes@.len(),
    ensures
        n == u32_from_be_bytes(bytes@.subrange(start as int, start + 4)),
{
    let b0: u32 = bytes[start] as u32;
    let b1: u32 = bytes[start + 1] as u32;
    let b2: u32 = bytes[start + 2] as u32;
    let b3: u32 = bytes[start + 3] as u32;
    b0 * 0x100_0000 + b1 * 0x1_0000 + b2 * 0x100 + b3
}

/// Writes `n` into `bytes` at `start`, most significant byte first.
pub(crate) fn write_u32_be(bytes: &mut [u8], start: usize, n: u32)
    requires
        start + 4 <= old(bytes)@.len(),
    ensures
        final(bytes)@ == overwritten(old(bytes)@, start as int, u32_to_be_bytes(n)),
{
    bytes[start] = (n / 0x100_0000) as u8;
    bytes[start + 1] = (n / 0x1_0000 % 0x100) as u8;
    bytes[start + 2] = (n / 0x100 % 0x100) as u8;
    bytes[start + 3] = (n % 0x100) as u8;
}

/// Copies `src` into `dst` at `start`.
pub(crate) fn write_bytes(dst: &mut [u8], start: usize, src: &[u8])
    requires
        start + src@.len() <= old(dst)@.len(),
    ensures
        final(dst)@ == overwritten(old(dst)@, start as int, src@),
{
    let len = src.len();
    let mut i: usize = 0;
    while i < len
        invariant
            len == src@.len(),
            i <= len,
            start + len <= dst.len(),
            dst@.len() == old(dst)@.len(),
            dst@ == overwritten(old(dst)@, start as int, src@.subrange(0, i as int)),
        decreases len - i,
    {
        dst[start + i] = src[i];
        i += 1;
    }
}

/// Copies the `N` bytes that `src` holds at `start` into an array.
pub(crate) fn read_array<const N: usize>(src: &[u8], start: usize) -> (out: [u8; N])
    requires
        start + N <= src@.len(),
    ensures
        out@ == src@.subrange(start as int, start + N),
{
    let mut out = [0u8; N];
    let mut i: usize = 0;
    while i < N
        invariant
            i <= N,
            start + N <= src.len(),
            forall|j: int| 0 <= j < i ==> out@[j] == src@[start + j],
        decreases N - i,
    {
        out[i] = src[start + i];
        i += 1;
    }
    out
}

/// Tells whether `a` and `b` hold the same bytes.
pub(crate) fn bytes_equal(a: &[u8], b: &[u8]) -> (equal: bool)
    ensures
        equal == (a@ == b@),
{
    if a.len() != b.len() {
        return false;
    }
    let len = a.len();
    let mut i: usize = 0;
    while i < len
        invariant
            len == a@.len(),
            len == b@.len(),
            i <= len,
            forall|j: int| 0 <= j < i ==> a@[j] == b@[j],
        decreases len - i,
    {
        if a[i] != b[i] {
            return false;
        }
        i += 1;
    }
    assert(a@ =~= b@);
    true
}

/// Returns the bytes of `a` followed by the bytes of `b`.
pub(crate) fn concat(a: &[u8], b: &[u8]) -> (out: Vec<u8>)
    ensures
        out@ == a@ + b@,
{
    let mut out: Vec<u8> = Vec::new();
    let mut i: usize = 0;
    while i < a.len()
        invariant
            i <= a@.len(),
            out@ == a@.subrange(0, i as int),
        decreases a@.len() - i,
    {
        out.push(a[i]);
        i += 1;
    }
    let mut j: usize = 0;
    while j < b.len()
        invariant
            j <= b@.len(),
            out@ == a@ + b@.subrange(0, j as int),
        decreases b@.len() - j,
    {
        out.push(b[j]);
        j += 1;
    }
    out
}

} // verus!
