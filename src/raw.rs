//! Byte-level primitives that every conversion between layouts goes through.

use vstd::prelude::*;

verus! {

/// What a truncating copy of `src` leaves in a zeroed block of `len` bytes:
/// the first `min(src.len(), len)` bytes of `src`, then zeros.
pub open spec fn copy_truncated(src: Seq<u8>, len: nat) -> Seq<u8> {
    Seq::new(len, |i: int| if i < src.len() { src[i] } else { 0u8 })
}

/// Fills `output` with the start of `input`, as far as the shorter of the two
/// reaches, and zeroes the rest of `output`.
///
/// No byte outside either slice is touched, whichever of the two is longer.
pub fn transmute_union(input: &[u8], output: &mut [u8])
    ensures
        final(output)@ == copy_truncated(input@, old(output)@.len()),
{
    let n = output.len();
    let m = input.len();
    let mut i: usize = 0;
    while i < n
        invariant
            n == output@.len(),
            m == input@.len(),
            output@.len() == old(output)@.len(),
            i <= n,
            forall|j: int|
                0 <= j < i ==> #[trigger] output@[j] == if j < m {
                    input@[j]
                } else {
                    0u8
                },
        decreases n - i,
    {
        if i < m {
            output[i] = input[i];
        } else {
            output[i] = 0;
        }
        i = i + 1;
    }
    assert(output@ =~= copy_truncated(input@, old(output)@.len()));
}

/// Byte-for-byte equality of two memory images, padding included.
pub fn mem_eq(a: &[u8], b: &[u8]) -> (r: bool)
    ensures
        r == (a@ == b@),
{
    let n = a.len();
    if n != b.len() {
        return false;
    }
    let mut i: usize = 0;
    while i < n
        invariant
            n == a@.len(),
            n == b@.len(),
            i <= n,
            forall|j: int| 0 <= j < i ==> a@[j] == b@[j],
        decreases n - i,
    {
        if a[i] != b[i] {
            return false;
        }
        i = i + 1;
    }
    assert(a@ =~= b@);
    true
}

} // verus!
