//! Full-width comparison of 32-byte values.

use vstd::prelude::*;

verus! {

/// The bitwise differences of the first `n` byte pairs, folded with `|`.
spec fn folded_difference(a: Seq<u8>, b: Seq<u8>, n: int) -> u8
    decreases n,
{
    if n <= 0 {
        0u8
    } else {
        folded_difference(a, b, n - 1) | (a[n - 1] ^ b[n - 1])
    }
}

proof fn lemma_fold_step(acc: u8, x: u8, y: u8)
    ensures
        (acc | (x ^ y)) == 0u8 <==> (acc == 0u8 && x == y),
{
    assert((acc | (x ^ y)) == 0u8 <==> (acc == 0u8 && x == y)) by (bit_vector);
}

/// The folded difference is zero exactly when the first `n` bytes agree.
proof fn lemma_folded_difference_zero(a: Seq<u8>, b: Seq<u8>, n: int)
    requires
        0 <= n <= a.len(),
        n <= b.len(),
    ensures
        folded_difference(a, b, n) == 0u8 <==> a.subrange(0, n) == b.subrange(0, n),
    decreases n,
{
    if n > 0 {
        lemma_folded_difference_zero(a, b, n - 1);
        lemma_fold_step(folded_difference(a, b, n - 1), a[n - 1], b[n - 1]);
        if a.subrange(0, n) == b.subrange(0, n) {
            assert(a.subrange(0, n - 1) =~= a.subrange(0, n).subrange(0, n - 1));
            assert(b.subrange(0, n - 1) =~= b.subrange(0, n).subrange(0, n - 1));
            assert(a[n - 1] == a.subrange(0, n)[n - 1]);
            assert(b[n - 1] == b.subrange(0, n)[n - 1]);
        }
        if a.subrange(0, n - 1) == b.subrange(0, n - 1) && a[n - 1] == b[n - 1] {
            assert forall|i: int| 0 <= i < n implies a.subrange(0, n)[i] == b.subrange(0, n)[i] by {
                if i < n - 1 {
                    assert(a.subrange(0, n - 1)[i] == b.subrange(0, n - 1)[i]);
                }
            }
            assert(a.subrange(0, n) =~= b.subrange(0, n));
        }
    } else {
        assert(a.subrange(0, n) =~= b.subrange(0, n));
    }
}

/// Whether two 32-byte values agree in every byte.
///
/// Every byte pair is visited whatever the earlier pairs held: there is no
/// early exit, so the time taken does not tell where the first difference
/// lies.
pub fn full_width_eq(a: &[u8; 32], b: &[u8; 32]) -> (same: bool)
    ensures
        same == (a@ == b@),
{
    let mut difference: u8 = 0;
    let mut i: usize = 0;
    while i < 32
        invariant
            i <= 32,
            difference == folded_difference(a@, b@, i as int),
        decreases 32 - i,
    {
        difference = difference | (a[i] ^ b[i]);
        i = i + 1;
    }
    proof {
        lemma_folded_difference_zero(a@, b@, 32);
        assert(a@.subrange(0, 32) =~= a@);
        assert(b@.subrange(0, 32) =~= b@);
    }
    difference == 0
}

} // verus!
