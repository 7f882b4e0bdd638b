//! Dense product of two constant-filled square matrices.
//!
//! The kernel multiplies a size×size matrix of ones by a size×size matrix of
//! twos, both in row-major layout. Every value that appears is an exact small
//! whole number — entries 1 and 2, partial sums up to `2 * size` — so the
//! matrices are held as `u64`; a host binding that wants 64-bit floats can
//! convert each entry loss-free.

use vstd::prelude::*;

verus! {

/// A row-major cell `(i, j)` of a size×size matrix lies inside the flat
/// buffer of `size * size` entries.
proof fn lemma_row_major_index(size: int, i: int, j: int)
    requires
        0 <= i < size,
        0 <= j < size,
    ensures
        0 <= i * size + j < size * size,
{
    assert(0 <= i * size + j < size * size) by (nonlinear_arith)
        requires
            0 <= i < size,
            0 <= j < size,
    ;
}

/// An output entry `2 * size` fits in a `u64` whenever the buffer length
/// `size * size` fits in a `usize`.
proof fn lemma_entry_fits(size: int)
    requires
        0 <= size,
        size * size <= usize::MAX,
    ensures
        2 * size <= u64::MAX,
{
    if size >= 2 {
        assert(2 * size <= size * size) by (nonlinear_arith)
            requires
                2 <= size,
        ;
    }
}

/// A vector of `len` copies of `value`.
fn constant_vec(len: usize, value: u64) -> (v: Vec<u64>)
    ensures
        v@.len() == len,
        forall|p: int| 0 <= p < len ==> v@[p] == value,
{
    let mut v: Vec<u64> = Vec::new();
    while v.len() < len
        invariant
            v@.len() <= len,
            forall|p: int| 0 <= p < v@.len() ==> v@[p] == value,
        decreases len - v@.len(),
    {
        v.push(value);
    }
    v
}

/// Multiplies the all-ones size×size matrix by the all-twos size×size matrix
/// with the standard triple-nested-loop dense product, and returns the
/// row-major result of length `size * size`: every entry is `2 * size`, the
/// sum over `size` products of an entry 1 and an entry 2. A `size` of 0
/// yields an empty result. The bound on `size * size` is what a flat buffer
/// demands of its length.
pub fn matrix_multiply(size: usize) -> (result: Vec<u64>)
    requires
        size * size <= usize::MAX,
    ensures
        result@.len() == size * size,
        forall|idx: int| 0 <= idx < size * size ==> result@[idx] == 2 * size,
{
    let total = size * size;
    let mut result = constant_vec(total, 0);
    let a = constant_vec(total, 1);
    let b = constant_vec(total, 2);
    proof {
        lemma_entry_fits(size as int);
    }
    let mut i: usize = 0;
    while i < size
        invariant
            0 <= i <= size,
            size * size <= usize::MAX,
            2 * size <= u64::MAX,
            a@.len() == size * size,
            b@.len() == size * size,
            result@.len() == size * size,
            forall|p: int| 0 <= p < size * size ==> a@[p] == 1,
            forall|p: int| 0 <= p < size * size ==> b@[p] == 2,
            0 <= i * size <= size * size,
            forall|p: int| 0 <= p < i * size ==> result@[p] == 2 * size,
            forall|p: int| i * size <= p < size * size ==> result@[p] == 0,
        decreases size - i,
    {
        proof {
            assert(0 <= i * size && (i + 1) * size == i * size + size <= size * size)
                by (nonlinear_arith)
                requires
                    0 <= i < size,
            ;
        }
        let mut j: usize = 0;
        while j < size
            invariant
                0 <= i < size,
                0 <= j <= size,
                size * size <= usize::MAX,
                2 * size <= u64::MAX,
                a@.len() == size * size,
                b@.len() == size * size,
                result@.len() == size * size,
                forall|p: int| 0 <= p < size * size ==> a@[p] == 1,
                forall|p: int| 0 <= p < size * size ==> b@[p] == 2,
                0 <= i * size && i * size + j <= (i + 1) * size == i * size + size <= size * size,
                forall|p: int| 0 <= p < i * size + j ==> result@[p] == 2 * size,
                forall|p: int| i * size + j <= p < size * size ==> result@[p] == 0,
            decreases size - j,
        {
            proof {
                lemma_row_major_index(size as int, i as int, j as int);
            }
            let idx = i * size + j;
            let mut k: usize = 0;
            while k < size
                invariant
                    0 <= i < size,
                    0 <= j < size,
                    0 <= k <= size,
                    idx == i * size + j,
                    0 <= idx < size * size,
                    size * size <= usize::MAX,
                    2 * size <= u64::MAX,
                    a@.len() == size * size,
                    b@.len() == size * size,
                    result@.len() == size * size,
                    forall|p: int| 0 <= p < size * size ==> a@[p] == 1,
                    forall|p: int| 0 <= p < size * size ==> b@[p] == 2,
                    forall|p: int| 0 <= p < idx ==> result@[p] == 2 * size,
                    forall|p: int| idx < p < size * size ==> result@[p] == 0,
                    result@[idx as int] == 2 * k,
                decreases size - k,
            {
                proof {
                    lemma_row_major_index(size as int, i as int, k as int);
                    lemma_row_major_index(size as int, k as int, j as int);
                }
                let left = a[i * size + k];
                let right = b[k * size + j];
                let sum = result[idx] + left * right;
                result[idx] = sum;
                k = k + 1;
            }
            j = j + 1;
        }
        i = i + 1;
    }
    result
}

} // verus!
