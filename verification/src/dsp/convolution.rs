//! Partitioned convolution planning: block and FFT sizes, and how an impulse
//! response is cut into blocks.

use vstd::prelude::*;
use vstd::arithmetic::power2::{pow2, lemma_pow2_unfold, lemma_pow2_pos};

verus! {

/// Block size used when none is given.
pub const DEFAULT_BLOCK_SIZE: usize = 512;

/// `n` is a power of two.
pub open spec fn is_power_of_two(n: int) -> bool {
    exists|k: nat| pow2(k) == n
}

/// Block and FFT size for a requested block size: the block is the smallest
/// power of two that is at least the request (and at least 1), and the FFT is
/// twice the block (zero padding for linear convolution).
pub fn convolution_blocks(block_size: usize) -> (r: (usize, usize))
    requires
        block_size <= usize::MAX / 4 + 1,
    ensures
        is_power_of_two(r.0 as int),
        r.0 >= block_size,
        r.0 >= 1,
        r.0 == 1 || r.0 / 2 < block_size,
        r.1 == 2 * r.0,
{
    let want = if block_size == 0 {
        1
    } else {
        block_size
    };
    let mut p: usize = 1;
    let ghost mut k: nat = 0;
    proof {
        assert(pow2(0) == 1) by {
            vstd::arithmetic::power2::lemma2_to64();
        }
    }
    while p < want
        invariant
            1 <= p,
            p == pow2(k),
            p == 1 || p / 2 < want,
            want <= usize::MAX / 4 + 1,
            want >= 1,
        decreases usize::MAX - p,
    {
        proof {
            lemma_pow2_unfold(k + 1);
        }
        p = p * 2;
        proof {
            k = k + 1;
        }
    }
    proof {
        assert(pow2(k) == p);
    }
    (p, p * 2)
}

/// Number of blocks of `block_size` samples that cover `ir_len` samples.
pub fn partition_count(ir_len: usize, block_size: usize) -> (r: usize)
    requires
        block_size > 0,
    ensures
        r as int == (ir_len as int + block_size as int - 1) / block_size as int,
{
    let q = ir_len / block_size;
    let r = if ir_len % block_size != 0 {
        proof {
            let n = ir_len as int;
            let b = block_size as int;
            assert(n / b < n) by (nonlinear_arith)
                requires
                    b > 0,
                    n % b != 0,
                    n >= 0,
            {
                if b == 1 {
                    assert(n % b == 0);
                }
            }
        }
        q + 1
    } else {
        q
    };
    proof {
        let n = ir_len as int;
        let b = block_size as int;
        assert(n == b * (n / b) + n % b) by (nonlinear_arith)
            requires
                b > 0,
        ;
        assert((n + b - 1) / b == n / b + (if n % b != 0 {
            1int
        } else {
            0int
        })) by (nonlinear_arith)
            requires
                b > 0,
                n >= 0,
                n == b * (n / b) + n % b,
                0 <= n % b < b,
        ;
    }
    r
}

/// Sample range `[start, end)` of partition `p`: blocks of `block_size`
/// samples, the last one cut at the end of the response.
pub open spec fn spec_partition_bounds(p: int, block_size: int, ir_len: int) -> (int, int) {
    (p * block_size, if p * block_size + block_size < ir_len {
        p * block_size + block_size
    } else {
        ir_len
    })
}

/// Sample range `[start, end)` of partition `p` of an impulse response of
/// `ir_len` samples cut into blocks of `block_size`.
pub fn partition_bounds(p: usize, block_size: usize, ir_len: usize) -> (r: (usize, usize))
    requires
        block_size > 0,
        p * block_size < ir_len,
    ensures
        (r.0 as int, r.1 as int) == spec_partition_bounds(p as int, block_size as int, ir_len as int),
        r.0 < r.1 <= ir_len,
{
    let start = p * block_size;
    let end = if ir_len - start > block_size {
        start + block_size
    } else {
        ir_len
    };
    (start, end)
}

/// The partitions tile the impulse response: partition `p + 1` starts where
/// partition `p` ends, and the last partition ends at the end of the response.
pub proof fn lemma_partitions_tile(p: int, block_size: int, ir_len: int)
    requires
        block_size > 0,
        ir_len > 0,
        0 <= p,
    ensures
        p + 1 < (ir_len + block_size - 1) / block_size ==> spec_partition_bounds(p, block_size, ir_len).1
            == spec_partition_bounds(p + 1, block_size, ir_len).0,
        p + 1 == (ir_len + block_size - 1) / block_size ==> spec_partition_bounds(p, block_size, ir_len).1
            == ir_len,
{
    let count = (ir_len + block_size - 1) / block_size;
    assert((p + 1) * block_size == p * block_size + block_size) by (nonlinear_arith);
    assert(count * block_size >= ir_len && (count - 1) * block_size < ir_len) by (nonlinear_arith)
        requires
            count == (ir_len + block_size - 1) / block_size,
            block_size > 0,
            ir_len > 0,
    ;
    if p + 1 < count {
        assert((p + 2) * block_size <= count * block_size) by (nonlinear_arith)
            requires
                p + 2 <= count,
                block_size > 0,
        ;
        assert((p + 1) * block_size < ir_len) by (nonlinear_arith)
            requires
                p + 1 <= count - 1,
                (count - 1) * block_size < ir_len,
                block_size > 0,
        ;
    }
}

} // verus!
