//! Block submission plan for the block-based lossy codec.
//!
//! That encoder consumes samples in fixed-size blocks; the final block may
//! be shorter and is submitted as-is, which ends the stream.  The plan for a
//! buffer of `total` samples with block size `block` is the list of
//! (offset, length) pairs to submit, in order: every block is full except
//! possibly the last, consecutive blocks touch with no gap or overlap, and
//! together they cover the buffer exactly.

use vstd::prelude::*;

verus! {

/// Number of blocks submitted for `total` samples at block size `block`:
/// `total / block` rounded up.
pub open spec fn block_count_spec(total: int, block: int) -> int {
    (total + block - 1) / block
}

/// Length of block `i`: the full block size, or whatever remains.
pub open spec fn block_len_spec(total: int, block: int, i: int) -> int {
    if total - i * block < block {
        total - i * block
    } else {
        block
    }
}

/// Total length of the first `k` blocks of the plan.
pub open spec fn blocks_len_sum(total: int, block: int, k: int) -> int
    decreases k,
{
    if k <= 0 {
        0
    } else {
        blocks_len_sum(total, block, k - 1) + block_len_spec(total, block, k - 1)
    }
}

/// The block count is exact: one short of it leaves samples uncovered, and
/// its blocks reach at least to the end.
pub proof fn lemma_block_count_bounds(total: int, block: int)
    requires
        total >= 0,
        block > 0,
    ensures
        block_count_spec(total, block) >= 0,
        block_count_spec(total, block) * block >= total,
        total > 0 ==> (block_count_spec(total, block) - 1) * block < total,
        total == 0 ==> block_count_spec(total, block) == 0,
{
    let n = block_count_spec(total, block);
    vstd::arithmetic::div_mod::lemma_fundamental_div_mod(total + block - 1, block);
    vstd::arithmetic::div_mod::lemma_mod_bound(total + block - 1, block);
    assert(total + block - 1 == block * n + (total + block - 1) % block);
    if total == 0 {
        vstd::arithmetic::div_mod::lemma_basic_div(block - 1, block);
    } else {
        vstd::arithmetic::div_mod::lemma_div_is_ordered(0, total + block - 1, block);
        assert(n * block == block * n) by (nonlinear_arith);
        assert((n - 1) * block == block * n - block) by (nonlinear_arith);
    }
}

/// The first `k` blocks cover exactly the first `min(k*block, total)`
/// samples: consecutive blocks leave no gap and overlap nowhere.
pub proof fn lemma_blocks_len_sum(total: int, block: int, k: int)
    requires
        total >= 0,
        block > 0,
        0 <= k <= block_count_spec(total, block),
    ensures
        blocks_len_sum(total, block, k) == if k * block < total {
            k * block
        } else {
            total
        },
    decreases k,
{
    if k > 0 {
        lemma_blocks_len_sum(total, block, k - 1);
        lemma_block_count_bounds(total, block);
        assert((k - 1) * block < total) by {
            vstd::arithmetic::mul::lemma_mul_inequality(
                k - 1,
                block_count_spec(total, block) - 1,
                block,
            );
        }
        assert((k - 1) * block == k * block - block) by (nonlinear_arith);
        assert(blocks_len_sum(total, block, k) == blocks_len_sum(total, block, k - 1)
            + block_len_spec(total, block, k - 1));
        assert(blocks_len_sum(total, block, k - 1) == (k - 1) * block);
        if total - (k - 1) * block < block {
            assert(block_len_spec(total, block, k - 1) == total - (k - 1) * block);
            assert(blocks_len_sum(total, block, k) == total);
            assert(k * block >= total);
        } else {
            assert(block_len_spec(total, block, k - 1) == block);
            assert(blocks_len_sum(total, block, k) == k * block);
            assert(k * block <= total);
        }
    } else {
        assert(blocks_len_sum(total, block, 0) == 0);
        assert(0 * block == 0) by (nonlinear_arith);
    }
}

/// Block-coverage law: the plan for `total` samples submits
/// `ceil(total/block)` blocks whose lengths sum exactly to `total`; each
/// block starts where the previous one ended, every block except the last is
/// full, and every block is nonempty.
pub proof fn lemma_block_plan_covers(total: int, block: int)
    requires
        total >= 0,
        block > 0,
    ensures
        blocks_len_sum(total, block, block_count_spec(total, block)) == total,
        forall|i: int|
            0 <= i < block_count_spec(total, block) - 1 ==> block_len_spec(total, block, i)
                == block,
        forall|i: int|
            0 <= i < block_count_spec(total, block) ==> 0 < #[trigger] block_len_spec(
                total,
                block,
                i,
            ) <= block,
        forall|i: int|
            0 <= i < block_count_spec(total, block) ==> blocks_len_sum(total, block, i)
                == i * block,
{
    let n = block_count_spec(total, block);
    lemma_block_count_bounds(total, block);
    lemma_blocks_len_sum(total, block, n);
    assert(n * block >= total);
    assert forall|i: int| 0 <= i < n implies 0 < #[trigger] block_len_spec(total, block, i)
        <= block by {
        vstd::arithmetic::mul::lemma_mul_inequality(i, n - 1, block);
    }
    assert forall|i: int| 0 <= i < n - 1 implies block_len_spec(total, block, i) == block by {
        vstd::arithmetic::mul::lemma_mul_inequality(i + 1, n - 1, block);
        assert((i + 1) * block == i * block + block) by (nonlinear_arith);
    }
    assert forall|i: int| 0 <= i < n implies blocks_len_sum(total, block, i) == i * block by {
        lemma_blocks_len_sum(total, block, i);
        vstd::arithmetic::mul::lemma_mul_inequality(i, n - 1, block);
    }
}

/// Builds the block plan: the ordered (offset, length) pairs to submit.
pub fn block_plan(total: usize, block: usize) -> (plan: Vec<(usize, usize)>)
    requires
        block > 0,
        total + block <= usize::MAX,
    ensures
        plan@.len() == block_count_spec(total as int, block as int),
        forall|i: int|
            0 <= i < plan@.len() ==> (#[trigger] plan@[i]).0 == i * block,
        forall|i: int|
            0 <= i < plan@.len() ==> (#[trigger] plan@[i]).1 == block_len_spec(
                total as int,
                block as int,
                i,
            ),
{
    proof {
        lemma_block_count_bounds(total as int, block as int);
        let n = block_count_spec(total as int, block as int);
        if total > 0 {
            assert((n - 1) * block == n * block - block) by (nonlinear_arith);
        }
    }
    let count: usize = (total + block - 1) / block;
    let mut plan: Vec<(usize, usize)> = Vec::new();
    let mut i: usize = 0;
    let mut offset: usize = 0;
    while i < count
        invariant
            block > 0,
            total + block <= usize::MAX,
            count == block_count_spec(total as int, block as int),
            count * block >= total,
            count * block < total + block,
            i <= count,
            offset == i * block,
            plan@.len() == i,
            forall|j: int| 0 <= j < i ==> (#[trigger] plan@[j]).0 == j * block,
            forall|j: int|
                0 <= j < i ==> (#[trigger] plan@[j]).1 == block_len_spec(
                    total as int,
                    block as int,
                    j,
                ),
        decreases count - i,
    {
        proof {
            vstd::arithmetic::mul::lemma_mul_inequality(i as int, count as int - 1, block as int);
            assert((count - 1) * block == count * block - block) by (nonlinear_arith);
            assert((i + 1) * block == i * block + block) by (nonlinear_arith);
        }
        let len: usize = if total - offset < block {
            total - offset
        } else {
            block
        };
        plan.push((offset, len));
        proof {
            vstd::arithmetic::mul::lemma_mul_inequality(i + 1, count as int, block as int);
        }
        offset = offset + block;
        i = i + 1;
    }
    plan
}

} // verus!
