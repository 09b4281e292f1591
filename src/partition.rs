use vstd::prelude::*;

verus! {

/// The exclusive upper bound of the nonce space that the workers share.
pub const MAX_NONCE: u64 = 0xffff_ffff_ffff_ffff;

/// Width of every block but the last when the space is split `workers` ways.
pub open spec fn block_width(workers: int) -> int {
    MAX_NONCE as int / workers
}

/// First nonce of block `index`.
pub open spec fn block_start(index: int, workers: int) -> int {
    index * block_width(workers)
}

/// One past the last nonce of block `index`: the start of the next block,
/// or the end of the nonce space for the last block.
pub open spec fn block_end(index: int, workers: int) -> int {
    if index + 1 < workers {
        block_start(index + 1, workers)
    } else {
        MAX_NONCE as int
    }
}

pub open spec fn in_block(nonce: int, index: int, workers: int) -> bool {
    block_start(index, workers) <= nonce < block_end(index, workers)
}

proof fn lemma_width_positive(workers: int)
    requires
        1 <= workers <= MAX_NONCE,
    ensures
        1 <= block_width(workers),
        workers * block_width(workers) <= MAX_NONCE,
{
    let w = block_width(workers);
    let m = MAX_NONCE as int;
    assert(workers * w <= m) by (nonlinear_arith)
        requires
            w == m / workers,
            workers >= 1,
            m >= 0,
    {
        assert(m == workers * (m / workers) + m % workers);
    }
    assert(1 <= w) by (nonlinear_arith)
        requires
            w == m / workers,
            1 <= workers <= m,
    {
        assert(m == workers * (m / workers) + m % workers);
        assert(m % workers < workers);
    }
}

proof fn lemma_start_monotone(i: int, j: int, workers: int)
    requires
        1 <= workers <= MAX_NONCE,
        0 <= i <= j,
    ensures
        block_start(i, workers) <= block_start(j, workers),
        i < j ==> block_start(i, workers) + block_width(workers) <= block_start(j, workers),
{
    lemma_width_positive(workers);
    let w = block_width(workers);
    assert(i * w <= j * w) by (nonlinear_arith)
        requires
            0 <= i <= j,
            w >= 1,
    ;
    assert(i < j ==> i * w + w <= j * w) by (nonlinear_arith)
        requires
            0 <= i,
            w >= 1,
    ;
}

/// Nonce at which worker `index` of `workers` starts scanning.
pub fn worker_start_nonce(index: u64, workers: u64) -> (r: u64)
    requires
        1 <= workers,
        index < workers,
    ensures
        r == block_start(index as int, workers as int),
{
    proof {
        lemma_width_positive(workers as int);
        lemma_start_monotone(index as int, workers as int, workers as int);
    }
    let width = MAX_NONCE / workers;
    assert(index * width <= workers * width) by (nonlinear_arith)
        requires
            index < workers,
            width >= 0,
    ;
    index * width
}

/// The block `[start, end)` of worker `index` of `workers`.
pub fn worker_range(index: u64, workers: u64) -> (r: (u64, u64))
    requires
        1 <= workers,
        index < workers,
    ensures
        r.0 == block_start(index as int, workers as int),
        r.1 == block_end(index as int, workers as int),
        r.0 < r.1,
{
    proof {
        lemma_width_positive(workers as int);
        lemma_start_monotone(index as int, workers as int, workers as int);
        lemma_start_monotone(index as int, index as int + 1, workers as int);
    }
    let start = worker_start_nonce(index, workers);
    let end = if index + 1 < workers {
        worker_start_nonce(index + 1, workers)
    } else {
        MAX_NONCE
    };
    (start, end)
}

/// For every worker count, the blocks are contiguous and non-empty: the
/// first starts at zero, each one ends where the next begins, the last ends
/// at `MAX_NONCE`, and block `i` starts at `i * (MAX_NONCE / workers)`.
pub proof fn lemma_blocks_contiguous(workers: u64)
    requires
        workers >= 1,
    ensures
        block_start(0, workers as int) == 0,
        block_end(workers - 1, workers as int) == MAX_NONCE,
        forall|i: int|
            0 <= i < workers ==> #[trigger] block_start(i, workers as int) == i * (MAX_NONCE
                as int / workers as int),
        forall|i: int|
            0 <= i < workers ==> block_start(i, workers as int) < #[trigger] block_end(
                i,
                workers as int,
            ),
        forall|i: int|
            0 <= i && i + 1 < workers ==> #[trigger] block_end(i, workers as int) == block_start(
                i + 1,
                workers as int,
            ),
{
    let t = workers as int;
    lemma_width_positive(t);
    assert forall|i: int| 0 <= i < workers implies block_start(i, t) < #[trigger] block_end(
        i,
        t,
    ) by {
        lemma_start_monotone(i, i + 1, t);
        lemma_start_monotone(i, t - 1, t);
        lemma_start_monotone(t - 1, t, t);
    }
}

/// Every nonce below `MAX_NONCE` lies in exactly one block.
pub proof fn lemma_blocks_partition(workers: u64, nonce: u64)
    requires
        workers >= 1,
        nonce < MAX_NONCE,
    ensures
        exists|i: int| 0 <= i < workers && #[trigger] in_block(nonce as int, i, workers as int),
        forall|i: int, j: int|
            0 <= i < workers && 0 <= j < workers && #[trigger] in_block(
                nonce as int,
                i,
                workers as int,
            ) && #[trigger] in_block(nonce as int, j, workers as int) ==> i == j,
{
    let t = workers as int;
    let n = nonce as int;
    lemma_width_positive(t);
    let w = block_width(t);
    let q = n / w;
    assert(q * w <= n && n < q * w + w) by (nonlinear_arith)
        requires
            q == n / w,
            w >= 1,
            n >= 0,
    {
        assert(n == w * (n / w) + n % w);
    }
    assert(q >= 0) by (nonlinear_arith)
        requires
            q == n / w,
            w >= 1,
            n >= 0,
    ;
    let k = if q < t - 1 {
        q
    } else {
        t - 1
    };
    lemma_start_monotone(k, q, t);
    if k + 1 < t {
        assert(block_end(k, t) == (k + 1) * w);
        assert((k + 1) * w == q * w + w) by (nonlinear_arith)
            requires
                k == q,
        ;
    }
    assert(in_block(n, k, t));
    assert forall|i: int, j: int|
        0 <= i < workers && 0 <= j < workers && #[trigger] in_block(n, i, t) && #[trigger] in_block(
            n,
            j,
            t,
        ) implies i == j by {
        if i < j {
            lemma_start_monotone(i + 1, j, t);
            assert(block_end(i, t) <= block_start(j, t));
        } else if j < i {
            lemma_start_monotone(j + 1, i, t);
            assert(block_end(j, t) <= block_start(i, t));
        }
    }
}

} // verus!
