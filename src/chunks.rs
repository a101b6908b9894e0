use vstd::prelude::*;

use crate::error::SetupError;

verus! {

/// One half-open slice `[start, end)` of the parameter range.
#[derive(Clone, Copy, Debug, PartialEq, Eq, Structural)]
pub struct ChunkRange {
    pub index: usize,
    pub start: usize,
    pub end: usize,
}

/// `ceil(total / chunk_size)`: how many chunks cover `[0, total)`.
pub open spec fn chunk_count(total: nat, chunk_size: nat) -> nat
    recommends
        chunk_size > 0,
{
    ((total + chunk_size - 1) / chunk_size as int) as nat
}

/// Where chunk `i` begins.
pub open spec fn chunk_start(total: nat, chunk_size: nat, i: nat) -> nat {
    let s = i * chunk_size;
    if s < total {
        s
    } else {
        total
    }
}

/// Where chunk `i` ends: one chunk size later, or at `total` for the last.
pub open spec fn chunk_end(total: nat, chunk_size: nat, i: nat) -> nat {
    chunk_start(total, chunk_size, i + 1)
}

/// The index of the chunk that holds point `x`.
pub open spec fn chunk_of(chunk_size: nat, x: nat) -> nat {
    x / chunk_size
}

/// The range that chunk `i` of a plan holds.
pub open spec fn planned_chunk(total: nat, chunk_size: nat, i: nat) -> ChunkRange {
    ChunkRange {
        index: i as usize,
        start: chunk_start(total, chunk_size, i) as usize,
        end: chunk_end(total, chunk_size, i) as usize,
    }
}

proof fn lemma_count_exact(total: nat, chunk_size: nat, n: nat)
    requires
        chunk_size > 0,
        n * chunk_size >= total,
        n == 0 || (n - 1) * chunk_size < total,
    ensures
        n == chunk_count(total, chunk_size),
{
    let c = chunk_count(total, chunk_size);
    let t = total + chunk_size - 1;
    assert(c * chunk_size <= t && t < (c + 1) * chunk_size) by (nonlinear_arith)
        requires
            c == t / chunk_size as int,
            chunk_size > 0,
            t >= 0,
    ;
    if n == 0 {
        assert(total == 0) by (nonlinear_arith)
            requires
                n * chunk_size >= total,
                n == 0,
        ;
    } else {
        assert((n - 1) * chunk_size == n * chunk_size - chunk_size) by (nonlinear_arith);
    }
    assert(n == c) by (nonlinear_arith)
        requires
            c * chunk_size <= t,
            t < (c + 1) * chunk_size,
            t == total + chunk_size - 1,
            n * chunk_size >= total,
            n == 0 || (n - 1) * chunk_size < total,
            chunk_size > 0,
            n >= 0,
            c >= 0,
    ;
}

/// The chunks of a plan partition `[0, total)`: there are
/// `ceil(total / chunk_size)` of them, the first starts at 0, the last ends at
/// `total`, each ends where the next starts, none is empty, no two overlap,
/// every point `x` of the range lies in the chunk `x / chunk_size`, and
/// all but the last are `chunk_size` long.
pub proof fn chunk_plan_partitions(total: nat, chunk_size: nat)
    requires
        chunk_size > 0,
    ensures
        ({
            let n = chunk_count(total, chunk_size);
            &&& n == 0 <==> total == 0
            &&& n > 0 ==> chunk_start(total, chunk_size, 0) == 0
            &&& n > 0 ==> chunk_end(total, chunk_size, (n - 1) as nat) == total
            &&& forall|i: nat|
                i + 1 < n ==> chunk_end(total, chunk_size, i) == chunk_start(
                    total,
                    chunk_size,
                    i + 1,
                )
            &&& forall|i: nat|
                i < n ==> chunk_start(total, chunk_size, i) < chunk_end(total, chunk_size, i)
            &&& forall|i: nat|
                i + 1 < n ==> chunk_end(total, chunk_size, i) - chunk_start(total, chunk_size, i)
                    == chunk_size
            &&& forall|i: nat, j: nat|
                i < j < n ==> chunk_end(total, chunk_size, i) <= chunk_start(total, chunk_size, j)
            &&& forall|x: nat|
                x < total ==> {
                    let i = #[trigger] chunk_of(chunk_size, x);
                    &&& i < n
                    &&& chunk_start(total, chunk_size, i) <= x < chunk_end(total, chunk_size, i)
                }
        }),
{
    let n = chunk_count(total, chunk_size);
    let t = total + chunk_size - 1;
    assert(n * chunk_size <= t && t < (n + 1) * chunk_size) by (nonlinear_arith)
        requires
            n == t / chunk_size as int,
            chunk_size > 0,
            t >= 0,
    ;
    assert(n * chunk_size >= total) by (nonlinear_arith)
        requires
            t < (n + 1) * chunk_size,
            t == total + chunk_size - 1,
    ;
    assert(n > 0 ==> (n - 1) * chunk_size < total) by (nonlinear_arith)
        requires
            n * chunk_size <= t,
            t == total + chunk_size - 1,
    ;
    if total == 0 {
        assert(n == 0) by (nonlinear_arith)
            requires
                n * chunk_size <= t,
                t == chunk_size - 1,
                chunk_size > 0,
        ;
    }
    if total > 0 {
        assert(n > 0) by (nonlinear_arith)
            requires
                n * chunk_size >= total,
                total > 0,
        ;
    }
    assert forall|i: nat| i < n implies chunk_start(total, chunk_size, i) == i * chunk_size by {
        assert(i * chunk_size <= (n - 1) * chunk_size) by (nonlinear_arith)
            requires
                i <= n - 1,
                chunk_size > 0,
        ;
    }
    assert forall|i: nat| i < n implies chunk_start(total, chunk_size, i) < chunk_end(
        total,
        chunk_size,
        i,
    ) by {
        assert((i + 1) * chunk_size == i * chunk_size + chunk_size) by (nonlinear_arith);
    }
    assert forall|i: nat| i + 1 < n implies chunk_end(total, chunk_size, i) - chunk_start(
        total,
        chunk_size,
        i,
    ) == chunk_size by {
        assert((i + 1) * chunk_size == i * chunk_size + chunk_size) by (nonlinear_arith);
    }
    assert forall|i: nat, j: nat| i < j < n implies chunk_end(total, chunk_size, i)
        <= chunk_start(total, chunk_size, j) by {
        assert((i + 1) * chunk_size <= j * chunk_size) by (nonlinear_arith)
            requires
                i + 1 <= j,
                chunk_size > 0,
        ;
        assert(chunk_start(total, chunk_size, j) == j * chunk_size);
    }
    assert forall|x: nat| x < total implies ({
        let i = #[trigger] chunk_of(chunk_size, x);
        &&& i < n
        &&& chunk_start(total, chunk_size, i) <= x < chunk_end(total, chunk_size, i)
    }) by {
        let i = x / chunk_size;
        assert(i * chunk_size <= x && x < (i + 1) * chunk_size && (i + 1) * chunk_size == i
            * chunk_size + chunk_size) by (nonlinear_arith)
            requires
                i == x / chunk_size,
                chunk_size > 0,
        ;
        assert(i < n) by (nonlinear_arith)
            requires
                i * chunk_size <= x,
                x < total,
                total <= n * chunk_size,
                chunk_size > 0,
        ;
    }
}

/// Cuts `[0, total)` into chunks of `chunk_size`, the last holding the rest.
/// A chunk size of zero is a configuration error.
pub fn plan_chunks(total: usize, chunk_size: usize) -> (r: Result<Vec<ChunkRange>, SetupError>)
    ensures
        chunk_size == 0 <==> r is Err,
        r is Err ==> r == Err::<Vec<ChunkRange>, SetupError>(SetupError::ZeroChunkSize),
        r matches Ok(v) ==> {
            &&& v@.len() == chunk_count(total as nat, chunk_size as nat)
            &&& forall|i: int|
                0 <= i < v@.len() ==> v@[i] == planned_chunk(
                    total as nat,
                    chunk_size as nat,
                    i as nat,
                )
        },
{
    if chunk_size == 0 {
        return Err(SetupError::ZeroChunkSize);
    }
    let mut chunks: Vec<ChunkRange> = Vec::new();
    let mut start: usize = 0;
    let mut i: usize = 0;
    while start < total
        invariant
            chunk_size > 0,
            start as nat == chunk_start(total as nat, chunk_size as nat, i as nat),
            i == 0 || (i - 1) * chunk_size < total,
            i <= total,
            chunks@.len() == i,
            forall|j: int|
                0 <= j < i ==> chunks@[j] == planned_chunk(
                    total as nat,
                    chunk_size as nat,
                    j as nat,
                ),
        decreases total - start,
    {
        assert(start == i * chunk_size);
        let end = if total - start > chunk_size {
            start + chunk_size
        } else {
            total
        };
        assert((i + 1) * chunk_size == i * chunk_size + chunk_size) by (nonlinear_arith);
        assert(end as nat == chunk_end(total as nat, chunk_size as nat, i as nat));
        chunks.push(ChunkRange { index: i, start, end });
        assert(i * chunk_size >= i) by (nonlinear_arith)
            requires
                chunk_size >= 1,
        ;
        i = i + 1;
        start = end;
    }
    assert(i * chunk_size >= total);
    proof {
        lemma_count_exact(total as nat, chunk_size as nat, i as nat);
    }
    Ok(chunks)
}

} // verus!
