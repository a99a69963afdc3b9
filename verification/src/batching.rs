//! Splitting a run of items into consecutive batches.

use vstd::prelude::*;

verus! {

/// How many batches of at most `size` items hold `len` items.
pub open spec fn batch_count(len: nat, size: nat) -> nat
    recommends
        size >= 1,
{
    ((len + size - 1) as nat) / size
}

/// The half-open index range `[start, end)` of batch `i`.
pub open spec fn batch_range(len: nat, size: nat, i: nat) -> (nat, nat) {
    let start = i * size;
    (start, if start + size <= len { start + size } else { len })
}

proof fn lemma_count_bounds(len: nat, size: nat, n: nat)
    requires
        size >= 1,
        n * size >= len,
        n == 0 || (n - 1) * size < len,
    ensures
        n == batch_count(len, size),
{
    assert(n == ((len + size - 1) as nat) / size) by (nonlinear_arith)
        requires
            size >= 1,
            n * size >= len,
            n == 0 || (n - 1) * size < len,
    ;
}

/// Splits `len` items into consecutive batches of `size` items, the last one
/// possibly shorter, as `slice::chunks` does.
pub fn batch_ranges(len: usize, size: usize) -> (ranges: Vec<(usize, usize)>)
    requires
        size >= 1,
    ensures
        ranges@.len() == batch_count(len as nat, size as nat),
        forall|i: int|
            0 <= i < ranges@.len() ==> (#[trigger] ranges@[i]).0 == batch_range(
                len as nat,
                size as nat,
                i as nat,
            ).0 && ranges@[i].1 == batch_range(len as nat, size as nat, i as nat).1,
{
    let mut ranges: Vec<(usize, usize)> = Vec::new();
    let mut start: usize = 0;
    assert(0 * size == 0) by (nonlinear_arith);
    while start < len
        invariant
            size >= 1,
            start <= len,
            start <= ranges@.len() * size,
            start < len ==> start == ranges@.len() * size,
            ranges@.len() == 0 || (ranges@.len() - 1) * size < len,
            forall|i: int|
                0 <= i < ranges@.len() ==> (#[trigger] ranges@[i]).0 == batch_range(
                    len as nat,
                    size as nat,
                    i as nat,
                ).0 && ranges@[i].1 == batch_range(len as nat, size as nat, i as nat).1,
        decreases len - start,
    {
        let end = if len - start > size {
            start + size
        } else {
            len
        };
        let ghost n = ranges@.len();
        ranges.push((start, end));
        proof {
            assert((n + 1) * size == n * size + size) by (nonlinear_arith);
        }
        start = end;
    }
    proof {
        lemma_count_bounds(len as nat, size as nat, ranges@.len());
    }
    ranges
}

/// The batches partition the items: each batch is non-empty and holds at
/// most `size` items, the first starts at 0, each starts where the previous
/// one ends, and the last ends at `len`; there are no batches exactly when
/// there are no items.
pub proof fn law_batches_partition(len: nat, size: nat)
    requires
        size >= 1,
    ensures
        batch_count(len, size) == 0 <==> len == 0,
        forall|i: nat|
            i < batch_count(len, size) ==> #[trigger] batch_range(len, size, i).0 < batch_range(
                len,
                size,
                i,
            ).1 && batch_range(len, size, i).1 - batch_range(len, size, i).0 <= size,
        forall|i: nat|
            i + 1 < batch_count(len, size) ==> #[trigger] batch_range(len, size, i).1
                == batch_range(len, size, i + 1).0,
        batch_count(len, size) > 0 ==> batch_range(len, size, 0).0 == 0 && batch_range(
            len,
            size,
            (batch_count(len, size) - 1) as nat,
        ).1 == len,
{
    let n = batch_count(len, size);
    assert(n * size >= len && (n == 0 || (n - 1) * size < len) && (len == 0 <==> n == 0)) by (nonlinear_arith)
        requires
            size >= 1,
            n == ((len + size - 1) as nat) / size,
    ;
    assert forall|i: nat| i < n implies #[trigger] batch_range(len, size, i).0 < batch_range(
        len,
        size,
        i,
    ).1 && batch_range(len, size, i).1 - batch_range(len, size, i).0 <= size by {
        assert(i * size <= (n - 1) * size) by (nonlinear_arith)
            requires
                i < n,
        ;
    }
    assert forall|i: nat| i + 1 < n implies #[trigger] batch_range(len, size, i).1 == batch_range(
        len,
        size,
        i + 1,
    ).0 by {
        assert((i + 1) * size == i * size + size) by (nonlinear_arith);
        assert((i + 1) * size <= (n - 1) * size) by (nonlinear_arith)
            requires
                i + 1 < n,
        ;
    }
    if n > 0 {
        let last = (n - 1) as nat;
        assert(last * size + size == n * size) by (nonlinear_arith)
            requires
                last == n - 1,
        ;
    }
}

} // verus!
