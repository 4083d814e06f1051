use vstd::prelude::*;

verus! {

/// `chunks` lists ranges `[start, end)` that are non-empty, follow one
/// another without gap or overlap, and together make up `[0, n)`.
pub open spec fn tiles(chunks: Seq<(usize, usize)>, n: int) -> bool {
    if chunks.len() == 0 {
        n == 0
    } else {
        &&& chunks[0].0 == 0
        &&& chunks.last().1 == n
        &&& forall|i: int| 0 <= i < chunks.len() ==> chunks[i].0 < chunks[i].1
        &&& forall|i: int| 0 <= i < chunks.len() - 1 ==> chunks[i].1 == chunks[i + 1].0
    }
}

/// The results of `f` on every index of every chunk, chunk after chunk: what
/// workers that each fill the output slots of their own chunk produce.
pub open spec fn gather<A>(chunks: Seq<(usize, usize)>, f: spec_fn(int) -> A) -> Seq<A>
    decreases chunks.len(),
{
    if chunks.len() == 0 {
        Seq::empty()
    } else {
        let last = chunks.last();
        gather(chunks.drop_last(), f) + Seq::new((last.1 - last.0) as nat, |k: int| f(last.0 + k))
    }
}

/// Number of indices each worker takes when `n` indices are shared among
/// `workers` (at least one) workers.
pub open spec fn chunk_len(n: int, workers: int) -> int {
    let w = if workers <= 0 { 1 } else { workers };
    (n + w - 1) / w
}

/// End of chunk `i` when chunks of `c` indices are cut from `[0, n)`.
pub open spec fn chunk_end(i: int, c: int, n: int) -> int {
    if (i + 1) * c < n { (i + 1) * c } else { n }
}

/// Gathering through any tiling of `[0, n)` gives the results in index order.
pub proof fn lemma_gather_tiles<A>(chunks: Seq<(usize, usize)>, n: int, f: spec_fn(int) -> A)
    requires
        tiles(chunks, n),
    ensures
        gather(chunks, f) == Seq::new(n as nat, f),
    decreases chunks.len(),
{
    if chunks.len() > 0 {
        let prev = chunks.drop_last();
        let last = chunks.last();
        if chunks.len() == 1 {
            assert(tiles(prev, last.0 as int));
        } else {
            assert(prev.last().1 == last.0);
            assert(tiles(prev, last.0 as int));
        }
        lemma_gather_tiles(prev, last.0 as int, f);
        assert(gather(chunks, f) =~= Seq::new(n as nat, f));
    }
}

/// The force pass gives the same output whatever the size of the worker
/// pool: for any two tilings of the particle indices (one per pool size),
/// gathering the per-particle results gives one result per particle, in
/// particle order, and the two outputs are equal.
pub proof fn lemma_output_independent_of_pool<A>(
    n: int,
    chunks_a: Seq<(usize, usize)>,
    chunks_b: Seq<(usize, usize)>,
    f: spec_fn(int) -> A,
)
    requires
        tiles(chunks_a, n),
        tiles(chunks_b, n),
    ensures
        gather(chunks_a, f).len() == n,
        gather(chunks_a, f) == gather(chunks_b, f),
{
    lemma_gather_tiles(chunks_a, n, f);
    lemma_gather_tiles(chunks_b, n, f);
}

proof fn lemma_count_bound(len: int, c: int, n: int, w: int)
    requires
        len >= 1,
        c >= 1,
        w >= 1,
        (len - 1) * c < n,
        n <= w * c,
    ensures
        len <= w,
{
    assert((len - 1) * c < w * c);
    assert(len - 1 < w) by (nonlinear_arith)
        requires
            (len - 1) * c < w * c,
            c >= 1,
    ;
}

/// Splits the indices `[0, n)` among `workers` workers (a pool of zero is
/// taken as one): consecutive ranges of `chunk_len(n, workers)` indices, the
/// last one possibly shorter, at most one per worker.
pub fn partition(n: usize, workers: usize) -> (r: Vec<(usize, usize)>)
    ensures
        tiles(r@, n as int),
        r@.len() <= if workers == 0 { 1 } else { workers as int },
        forall|i: int|
            #![trigger r@[i]]
            0 <= i < r@.len() ==> r@[i].0 == i * chunk_len(n as int, workers as int) && r@[i].1
                == chunk_end(i, chunk_len(n as int, workers as int), n as int),
{
    let w: usize = if workers == 0 { 1 } else { workers };
    let q: usize = n / w;
    proof {
        if n % w != 0 {
            assert(w >= 2);
            assert(q < usize::MAX) by (nonlinear_arith)
                requires
                    w >= 2,
                    q == n / w,
                    n <= usize::MAX,
            ;
        }
    }
    let c: usize = if n % w == 0 { q } else { q + 1 };
    proof {
        assert(n > 0 ==> c >= 1) by (nonlinear_arith)
            requires
                w >= 1,
                q == n / w,
                c == (if n % w == 0 { q as int } else { q + 1 }),
        ;
        assert(c == chunk_len(n as int, workers as int)) by (nonlinear_arith)
            requires
                w >= 1,
                w == (if workers == 0 { 1 } else { workers as int }),
                c == (if n % w == 0 { n as int / w as int } else { n as int / w as int + 1 }),
        ;
        assert(n <= w * c) by (nonlinear_arith)
            requires
                w >= 1,
                c == (if n % w == 0 { n as int / w as int } else { n as int / w as int + 1 }),
        ;
    }
    let mut r: Vec<(usize, usize)> = Vec::new();
    let mut start: usize = 0;
    while start < n
        invariant
            w >= 1,
            c == chunk_len(n as int, workers as int),
            n <= w * c,
            n > 0 ==> c >= 1,
            start <= n,
            tiles(r@, start as int),
            start < n ==> start == r@.len() * c,
            r@.len() > 0 ==> (r@.len() - 1) * c < start,
            forall|i: int|
                #![trigger r@[i]]
                0 <= i < r@.len() ==> r@[i].0 == i * c && r@[i].1 == chunk_end(i, c as int, n as int),
        decreases n - start,
    {
        assert(c >= 1) by (nonlinear_arith)
            requires
                n > 0,
                n <= w * c,
                w >= 1,
        ;
        let end: usize = if n - start <= c { n } else { start + c };
        let ghost prev = r@;
        r.push((start, end));
        proof {
            assert(r@.drop_last() == prev);
            if prev.len() > 0 {
                assert(prev.last().1 == start);
            }
            assert((r@.len() - 1) * c == prev.len() * c);
            assert(r@.len() * c == prev.len() * c + c) by (nonlinear_arith)
                requires
                    r@.len() == prev.len() + 1,
            ;
            let k = prev.len() as int;
            assert(r@[k].0 == k * c);
            assert(r@[k].1 == chunk_end(k, c as int, n as int));
            assert forall|i: int| 0 <= i < prev.len() implies r@[i] == prev[i] by {}
        }
        start = end;
    }
    proof {
        assert forall|i: int| #![trigger r@[i]] 0 <= i < r@.len() implies r@[i].0 == i * chunk_len(
            n as int,
            workers as int,
        ) && r@[i].1 == chunk_end(i, chunk_len(n as int, workers as int), n as int) by {
            assert(r@[i].0 == i * c && r@[i].1 == chunk_end(i, c as int, n as int));
        }
        if r@.len() > 0 {
            lemma_count_bound(r@.len() as int, c as int, n as int, w as int);
        }
    }
    r
}

} // verus!
