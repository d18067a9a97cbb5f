//! Workload chunking for data-parallel iteration over the process-wide
//! default pool.
//!
//! [`chunk_bounds`] initializes the default parallel-execution context at
//! most once and derives advisory chunk-size bounds from its live thread
//! count; [`chunk_bounds_for_threads`] holds the exact bound computation for
//! any given thread count.

use vstd::prelude::*;

verus! {

use vstd::arithmetic::div_mod::lemma_div_denominator;
use vstd::arithmetic::div_mod::lemma_div_is_ordered;
use vstd::arithmetic::div_mod::lemma_div_is_ordered_by_denominator;
use vstd::arithmetic::div_mod::lemma_fundamental_div_mod;

/// Relies on `rayon::ThreadPoolBuilder::build_global`: builds the
/// process-wide default pool, and errs — here deliberately ignored — when
/// that pool already exists, so concurrent callers race safely to exactly
/// one pool.
#[verifier::external_body]
pub fn init_thread_pool() {
    let _ = rayon::ThreadPoolBuilder::new().build_global();
}

/// Relies on `rayon::current_num_threads`: the number of threads of the
/// current pool, or of the default pool when called from outside any pool.
#[verifier::external_body]
fn live_thread_count() -> (n: usize) {
    rayon::current_num_threads()
}

/// The minimum chunk length for a workload of `total_len` elements on
/// `threads` threads: a quarter of an even per-thread share, floored at
/// 1024.
pub open spec fn chunk_min_spec(total_len: usize, threads: usize) -> int {
    let t = if threads == 0 { 1int } else { threads as int };
    vstd::math::max(1024, total_len as int / (t * 4))
}

/// The chunk bounds for a workload of `total_len` elements on a given
/// number of live threads: `(min_len, min_len * 4)`.
pub fn chunk_bounds_for_threads(total_len: usize, threads: usize) -> (bounds: (usize, usize))
    ensures
        bounds.0 == chunk_min_spec(total_len, threads),
        bounds.1 == bounds.0 * 4,
        bounds.0 >= 1024,
{
    let t = if threads == 0 { 1 } else { threads };
    let per_thread = total_len / t;
    let quarter = per_thread / 4;
    proof {
        lemma_div_denominator(total_len as int, t as int, 4);
        lemma_fundamental_div_mod(per_thread as int, 4);
    }
    let job_min = if quarter > 1024 { quarter } else { 1024 };
    (job_min, job_min * 4)
}

/// Chunk bounds for data-parallel iteration: ensure the process-wide default
/// pool exists (initializing it at most once), then derive the bounds from
/// its live thread count. Small workloads are never split below 1024
/// elements, so a workload of at most 4096 elements gets the floor bounds.
pub fn chunk_bounds(total_len: usize) -> (bounds: (usize, usize))
    ensures
        bounds.0 >= 1024,
        bounds.1 == bounds.0 * 4,
        total_len <= 4096 ==> bounds == (1024usize, 4096usize),
{
    init_thread_pool();
    let threads = live_thread_count();
    let bounds = chunk_bounds_for_threads(total_len, threads);
    proof {
        let t = if threads == 0 { 1int } else { threads as int };
        if total_len <= 4096 {
            lemma_div_is_ordered_by_denominator(total_len as int, 4, t * 4);
            lemma_div_is_ordered(total_len as int, 4096, 4);
        }
    }
    bounds
}

} // verus!
