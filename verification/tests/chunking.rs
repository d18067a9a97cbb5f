use h3on_numa::parallel::chunk_bounds;
use h3on_numa::parallel::chunk_bounds_for_threads;
use h3on_numa::parallel::init_thread_pool;

#[test]
fn chunk_bounds_for_zero_length_hit_the_floor() {
    assert_eq!(chunk_bounds(0), (1024, 4096));
}

#[test]
fn chunk_bounds_keep_floor_and_ratio() {
    for len in [0usize, 1, 1024, 4096, 100_000, 10_000_000] {
        let (min_len, max_len) = chunk_bounds(len);
        assert!(min_len >= 1024);
        assert_eq!(max_len, min_len * 4);
    }
}

#[test]
fn chunk_bounds_follow_the_thread_count_formula() {
    // job_min = max(1024, total_len / (threads * 4)), bounds = (job_min, job_min * 4).
    assert_eq!(chunk_bounds_for_threads(1_000_000, 8), (31_250, 125_000));
    assert_eq!(chunk_bounds_for_threads(4096, 1), (1024, 4096));
    assert_eq!(chunk_bounds_for_threads(4100, 1), (1025, 4100));
    // A zero thread count is treated as one thread.
    assert_eq!(chunk_bounds_for_threads(8192, 0), (2048, 8192));
}

#[test]
fn thread_pool_initialization_is_idempotent() {
    init_thread_pool();
    let first = rayon::current_num_threads();
    // Racing initializers, including from inside the pool itself, leave
    // exactly one process-wide pool standing.
    rayon::join(init_thread_pool, init_thread_pool);
    init_thread_pool();
    let second = rayon::current_num_threads();
    assert_eq!(first, second);
    assert!(first >= 1);
}
