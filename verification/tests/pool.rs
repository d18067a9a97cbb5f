use h3on_numa::NodeLocal;
use h3on_numa::NumaTopology;
use h3on_numa::estimate_buffer_sizes;
use h3on_numa::pool::assigned_core;
use h3on_numa::pool::worker_cores;

#[test]
fn estimator_floors_tiny_workloads() {
    assert_eq!(estimate_buffer_sizes(0, 0), (1024, 1024, 1024));
    assert_eq!(estimate_buffer_sizes(1, 1), (1024, 1024, 1024));
}

#[test]
fn estimator_follows_the_formulas() {
    // scratch = max(cells * resolution * 8, 1024), lut = max(4^resolution, 1024),
    // intermediate = max(cells * 2, 1024).
    assert_eq!(estimate_buffer_sizes(15, 10), (1200, 1 << 30, 1024));
    assert_eq!(estimate_buffer_sizes(9, 100_000), (7_200_000, 1 << 18, 200_000));
}

#[test]
fn estimator_handles_extreme_resolution() {
    assert_eq!(estimate_buffer_sizes(30, 1), (1024, 1 << 60, 1024));
}

#[test]
fn node_local_buffers_have_requested_sizes_and_zeroes() {
    let nl = NodeLocal::new(2048, 100, 4000);
    assert_eq!(nl.scratch().len(), 2048);
    assert!(nl.scratch().iter().all(|b| *b == 0));
    assert_eq!(nl.geometry_lut().len(), 100);
    assert!(nl.geometry_lut().iter().all(|w| *w == 0));
    assert_eq!(nl.intermediate().len(), 4000);
    assert!(nl.intermediate().iter().all(|w| *w == 0));
}

#[test]
fn node_local_mutable_access_writes_through() {
    let mut nl = NodeLocal::new(8, 8, 8);
    nl.scratch_mut()[0] = 7;
    nl.geometry_lut_mut()[1] = 9;
    nl.intermediate_mut()[2] = 11;
    assert_eq!(nl.scratch()[0], 7);
    assert_eq!(nl.geometry_lut()[1], 9);
    assert_eq!(nl.intermediate()[2], 11);
    // The untouched buffers keep their zeroes.
    assert!(nl.scratch()[1..].iter().all(|b| *b == 0));
}

#[test]
fn worker_cores_flattens_in_node_order() {
    let topo = NumaTopology { cores_per_node: vec![vec![3, 5], vec![], vec![7]] };
    assert_eq!(worker_cores(&topo), vec![3, 5, 7]);
}

#[test]
fn worker_cores_of_empty_topology_is_empty() {
    // An empty plan means the pool builder runs the work directly, with no
    // pool constructed.
    let topo = NumaTopology { cores_per_node: vec![] };
    assert!(worker_cores(&topo).is_empty());
    let hollow = NumaTopology { cores_per_node: vec![vec![], vec![]] };
    assert!(worker_cores(&hollow).is_empty());
}

#[test]
fn assigned_cores_rotate_round_robin() {
    let cores = vec![3usize, 5, 7];
    assert_eq!(assigned_core(&cores, 0), 3);
    assert_eq!(assigned_core(&cores, 1), 5);
    assert_eq!(assigned_core(&cores, 2), 7);
    assert_eq!(assigned_core(&cores, 3), 3);
    assert_eq!(assigned_core(&cores, 4), 5);
}

#[test]
fn pool_sized_to_worker_plan_runs_work() {
    let topo = NumaTopology { cores_per_node: vec![vec![0], vec![1]] };
    let cores = worker_cores(&topo);
    assert_eq!(cores.len(), 2);
    let pool = rayon::ThreadPoolBuilder::new()
        .num_threads(cores.len())
        .build()
        .expect("pool construction failed");
    let observed = pool.install(rayon::current_num_threads);
    assert_eq!(observed, 2);
}
