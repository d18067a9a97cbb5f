//! NUMA-aware parallel-execution substrate: hardware topology discovery,
//! core-pinned worker pools with first-touch scratch memory, and adaptive
//! workload chunking.

use vstd::prelude::*;

pub mod parallel;
pub mod pool;
pub mod topo;

pub use pool::NodeLocal;
pub use pool::estimate_buffer_sizes;
pub use topo::NumaTopology;

verus! {

use crate::topo::detect_topology;
use crate::topo::valid_topology;

/// Detect the topology of the host, for callers that set the substrate up
/// once at startup. Callers that want the detection cost amortized hand a
/// [`topo::TopologyCache`] to [`topo::load_topology`] instead.
pub fn init_numa() -> (t: NumaTopology)
    ensures
        t@.len() == 1,
        t@[0].len() >= 1,
        forall|i: int| 0 <= i < t@[0].len() ==> t@[0][i] == i,
        valid_topology(t@),
{
    detect_topology()
}

/// Reports whether this library is built with hardware-topology support.
pub fn is_numa_available() -> (r: bool)
    ensures
        r,
{
    true
}

} // verus!
