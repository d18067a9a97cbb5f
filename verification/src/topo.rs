//! Memory-topology discovery, lookup, and caching.
//!
//! A [`NumaTopology`] records, for every memory node of the machine, the
//! logical cores that belong to it. Detection falls back to a single node
//! holding every logical core the operating system reports when no richer
//! hardware description is available; [`topology_from_report`] shapes the
//! answer of a hardware-topology backend into the same form.

use vstd::prelude::*;

verus! {

/// Memory topology of the host: for each memory node, in node order, the
/// logical core identifiers that belong to it.
///
/// Positions are meaningful: a node with no discoverable cores keeps its slot
/// as an empty set, so node indices stay stable.
#[derive(Debug)]
pub struct NumaTopology {
    /// Logical core identifiers, grouped per memory node.
    pub cores_per_node: Vec<Vec<usize>>,
}

impl View for NumaTopology {
    type V = Seq<Seq<usize>>;

    open spec fn view(&self) -> Seq<Seq<usize>> {
        self.cores_per_node.deep_view()
    }
}

/// A topology is valid when it has at least one node and at least one node
/// holds a core.
pub open spec fn valid_topology(nodes: Seq<Seq<usize>>) -> bool {
    &&& nodes.len() > 0
    &&& exists|i: int| 0 <= i < nodes.len() && nodes[i].len() > 0
}

/// What a node lookup may answer: `r` is the index of the first node whose
/// core set holds `core_id`, or `None` when no node's does.
pub open spec fn node_lookup_answer(nodes: Seq<Seq<usize>>, core_id: usize, r: Option<usize>) -> bool {
    match r {
        Some(node_id) => {
            &&& (node_id as int) < nodes.len()
            &&& nodes[node_id as int].contains(core_id)
            &&& forall|j: int| 0 <= j < node_id ==> !nodes[j].contains(core_id)
        },
        None => forall|j: int| 0 <= j < nodes.len() ==> !nodes[j].contains(core_id),
    }
}

/// A core that belongs to exactly one node is looked up to exactly that
/// node's index: any answer that meets the lookup contract is forced to be
/// `Some(k)` when node `k` alone holds the core.
pub proof fn lemma_node_lookup_unique(nodes: Seq<Seq<usize>>, core_id: usize, k: usize, r: Option<usize>)
    requires
        (k as int) < nodes.len(),
        nodes[k as int].contains(core_id),
        forall|j: int| 0 <= j < nodes.len() && j != k ==> !nodes[j].contains(core_id),
        node_lookup_answer(nodes, core_id, r),
    ensures
        r == Some(k),
{
    match r {
        Some(node_id) => {
            if node_id < k {
                assert(!nodes[node_id as int].contains(core_id));
            } else if node_id > k {
                assert(!nodes[k as int].contains(core_id));
            }
        },
        None => {
            assert(!nodes[k as int].contains(core_id));
        },
    }
}

/// True when `cores` holds `core_id`.
fn cores_contain(cores: &Vec<usize>, core_id: usize) -> (r: bool)
    ensures
        r == cores@.contains(core_id),
{
    let mut i: usize = 0;
    while i < cores.len()
        invariant
            i <= cores@.len(),
            forall|j: int| 0 <= j < i ==> cores@[j] != core_id,
        decreases cores@.len() - i,
    {
        if cores[i] == core_id {
            proof {
                assert(cores@[i as int] == core_id);
            }
            return true;
        }
        i += 1;
    }
    false
}

impl NumaTopology {
    /// The memory node a core belongs to: the first node whose core set holds
    /// `core_id`, or `None` when no node does.
    pub fn get_node_for_core(&self, core_id: usize) -> (r: Option<usize>)
        ensures
            node_lookup_answer(self@, core_id, r),
    {
        let mut node_id: usize = 0;
        while node_id < self.cores_per_node.len()
            invariant
                node_id <= self@.len(),
                self@.len() == self.cores_per_node@.len(),
                forall|j: int| 0 <= j < node_id ==> !self@[j].contains(core_id),
            decreases self.cores_per_node@.len() - node_id,
        {
            if cores_contain(&self.cores_per_node[node_id], core_id) {
                proof {
                    assert(self@[node_id as int] == self.cores_per_node@[node_id as int]@);
                }
                return Some(node_id);
            }
            proof {
                assert(self@[node_id as int] == self.cores_per_node@[node_id as int]@);
            }
            node_id += 1;
        }
        None
    }

    /// The core set of node `node_id`, or `None` when the index is out of
    /// range.
    pub fn get_cores_for_node(&self, node_id: usize) -> (r: Option<&[usize]>)
        ensures
            match r {
                Some(cores) => (node_id as int) < self@.len() && cores@ == self@[node_id as int],
                None => (node_id as int) >= self@.len(),
            },
    {
        if node_id < self.cores_per_node.len() {
            let cores = self.cores_per_node[node_id].as_slice();
            proof {
                assert(self@[node_id as int] == self.cores_per_node@[node_id as int]@);
            }
            Some(cores)
        } else {
            None
        }
    }

    /// Whether the topology has at least one node and at least one core.
    pub fn is_valid(&self) -> (r: bool)
        ensures
            r == valid_topology(self@),
    {
        if self.cores_per_node.len() == 0 {
            return false;
        }
        let mut i: usize = 0;
        while i < self.cores_per_node.len()
            invariant
                i <= self@.len(),
                self@.len() == self.cores_per_node@.len(),
                forall|j: int| 0 <= j < i ==> self@[j].len() == 0,
            decreases self.cores_per_node@.len() - i,
        {
            if self.cores_per_node[i].len() > 0 {
                proof {
                    assert(self@[i as int] == self.cores_per_node@[i as int]@);
                }
                return true;
            }
            proof {
                assert(self@[i as int] == self.cores_per_node@[i as int]@);
            }
            i += 1;
        }
        false
    }
}

/// An element-for-element copy of a core list.
fn copy_cores(cores: &Vec<usize>) -> (r: Vec<usize>)
    ensures
        r@ == cores@,
{
    let mut out: Vec<usize> = Vec::new();
    let mut i: usize = 0;
    while i < cores.len()
        invariant
            i <= cores@.len(),
            out@ == cores@.subrange(0, i as int),
        decreases cores@.len() - i,
    {
        out.push(cores[i]);
        proof {
            assert(out@ =~= cores@.subrange(0, i + 1));
        }
        i += 1;
    }
    proof {
        assert(out@ =~= cores@);
    }
    out
}

impl Clone for NumaTopology {
    /// A copy with the same nodes and the same cores in each node.
    fn clone(&self) -> (r: Self)
        ensures
            r@ == self@,
    {
        let mut nodes: Vec<Vec<usize>> = Vec::new();
        let mut i: usize = 0;
        while i < self.cores_per_node.len()
            invariant
                i <= self.cores_per_node@.len(),
                nodes@.len() == i,
                forall|k: int| 0 <= k < i ==> nodes@[k]@ == self.cores_per_node@[k]@,
            decreases self.cores_per_node@.len() - i,
        {
            nodes.push(copy_cores(&self.cores_per_node[i]));
            i += 1;
        }
        let r = NumaTopology { cores_per_node: nodes };
        proof {
            assert forall|k: int| 0 <= k < r@.len() implies r@[k] == self@[k] by {
                assert(r@[k] =~= nodes@[k]@);
                assert(self@[k] =~= self.cores_per_node@[k]@);
            }
            assert(r@ =~= self@);
        }
        r
    }
}

/// Relies on `num_cpus::get`: the number of logical cores of the running
/// system, documented to always be at least 1.
#[verifier::external_body]
fn logical_core_count() -> (n: usize)
    ensures
        1 <= n,
{
    num_cpus::get()
}

/// Detect the topology of the host.
///
/// Without a hardware-topology backend the answer is a single synthetic node
/// holding every logical core the operating system reports, in identity
/// order. A boundary layer with a live backend feeds its answer through
/// [`topology_from_report`] instead.
pub fn detect_topology() -> (t: NumaTopology)
    ensures
        t@.len() == 1,
        t@[0].len() >= 1,
        forall|i: int| 0 <= i < t@[0].len() ==> t@[0][i] == i,
        valid_topology(t@),
{
    let n = logical_core_count();
    let mut cores: Vec<usize> = Vec::new();
    let mut i: usize = 0;
    while i < n
        invariant
            i <= n,
            cores@.len() == i,
            forall|j: int| 0 <= j < i ==> cores@[j] == j,
        decreases n - i,
    {
        cores.push(i);
        i += 1;
    }
    let mut nodes: Vec<Vec<usize>> = Vec::new();
    nodes.push(cores);
    let t = NumaTopology { cores_per_node: nodes };
    proof {
        assert(t@[0] == nodes@[0]@);
    }
    t
}

/// What a hardware-topology backend reports: per-node core lists and the full
/// list of processing-unit indices it can enumerate.
#[derive(Debug)]
pub struct HardwareReport {
    /// For each reported memory node, in node order, the core identifiers
    /// discoverable under it; empty for a node with none.
    pub node_cores: Vec<Vec<usize>>,
    /// Every processing-unit core index the backend can enumerate.
    pub processing_units: Vec<usize>,
}

/// Shape a backend report into a topology.
///
/// Nodes keep their reported positions, empty ones included; a report of zero
/// nodes collapses to a single node holding every enumerated processing unit.
pub fn topology_from_report(report: HardwareReport) -> (t: NumaTopology)
    ensures
        report.node_cores@.len() > 0 ==> t@ == report.node_cores.deep_view(),
        report.node_cores@.len() == 0 ==> t@ == seq![report.processing_units@],
{
    if report.node_cores.len() > 0 {
        NumaTopology { cores_per_node: report.node_cores }
    } else {
        let mut nodes: Vec<Vec<usize>> = Vec::new();
        nodes.push(report.processing_units);
        let t = NumaTopology { cores_per_node: nodes };
        proof {
            assert(t@ =~~= seq![nodes@[0]@]);
        }
        t
    }
}

/// An explicit, caller-owned cache for a detected topology: detection is paid
/// once per cache, later loads are answered from the stored value. A
/// process-wide boundary layer may hold one instance behind a one-time
/// initialization primitive for ergonomic default use.
pub struct TopologyCache {
    cached: Option<NumaTopology>,
}

impl TopologyCache {
    /// An empty cache: the next load pays for detection.
    pub fn new() -> (r: TopologyCache)
        ensures
            r.contents() is None,
    {
        TopologyCache { cached: None }
    }

    /// What the cache currently holds, as an abstract value.
    pub closed spec fn contents(&self) -> Option<Seq<Seq<usize>>> {
        match self.cached {
            Some(t) => Some(t@),
            None => None,
        }
    }
}

/// Load the topology: answer from the cache when it is filled, otherwise
/// detect once, store the answer, and return it.
pub fn load_topology(cache: &mut TopologyCache) -> (t: NumaTopology)
    ensures
        final(cache).contents() == Some(t@),
        old(cache).contents() is Some ==> final(cache).contents() == old(cache).contents(),
        old(cache).contents() is None ==> valid_topology(t@),
{
    match &cache.cached {
        Some(t) => t.clone(),
        None => {
            let t = detect_topology();
            cache.cached = Some(t.clone());
            t
        },
    }
}

/// A shared reference to the cached topology, detecting and storing it first
/// when the cache is still empty.
pub fn get_topology(cache: &mut TopologyCache) -> (t: &NumaTopology)
    ensures
        final(cache).contents() == Some(t@),
        old(cache).contents() is Some ==> final(cache).contents() == old(cache).contents(),
        old(cache).contents() is None ==> valid_topology(t@),
{
    if cache.cached.is_none() {
        let t = detect_topology();
        cache.cached = Some(t);
    }
    match &cache.cached {
        Some(t) => t,
        None => vstd::pervasive::unreached(),
    }
}

} // verus!
