//! Per-worker scratch state and worker-pool planning.
//!
//! A [`NodeLocal`] bundles the scratch buffers one worker thread owns for the
//! lifetime of one pool; building it writes every element, so the backing
//! pages are first-touched — and thus physically mapped — on the memory node
//! of the constructing thread. [`estimate_buffer_sizes`] derives the three
//! buffer capacities from the workload, and [`worker_cores`] /
//! [`assigned_core`] plan how pool workers are spread over the detected
//! cores.

use vstd::prelude::*;

verus! {

use vstd::arithmetic::power2::pow2;
use vstd::bits::lemma_usize_pow2_no_overflow;
use vstd::bits::lemma_usize_shl_is_mul;
use crate::topo::NumaTopology;

/// Scratch state owned by exactly one worker thread for the lifetime of one
/// pool: an untyped scratch buffer, a 32-bit lookup-table buffer, and a
/// 64-bit intermediate-result buffer.
#[derive(Debug)]
pub struct NodeLocal {
    /// Scratch buffer for temporary computations.
    pub scratch: Vec<u8>,
    /// Lookup-table cache for geometry operations.
    pub geometry_lut: Vec<u32>,
    /// Buffer for intermediate results.
    pub intermediate: Vec<u64>,
}

/// A vector of `len` copies of `value`, written element by element: every
/// element is stored, not merely reserved, so the backing pages are
/// first-touched by the calling thread.
fn filled<T: Copy>(len: usize, value: T) -> (v: Vec<T>)
    ensures
        v@.len() == len,
        forall|i: int| 0 <= i < len ==> v@[i] == value,
{
    let mut v: Vec<T> = Vec::new();
    let mut i: usize = 0;
    while i < len
        invariant
            i <= len,
            v@.len() == i,
            forall|j: int| 0 <= j < i ==> v@[j] == value,
        decreases len - i,
    {
        v.push(value);
        i += 1;
    }
    v
}

impl NodeLocal {
    /// Build the three buffers at the requested sizes, every element written
    /// to zero (first-touch allocation).
    pub fn new(scratch_size: usize, lut_size: usize, intermediate_size: usize) -> (r: NodeLocal)
        ensures
            r.scratch@.len() == scratch_size,
            forall|i: int| 0 <= i < r.scratch@.len() ==> r.scratch@[i] == 0,
            r.geometry_lut@.len() == lut_size,
            forall|i: int| 0 <= i < r.geometry_lut@.len() ==> r.geometry_lut@[i] == 0,
            r.intermediate@.len() == intermediate_size,
            forall|i: int| 0 <= i < r.intermediate@.len() ==> r.intermediate@[i] == 0,
    {
        NodeLocal {
            scratch: filled(scratch_size, 0u8),
            geometry_lut: filled(lut_size, 0u32),
            intermediate: filled(intermediate_size, 0u64),
        }
    }

    /// Read access to the scratch buffer.
    pub fn scratch(&self) -> (r: &[u8])
        ensures
            r@ == self.scratch@,
    {
        self.scratch.as_slice()
    }

    /// Exclusive access to the scratch buffer; the other buffers are
    /// untouched.
    pub fn scratch_mut(&mut self) -> (r: &mut [u8])
        ensures
            r@ == old(self).scratch@,
            final(self).scratch@ == final(r)@,
            final(self).geometry_lut == old(self).geometry_lut,
            final(self).intermediate == old(self).intermediate,
    {
        self.scratch.as_mut_slice()
    }

    /// Read access to the geometry lookup table.
    pub fn geometry_lut(&self) -> (r: &[u32])
        ensures
            r@ == self.geometry_lut@,
    {
        self.geometry_lut.as_slice()
    }

    /// Exclusive access to the geometry lookup table; the other buffers are
    /// untouched.
    pub fn geometry_lut_mut(&mut self) -> (r: &mut [u32])
        ensures
            r@ == old(self).geometry_lut@,
            final(self).geometry_lut@ == final(r)@,
            final(self).scratch == old(self).scratch,
            final(self).intermediate == old(self).intermediate,
    {
        self.geometry_lut.as_mut_slice()
    }

    /// Read access to the intermediate-result buffer.
    pub fn intermediate(&self) -> (r: &[u64])
        ensures
            r@ == self.intermediate@,
    {
        self.intermediate.as_slice()
    }

    /// Exclusive access to the intermediate-result buffer; the other buffers
    /// are untouched.
    pub fn intermediate_mut(&mut self) -> (r: &mut [u64])
        ensures
            r@ == old(self).intermediate@,
            final(self).intermediate@ == final(r)@,
            final(self).scratch == old(self).scratch,
            final(self).geometry_lut == old(self).geometry_lut,
    {
        self.intermediate.as_mut_slice()
    }
}

/// Estimate the three buffer capacities for a workload.
///
/// The scratch buffer scales with the workload and the per-cell work of the
/// resolution depth, the lookup table with the geometric branching factor of
/// the resolution hierarchy, and the intermediate buffer linearly with the
/// element count; each is floored at 1024 elements to avoid degenerate tiny
/// allocations.
pub fn estimate_buffer_sizes(resolution: u8, expected_cells: usize) -> (sizes: (usize, usize, usize))
    requires
        resolution <= 30,
        2 * (resolution as int) < usize::BITS,
        expected_cells * resolution * 8 <= usize::MAX,
        expected_cells * 2 <= usize::MAX,
    ensures
        sizes.0 == vstd::math::max(expected_cells * resolution * 8, 1024),
        sizes.1 == vstd::math::max(pow2((2 * resolution) as nat) as int, 1024),
        sizes.2 == vstd::math::max(expected_cells * 2, 1024),
{
    let scratch_raw = expected_cells * (resolution as usize) * 8;
    let scratch_size = if scratch_raw > 1024 { scratch_raw } else { 1024 };

    let shift = (resolution as usize) * 2;
    proof {
        lemma_usize_pow2_no_overflow(shift as nat);
        lemma_usize_shl_is_mul(1, shift as usize);
    }
    let lut_raw = 1usize << shift;
    let lut_size = if lut_raw > 1024 { lut_raw } else { 1024 };

    let intermediate_raw = expected_cells * 2;
    let intermediate_size = if intermediate_raw > 1024 { intermediate_raw } else { 1024 };

    (scratch_size, lut_size, intermediate_size)
}

/// Flatten the per-node core sets into one ordered worker-core list: node
/// grouping order is preserved, node boundaries are lost.
pub fn worker_cores(topo: &NumaTopology) -> (cores: Vec<usize>)
    ensures
        cores@ == topo@.flatten(),
        cores@.len() == 0 <==> (forall|i: int| 0 <= i < topo@.len() ==> topo@[i].len() == 0),
{
    let mut cores: Vec<usize> = Vec::new();
    let mut i: usize = 0;
    while i < topo.cores_per_node.len()
        invariant
            i <= topo@.len(),
            topo@.len() == topo.cores_per_node@.len(),
            cores@ == topo@.subrange(0, i as int).flatten(),
            cores@.len() == 0 <==> (forall|j: int| 0 <= j < i ==> topo@[j].len() == 0),
        decreases topo.cores_per_node@.len() - i,
    {
        let node = &topo.cores_per_node[i];
        proof {
            assert(topo@[i as int] == topo.cores_per_node@[i as int]@);
        }
        let ghost flat_prefix = cores@;
        let mut k: usize = 0;
        while k < node.len()
            invariant
                k <= node@.len(),
                cores@ == flat_prefix + node@.subrange(0, k as int),
            decreases node@.len() - k,
        {
            cores.push(node[k]);
            proof {
                assert(cores@ =~= flat_prefix + node@.subrange(0, k + 1));
            }
            k += 1;
        }
        proof {
            assert(node@.subrange(0, node@.len() as int) =~= node@);
            assert(topo@.subrange(0, i as int).push(topo@[i as int]) =~= topo@.subrange(0, i + 1));
            topo@.subrange(0, i as int).lemma_flatten_push(topo@[i as int]);
            assert(cores@ =~= topo@.subrange(0, i + 1).flatten());
        }
        i += 1;
    }
    proof {
        assert(topo@.subrange(0, topo@.len() as int) =~= topo@);
    }
    cores
}

/// The core worker `index` is pinned to: round-robin over the worker-core
/// list, which is the identity mapping when the pool size equals the core
/// count.
pub fn assigned_core(cores: &Vec<usize>, index: usize) -> (core_id: usize)
    requires
        cores@.len() > 0,
    ensures
        core_id == cores@[(index as int) % (cores@.len() as int)],
{
    cores[index % cores.len()]
}

} // verus!
