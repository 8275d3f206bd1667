//! Query pools and the per-frame list of pools.
//!
//! A [`QueryPool`] stands for one fixed-capacity hardware timestamp query
//! set plus its readback buffer; the library tracks only what it needs to
//! reason about — how many slots are used and the pool's permanent base
//! query id. A [`FrameInFlight`] owns the ordered, append-only list of
//! pools written during one frame and a cursor to the pool currently
//! accepting writes.

use vstd::prelude::*;

use crate::event::GpuCommand;
use crate::pass::Pass;

verus! {

/// The fixed number of query slots in every pool.
pub const QUERY_POOL_SIZE: u16 = 128;

/// One fixed-capacity timestamp query set and its readback buffer.
#[derive(Clone, Copy, PartialEq, Eq, Structural, Debug)]
pub struct QueryPool {
    /// How many slots of this pool have been written this frame.
    pub used_queries: u16,
    /// The global id of this pool's first slot, assigned at creation and
    /// kept for the pool's whole life.
    pub base_query_id: u16,
}

impl QueryPool {
    /// Create a pool whose slots continue the context's global id sequence,
    /// advancing the allocator by one full capacity.
    pub fn new(allocated_query_ids: &mut u16, commands: &mut Vec<GpuCommand>) -> (pool: QueryPool)
        requires
            *old(allocated_query_ids) + QUERY_POOL_SIZE <= u16::MAX,
        ensures
            pool.base_query_id == *old(allocated_query_ids),
            pool.used_queries == 0,
            *final(allocated_query_ids) == *old(allocated_query_ids) + QUERY_POOL_SIZE,
            final(commands)@ == old(commands)@.push(
                GpuCommand::CreateQueryPool { base_query_id: *old(allocated_query_ids) },
            ),
    {
        let base = *allocated_query_ids;
        commands.push(GpuCommand::CreateQueryPool { base_query_id: base });
        *allocated_query_ids = *allocated_query_ids + QUERY_POOL_SIZE;
        QueryPool { used_queries: 0, base_query_id: base }
    }

    /// Write a timestamp at the next free slot through the given recorder;
    /// return the write's globally unique query id and whether the pool just
    /// reached capacity.
    pub fn write_query(&mut self, pass: &mut Pass) -> (r: (u16, bool))
        requires
            old(self).used_queries < QUERY_POOL_SIZE,
            old(self).base_query_id + QUERY_POOL_SIZE <= u16::MAX,
        ensures
            r.0 == old(self).base_query_id + old(self).used_queries,
            r.1 == (old(self).used_queries + 1 == QUERY_POOL_SIZE),
            final(self).base_query_id == old(self).base_query_id,
            final(self).used_queries == old(self).used_queries + 1,
            final(pass).kind() == old(pass).kind(),
            final(pass).writes() == old(pass).writes().push(r.0),
    {
        let id = self.base_query_id + self.used_queries;
        pass.write_timestamp(id);
        self.used_queries = self.used_queries + 1;
        (id, self.used_queries == QUERY_POOL_SIZE)
    }

    /// Zero the used count and unmap the readback buffer; the hardware
    /// resource and the base id persist, so ids are never replayed by this
    /// pool under a different base.
    pub fn reset(&mut self, commands: &mut Vec<GpuCommand>)
        ensures
            final(self).used_queries == 0,
            final(self).base_query_id == old(self).base_query_id,
            final(commands)@ == old(commands)@.push(
                GpuCommand::UnmapReadback { base_query_id: old(self).base_query_id },
            ),
    {
        self.used_queries = 0;
        commands.push(GpuCommand::UnmapReadback { base_query_id: self.base_query_id });
    }
}

/// One slot of the ring of frames in flight.
#[derive(Clone, PartialEq, Eq, Debug)]
pub struct FrameInFlight {
    /// The pools written during this frame, in creation order.
    pub pools: Vec<QueryPool>,
    /// The position of the pool currently accepting writes.
    pub curr_pool: usize,
    /// Whether a readback submission for this slot is outstanding.
    pub map_submission: bool,
}

impl FrameInFlight {
    /// The structural invariant of a slot at rest: the cursor is in range,
    /// pools before it are full, pools after it are untouched, and the pool
    /// at the cursor still has room.
    pub open spec fn shape_wf(self) -> bool {
        &&& self.curr_pool <= self.pools@.len()
        &&& forall|i: int|
            0 <= i < self.curr_pool ==> (#[trigger] self.pools@[i]).used_queries
                == QUERY_POOL_SIZE
        &&& forall|i: int|
            self.curr_pool < i < self.pools@.len() ==> (#[trigger] self.pools@[i]).used_queries
                == 0
        &&& self.curr_pool < self.pools@.len() ==> self.pools@[self.curr_pool as int].used_queries
            < QUERY_POOL_SIZE
    }

    /// The id invariant of a slot: every pool's id range lies below the
    /// context's allocation watermark, and the ranges of successive pools
    /// are disjoint and increasing.
    pub open spec fn ids_wf(self, allocated: u16) -> bool {
        &&& forall|i: int|
            0 <= i < self.pools@.len() ==> (#[trigger] self.pools@[i]).base_query_id
                + QUERY_POOL_SIZE <= allocated
        &&& forall|i: int, j: int|
            0 <= i < j < self.pools@.len() ==> (#[trigger] self.pools@[i]).base_query_id
                + QUERY_POOL_SIZE <= (#[trigger] self.pools@[j]).base_query_id
    }

    /// Both invariants together.
    pub open spec fn wf(self, allocated: u16) -> bool {
        self.shape_wf() && self.ids_wf(allocated)
    }

    /// Every pool's id range fits the id type; implied by `ids_wf` for any
    /// watermark, since the watermark itself is of the id type.
    pub open spec fn ids_bounded(self) -> bool {
        forall|i: int|
            0 <= i < self.pools@.len() ==> (#[trigger] self.pools@[i]).base_query_id
                + QUERY_POOL_SIZE <= u16::MAX
    }

    /// The id the next timestamp write in this slot will get.
    pub open spec fn next_query_id(self, allocated: u16) -> u16 {
        if self.curr_pool < self.pools@.len() {
            (self.pools@[self.curr_pool as int].base_query_id
                + self.pools@[self.curr_pool as int].used_queries) as u16
        } else {
            allocated
        }
    }

    /// An empty slot: no pools, the cursor at the start, nothing submitted.
    pub fn new() -> (f: FrameInFlight)
        ensures
            f.pools@.len() == 0,
            f.curr_pool == 0,
            !f.map_submission,
    {
        FrameInFlight { pools: Vec::new(), curr_pool: 0, map_submission: false }
    }

    /// Ensure a pool exists at the cursor, creating one that continues the
    /// global id sequence only if none does.
    pub fn get_pool(&mut self, allocated_query_ids: &mut u16, commands: &mut Vec<GpuCommand>)
        requires
            old(self).wf(*old(allocated_query_ids)),
            old(self).pools@.len() == old(self).curr_pool ==> *old(allocated_query_ids)
                + QUERY_POOL_SIZE <= u16::MAX,
        ensures
            final(self).wf(*final(allocated_query_ids)),
            final(self).curr_pool == old(self).curr_pool,
            final(self).curr_pool < final(self).pools@.len(),
            final(self).map_submission == old(self).map_submission,
            if old(self).pools@.len() == old(self).curr_pool {
                &&& final(self).pools@ == old(self).pools@.push(
                    QueryPool { used_queries: 0, base_query_id: *old(allocated_query_ids) },
                )
                &&& *final(allocated_query_ids) == *old(allocated_query_ids) + QUERY_POOL_SIZE
                &&& final(commands)@ == old(commands)@.push(
                    GpuCommand::CreateQueryPool { base_query_id: *old(allocated_query_ids) },
                )
            } else {
                &&& final(self).pools@ == old(self).pools@
                &&& *final(allocated_query_ids) == *old(allocated_query_ids)
                &&& final(commands)@ == old(commands)@
            },
    {
        if self.pools.len() == self.curr_pool {
            let pool = QueryPool::new(allocated_query_ids, commands);
            self.pools.push(pool);
        }
    }
}

/// A slot well formed against a low watermark stays well formed when the
/// watermark only grows.
pub proof fn lemma_wf_monotonic(f: FrameInFlight, a: u16, b: u16)
    requires
        f.wf(a),
        a <= b,
    ensures
        f.wf(b),
{
}

/// How one timestamp write changes a slot: a pool is created at the cursor
/// if none exists, the write takes the pool's next id, and the cursor
/// advances past the pool if the write filled it.
pub open spec fn zone_write_step(
    pre: FrameInFlight,
    pre_alloc: u16,
    post: FrameInFlight,
    post_alloc: u16,
    id: u16,
) -> bool {
    let created = pre.curr_pool == pre.pools@.len();
    let pools1 = if created {
        pre.pools@.push(QueryPool { used_queries: 0, base_query_id: pre_alloc })
    } else {
        pre.pools@
    };
    let pool = pools1[pre.curr_pool as int];
    &&& id == pool.base_query_id + pool.used_queries
    &&& post_alloc == if created {
        (pre_alloc + QUERY_POOL_SIZE) as int
    } else {
        pre_alloc as int
    }
    &&& post.pools@ == pools1.update(
        pre.curr_pool as int,
        QueryPool {
            used_queries: (pool.used_queries + 1) as u16,
            base_query_id: pool.base_query_id,
        },
    )
    &&& post.curr_pool == if pool.used_queries + 1 == QUERY_POOL_SIZE {
        pre.curr_pool + 1
    } else {
        pre.curr_pool as int
    }
    &&& post.map_submission == pre.map_submission
}

impl FrameInFlight {
    /// Write one zone timestamp into this slot's current pool, creating or
    /// advancing pools as capacity demands, and return the write's id.
    pub fn write_zone_query(
        &mut self,
        allocated_query_ids: &mut u16,
        commands: &mut Vec<GpuCommand>,
        pass: &mut Pass,
    ) -> (id: u16)
        requires
            old(self).wf(*old(allocated_query_ids)),
            old(self).pools@.len() == old(self).curr_pool ==> *old(allocated_query_ids)
                + QUERY_POOL_SIZE <= u16::MAX,
        ensures
            final(self).wf(*final(allocated_query_ids)),
            id == old(self).next_query_id(*old(allocated_query_ids)),
            zone_write_step(
                *old(self),
                *old(allocated_query_ids),
                *final(self),
                *final(allocated_query_ids),
                id,
            ),
            final(pass).kind() == old(pass).kind(),
            final(pass).writes() == old(pass).writes().push(id),
            final(commands)@ == if old(self).pools@.len() == old(self).curr_pool {
                old(commands)@.push(
                    GpuCommand::CreateQueryPool { base_query_id: *old(allocated_query_ids) },
                )
            } else {
                old(commands)@
            },
    {
        self.get_pool(allocated_query_ids, commands);
        let idx = self.curr_pool;
        let n = self.pools.len();
        assert(idx < n);
        let pool = &mut self.pools[idx];
        let (id, full) = pool.write_query(pass);
        if full {
            self.curr_pool = idx + 1;
        }
        id
    }
}

} // verus!
