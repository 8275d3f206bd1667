//! The profiling context: the ring of frames in flight, the global query-id
//! allocator, zone instrumentation and frame-boundary resolution.

use vstd::prelude::*;

use crate::event::{le_bytes_to_u64, read_le_u64, BackendKind, GpuCommand, TracyEvent};
use crate::pass::Pass;
use crate::pool::{zone_write_step, FrameInFlight, QueryPool, QUERY_POOL_SIZE};

verus! {

/// Allocate the next context id from the process-wide counter. Ids are
/// never reused; the space is 255 contexts per process.
pub fn get_next_context(context_counter: &mut u8) -> (context: u8)
    requires
        *old(context_counter) < 255,
    ensures
        context == *old(context_counter),
        *final(context_counter) == *old(context_counter) + 1,
{
    let next = *context_counter;
    *context_counter = *context_counter + 1;
    next
}

/// How many leading pools of a slot hold at least one written query. Under
/// the slot invariant the written pools are exactly a prefix: all pools
/// before the cursor are full, and the pool at the cursor counts only if it
/// has a write.
pub open spec fn active_pool_count(f: FrameInFlight) -> int {
    if f.curr_pool < f.pools@.len() && f.pools@[f.curr_pool as int].used_queries > 0 {
        f.curr_pool + 1
    } else {
        f.curr_pool as int
    }
}

/// The round-trip proper of a calibration on an existing pool: one
/// timestamp at slot 0, resolved, copied, submitted, mapped, awaited, and
/// the pool unmapped again after the value is read.
pub open spec fn recalibration_commands(base: u16) -> Seq<GpuCommand> {
    seq![
        GpuCommand::WriteCalibrationTimestamp { base_query_id: base },
        GpuCommand::ResolveQueries { base_query_id: base, count: 1 },
        GpuCommand::Submit,
        GpuCommand::MapReadback { base_query_id: base, count: 1 },
        GpuCommand::WaitForGpu,
        GpuCommand::UnmapReadback { base_query_id: base },
    ]
}

/// The backend work of a calibration round trip on the slot's current pool,
/// creating the pool first when the slot has none there.
pub open spec fn calibration_commands(pre: FrameInFlight, alloc: u16) -> Seq<GpuCommand> {
    let created = pre.curr_pool == pre.pools@.len();
    let base = if created {
        alloc
    } else {
        pre.pools@[pre.curr_pool as int].base_query_id
    };
    let head: Seq<GpuCommand> = if created {
        seq![GpuCommand::CreateQueryPool { base_query_id: base }]
    } else {
        Seq::empty()
    };
    head + recalibration_commands(base)
}

/// How a calibration round trip changes a slot: a pool is created at the
/// cursor if none exists, and the pool at the cursor comes out reset.
pub open spec fn sync_step(
    pre: FrameInFlight,
    pre_alloc: u16,
    post: FrameInFlight,
    post_alloc: u16,
) -> bool {
    let created = pre.curr_pool == pre.pools@.len();
    let pools1 = if created {
        pre.pools@.push(QueryPool { used_queries: 0, base_query_id: pre_alloc })
    } else {
        pre.pools@
    };
    let base = pools1[pre.curr_pool as int].base_query_id;
    &&& post_alloc == if created {
        (pre_alloc + QUERY_POOL_SIZE) as int
    } else {
        pre_alloc as int
    }
    &&& post.pools@ == pools1.update(
        pre.curr_pool as int,
        QueryPool { used_queries: 0, base_query_id: base },
    )
    &&& post.curr_pool == pre.curr_pool
    &&& post.map_submission == pre.map_submission
}

/// The backend work that resolves one frame's written queries: each used
/// pool's queries are resolved and copied, the batch is submitted, and an
/// asynchronous map is requested on each used pool's readback buffer.
pub open spec fn resolve_commands(f: FrameInFlight) -> Seq<GpuCommand> {
    let k = active_pool_count(f);
    Seq::new(
        k as nat,
        |i: int|
            GpuCommand::ResolveQueries {
                base_query_id: f.pools@[i].base_query_id,
                count: f.pools@[i].used_queries,
            },
    ) + seq![GpuCommand::Submit] + Seq::new(
        k as nat,
        |i: int|
            GpuCommand::MapReadback {
                base_query_id: f.pools@[i].base_query_id,
                count: f.pools@[i].used_queries,
            },
    )
}

/// The collector records read out of one pool: one GPU time per written
/// query, each tagged with its global id, decoded from the pool's mapped
/// readback bytes.
pub open spec fn pool_gpu_events(context: u8, pool: QueryPool, bytes: Seq<u8>) -> Seq<TracyEvent> {
    Seq::new(
        pool.used_queries as nat,
        |i: int|
            TracyEvent::GpuTime {
                gpu_time: le_bytes_to_u64(bytes.subrange(8 * i, 8 * i + 8)),
                query_id: (pool.base_query_id + i) as u16,
                context,
            },
    )
}

/// The concatenated GPU-time records of the first `n` pools of a slot.
pub open spec fn slot_gpu_events_upto(
    context: u8,
    pools: Seq<QueryPool>,
    data: Seq<Seq<u8>>,
    n: int,
) -> Seq<TracyEvent>
    decreases n,
{
    if n <= 0 {
        Seq::empty()
    } else {
        slot_gpu_events_upto(context, pools, data, n - 1) + pool_gpu_events(
            context,
            pools[n - 1],
            data[n - 1],
        )
    }
}

/// All GPU-time records a slot's readback produces, used pools in order.
pub open spec fn slot_gpu_events(context: u8, f: FrameInFlight, data: Seq<Seq<u8>>) -> Seq<
    TracyEvent,
> {
    slot_gpu_events_upto(context, f.pools@, data, active_pool_count(f))
}

/// Whether readback data covers a slot: one byte vector per used pool, each
/// at least 8 bytes per written query.
pub open spec fn slot_data_ok(f: FrameInFlight, data: Seq<Seq<u8>>) -> bool {
    &&& data.len() >= active_pool_count(f)
    &&& forall|i: int|
        0 <= i < active_pool_count(f) ==> (#[trigger] data[i]).len() >= 8 * f.pools@[i].used_queries
}

/// The backend work of reading one slot back: wait for its submission if
/// one is outstanding, then unmap each used pool as it is reset.
pub open spec fn readback_commands(f: FrameInFlight) -> Seq<GpuCommand> {
    let wait: Seq<GpuCommand> = if f.map_submission {
        seq![GpuCommand::WaitForGpu]
    } else {
        Seq::empty()
    };
    wait + Seq::new(
        active_pool_count(f) as nat,
        |i: int| GpuCommand::UnmapReadback { base_query_id: f.pools@[i].base_query_id },
    )
}

/// The byte sequences held by a vector of readback buffer contents, one per
/// pool.
pub open spec fn readback_views(data: Vec<Vec<u8>>) -> Seq<Seq<u8>> {
    Seq::new(data@.len(), |i: int| data@[i]@)
}

/// Whether `post` is `pre` with every pool reset for reuse: same pools under
/// the same base ids, no writes, the cursor back at the start and no
/// outstanding submission.
pub open spec fn is_reset_of(post: FrameInFlight, pre: FrameInFlight) -> bool {
    &&& post.pools@.len() == pre.pools@.len()
    &&& forall|i: int|
        0 <= i < pre.pools@.len() ==> (#[trigger] post.pools@[i]) == QueryPool {
            used_queries: 0,
            base_query_id: pre.pools@[i].base_query_id,
        }
    &&& post.curr_pool == 0
    &&& !post.map_submission
}

/// A slot reset for reuse is well formed against any watermark that the
/// slot it was reset from was well formed against.
pub proof fn lemma_reset_wf(post: FrameInFlight, pre: FrameInFlight, alloc: u16)
    requires
        is_reset_of(post, pre),
        pre.wf(alloc),
    ensures
        post.wf(alloc),
{
    assert forall|i: int, j: int|
        0 <= i < j < post.pools@.len() implies (#[trigger] post.pools@[i]).base_query_id
        + QUERY_POOL_SIZE <= (#[trigger] post.pools@[j]).base_query_id by {
        assert(pre.pools@[i].base_query_id + QUERY_POOL_SIZE <= pre.pools@[j].base_query_id);
    }
    assert forall|i: int|
        0 <= i < post.pools@.len() implies (#[trigger] post.pools@[i]).base_query_id
        + QUERY_POOL_SIZE <= alloc by {
        assert(pre.pools@[i].base_query_id + QUERY_POOL_SIZE <= alloc);
    }
}

/// Being a reset of a slot depends only on the slot's pools.
pub proof fn lemma_reset_of_same_pools(post: FrameInFlight, a: FrameInFlight, b: FrameInFlight)
    requires
        is_reset_of(post, a),
        a.pools == b.pools,
    ensures
        is_reset_of(post, b),
{
}

/// How one zone timestamp write relates two states of an enabled context:
/// the write goes into the ring's current slot, takes the context's next
/// query id, and touches nothing else.
pub open spec fn zone_state_rel(pre: ProfileContext, post: ProfileContext, id: u16) -> bool {
    &&& pre.enabled
    &&& zone_write_step(
        pre.frames@[pre.curr_frame as int],
        pre.allocated_query_ids,
        post.frames@[pre.curr_frame as int],
        post.allocated_query_ids,
        id,
    )
    &&& post.frames@.len() == pre.frames@.len()
    &&& forall|i: int|
        0 <= i < pre.frames@.len() && i != pre.curr_frame ==> post.frames@[i] == pre.frames@[i]
    &&& post.curr_frame == pre.curr_frame
    &&& post.context == pre.context
    &&& post.enabled == pre.enabled
    &&& post.last_sync == pre.last_sync
    &&& post.resync_interval == pre.resync_interval
}

/// A context for profiling one GPU timeline.
pub struct ProfileContext {
    /// The collector-visible id of this timeline.
    pub context: u8,
    /// The ring of frames in flight; its length is the configured depth.
    pub frames: Vec<FrameInFlight>,
    /// The ring cursor: the slot taking this frame's writes.
    pub curr_frame: usize,
    /// The watermark of the global query-id allocator.
    pub allocated_query_ids: u16,
    /// Whether this context does any work at all.
    pub enabled: bool,
    /// The wall-clock instant of the last calibration, in the caller's clock.
    pub last_sync: u64,
    /// How much wall-clock time may pass before a full drain and
    /// recalibration is forced, in the caller's clock units.
    pub resync_interval: u64,
    /// The collector records produced so far, in emission order, for the
    /// driver to drain and forward.
    pub events: Vec<TracyEvent>,
    /// The backend work requested so far, in order, for the driver to drain
    /// and perform.
    pub commands: Vec<GpuCommand>,
}

impl ProfileContext {
    /// The context invariant: an enabled context has a non-empty ring with
    /// the cursor in range, every slot well formed against the allocator
    /// watermark, and the first slot keeps at least the calibration pool; a
    /// disabled context holds no ring at all.
    pub open spec fn wf(self) -> bool {
        if self.enabled {
            &&& 0 < self.frames@.len()
            &&& self.frames@.len() <= u32::MAX
            &&& self.curr_frame < self.frames@.len()
            &&& forall|i: int|
                0 <= i < self.frames@.len() ==> (#[trigger] self.frames@[i]).wf(
                    self.allocated_query_ids,
                )
            &&& 0 < self.frames@[0].pools@.len()
        } else {
            &&& self.frames@.len() == 0
            &&& self.curr_frame == 0
        }
    }

    /// Whether a zone write is possible without exhausting the id space: the
    /// slot either has a pool at its cursor or the allocator has room for a
    /// fresh one.
    pub open spec fn zone_headroom(self) -> bool {
        self.enabled ==> {
            let f = self.frames@[self.curr_frame as int];
            f.pools@.len() == f.curr_pool ==> self.allocated_query_ids + QUERY_POOL_SIZE
                <= u16::MAX
        }
    }

    /// The id the next zone timestamp written on this context will get.
    pub open spec fn next_query_id(self) -> u16 {
        self.frames@[self.curr_frame as int].next_query_id(self.allocated_query_ids)
    }

    /// Whether the resync timer has elapsed at the given instant.
    pub open spec fn resync_due(self, now: u64) -> bool {
        now - self.last_sync >= self.resync_interval
    }

    /// Perform the state changes of one blocking calibration round trip on a
    /// slot: ensure a pool, record the round trip's backend work, decode the
    /// GPU clock value from the readback bytes the driver obtained, and
    /// reset the pool. This is the full calibration procedure; a resync
    /// re-derives the clock mapping through it, never incrementally.
    pub fn sync_frame(
        allocated_query_ids: &mut u16,
        frame: &mut FrameInFlight,
        commands: &mut Vec<GpuCommand>,
        readback: &Vec<u8>,
    ) -> (gpu_time: u64)
        requires
            old(frame).wf(*old(allocated_query_ids)),
            old(frame).pools@.len() == old(frame).curr_pool ==> *old(allocated_query_ids)
                + QUERY_POOL_SIZE <= u16::MAX,
            readback@.len() >= 8,
        ensures
            final(frame).wf(*final(allocated_query_ids)),
            gpu_time == le_bytes_to_u64(readback@.subrange(0, 8)),
            sync_step(
                *old(frame),
                *old(allocated_query_ids),
                *final(frame),
                *final(allocated_query_ids),
            ),
            final(commands)@ == old(commands)@ + calibration_commands(
                *old(frame),
                *old(allocated_query_ids),
            ),
    {
        frame.get_pool(allocated_query_ids, commands);
        let idx = frame.curr_pool;
        let base = frame.pools[idx].base_query_id;
        commands.push(GpuCommand::WriteCalibrationTimestamp { base_query_id: base });
        commands.push(GpuCommand::ResolveQueries { base_query_id: base, count: 1 });
        commands.push(GpuCommand::Submit);
        commands.push(GpuCommand::MapReadback { base_query_id: base, count: 1 });
        commands.push(GpuCommand::WaitForGpu);
        let gpu_time = read_le_u64(readback, 0);
        let pool = &mut frame.pools[idx];
        pool.reset(commands);
        proof {
            assert(commands@ =~= old(commands)@ + calibration_commands(
                *old(frame),
                *old(allocated_query_ids),
            ));
        }
        gpu_time
    }

    /// Record the backend work that resolves every query written in this
    /// slot's pools into host-readable memory and requests its asynchronous
    /// map, and mark the slot's submission outstanding.
    pub fn resolve_frame(frame: &mut FrameInFlight, commands: &mut Vec<GpuCommand>)
        requires
            old(frame).shape_wf(),
        ensures
            final(frame).pools == old(frame).pools,
            final(frame).curr_pool == old(frame).curr_pool,
            final(frame).map_submission,
            final(commands)@ == old(commands)@ + resolve_commands(*old(frame)),
    {
        let n = frame.pools.len();
        let k = if frame.curr_pool < n && frame.pools[frame.curr_pool].used_queries > 0 {
            frame.curr_pool + 1
        } else {
            frame.curr_pool
        };
        assert(k == active_pool_count(*frame));
        for i in 0..k
            invariant
                k == active_pool_count(*old(frame)),
                k <= frame.pools@.len(),
                *frame == *old(frame),
                commands@ == old(commands)@ + Seq::new(
                    i as nat,
                    |j: int|
                        GpuCommand::ResolveQueries {
                            base_query_id: old(frame).pools@[j].base_query_id,
                            count: old(frame).pools@[j].used_queries,
                        },
                ),
        {
            let base = frame.pools[i].base_query_id;
            let count = frame.pools[i].used_queries;
            commands.push(GpuCommand::ResolveQueries { base_query_id: base, count });
            proof {
                assert(commands@ =~= old(commands)@ + Seq::new(
                    (i + 1) as nat,
                    |j: int|
                        GpuCommand::ResolveQueries {
                            base_query_id: old(frame).pools@[j].base_query_id,
                            count: old(frame).pools@[j].used_queries,
                        },
                ));
            }
        }
        commands.push(GpuCommand::Submit);
        let ghost mid = commands@;
        for i in 0..k
            invariant
                k == active_pool_count(*old(frame)),
                k <= frame.pools@.len(),
                *frame == *old(frame),
                commands@ == mid + Seq::new(
                    i as nat,
                    |j: int|
                        GpuCommand::MapReadback {
                            base_query_id: old(frame).pools@[j].base_query_id,
                            count: old(frame).pools@[j].used_queries,
                        },
                ),
        {
            let base = frame.pools[i].base_query_id;
            let count = frame.pools[i].used_queries;
            commands.push(GpuCommand::MapReadback { base_query_id: base, count });
            proof {
                assert(commands@ =~= mid + Seq::new(
                    (i + 1) as nat,
                    |j: int|
                        GpuCommand::MapReadback {
                            base_query_id: old(frame).pools@[j].base_query_id,
                            count: old(frame).pools@[j].used_queries,
                        },
                ));
            }
        }
        frame.map_submission = true;
        proof {
            assert(commands@ =~= old(commands)@ + resolve_commands(*old(frame)));
        }
    }

    /// Consume one slot's completed readback: wait for its submission if one
    /// is outstanding, decode every written query's timestamp from the
    /// mapped bytes the driver supplies, emit one GPU-time record per query,
    /// and reset the slot's pools for reuse.
    pub fn readback_frame(
        context: u8,
        frame: &mut FrameInFlight,
        data: &Vec<Vec<u8>>,
        events: &mut Vec<TracyEvent>,
        commands: &mut Vec<GpuCommand>,
    )
        requires
            old(frame).shape_wf(),
            old(frame).ids_bounded(),
            slot_data_ok(*old(frame), readback_views(*data)),
        ensures
            is_reset_of(*final(frame), *old(frame)),
            final(events)@ == old(events)@ + slot_gpu_events(
                context,
                *old(frame),
                readback_views(*data),
            ),
            final(commands)@ == old(commands)@ + readback_commands(*old(frame)),
    {
        if frame.map_submission {
            commands.push(GpuCommand::WaitForGpu);
        }
        let ghost cmd0 = commands@;
        let n = frame.pools.len();
        let k = if frame.curr_pool < n && frame.pools[frame.curr_pool].used_queries > 0 {
            frame.curr_pool + 1
        } else {
            frame.curr_pool
        };
        assert(k == active_pool_count(*old(frame)));
        for i in 0..k
            invariant
                k == active_pool_count(*old(frame)),
                k <= frame.pools@.len(),
                frame.pools@.len() == old(frame).pools@.len(),
                frame.curr_pool == old(frame).curr_pool,
                frame.map_submission == old(frame).map_submission,
                old(frame).shape_wf(),
                old(frame).ids_bounded(),
                slot_data_ok(*old(frame), readback_views(*data)),
                forall|m: int|
                    i <= m < frame.pools@.len() ==> #[trigger] frame.pools@[m] == old(
                        frame,
                    ).pools@[m],
                forall|m: int|
                    0 <= m < i ==> #[trigger] frame.pools@[m] == (QueryPool {
                        used_queries: 0,
                        base_query_id: old(frame).pools@[m].base_query_id,
                    }),
                events@ == old(events)@ + slot_gpu_events_upto(
                    context,
                    old(frame).pools@,
                    readback_views(*data),
                    i as int,
                ),
                commands@ == cmd0 + Seq::new(
                    i as nat,
                    |j: int|
                        GpuCommand::UnmapReadback {
                            base_query_id: old(frame).pools@[j].base_query_id,
                        },
                ),
                cmd0 == old(commands)@ + if old(frame).map_submission {
                    seq![GpuCommand::WaitForGpu]
                } else {
                    Seq::<GpuCommand>::empty()
                },
        {
            let base = frame.pools[i].base_query_id;
            let used = frame.pools[i].used_queries;
            let bytes = &data[i];
            let ghost ev_pre = events@;
            assert(bytes@ == readback_views(*data)[i as int]);
            assert(bytes@.len() >= 8 * used);
            assert(used <= QUERY_POOL_SIZE);
            for j in 0..used
                invariant
                    0 <= i < old(frame).pools@.len(),
                    used == old(frame).pools@[i as int].used_queries,
                    base == old(frame).pools@[i as int].base_query_id,
                    base + QUERY_POOL_SIZE <= u16::MAX,
                    used <= QUERY_POOL_SIZE,
                    bytes@.len() >= 8 * used,
                    events@ == ev_pre + Seq::new(
                        j as nat,
                        |x: int|
                            TracyEvent::GpuTime {
                                gpu_time: le_bytes_to_u64(bytes@.subrange(8 * x, 8 * x + 8)),
                                query_id: (base + x) as u16,
                                context,
                            },
                    ),
            {
                let t = read_le_u64(bytes, 8 * (j as usize));
                events.push(
                    TracyEvent::GpuTime { gpu_time: t, query_id: base + j, context },
                );
                proof {
                    assert(events@ =~= ev_pre + Seq::new(
                        (j + 1) as nat,
                        |x: int|
                            TracyEvent::GpuTime {
                                gpu_time: le_bytes_to_u64(bytes@.subrange(8 * x, 8 * x + 8)),
                                query_id: (base + x) as u16,
                                context,
                            },
                    ));
                }
            }
            proof {
                assert(events@ =~= ev_pre + pool_gpu_events(
                    context,
                    old(frame).pools@[i as int],
                    readback_views(*data)[i as int],
                ));
                assert(events@ =~= old(events)@ + slot_gpu_events_upto(
                    context,
                    old(frame).pools@,
                    readback_views(*data),
                    i + 1,
                ));
            }
            let pool = &mut frame.pools[i];
            pool.reset(commands);
            proof {
                assert(commands@ =~= cmd0 + Seq::new(
                    (i + 1) as nat,
                    |j: int|
                        GpuCommand::UnmapReadback {
                            base_query_id: old(frame).pools@[j].base_query_id,
                        },
                ));
            }
        }
        frame.curr_pool = 0;
        frame.map_submission = false;
        proof {
            assert forall|m: int| 0 <= m < frame.pools@.len() implies #[trigger] frame.pools@[m]
                == (QueryPool {
                used_queries: 0,
                base_query_id: old(frame).pools@[m].base_query_id,
            }) by {
                if m >= k {
                    assert(old(frame).pools@[m].used_queries == 0);
                }
            }
            assert(commands@ =~= old(commands)@ + readback_commands(*old(frame)));
        }
    }
}

impl ProfileContext {
    /// Open a GPU zone: write a begin timestamp through the given recorder
    /// at this context's next query id and emit the zone-begin record
    /// carrying the call site. A disabled context does nothing at all.
    pub fn begin_zone(
        &mut self,
        pass: &mut Pass,
        name: Option<String>,
        line: u32,
        file: String,
        function: String,
    )
        requires
            old(self).wf(),
            old(self).zone_headroom(),
        ensures
            final(self).wf(),
            !old(self).enabled ==> *final(self) == *old(self) && *final(pass) == *old(pass),
            old(self).enabled ==> ({
                let id = old(self).next_query_id();
                let f = old(self).frames@[old(self).curr_frame as int];
                &&& zone_state_rel(*old(self), *final(self), id)
                &&& final(pass).kind() == old(pass).kind()
                &&& final(pass).writes() == old(pass).writes().push(id)
                &&& final(self).events@ == old(self).events@.push(
                    TracyEvent::ZoneBegin {
                        name,
                        function,
                        file,
                        line,
                        query_id: id,
                        context: old(self).context,
                    },
                )
                &&& final(self).commands@ == if f.pools@.len() == f.curr_pool {
                    old(self).commands@.push(
                        GpuCommand::CreateQueryPool {
                            base_query_id: old(self).allocated_query_ids,
                        },
                    )
                } else {
                    old(self).commands@
                }
            }),
    {
        if self.enabled {
            let idx = self.curr_frame;
            let frame = &mut self.frames[idx];
            let id = frame.write_zone_query(
                &mut self.allocated_query_ids,
                &mut self.commands,
                pass,
            );
            self.events.push(
                TracyEvent::ZoneBegin {
                    name,
                    function,
                    file,
                    line,
                    query_id: id,
                    context: self.context,
                },
            );
            proof {
                assert forall|i: int|
                    0 <= i < self.frames@.len() implies (#[trigger] self.frames@[i]).wf(
                    self.allocated_query_ids,
                ) by {
                    if i != idx {
                        crate::pool::lemma_wf_monotonic(
                            old(self).frames@[i],
                            old(self).allocated_query_ids,
                            self.allocated_query_ids,
                        );
                    }
                }
            }
        }
    }

    /// Close a GPU zone: write the matching end timestamp through the same
    /// recorder and emit the zone-end record. A disabled context does
    /// nothing at all.
    pub fn end_zone(&mut self, pass: &mut Pass)
        requires
            old(self).wf(),
            old(self).zone_headroom(),
        ensures
            final(self).wf(),
            !old(self).enabled ==> *final(self) == *old(self) && *final(pass) == *old(pass),
            old(self).enabled ==> ({
                let id = old(self).next_query_id();
                let f = old(self).frames@[old(self).curr_frame as int];
                &&& zone_state_rel(*old(self), *final(self), id)
                &&& final(pass).kind() == old(pass).kind()
                &&& final(pass).writes() == old(pass).writes().push(id)
                &&& final(self).events@ == old(self).events@.push(
                    TracyEvent::ZoneEnd { query_id: id, context: old(self).context },
                )
                &&& final(self).commands@ == if f.pools@.len() == f.curr_pool {
                    old(self).commands@.push(
                        GpuCommand::CreateQueryPool {
                            base_query_id: old(self).allocated_query_ids,
                        },
                    )
                } else {
                    old(self).commands@
                }
            }),
    {
        if self.enabled {
            let idx = self.curr_frame;
            let frame = &mut self.frames[idx];
            let id = frame.write_zone_query(
                &mut self.allocated_query_ids,
                &mut self.commands,
                pass,
            );
            self.events.push(TracyEvent::ZoneEnd { query_id: id, context: self.context });
            proof {
                assert forall|i: int|
                    0 <= i < self.frames@.len() implies (#[trigger] self.frames@[i]).wf(
                    self.allocated_query_ids,
                ) by {
                    if i != idx {
                        crate::pool::lemma_wf_monotonic(
                            old(self).frames@[i],
                            old(self).allocated_query_ids,
                            self.allocated_query_ids,
                        );
                    }
                }
            }
        }
    }
}

impl ProfileContext {
    /// Create a context, choosing whether it is enabled. An enabled context
    /// performs one blocking calibration round trip through its first ring
    /// slot and announces the new timeline to the collector; a disabled one
    /// allocates its id and nothing else: no ring, no backend work, no
    /// record.
    ///
    /// `calibration` holds the readback bytes of the calibration round trip
    /// the driver performs; `now` is the caller's wall clock, in the same
    /// units as `resync_interval`; `period_bits` is the backend's tick
    /// period, carried opaquely to the collector.
    pub fn with_enabled(
        context_counter: &mut u8,
        buffered_frames: u32,
        resync_interval: u64,
        now: u64,
        period_bits: u32,
        backend: BackendKind,
        calibration: &Vec<u8>,
        enabled: bool,
    ) -> (ctx: ProfileContext)
        requires
            *old(context_counter) < 255,
            enabled ==> buffered_frames >= 1,
            enabled ==> calibration@.len() >= 8,
        ensures
            ctx.wf(),
            ctx.context == *old(context_counter),
            *final(context_counter) == *old(context_counter) + 1,
            ctx.enabled == enabled,
            ctx.curr_frame == 0,
            ctx.last_sync == now,
            ctx.resync_interval == resync_interval,
            !enabled ==> {
                &&& ctx.frames@.len() == 0
                &&& ctx.allocated_query_ids == 0
                &&& ctx.events@.len() == 0
                &&& ctx.commands@.len() == 0
            },
            enabled ==> {
                &&& ctx.frames@.len() == buffered_frames
                &&& ctx.allocated_query_ids == QUERY_POOL_SIZE
                &&& ctx.frames@[0].pools@ =~= seq![
                    QueryPool { used_queries: 0, base_query_id: 0 },
                ]
                &&& ctx.frames@[0].curr_pool == 0
                &&& !ctx.frames@[0].map_submission
                &&& forall|i: int|
                    1 <= i < ctx.frames@.len() ==> {
                        &&& (#[trigger] ctx.frames@[i]).pools@.len() == 0
                        &&& ctx.frames@[i].curr_pool == 0
                        &&& !ctx.frames@[i].map_submission
                    }
                &&& ctx.events@ =~= seq![
                    TracyEvent::NewContext {
                        gpu_time: le_bytes_to_u64(calibration@.subrange(0, 8)),
                        period_bits,
                        context: *old(context_counter),
                        backend: backend.code_spec(),
                    },
                ]
                &&& ctx.commands@ =~= seq![
                    GpuCommand::CreateQueryPool { base_query_id: 0 },
                    GpuCommand::WriteCalibrationTimestamp { base_query_id: 0 },
                    GpuCommand::ResolveQueries { base_query_id: 0, count: 1 },
                    GpuCommand::Submit,
                    GpuCommand::MapReadback { base_query_id: 0, count: 1 },
                    GpuCommand::WaitForGpu,
                    GpuCommand::UnmapReadback { base_query_id: 0 },
                ]
            },
    {
        let context = get_next_context(context_counter);
        if enabled {
            let mut frames: Vec<FrameInFlight> = Vec::new();
            let mut i: u32 = 0;
            while i < buffered_frames
                invariant
                    i <= buffered_frames,
                    frames@.len() == i,
                    forall|m: int|
                        0 <= m < frames@.len() ==> {
                            &&& (#[trigger] frames@[m]).pools@.len() == 0
                            &&& frames@[m].curr_pool == 0
                            &&& !frames@[m].map_submission
                        },
                decreases buffered_frames - i,
            {
                frames.push(FrameInFlight::new());
                i = i + 1;
            }
            let mut allocated_query_ids: u16 = 0;
            let mut commands: Vec<GpuCommand> = Vec::new();
            let mut events: Vec<TracyEvent> = Vec::new();
            let frame = &mut frames[0];
            let gpu_time = Self::sync_frame(
                &mut allocated_query_ids,
                frame,
                &mut commands,
                calibration,
            );
            events.push(
                TracyEvent::NewContext {
                    gpu_time,
                    period_bits,
                    context,
                    backend: backend.code(),
                },
            );
            ProfileContext {
                context,
                frames,
                curr_frame: 0,
                allocated_query_ids,
                enabled: true,
                last_sync: now,
                resync_interval,
                events,
                commands,
            }
        } else {
            ProfileContext {
                context,
                frames: Vec::new(),
                curr_frame: 0,
                allocated_query_ids: 0,
                enabled: false,
                last_sync: now,
                resync_interval,
                events: Vec::new(),
                commands: Vec::new(),
            }
        }
    }

    /// Create a context, choosing whether it is enabled, and give it a
    /// collector-visible name. An enabled context emits the name record
    /// right after the timeline announcement; a disabled one emits nothing.
    pub fn with_enabled_and_name(
        name: String,
        context_counter: &mut u8,
        buffered_frames: u32,
        resync_interval: u64,
        now: u64,
        period_bits: u32,
        backend: BackendKind,
        calibration: &Vec<u8>,
        enabled: bool,
    ) -> (ctx: ProfileContext)
        requires
            *old(context_counter) < 255,
            enabled ==> buffered_frames >= 1,
            enabled ==> calibration@.len() >= 8,
        ensures
            ctx.wf(),
            ctx.context == *old(context_counter),
            *final(context_counter) == *old(context_counter) + 1,
            ctx.enabled == enabled,
            ctx.curr_frame == 0,
            ctx.last_sync == now,
            ctx.resync_interval == resync_interval,
            !enabled ==> {
                &&& ctx.frames@.len() == 0
                &&& ctx.allocated_query_ids == 0
                &&& ctx.events@.len() == 0
                &&& ctx.commands@.len() == 0
            },
            enabled ==> {
                &&& ctx.frames@.len() == buffered_frames
                &&& ctx.allocated_query_ids == QUERY_POOL_SIZE
                &&& ctx.events@ =~= seq![
                    TracyEvent::NewContext {
                        gpu_time: le_bytes_to_u64(calibration@.subrange(0, 8)),
                        period_bits,
                        context: *old(context_counter),
                        backend: backend.code_spec(),
                    },
                    TracyEvent::ContextName { context: *old(context_counter), name },
                ]
            },
    {
        let mut this = Self::with_enabled(
            context_counter,
            buffered_frames,
            resync_interval,
            now,
            period_bits,
            backend,
            calibration,
            enabled,
        );
        if this.enabled {
            let name_event = TracyEvent::ContextName { context: this.context, name };
            this.events.push(name_event);
        }
        this
    }

    /// Create an enabled context. The device behind the driver needs
    /// timestamp-query support; `buffered_frames` is the ring depth and
    /// `resync_interval` the drift-correction cadence.
    pub fn new(
        context_counter: &mut u8,
        buffered_frames: u32,
        resync_interval: u64,
        now: u64,
        period_bits: u32,
        backend: BackendKind,
        calibration: &Vec<u8>,
    ) -> (ctx: ProfileContext)
        requires
            *old(context_counter) < 255,
            buffered_frames >= 1,
            calibration@.len() >= 8,
        ensures
            ctx.wf(),
            ctx.context == *old(context_counter),
            *final(context_counter) == *old(context_counter) + 1,
            ctx.enabled,
            ctx.curr_frame == 0,
            ctx.last_sync == now,
            ctx.resync_interval == resync_interval,
            ctx.frames@.len() == buffered_frames,
            ctx.allocated_query_ids == QUERY_POOL_SIZE,
            ctx.events@ =~= seq![
                TracyEvent::NewContext {
                    gpu_time: le_bytes_to_u64(calibration@.subrange(0, 8)),
                    period_bits,
                    context: *old(context_counter),
                    backend: backend.code_spec(),
                },
            ],
    {
        Self::with_enabled(
            context_counter,
            buffered_frames,
            resync_interval,
            now,
            period_bits,
            backend,
            calibration,
            true,
        )
    }

    /// Create an enabled, named context.
    pub fn with_name(
        name: String,
        context_counter: &mut u8,
        buffered_frames: u32,
        resync_interval: u64,
        now: u64,
        period_bits: u32,
        backend: BackendKind,
        calibration: &Vec<u8>,
    ) -> (ctx: ProfileContext)
        requires
            *old(context_counter) < 255,
            buffered_frames >= 1,
            calibration@.len() >= 8,
        ensures
            ctx.wf(),
            ctx.context == *old(context_counter),
            *final(context_counter) == *old(context_counter) + 1,
            ctx.enabled,
            ctx.curr_frame == 0,
            ctx.frames@.len() == buffered_frames,
            ctx.events@ =~= seq![
                TracyEvent::NewContext {
                    gpu_time: le_bytes_to_u64(calibration@.subrange(0, 8)),
                    period_bits,
                    context: *old(context_counter),
                    backend: backend.code_spec(),
                },
                TracyEvent::ContextName { context: *old(context_counter), name },
            ],
    {
        Self::with_enabled_and_name(
            name,
            context_counter,
            buffered_frames,
            resync_interval,
            now,
            period_bits,
            backend,
            calibration,
            true,
        )
    }
}

/// The byte matrices of per-slot readback data, in the order the drain
/// visits the slots.
pub open spec fn slot_views(data: Vec<Vec<Vec<u8>>>) -> Seq<Seq<Seq<u8>>> {
    Seq::new(data@.len(), |i: int| readback_views(data@[i]))
}

/// The GPU-time records of draining the first `n` ring slots after `curr`,
/// in ring order: the `n`-th drained slot is `(curr + n) % len`.
pub open spec fn drain_events_upto(
    context: u8,
    frames: Seq<FrameInFlight>,
    curr: int,
    data: Seq<Seq<Seq<u8>>>,
    n: int,
) -> Seq<TracyEvent>
    decreases n,
{
    if n <= 0 {
        Seq::empty()
    } else {
        drain_events_upto(context, frames, curr, data, n - 1) + slot_gpu_events(
            context,
            frames[(curr + n) % (frames.len() as int)],
            data[n - 1],
        )
    }
}

/// The backend work of draining the first `n` ring slots after `curr`, in
/// ring order.
pub open spec fn drain_commands_upto(
    frames: Seq<FrameInFlight>,
    curr: int,
    n: int,
) -> Seq<GpuCommand>
    decreases n,
{
    if n <= 0 {
        Seq::empty()
    } else {
        drain_commands_upto(frames, curr, n - 1) + readback_commands(
            frames[(curr + n) % (frames.len() as int)],
        )
    }
}

impl ProfileContext {
    /// Whether the resync timer has elapsed at the given instant, computed
    /// without touching the GPU.
    pub fn is_resync_due(&self, now: u64) -> (due: bool)
        ensures
            due == self.resync_due(now),
    {
        now >= self.last_sync && now - self.last_sync >= self.resync_interval
    }

    /// End a frame. The current slot's queries are resolved and their
    /// asynchronous readback is requested; then, in the steady state, the
    /// ring advances and the slot that has now waited a full ring of frames
    /// is read back and its GPU times are emitted. When the resync timer
    /// has elapsed, every slot is instead drained to completion in ring
    /// order, one fresh calibration round trip re-anchors the clock, a
    /// time-sync record is emitted after all drained GPU times, and the
    /// ring cursor returns to the first slot.
    ///
    /// `slot_data` carries the mapped readback bytes of the slots this call
    /// consumes, in visiting order: one entry in the steady state, one per
    /// ring slot during a resync. `calibration` holds the readback bytes of
    /// the resync's calibration round trip; it is read only then.
    pub fn end_frame(&mut self, now: u64, slot_data: &Vec<Vec<Vec<u8>>>, calibration: &Vec<u8>)
        requires
            old(self).wf(),
            old(self).enabled ==> ({
                let len = old(self).frames@.len() as int;
                let curr = old(self).curr_frame as int;
                if old(self).resync_due(now) {
                    &&& slot_views(*slot_data).len() >= len
                    &&& forall|j: int|
                        0 <= j < len ==> slot_data_ok(
                            old(self).frames@[(curr + 1 + j) % len],
                            #[trigger] slot_views(*slot_data)[j],
                        )
                    &&& calibration@.len() >= 8
                } else {
                    &&& slot_views(*slot_data).len() >= 1
                    &&& slot_data_ok(
                        old(self).frames@[(curr + 1) % len],
                        slot_views(*slot_data)[0],
                    )
                }
            }),
        ensures
            final(self).wf(),
            !old(self).enabled ==> *final(self) == *old(self),
            old(self).enabled ==> ({
                let len = old(self).frames@.len() as int;
                let curr = old(self).curr_frame as int;
                let f_curr = old(self).frames@[curr];
                let resolved = FrameInFlight {
                    pools: f_curr.pools,
                    curr_pool: f_curr.curr_pool,
                    map_submission: true,
                };
                let frames1 = old(self).frames@.update(curr, resolved);
                &&& final(self).context == old(self).context
                &&& final(self).enabled
                &&& final(self).resync_interval == old(self).resync_interval
                &&& final(self).allocated_query_ids == old(self).allocated_query_ids
                &&& final(self).frames@.len() == len
                &&& if old(self).resync_due(now) {
                    &&& final(self).curr_frame == 0
                    &&& final(self).last_sync == now
                    &&& forall|i: int|
                        0 <= i < len ==> is_reset_of(
                            #[trigger] final(self).frames@[i],
                            old(self).frames@[i],
                        )
                    &&& final(self).events@ == old(self).events@ + drain_events_upto(
                        old(self).context,
                        frames1,
                        curr,
                        slot_views(*slot_data),
                        len,
                    ) + seq![
                        TracyEvent::TimeSync {
                            gpu_time: le_bytes_to_u64(calibration@.subrange(0, 8)),
                            context: old(self).context,
                        },
                    ]
                    &&& final(self).commands@ == old(self).commands@ + resolve_commands(f_curr)
                        + drain_commands_upto(frames1, curr, len) + recalibration_commands(
                        old(self).frames@[0].pools@[0].base_query_id,
                    )
                } else {
                    let nxt = (curr + 1) % len;
                    &&& final(self).curr_frame == nxt
                    &&& final(self).last_sync == old(self).last_sync
                    &&& is_reset_of(final(self).frames@[nxt], old(self).frames@[nxt])
                    &&& nxt != curr ==> final(self).frames@[curr] == resolved
                    &&& forall|i: int|
                        0 <= i < len && i != nxt && i != curr ==> final(self).frames@[i] == old(
                            self,
                        ).frames@[i]
                    &&& final(self).events@ == old(self).events@ + slot_gpu_events(
                        old(self).context,
                        old(self).frames@[nxt],
                        slot_views(*slot_data)[0],
                    )
                    &&& final(self).commands@ == old(self).commands@ + resolve_commands(f_curr)
                        + readback_commands(frames1[nxt])
                }
            }),
    {
        if !self.enabled {
            return ;
        }
        let len = self.frames.len();
        let curr = self.curr_frame;
        let frame = &mut self.frames[curr];
        Self::resolve_frame(frame, &mut self.commands);
        let ghost frames1 = self.frames@;
        let ghost ev0 = self.events@;
        let ghost cmd1 = self.commands@;
        let ctxid: u8 = self.context;
        proof {
            assert(frames1 =~= old(self).frames@.update(
                curr as int,
                FrameInFlight {
                    pools: old(self).frames@[curr as int].pools,
                    curr_pool: old(self).frames@[curr as int].curr_pool,
                    map_submission: true,
                },
            ));
            assert forall|i: int|
                0 <= i < len implies (#[trigger] frames1[i]).wf(self.allocated_query_ids) by {
                assert(old(self).frames@[i].wf(old(self).allocated_query_ids));
                assert(frames1[i].pools == old(self).frames@[i].pools);
                assert(frames1[i].curr_pool == old(self).frames@[i].curr_pool);
            }
        }
        if now >= self.last_sync && now - self.last_sync >= self.resync_interval {
            proof {
                assert forall|j: int|
                    0 <= j < len implies slot_data_ok(
                    frames1[(curr as int + 1 + j) % (len as int)],
                    #[trigger] slot_views(*slot_data)[j],
                ) by {
                    let t = (curr as int + 1 + j) % (len as int);
                    assert(0 <= t < len);
                    assert(slot_data_ok(old(self).frames@[t], slot_views(*slot_data)[j]));
                    assert(frames1[t].pools == old(self).frames@[t].pools);
                    assert(frames1[t].curr_pool == old(self).frames@[t].curr_pool);
                    assert(active_pool_count(frames1[t]) == active_pool_count(
                        old(self).frames@[t],
                    ));
                }
            }
            // Drain every slot to completion, in ring order, walking the
            // two contiguous stretches of the ring.
            let mut s: usize = curr + 1;
            while s < len
                invariant
                    curr < len,
                    len == self.frames@.len(),
                    len <= u32::MAX,
                    curr + 1 <= s <= len,
                    frames1 == old(self).frames@.update(
                        curr as int,
                        FrameInFlight {
                            pools: old(self).frames@[curr as int].pools,
                            curr_pool: old(self).frames@[curr as int].curr_pool,
                            map_submission: true,
                        },
                    ),
                    frames1.len() == len,
                    forall|i: int|
                        0 <= i < len ==> (#[trigger] frames1[i]).wf(self.allocated_query_ids),
                    forall|j: int|
                        0 <= j < len ==> slot_data_ok(
                            frames1[(curr + 1 + j) % (len as int)],
                            #[trigger] slot_views(*slot_data)[j],
                        ),
                    slot_views(*slot_data).len() >= len,
                    self.context == ctxid,
                    self.curr_frame == curr,
                    self.enabled,
                    self.allocated_query_ids == old(self).allocated_query_ids,
                    self.last_sync == old(self).last_sync,
                    self.resync_interval == old(self).resync_interval,
                    forall|t: int|
                        curr + 1 <= t < s ==> is_reset_of(#[trigger] self.frames@[t], frames1[t]),
                    forall|t: int| 0 <= t <= curr ==> #[trigger] self.frames@[t] == frames1[t],
                    forall|t: int| s <= t < len ==> #[trigger] self.frames@[t] == frames1[t],
                    self.events@ == ev0 + drain_events_upto(
                        ctxid,
                        frames1,
                        curr as int,
                        slot_views(*slot_data),
                        s - curr - 1,
                    ),
                    self.commands@ == cmd1 + drain_commands_upto(
                        frames1,
                        curr as int,
                        s - curr - 1,
                    ),
                decreases len - s,
            {
                let ghost n = s - curr - 1;
                proof {
                    vstd::arithmetic::div_mod::lemma_small_mod(s as nat, len as nat);
                    assert((curr + n + 1) % (len as int) == s);
                    assert(self.frames@[s as int] == frames1[s as int]);
                    assert(slot_data_ok(frames1[s as int], slot_views(*slot_data)[n]));
                    assert(slot_views(*slot_data)[n] =~= readback_views(slot_data@[n]));
                    assert(frames1[s as int].wf(self.allocated_query_ids));
                    assert(frames1[s as int].ids_bounded());
                }
                let frame = &mut self.frames[s];
                let data_index = s - curr - 1;
                Self::readback_frame(
                    ctxid,
                    frame,
                    &slot_data[data_index],
                    &mut self.events,
                    &mut self.commands,
                );
                proof {
                    assert(self.events@ =~= ev0 + drain_events_upto(
                        ctxid,
                        frames1,
                        curr as int,
                        slot_views(*slot_data),
                        n + 1,
                    ));
                    assert(self.commands@ =~= cmd1 + drain_commands_upto(
                        frames1,
                        curr as int,
                        n + 1,
                    ));
                }
                s = s + 1;
            }
            let mut s2: usize = 0;
            while s2 < curr + 1
                invariant
                    curr < len,
                    len == self.frames@.len(),
                    len <= u32::MAX,
                    0 <= s2 <= curr + 1,
                    frames1 == old(self).frames@.update(
                        curr as int,
                        FrameInFlight {
                            pools: old(self).frames@[curr as int].pools,
                            curr_pool: old(self).frames@[curr as int].curr_pool,
                            map_submission: true,
                        },
                    ),
                    frames1.len() == len,
                    forall|i: int|
                        0 <= i < len ==> (#[trigger] frames1[i]).wf(self.allocated_query_ids),
                    forall|j: int|
                        0 <= j < len ==> slot_data_ok(
                            frames1[(curr + 1 + j) % (len as int)],
                            #[trigger] slot_views(*slot_data)[j],
                        ),
                    slot_views(*slot_data).len() >= len,
                    self.context == ctxid,
                    self.curr_frame == curr,
                    self.enabled,
                    self.allocated_query_ids == old(self).allocated_query_ids,
                    self.last_sync == old(self).last_sync,
                    self.resync_interval == old(self).resync_interval,
                    forall|t: int|
                        curr + 1 <= t < len ==> is_reset_of(
                            #[trigger] self.frames@[t],
                            frames1[t],
                        ),
                    forall|t: int| 0 <= t < s2 ==> is_reset_of(#[trigger] self.frames@[t], frames1[t]),
                    forall|t: int| s2 <= t <= curr ==> #[trigger] self.frames@[t] == frames1[t],
                    self.events@ == ev0 + drain_events_upto(
                        ctxid,
                        frames1,
                        curr as int,
                        slot_views(*slot_data),
                        len - curr - 1 + s2,
                    ),
                    self.commands@ == cmd1 + drain_commands_upto(
                        frames1,
                        curr as int,
                        len - curr - 1 + s2,
                    ),
                decreases curr + 1 - s2,
            {
                let ghost n = len - curr - 1 + s2;
                proof {
                    vstd::arithmetic::div_mod::lemma_mod_multiples_vanish(
                        1,
                        s2 as int,
                        len as int,
                    );
                    vstd::arithmetic::div_mod::lemma_small_mod(s2 as nat, len as nat);
                    assert((curr + n + 1) % (len as int) == s2);
                    assert(self.frames@[s2 as int] == frames1[s2 as int]);
                    assert(slot_data_ok(frames1[s2 as int], slot_views(*slot_data)[n]));
                    assert(slot_views(*slot_data)[n] =~= readback_views(slot_data@[n]));
                    assert(frames1[s2 as int].wf(self.allocated_query_ids));
                    assert(frames1[s2 as int].ids_bounded());
                }
                let frame = &mut self.frames[s2];
                let data_index = len - curr - 1 + s2;
                Self::readback_frame(
                    ctxid,
                    frame,
                    &slot_data[data_index],
                    &mut self.events,
                    &mut self.commands,
                );
                proof {
                    assert(self.events@ =~= ev0 + drain_events_upto(
                        ctxid,
                        frames1,
                        curr as int,
                        slot_views(*slot_data),
                        n + 1,
                    ));
                    assert(self.commands@ =~= cmd1 + drain_commands_upto(
                        frames1,
                        curr as int,
                        n + 1,
                    ));
                }
                s2 = s2 + 1;
            }
            // One fresh calibration round trip re-anchors the clock.
            let ghost drained = self.frames@;
            proof {
                assert(is_reset_of(drained[0], frames1[0]));
                lemma_reset_wf(drained[0], frames1[0], self.allocated_query_ids);
                assert(drained[0].pools@.len() == old(self).frames@[0].pools@.len());
                assert(drained[0].curr_pool == 0);
                assert(drained[0].curr_pool < drained[0].pools@.len());
            }
            let frame = &mut self.frames[0];
            let gpu_time = Self::sync_frame(
                &mut self.allocated_query_ids,
                frame,
                &mut self.commands,
                calibration,
            );
            self.events.push(TracyEvent::TimeSync { gpu_time, context: self.context });
            self.curr_frame = 0;
            self.last_sync = now;
            proof {
                let alloc = self.allocated_query_ids;
                assert(self.frames@ =~= drained.update(0, self.frames@[0]));
                assert(self.frames@[0].pools@ =~= drained[0].pools@.update(
                    0,
                    QueryPool {
                        used_queries: 0,
                        base_query_id: drained[0].pools@[0].base_query_id,
                    },
                ));
                assert(is_reset_of(self.frames@[0], frames1[0]));
                assert forall|i: int|
                    0 <= i < len implies is_reset_of(
                    #[trigger] self.frames@[i],
                    old(self).frames@[i],
                ) by {
                    if i != 0 {
                        assert(self.frames@[i] == drained[i]);
                        assert(is_reset_of(drained[i], frames1[i]));
                    }
                    lemma_reset_of_same_pools(
                        self.frames@[i],
                        frames1[i],
                        old(self).frames@[i],
                    );
                }
                assert forall|i: int|
                    0 <= i < len implies (#[trigger] self.frames@[i]).wf(alloc) by {
                    lemma_reset_wf(self.frames@[i], frames1[i], alloc);
                }
                assert(calibration_commands(drained[0], alloc) =~= recalibration_commands(
                    old(self).frames@[0].pools@[0].base_query_id,
                ));
                assert(self.commands@ =~= old(self).commands@ + resolve_commands(
                    old(self).frames@[old(self).curr_frame as int],
                ) + drain_commands_upto(frames1, curr as int, len as int)
                    + recalibration_commands(old(self).frames@[0].pools@[0].base_query_id));
                assert(self.events@ =~= old(self).events@ + drain_events_upto(
                    ctxid,
                    frames1,
                    curr as int,
                    slot_views(*slot_data),
                    len as int,
                ) + seq![
                    TracyEvent::TimeSync {
                        gpu_time: le_bytes_to_u64(calibration@.subrange(0, 8)),
                        context: ctxid,
                    },
                ]);
            }
        } else {
            let nxt = if curr + 1 == len {
                0
            } else {
                curr + 1
            };
            proof {
                if curr + 1 == len {
                    vstd::arithmetic::div_mod::lemma_mod_multiples_vanish(1, 0, len as int);
                    vstd::arithmetic::div_mod::lemma_small_mod(0nat, len as nat);
                } else {
                    vstd::arithmetic::div_mod::lemma_small_mod((curr + 1) as nat, len as nat);
                }
                assert(nxt == (curr + 1) % (len as int));
            }
            self.curr_frame = nxt;
            proof {
                assert(self.frames@[nxt as int] == frames1[nxt as int]);
                assert(frames1[nxt as int].pools == old(self).frames@[nxt as int].pools);
                assert(frames1[nxt as int].curr_pool == old(self).frames@[nxt as int].curr_pool);
                assert(slot_data_ok(old(self).frames@[nxt as int], slot_views(*slot_data)[0]));
                assert(active_pool_count(frames1[nxt as int]) == active_pool_count(
                    old(self).frames@[nxt as int],
                ));
                assert(slot_data_ok(frames1[nxt as int], slot_views(*slot_data)[0]));
                assert(slot_views(*slot_data)[0] =~= readback_views(slot_data@[0]));
                assert(frames1[nxt as int].wf(self.allocated_query_ids));
                assert(frames1[nxt as int].ids_bounded());
            }
            let frame = &mut self.frames[nxt];
            Self::readback_frame(
                ctxid,
                frame,
                &slot_data[0],
                &mut self.events,
                &mut self.commands,
            );
            proof {
                let alloc = self.allocated_query_ids;
                assert(is_reset_of(self.frames@[nxt as int], frames1[nxt as int]));
                lemma_reset_of_same_pools(
                    self.frames@[nxt as int],
                    frames1[nxt as int],
                    old(self).frames@[nxt as int],
                );
                assert(slot_gpu_events(ctxid, frames1[nxt as int], readback_views(slot_data@[0]))
                    =~= slot_gpu_events(
                    ctxid,
                    old(self).frames@[nxt as int],
                    slot_views(*slot_data)[0],
                ));
                assert(self.events@ =~= old(self).events@ + slot_gpu_events(
                    ctxid,
                    old(self).frames@[nxt as int],
                    slot_views(*slot_data)[0],
                ));
                assert(self.commands@ =~= old(self).commands@ + resolve_commands(
                    old(self).frames@[curr as int],
                ) + readback_commands(frames1[nxt as int]));
                assert forall|i: int|
                    0 <= i < len implies (#[trigger] self.frames@[i]).wf(alloc) by {
                    if i == nxt {
                        lemma_reset_wf(self.frames@[i], frames1[i], alloc);
                    } else {
                        assert(self.frames@[i] == frames1[i]);
                    }
                }
            }
        }
    }
}

} // verus!
