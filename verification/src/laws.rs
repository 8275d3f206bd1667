//! Laws of the query-id allocation discipline.

use vstd::prelude::*;

use crate::context::{zone_state_rel, ProfileContext};
use crate::pool::QUERY_POOL_SIZE;

verus! {

/// One zone write takes exactly the context's next query id, and leaves the
/// next id strictly above it.
pub proof fn lemma_zone_step_id_bounds(pre: ProfileContext, post: ProfileContext, id: u16)
    requires
        pre.wf(),
        post.wf(),
        zone_state_rel(pre, post, id),
    ensures
        id == pre.next_query_id(),
        post.next_query_id() > id,
{
    let curr = pre.curr_frame as int;
    let f = pre.frames@[curr];
    let f2 = post.frames@[curr];
    assert(f.wf(pre.allocated_query_ids));
    assert(f2.wf(post.allocated_query_ids));
    if f.curr_pool < f.pools@.len() {
        assert(f.pools@[f.curr_pool as int].used_queries < QUERY_POOL_SIZE);
        assert(f.pools@[f.curr_pool as int].base_query_id + QUERY_POOL_SIZE
            <= pre.allocated_query_ids);
    }
    if f2.curr_pool < f2.pools@.len() {
        if f2.curr_pool == f.curr_pool {
            assert(f2.pools@[f2.curr_pool as int].used_queries
                == f.pools@[f.curr_pool as int].used_queries + 1 || (f.curr_pool
                == f.pools@.len() && f2.pools@[f2.curr_pool as int].used_queries == 1));
        } else {
            assert(f2.curr_pool == f.curr_pool + 1);
            assert(f2.pools@[f.curr_pool as int].base_query_id + QUERY_POOL_SIZE
                <= f2.pools@[f2.curr_pool as int].base_query_id);
        }
    } else {
        assert(f2.curr_pool > 0);
        assert(f2.pools@[f2.curr_pool - 1].base_query_id + QUERY_POOL_SIZE
            <= post.allocated_query_ids);
    }
}

/// The pairwise form of the id law, by induction over the distance of the
/// two writes in the run.
proof fn lemma_zone_trace_pair(trace: Seq<ProfileContext>, ids: Seq<u16>, i: int, j: int)
    requires
        trace.len() == ids.len() + 1,
        forall|m: int| 0 <= m < trace.len() ==> (#[trigger] trace[m]).wf(),
        forall|m: int|
            0 <= m < ids.len() ==> zone_state_rel(trace[m], trace[m + 1], #[trigger] ids[m]),
        0 <= i < j < ids.len(),
    ensures
        ids[i] < ids[j],
    decreases j - i,
{
    lemma_zone_step_id_bounds(trace[i], trace[i + 1], ids[i]);
    lemma_zone_step_id_bounds(trace[j], trace[j + 1], ids[j]);
    if j == i + 1 {
        assert(ids[j] == trace[j].next_query_id());
    } else {
        lemma_zone_trace_pair(trace, ids, i + 1, j);
        lemma_zone_step_id_bounds(trace[i + 1], trace[i + 2], ids[i + 1]);
    }
}

/// Law: for any run of zone begin/end writes on one context with no frame
/// boundary between them — each step related to the next by
/// [`zone_state_rel`] — the emitted query ids are strictly increasing in
/// emission order, and hence pairwise distinct.
pub proof fn lemma_zone_ids_strictly_increase(trace: Seq<ProfileContext>, ids: Seq<u16>)
    requires
        trace.len() == ids.len() + 1,
        forall|m: int| 0 <= m < trace.len() ==> (#[trigger] trace[m]).wf(),
        forall|m: int|
            0 <= m < ids.len() ==> zone_state_rel(trace[m], trace[m + 1], #[trigger] ids[m]),
    ensures
        forall|i: int, j: int| 0 <= i < j < ids.len() ==> ids[i] < ids[j],
{
    assert forall|i: int, j: int| 0 <= i < j < ids.len() implies ids[i] < ids[j] by {
        lemma_zone_trace_pair(trace, ids, i, j);
    }
}

/// Law: a steady end-frame call consumes exactly the ring slot
/// `(curr + 1) % len`. Starting from the frame whose writes went to slot
/// `c`, the `j`-th following call (counting from zero) therefore consumes
/// slot `(c + 1 + j) % len`, and that is `c` itself for the `len`-th call
/// and for none before it: a query's readback is emitted only once the
/// ring has gone all the way around, `len` frames after it was written.
pub proof fn lemma_readback_after_full_ring(c: int, len: int, j: int)
    requires
        0 <= c < len,
        0 <= j < len,
    ensures
        ((c + 1 + j) % len == c) <==> (j == len - 1),
{
    if c + 1 + j < len {
        vstd::arithmetic::div_mod::lemma_small_mod((c + 1 + j) as nat, len as nat);
    } else {
        vstd::arithmetic::div_mod::lemma_mod_multiples_vanish(1, c + 1 + j - len, len);
        vstd::arithmetic::div_mod::lemma_small_mod((c + 1 + j - len) as nat, len as nat);
    }
}

/// Law: a pool accepts at most `QUERY_POOL_SIZE` writes — the slot
/// invariant bounds every pool's used count by the capacity — and when the
/// current slot's pools are all full and the last of them is the newest
/// allocation, the next write goes to a freshly created pool whose base id
/// is exactly the previous pool's base plus the capacity.
pub proof fn lemma_pool_overflow_base(pre: ProfileContext, post: ProfileContext, id: u16)
    requires
        pre.wf(),
        zone_state_rel(pre, post, id),
        ({
            let f = pre.frames@[pre.curr_frame as int];
            &&& f.curr_pool == f.pools@.len()
            &&& f.pools@.len() > 0
            &&& f.pools@.last().base_query_id + QUERY_POOL_SIZE == pre.allocated_query_ids
        }),
    ensures
        ({
            let f = pre.frames@[pre.curr_frame as int];
            let f2 = post.frames@[pre.curr_frame as int];
            let created = f2.pools@[f.pools@.len() as int];
            &&& f2.pools@.len() == f.pools@.len() + 1
            &&& created.base_query_id == f.pools@.last().base_query_id + QUERY_POOL_SIZE
            &&& id == created.base_query_id
        }),
{
}

} // verus!
