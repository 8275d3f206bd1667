//! A profiling client core: it correlates GPU timestamp queries with a
//! CPU-side timeline and prepares the event stream that a profiling
//! collector consumes.
//!
//! The GPU backend and the collector stay outside this crate. The library
//! keeps the bookkeeping — query-id allocation, pool capacity, the ring of
//! frames in flight, clock resynchronisation — and exchanges plain data
//! with its driver: it records the backend work it needs as [`event::GpuCommand`]
//! values and the collector records it produces as [`event::TracyEvent`] values,
//! and takes readback buffer contents back as byte vectors.

use vstd::prelude::*;

pub mod allocator;
pub mod color;
pub mod context;
pub mod event;
pub mod laws;
pub mod pass;
pub mod pool;
pub mod wrap;

verus! {

/// The deepest callstack the collector accepts with a sample.
pub const MAX_CALLSTACK_DEPTH: u32 = 62;

/// Clamp a requested callstack depth to the maximum the collector supports.
pub fn clamp_callstack_depth(depth: u32) -> (r: u32)
    ensures
        r == if depth < MAX_CALLSTACK_DEPTH {
            depth
        } else {
            MAX_CALLSTACK_DEPTH
        },
{
    if depth < MAX_CALLSTACK_DEPTH {
        depth
    } else {
        MAX_CALLSTACK_DEPTH
    }
}

} // verus!
