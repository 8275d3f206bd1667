//! Tracked global allocators.
//!
//! The wrappers here only carry the configuration the allocation-tracking
//! layer needs — the wrapped allocator and a clamped callstack depth. The
//! tracking itself reports every allocation over an ABI boundary and lives
//! with the driver, outside this crate.

use vstd::prelude::*;

use crate::clamp_callstack_depth;
use crate::MAX_CALLSTACK_DEPTH;

verus! {

#[verifier::external_type_specification]
#[verifier::external_body]
pub struct ExSystem(std::alloc::System);

/// Relies on std::alloc::System: the zero-sized handle to the platform
/// allocator.
#[verifier::external_body]
fn system_allocator() -> std::alloc::System {
    std::alloc::System
}

/// A global allocator whose allocations are reported to the collector.
pub struct GlobalAllocator<T> {
    /// The allocator that does the actual work.
    pub inner: T,
}

impl GlobalAllocator<std::alloc::System> {
    /// Track the platform allocator.
    pub fn new() -> (r: GlobalAllocator<std::alloc::System>) {
        GlobalAllocator { inner: system_allocator() }
    }
}

impl<T> GlobalAllocator<T> {
    /// Track the given allocator.
    pub fn new_with(inner: T) -> (r: GlobalAllocator<T>)
        ensures
            r.inner == inner,
    {
        GlobalAllocator { inner }
    }
}

/// A global allocator whose allocations are reported together with a
/// callstack sample of the configured depth.
pub struct GlobalAllocatorSampled<T> {
    /// The allocator that does the actual work.
    pub inner: T,
    /// The callstack depth to sample, already clamped to what the
    /// collector supports.
    pub depth: i32,
}

impl GlobalAllocatorSampled<std::alloc::System> {
    /// Track the platform allocator, sampling `depth` callstack frames.
    pub fn new(depth: u32) -> (r: GlobalAllocatorSampled<std::alloc::System>)
        ensures
            r.depth == if depth < MAX_CALLSTACK_DEPTH {
                depth as int
            } else {
                MAX_CALLSTACK_DEPTH as int
            },
    {
        GlobalAllocatorSampled::new_with(system_allocator(), depth)
    }
}

impl<T> GlobalAllocatorSampled<T> {
    /// Track the given allocator, sampling `depth` callstack frames.
    pub fn new_with(inner: T, depth: u32) -> (r: GlobalAllocatorSampled<T>)
        ensures
            r.inner == inner,
            r.depth == if depth < MAX_CALLSTACK_DEPTH {
                depth as int
            } else {
                MAX_CALLSTACK_DEPTH as int
            },
    {
        GlobalAllocatorSampled { inner, depth: clamp_callstack_depth(depth) as i32 }
    }
}

} // verus!
