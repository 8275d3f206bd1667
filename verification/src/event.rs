//! The data exchanged with the two outside parties.
//!
//! The library never talks to the GPU backend or to the collector itself.
//! Instead it records the backend work it needs as [`GpuCommand`] values and
//! the collector records it produces as [`TracyEvent`] values; the driver
//! around the library performs the commands, forwards the events, and hands
//! readback buffer contents back in as plain bytes.

use vstd::prelude::*;

verus! {

/// One unit of work the driver must perform on the GPU backend, in order.
///
/// A query pool is identified by its base query id, which the library never
/// reuses for a different pool of the same context.
#[derive(Clone, Copy, PartialEq, Eq, Structural, Debug)]
pub enum GpuCommand {
    /// Create a timestamp query set of `QUERY_POOL_SIZE` slots together with
    /// its resolve and readback buffers (8 bytes per slot).
    CreateQueryPool { base_query_id: u16 },
    /// Write one timestamp at slot 0 of the pool, on a throwaway command
    /// encoder, as part of a calibration round trip.
    WriteCalibrationTimestamp { base_query_id: u16 },
    /// Resolve slots `0..count` of the pool's query set and copy the results
    /// into its readback buffer.
    ResolveQueries { base_query_id: u16, count: u16 },
    /// Submit the commands recorded since the previous submit.
    Submit,
    /// Request an asynchronous map of the first `count` results in the pool's
    /// readback buffer.
    MapReadback { base_query_id: u16, count: u16 },
    /// Block until the outstanding submission and its maps have completed.
    WaitForGpu,
    /// Unmap the pool's readback buffer so the pool can be reused.
    UnmapReadback { base_query_id: u16 },
}

/// One record for the collector, in emission order.
#[derive(Clone, PartialEq, Eq, Debug)]
pub enum TracyEvent {
    /// Announce a new GPU timeline: the calibrated GPU clock value, the
    /// backend's tick period (an opaque 32-bit float bit pattern), the
    /// context id and the backend kind code.
    NewContext { gpu_time: u64, period_bits: u32, context: u8, backend: u8 },
    /// A human-readable name for the context.
    ContextName { context: u8, name: String },
    /// A zone opened at the given source location; the GPU time is supplied
    /// later by a `GpuTime` record with the same query id.
    ZoneBegin {
        name: Option<String>,
        function: String,
        file: String,
        line: u32,
        query_id: u16,
        context: u8,
    },
    /// The matching close of the zone whose end timestamp got `query_id`.
    ZoneEnd { query_id: u16, context: u8 },
    /// A resolved timestamp for one query of this context.
    GpuTime { gpu_time: u64, query_id: u16, context: u8 },
    /// A fresh calibration point, re-anchoring the GPU clock.
    TimeSync { gpu_time: u64, context: u8 },
}

/// The kind of graphics backend behind the device, as the collector codes it.
#[derive(Clone, Copy, PartialEq, Eq, Structural, Debug)]
pub enum BackendKind {
    Empty,
    Gl,
    Vulkan,
    Dx12,
    Metal,
    BrowserWebGpu,
}

impl BackendKind {
    /// The code the collector uses for this backend kind.
    pub open spec fn code_spec(self) -> u8 {
        match self {
            BackendKind::Empty => 0,
            BackendKind::Gl => 1,
            BackendKind::Vulkan => 2,
            BackendKind::Dx12 => 4,
            BackendKind::Metal => 5,
            BackendKind::BrowserWebGpu => 6,
        }
    }

    /// Return the collector's code for this backend kind.
    pub fn code(self) -> (r: u8)
        ensures
            r == self.code_spec(),
    {
        match self {
            BackendKind::Empty => 0,
            BackendKind::Gl => 1,
            BackendKind::Vulkan => 2,
            BackendKind::Dx12 => 4,
            BackendKind::Metal => 5,
            BackendKind::BrowserWebGpu => 6,
        }
    }
}

/// The unsigned 64-bit value stored little-endian in an 8-byte sequence.
pub open spec fn le_bytes_to_u64(b: Seq<u8>) -> u64
    recommends
        b.len() == 8,
{
    (b[0] + b[1] * 0x100 + b[2] * 0x1_0000 + b[3] * 0x100_0000 + b[4] * 0x1_0000_0000 + b[5]
        * 0x100_0000_0000 + b[6] * 0x1_0000_0000_0000 + b[7] * 0x100_0000_0000_0000) as u64
}

/// Decode the little-endian 64-bit timestamp at `offset` in a readback
/// buffer's contents.
pub fn read_le_u64(bytes: &Vec<u8>, offset: usize) -> (r: u64)
    requires
        offset + 8 <= bytes@.len(),
    ensures
        r == le_bytes_to_u64(bytes@.subrange(offset as int, offset as int + 8)),
{
    let n = bytes.len();
    assert(offset + 8 <= n);
    let b0 = bytes[offset] as u64;
    let b1 = bytes[offset + 1] as u64;
    let b2 = bytes[offset + 2] as u64;
    let b3 = bytes[offset + 3] as u64;
    let b4 = bytes[offset + 4] as u64;
    let b5 = bytes[offset + 5] as u64;
    let b6 = bytes[offset + 6] as u64;
    let b7 = bytes[offset + 7] as u64;
    b0 + b1 * 0x100 + b2 * 0x1_0000 + b3 * 0x100_0000 + b4 * 0x1_0000_0000 + b5 * 0x100_0000_0000
        + b6 * 0x1_0000_0000_0000 + b7 * 0x100_0000_0000_0000
}

} // verus!
