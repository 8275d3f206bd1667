//! The query-capable command recorders.
//!
//! The kinds of GPU recorder — a plain command encoder, a render pass, a
//! compute pass — form a small closed set, so they are one tagged type
//! with one capability: accept a timestamp write. The recorder
//! keeps the globally unique query ids written through it, in order, so the
//! driver can replay each write onto the real backend object it wraps.

use vstd::prelude::*;

verus! {

/// Which kind of recorder a [`Pass`] stands for.
#[derive(Clone, Copy, PartialEq, Eq, Structural, Debug)]
pub enum PassKind {
    Encoder,
    Render,
    Compute,
}

/// A command recorder that can take timestamp writes.
#[derive(Clone, PartialEq, Eq, Debug)]
pub enum Pass {
    /// A plain command encoder.
    Encoder { writes: Vec<u16> },
    /// A render pass.
    Render { writes: Vec<u16> },
    /// A compute pass.
    Compute { writes: Vec<u16> },
}

impl Pass {
    /// The kind tag of this recorder.
    pub open spec fn kind(self) -> PassKind {
        match self {
            Pass::Encoder { .. } => PassKind::Encoder,
            Pass::Render { .. } => PassKind::Render,
            Pass::Compute { .. } => PassKind::Compute,
        }
    }

    /// The query ids written through this recorder, in order.
    pub open spec fn writes(self) -> Seq<u16> {
        match self {
            Pass::Encoder { writes } => writes@,
            Pass::Render { writes } => writes@,
            Pass::Compute { writes } => writes@,
        }
    }

    /// A fresh command-encoder recorder with no writes.
    pub fn new_encoder() -> (p: Pass)
        ensures
            p.kind() == PassKind::Encoder,
            p.writes() == Seq::<u16>::empty(),
    {
        Pass::Encoder { writes: Vec::new() }
    }

    /// A fresh render-pass recorder with no writes.
    pub fn new_render() -> (p: Pass)
        ensures
            p.kind() == PassKind::Render,
            p.writes() == Seq::<u16>::empty(),
    {
        Pass::Render { writes: Vec::new() }
    }

    /// A fresh compute-pass recorder with no writes.
    pub fn new_compute() -> (p: Pass)
        ensures
            p.kind() == PassKind::Compute,
            p.writes() == Seq::<u16>::empty(),
    {
        Pass::Compute { writes: Vec::new() }
    }

    /// Record a timestamp write for the query with the given global id.
    pub fn write_timestamp(&mut self, query_id: u16)
        ensures
            final(self).kind() == old(self).kind(),
            final(self).writes() == old(self).writes().push(query_id),
    {
        match self {
            Pass::Encoder { writes } => writes.push(query_id),
            Pass::Render { writes } => writes.push(query_id),
            Pass::Compute { writes } => writes.push(query_id),
        }
    }

    /// The recorded writes, for the driver to replay.
    pub fn recorded_writes(&self) -> (r: &Vec<u16>)
        ensures
            r@ == self.writes(),
    {
        match self {
            Pass::Encoder { writes } => writes,
            Pass::Render { writes } => writes,
            Pass::Compute { writes } => writes,
        }
    }
}

} // verus!
