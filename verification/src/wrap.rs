//! Scope wrappers that pair every zone begin with its matching end.
//!
//! A wrapper takes its context by value and gives it back when finished, so
//! the type system guarantees at most one open profiled scope per context:
//! while an [`EncoderProfiler`] or [`PassProfiler`] is alive, nothing else
//! can write to the context it holds.

use vstd::prelude::*;

use crate::context::{zone_state_rel, ProfileContext};
use crate::event::TracyEvent;
use crate::pass::{Pass, PassKind};

verus! {

/// A profiled command encoder: the recorder of the encoder's timestamp
/// writes together with exclusive ownership of the profiling context.
pub struct EncoderProfiler {
    /// The encoder's recorder; its begin timestamp is already written.
    pub inner: Pass,
    /// The context, held exclusively while the encoder is open.
    pub context: ProfileContext,
}

/// A profiled render or compute pass, holding its parent encoder — and
/// through it the context — exclusively until the pass is finished.
pub struct PassProfiler {
    /// The pass's recorder; its begin timestamp is already written.
    pub inner: Pass,
    /// The encoder the pass was begun from.
    pub parent: EncoderProfiler,
}

impl ProfileContext {
    /// Open a profiled command encoder: begin a zone for it, writing the
    /// begin timestamp through the encoder's own recorder. The context
    /// moves into the profiler and comes back from [`EncoderProfiler::finish`].
    pub fn create_command_encoder(
        self,
        label: Option<String>,
        line: u32,
        file: String,
        function: String,
    ) -> (ep: EncoderProfiler)
        requires
            self.wf(),
            self.zone_headroom(),
        ensures
            ep.context.wf(),
            ep.inner.kind() == PassKind::Encoder,
            !self.enabled ==> ep.context == self && ep.inner.writes() == Seq::<u16>::empty(),
            self.enabled ==> {
                &&& zone_state_rel(self, ep.context, self.next_query_id())
                &&& ep.inner.writes() =~= seq![self.next_query_id()]
                &&& ep.context.events@ == self.events@.push(
                    TracyEvent::ZoneBegin {
                        name: label,
                        function,
                        file,
                        line,
                        query_id: self.next_query_id(),
                        context: self.context,
                    },
                )
            },
    {
        let mut pass = Pass::new_encoder();
        let mut ctx = self;
        ctx.begin_zone(&mut pass, label, line, file, function);
        EncoderProfiler { inner: pass, context: ctx }
    }
}

impl EncoderProfiler {
    /// Begin a profiled render pass inside this encoder: a zone begins on
    /// the pass's own recorder, and the encoder moves into the pass until
    /// [`PassProfiler::finish`] gives it back.
    pub fn begin_render_pass(
        self,
        label: Option<String>,
        line: u32,
        file: String,
        function: String,
    ) -> (pp: PassProfiler)
        requires
            self.context.wf(),
            self.context.zone_headroom(),
        ensures
            pp.parent.context.wf(),
            pp.parent.inner == self.inner,
            pp.inner.kind() == PassKind::Render,
            !self.context.enabled ==> pp.parent.context == self.context && pp.inner.writes()
                == Seq::<u16>::empty(),
            self.context.enabled ==> {
                &&& zone_state_rel(self.context, pp.parent.context, self.context.next_query_id())
                &&& pp.inner.writes() =~= seq![self.context.next_query_id()]
                &&& pp.parent.context.events@ == self.context.events@.push(
                    TracyEvent::ZoneBegin {
                        name: label,
                        function,
                        file,
                        line,
                        query_id: self.context.next_query_id(),
                        context: self.context.context,
                    },
                )
            },
    {
        let mut pass = Pass::new_render();
        let mut ep = self;
        ep.context.begin_zone(&mut pass, label, line, file, function);
        PassProfiler { inner: pass, parent: ep }
    }

    /// Begin a profiled compute pass inside this encoder.
    pub fn begin_compute_pass(
        self,
        label: Option<String>,
        line: u32,
        file: String,
        function: String,
    ) -> (pp: PassProfiler)
        requires
            self.context.wf(),
            self.context.zone_headroom(),
        ensures
            pp.parent.context.wf(),
            pp.parent.inner == self.inner,
            pp.inner.kind() == PassKind::Compute,
            !self.context.enabled ==> pp.parent.context == self.context && pp.inner.writes()
                == Seq::<u16>::empty(),
            self.context.enabled ==> {
                &&& zone_state_rel(self.context, pp.parent.context, self.context.next_query_id())
                &&& pp.inner.writes() =~= seq![self.context.next_query_id()]
                &&& pp.parent.context.events@ == self.context.events@.push(
                    TracyEvent::ZoneBegin {
                        name: label,
                        function,
                        file,
                        line,
                        query_id: self.context.next_query_id(),
                        context: self.context.context,
                    },
                )
            },
    {
        let mut pass = Pass::new_compute();
        let mut ep = self;
        ep.context.begin_zone(&mut pass, label, line, file, function);
        PassProfiler { inner: pass, parent: ep }
    }

    /// Finish the profiled encoder: write the matching end timestamp
    /// through its recorder, emit the zone-end record, and give back the
    /// finished recorder and the context.
    pub fn finish(self) -> (r: (Pass, ProfileContext))
        requires
            self.context.wf(),
            self.context.zone_headroom(),
        ensures
            r.1.wf(),
            r.0.kind() == self.inner.kind(),
            !self.context.enabled ==> r.1 == self.context && r.0 == self.inner,
            self.context.enabled ==> {
                &&& zone_state_rel(self.context, r.1, self.context.next_query_id())
                &&& r.0.writes() == self.inner.writes().push(self.context.next_query_id())
                &&& r.1.events@ == self.context.events@.push(
                    TracyEvent::ZoneEnd {
                        query_id: self.context.next_query_id(),
                        context: self.context.context,
                    },
                )
            },
    {
        let mut ctx = self.context;
        let mut pass = self.inner;
        ctx.end_zone(&mut pass);
        (pass, ctx)
    }
}

impl PassProfiler {
    /// Finish the profiled pass: write the matching end timestamp through
    /// its recorder, emit the zone-end record, and give back the finished
    /// recorder and the parent encoder.
    pub fn finish(self) -> (r: (Pass, EncoderProfiler))
        requires
            self.parent.context.wf(),
            self.parent.context.zone_headroom(),
        ensures
            r.1.context.wf(),
            r.1.inner == self.parent.inner,
            r.0.kind() == self.inner.kind(),
            !self.parent.context.enabled ==> r.1.context == self.parent.context && r.0
                == self.inner,
            self.parent.context.enabled ==> {
                &&& zone_state_rel(
                    self.parent.context,
                    r.1.context,
                    self.parent.context.next_query_id(),
                )
                &&& r.0.writes() == self.inner.writes().push(
                    self.parent.context.next_query_id(),
                )
                &&& r.1.context.events@ == self.parent.context.events@.push(
                    TracyEvent::ZoneEnd {
                        query_id: self.parent.context.next_query_id(),
                        context: self.parent.context.context,
                    },
                )
            },
    {
        let mut ep = self.parent;
        let mut pass = self.inner;
        ep.context.end_zone(&mut pass);
        (pass, ep)
    }
}

} // verus!
