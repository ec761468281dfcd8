//! The tracer: creates spans, samples them, and submits finished ones.
use vstd::prelude::*;

use crate::collector::Collector;
use crate::errors::Error;
use crate::ids::IdGenerator;
use crate::sampler::Sampler;
use crate::span::{now, Duration, Span, Timestamp};

verus! {

/// `to - from`, held to the range of a duration.
pub open spec fn elapsed(from: Timestamp, to: Timestamp) -> int {
    let d = to - from;
    if d > i64::MAX {
        i64::MAX as int
    } else if d < i64::MIN {
        i64::MIN as int
    } else {
        d
    }
}

/// The span finished at `end`: its duration is the time since it started.
pub open spec fn finished(span: Span, end: Timestamp) -> Span {
    Span { duration: Some(elapsed(span.timestamp, end) as Duration), ..span }
}

/// The span finished at `end`: its duration is the time since it started.
pub fn finish(span: Span, end: Timestamp) -> (r: Span)
    ensures
        r == finished(span, end),
{
    let d: i128 = end as i128 - span.timestamp as i128;
    let duration: i64 = if d > i64::MAX as i128 {
        i64::MAX
    } else if d < i64::MIN as i128 {
        i64::MIN
    } else {
        d as i64
    };
    Span { duration: Some(duration), ..span }
}

pub struct Tracer<S, C> {
    pub sampler: Option<S>,
    pub collector: C,
    pub ids: IdGenerator,
}

impl<S: Sampler<Span>, C: Collector> Tracer<S, C> {
    /// A tracer that samples nothing out: its spans' sampling is left open.
    pub fn new(collector: C) -> (r: Tracer<S, C>)
        ensures
            r.sampler is None,
            r.collector == collector,
    {
        Tracer { sampler: None, collector, ids: IdGenerator::new() }
    }

    pub fn with_sampler(sampler: S, collector: C) -> (r: Tracer<S, C>)
        ensures
            r.sampler == Some(sampler),
            r.collector == collector,
    {
        Tracer { sampler: Some(sampler), collector, ids: IdGenerator::new() }
    }

    /// A root span of a fresh trace, started now, on which the sampler,
    /// if there is one, has been asked once.
    pub fn span(&mut self, name: &str) -> (r: Span)
        ensures
            r.name@ == name@,
            r.trace_id.hi is Some,
            r.parent_id is None,
            r.duration is None,
            r.annotations@.len() == 0,
            r.binary_annotations@.len() == 0,
            r.debug is None,
            old(self).sampler is None ==> r.sampled is None && final(self).sampler is None,
            old(self).sampler is Some ==> r.sampled is Some && final(self).sampler is Some
                && old(self).sampler->Some_0.decides(
                &final(self).sampler->Some_0,
                r.sampled->Some_0,
            ),
            final(self).collector == old(self).collector,
    {
        let trace_id = self.ids.trace_id();
        let id = self.ids.next_id();
        let span = Span {
            trace_id,
            name: name.to_owned(),
            id,
            parent_id: None,
            timestamp: now(),
            duration: None,
            annotations: Vec::new(),
            binary_annotations: Vec::new(),
            debug: None,
            sampled: None,
        };
        let sampled = match &mut self.sampler {
            Some(s) => Some(s.sample(&span)),
            None => None,
        };
        Span { sampled, ..span }
    }

    /// Finishes the span now (see `finish`) and hands it, alone, to the
    /// collector, whose answer is the result. Nothing is retried or kept.
    pub fn submit(&mut self, span: Span) -> (r: Result<(), Error>)
        ensures
            final(self).sampler == old(self).sampler,
            final(self).ids == old(self).ids,
            C::obeys_collector_spec() ==> exists|end: Timestamp|
                r == old(self).collector.answer(seq![finished(span, end)]),
    {
        let end = now();
        let done = finish(span, end);
        let batch = vec![done];
        assert(batch@ =~= seq![finished(span, end)]);
        self.collector.submit(batch)
    }
}

} // verus!
