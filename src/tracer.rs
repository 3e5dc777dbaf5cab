//! The tracer: starts spans as children of an explicit parent context (or as
//! roots of a new trace) and hands finished spans to the export queue.
use vstd::prelude::*;
use crate::codec::{TraceContext, TraceContextView, FLAG_SAMPLED};
use crate::exporter::{ConfigError, ExportQueue, ExporterConfig};
use crate::span::{attr_map, attr_views, Span, SpanKind, SpanView};

verus! {

/// Relies on opentelemetry's default `IdGenerator::new_trace_id`: a random
/// 128-bit value drawn from the thread's generator.
#[verifier::external_body]
pub(crate) fn random_trace_id() -> u128 {
    let ids = opentelemetry::sdk::trace::IdGenerator::default();
    opentelemetry::trace::IdGenerator::new_trace_id(&ids).to_u128()
}

/// Relies on opentelemetry's default `IdGenerator::new_span_id`: a random
/// 64-bit value drawn from the thread's generator.
#[verifier::external_body]
pub(crate) fn random_span_id() -> u64 {
    let ids = opentelemetry::sdk::trace::IdGenerator::default();
    opentelemetry::trace::IdGenerator::new_span_id(&ids).to_u64()
}

/// The trace id minted from a drawn value: zero names no trace, so it becomes 1.
pub open spec fn pick_trace_id(drawn: u128) -> u128 {
    if drawn != 0 {
        drawn
    } else {
        1
    }
}

/// The span id minted from a drawn value: neither zero nor the parent's id
/// (a drawn value that is either is replaced by 1, or 2 where the parent's is 1).
pub open spec fn pick_span_id(drawn: u64, parent: Option<u64>) -> u64 {
    if drawn != 0 && parent != Some(drawn) {
        drawn
    } else if parent != Some(1u64) {
        1
    } else {
        2
    }
}

/// The parent that a span is started under: an invalid context counts as none.
pub open spec fn effective_parent(parent: Option<TraceContextView>) -> Option<TraceContextView> {
    match parent {
        Some(p) => if p.is_valid() {
            Some(p)
        } else {
            None
        },
        None => None,
    }
}

/// The span that starting `name` under `parent` at `now` gives, with the
/// drawn ids `drawn_trace` and `drawn_span`. Every span is recorded and sampled.
pub open spec fn started(
    name: Seq<u8>,
    kind: SpanKind,
    parent: Option<TraceContextView>,
    drawn_trace: u128,
    drawn_span: u64,
    now: u64,
) -> SpanView {
    let p = effective_parent(parent);
    let parent_span = match p {
        Some(c) => Some(c.span_id),
        None => None,
    };
    SpanView {
        context: TraceContextView {
            trace_id: match p {
                Some(c) => c.trace_id,
                None => pick_trace_id(drawn_trace),
            },
            span_id: pick_span_id(drawn_span, parent_span),
            trace_flags: FLAG_SAMPLED,
            trace_state: match p {
                Some(c) => c.trace_state,
                None => Seq::empty(),
            },
        },
        name,
        kind,
        start: now,
        parent_span_id: parent_span,
        attributes: Map::empty(),
        end: None,
    }
}

pub open spec fn opt_view(parent: Option<&TraceContext>) -> Option<TraceContextView> {
    match parent {
        Some(p) => Some(p@),
        None => None,
    }
}

/// The span as it is handed on when finished at `now`.
pub open spec fn finished_at(s: SpanView, now: u64) -> SpanView {
    SpanView { end: Some(s.end_at(now)), ..s }
}

/// Starts a span from given drawn ids; see `started`.
pub fn start_span_from(
    name: Vec<u8>,
    kind: SpanKind,
    parent: Option<&TraceContext>,
    drawn_trace: u128,
    drawn_span: u64,
    now: u64,
) -> (r: Span)
    ensures
        r@ == started(name@, kind, opt_view(parent), drawn_trace, drawn_span, now),
{
    let p: Option<&TraceContext> = match parent {
        Some(c) => if c.is_valid() {
            Some(c)
        } else {
            None
        },
        None => None,
    };
    let parent_span: Option<u64> = match p {
        Some(c) => Some(c.span_id),
        None => None,
    };
    let trace_id: u128 = match p {
        Some(c) => c.trace_id,
        None => if drawn_trace != 0 {
            drawn_trace
        } else {
            1
        },
    };
    let span_id: u64 = if drawn_span != 0 && parent_span != Some(drawn_span) {
        drawn_span
    } else if parent_span != Some(1u64) {
        1
    } else {
        2
    };
    let trace_state: Vec<u8> = match p {
        Some(c) => c.trace_state.clone(),
        None => Vec::new(),
    };
    let r = Span {
        context: TraceContext { trace_id, span_id, trace_flags: FLAG_SAMPLED, trace_state },
        name,
        kind,
        start: now,
        parent_span_id: parent_span,
        attributes: Vec::new(),
        end: None,
    };
    assert(attr_map(attr_views(r.attributes@)) =~= Map::empty());
    assert(r@ =~= started(name@, kind, opt_view(parent), drawn_trace, drawn_span, now));
    r
}

/// Starts a span with freshly drawn ids: a child of `parent` where that is a
/// valid context, else the root of a new trace.
pub fn start_span(name: Vec<u8>, kind: SpanKind, parent: Option<&TraceContext>, now: u64) -> (r:
    Span)
    ensures
        exists|t: u128, s: u64| r@ == started(name@, kind, opt_view(parent), t, s, now),
{
    let t = random_trace_id();
    let s = random_span_id();
    start_span_from(name, kind, parent, t, s, now)
}

/// The registry that owns the export queue. One is made at startup and passed
/// to whatever starts or finishes spans; spans themselves are values owned by
/// the request that made them.
pub struct Tracer {
    pub queue: ExportQueue,
}

impl Tracer {
    pub open spec fn wf(&self) -> bool {
        self.queue.wf()
    }

    /// A tracer whose queue has the configured capacity and drop policy;
    /// the configuration's error where it is out of range.
    pub fn new(config: &ExporterConfig) -> (r: Result<Tracer, ConfigError>)
        ensures
            r.is_err() == config.check().is_err(),
            r is Err ==> r == Err::<Tracer, ConfigError>(config.check()->Err_0),
            r matches Ok(t) ==> {
                &&& t.wf()
                &&& t.queue.pending().len() == 0
                &&& t.queue.cap() == config.queue_capacity
                &&& t.queue.drop_policy() == config.drop_policy
                &&& t.queue.dropped_count() == 0
                &&& t.queue.lost_count() == 0
            },
    {
        match config.validate() {
            Err(e) => Err(e),
            Ok(()) => Ok(Tracer { queue: ExportQueue::new(config.queue_capacity, config.drop_policy) }),
        }
    }

    /// Finishes `span` at `now` (never before its start) and hands it to the
    /// export queue. A span that is already finished is left alone.
    pub fn finish_span(&mut self, span: Span, now: u64)
        requires
            old(self).wf(),
        ensures
            final(self).wf(),
            span@.is_finished() ==> final(self).queue == old(self).queue,
            !span@.is_finished() ==> old(self).queue.enqueue_post(
                final(self).queue,
                finished_at(span@, now),
            ),
    {
        let ghost given = span@;
        let mut span = span;
        if span.end.is_some() {
            return;
        }
        let end = if now >= span.start {
            now
        } else {
            span.start
        };
        span.end = Some(end);
        assert(span@ == finished_at(given, now));
        self.queue.enqueue(span);
    }
}

/// A span started with a parent is its child: same trace, the parent's span
/// id as its parent link, and an id of its own.
pub proof fn lemma_parent_linkage(
    parent: TraceContextView,
    name: Seq<u8>,
    kind: SpanKind,
    drawn_trace: u128,
    drawn_span: u64,
    now: u64,
)
    requires
        parent.is_valid(),
    ensures
        ({
            let c = started(name, kind, Some(parent), drawn_trace, drawn_span, now);
            &&& c.context.trace_id == parent.trace_id
            &&& c.parent_span_id == Some(parent.span_id)
            &&& c.context.span_id != parent.span_id
            &&& c.context.is_valid()
        }),
{
}

/// Every started span has a valid context and no end yet, with or without a parent.
pub proof fn lemma_started_valid(
    name: Seq<u8>,
    kind: SpanKind,
    parent: Option<TraceContextView>,
    drawn_trace: u128,
    drawn_span: u64,
    now: u64,
)
    ensures
        started(name, kind, parent, drawn_trace, drawn_span, now).context.is_valid(),
        !started(name, kind, parent, drawn_trace, drawn_span, now).is_finished(),
{
}

} // verus!
