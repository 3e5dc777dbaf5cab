//! The two wrappers a request passes through: the server-side middleware
//! (extract, start the server span, run the handler, finish) and the outbound
//! call wrapper (start a client span under the current one, inject, call,
//! finish). The current span is always passed explicitly, so concurrent
//! requests share nothing but the tracer's export queue.
use vstd::prelude::*;
use crate::codec::{extract, extract_spec, inject, inject_spec, TraceContextView};
use crate::headers::{view_headers, Header, HeadersView};
use crate::span::{AttrValue, AttrValueView, Span, SpanKind, SpanView};
use crate::tracer::{
    finished_at, lemma_parent_linkage, lemma_started_valid, pick_trace_id, random_span_id,
    random_trace_id, start_span_from, started, Tracer,
};

verus! {

/// `path`
pub open spec fn path_key() -> Seq<u8> {
    seq![112u8, 97, 116, 104]
}

pub fn path_name() -> (r: Vec<u8>)
    ensures
        r@ == path_key(),
{
    let v: Vec<u8> = vec![112u8, 97, 116, 104];
    assert(v@ =~= path_key());
    v
}

/// The server span for a request with headers `h` on `route`: named after the
/// route, a child of the inbound context where there is one, with the route
/// as its `path` attribute.
pub open spec fn server_span(
    h: HeadersView,
    route: Seq<u8>,
    drawn_trace: u128,
    drawn_span: u64,
    now: u64,
) -> SpanView {
    let s = started(route, SpanKind::Server, extract_spec(h), drawn_trace, drawn_span, now);
    SpanView { attributes: s.attributes.insert(path_key(), AttrValueView::Str(route)), ..s }
}

/// The client span for a call to `target` made while `current` is the current span.
pub open spec fn client_span(
    current: SpanView,
    target: Seq<u8>,
    drawn_trace: u128,
    drawn_span: u64,
    now: u64,
) -> SpanView {
    started(target, SpanKind::Client, Some(current.context), drawn_trace, drawn_span, now)
}

fn clone_bytes(v: &Vec<u8>) -> (r: Vec<u8>)
    ensures
        r@ == v@,
{
    v.clone()
}

/// Starts the server span of an inbound request from given drawn ids.
pub fn begin_request_from(
    headers: &Vec<Header>,
    route: &Vec<u8>,
    drawn_trace: u128,
    drawn_span: u64,
    now: u64,
) -> (r: Span)
    ensures
        r@ == server_span(view_headers(headers@), route@, drawn_trace, drawn_span, now),
{
    let parent = extract(headers);
    let parent_ref = match &parent {
        Some(c) => Some(c),
        None => None,
    };
    let mut span = start_span_from(
        clone_bytes(route),
        SpanKind::Server,
        parent_ref,
        drawn_trace,
        drawn_span,
        now,
    );
    span.set_attribute(path_name(), AttrValue::Str(clone_bytes(route)));
    span
}

/// Starts the server span of an inbound request, with freshly drawn ids. A
/// missing or malformed `traceparent` starts a new trace; it never fails.
pub fn begin_request(headers: &Vec<Header>, route: &Vec<u8>, now: u64) -> (r: Span)
    ensures
        exists|t: u128, s: u64| r@ == server_span(view_headers(headers@), route@, t, s, now),
{
    let drawn_trace = random_trace_id();
    let drawn_span = random_span_id();
    begin_request_from(headers, route, drawn_trace, drawn_span, now)
}

/// Starts the client span of an outbound call from given drawn ids, and
/// writes its context into the outbound headers.
pub fn begin_outbound_from(
    current: &Span,
    target: &Vec<u8>,
    outbound: &mut Vec<Header>,
    drawn_trace: u128,
    drawn_span: u64,
    now: u64,
) -> (r: Span)
    ensures
        r@ == client_span(current@, target@, drawn_trace, drawn_span, now),
        view_headers(final(outbound)@) == inject_spec(r@.context, view_headers(old(outbound)@)),
{
    let span = start_span_from(
        clone_bytes(target),
        SpanKind::Client,
        Some(&current.context),
        drawn_trace,
        drawn_span,
        now,
    );
    inject(&span.context, outbound);
    span
}

/// Starts the client span of an outbound call with freshly drawn ids, and
/// writes its context into the outbound headers.
pub fn begin_outbound(current: &Span, target: &Vec<u8>, outbound: &mut Vec<Header>, now: u64) -> (r:
    Span)
    ensures
        exists|t: u128, s: u64| r@ == client_span(current@, target@, t, s, now),
        view_headers(final(outbound)@) == inject_spec(r@.context, view_headers(old(outbound)@)),
{
    let drawn_trace = random_trace_id();
    let drawn_span = random_span_id();
    begin_outbound_from(current, target, outbound, drawn_trace, drawn_span, now)
}

/// Ends the span of a handler or of an outbound call, whatever its outcome,
/// and hands back that outcome untouched.
pub fn complete<T, E>(tracer: &mut Tracer, span: Span, outcome: Result<T, E>, now: u64) -> (r:
    Result<T, E>)
    requires
        old(tracer).wf(),
    ensures
        r == outcome,
        final(tracer).wf(),
        span@.is_finished() ==> final(tracer).queue == old(tracer).queue,
        !span@.is_finished() ==> old(tracer).queue.enqueue_post(
            final(tracer).queue,
            finished_at(span@, now),
        ),
{
    tracer.finish_span(span, now);
    outcome
}

/// A client span started while a server span is current is that span's
/// child: same trace, the server span's id as its parent, an id of its own.
pub proof fn lemma_outbound_is_child(
    h: HeadersView,
    route: Seq<u8>,
    target: Seq<u8>,
    t1: u128,
    s1: u64,
    t2: u128,
    s2: u64,
    now1: u64,
    now2: u64,
)
    ensures
        ({
            let server = server_span(h, route, t1, s1, now1);
            let client = client_span(server, target, t2, s2, now2);
            &&& client.context.trace_id == server.context.trace_id
            &&& client.parent_span_id == Some(server.context.span_id)
            &&& client.context.span_id != server.context.span_id
        }),
{
    let s = started(route, SpanKind::Server, extract_spec(h), t1, s1, now1);
    lemma_started_valid(route, SpanKind::Server, extract_spec(h), t1, s1, now1);
    lemma_parent_linkage(s.context, target, SpanKind::Client, t2, s2, now2);
}

/// An inbound context is kept along the chain: the server span and the
/// client span under it carry the inbound trace id, and the server span's
/// parent is the inbound span.
pub proof fn lemma_inbound_trace_kept(
    h: HeadersView,
    route: Seq<u8>,
    target: Seq<u8>,
    t1: u128,
    s1: u64,
    t2: u128,
    s2: u64,
    now1: u64,
    now2: u64,
)
    requires
        extract_spec(h) is Some,
    ensures
        ({
            let inbound = extract_spec(h)->Some_0;
            let server = server_span(h, route, t1, s1, now1);
            let client = client_span(server, target, t2, s2, now2);
            &&& server.context.trace_id == inbound.trace_id
            &&& server.parent_span_id == Some(inbound.span_id)
            &&& server.context.span_id != inbound.span_id
            &&& client.context.trace_id == inbound.trace_id
        }),
{
    crate::codec::lemma_extracted_valid(h);
    lemma_outbound_is_child(h, route, target, t1, s1, t2, s2, now1, now2);
}

/// Two requests with different inbound trace ids stay apart: each one's
/// server and client spans carry its own trace id, so neither sees the
/// other's spans as its own.
pub proof fn lemma_requests_isolated(
    h1: HeadersView,
    h2: HeadersView,
    route1: Seq<u8>,
    route2: Seq<u8>,
    target: Seq<u8>,
    ids1: (u128, u64, u128, u64),
    ids2: (u128, u64, u128, u64),
    now: u64,
)
    requires
        extract_spec(h1) is Some,
        extract_spec(h2) is Some,
        extract_spec(h1)->Some_0.trace_id != extract_spec(h2)->Some_0.trace_id,
    ensures
        ({
            let server1 = server_span(h1, route1, ids1.0, ids1.1, now);
            let server2 = server_span(h2, route2, ids2.0, ids2.1, now);
            let client1 = client_span(server1, target, ids1.2, ids1.3, now);
            let client2 = client_span(server2, target, ids2.2, ids2.3, now);
            &&& server1.context.trace_id == extract_spec(h1)->Some_0.trace_id
            &&& server2.context.trace_id == extract_spec(h2)->Some_0.trace_id
            &&& client1.context.trace_id == server1.context.trace_id
            &&& client2.context.trace_id == server2.context.trace_id
            &&& client1.parent_span_id == Some(server1.context.span_id)
            &&& client2.parent_span_id == Some(server2.context.span_id)
            &&& client1.context.trace_id != client2.context.trace_id
            &&& server1.context.trace_id != server2.context.trace_id
        }),
{
    lemma_inbound_trace_kept(h1, route1, target, ids1.0, ids1.1, ids1.2, ids1.3, now, now);
    lemma_inbound_trace_kept(h2, route2, target, ids2.0, ids2.1, ids2.2, ids2.3, now, now);
    lemma_outbound_is_child(h1, route1, target, ids1.0, ids1.1, ids1.2, ids1.3, now, now);
    lemma_outbound_is_child(h2, route2, target, ids2.0, ids2.1, ids2.2, ids2.3, now, now);
}

/// Headers without tracing keys carry no context, and the server span for
/// them starts a trace of its own with a fresh, valid trace id and no parent.
pub proof fn lemma_untraced_request_starts_trace(
    h: HeadersView,
    route: Seq<u8>,
    drawn_trace: u128,
    drawn_span: u64,
    now: u64,
)
    requires
        crate::headers::find_header(h, crate::codec::traceparent_key()) is None,
    ensures
        extract_spec(h) is None,
        ({
            let server = server_span(h, route, drawn_trace, drawn_span, now);
            &&& server.context.trace_id == pick_trace_id(drawn_trace)
            &&& server.context.is_valid()
            &&& server.parent_span_id is None
            &&& !server.is_finished()
        }),
{
    lemma_started_valid(route, SpanKind::Server, extract_spec(h), drawn_trace, drawn_span, now);
}

/// The empty header list carries no context.
pub proof fn lemma_no_headers_no_context()
    ensures
        extract_spec(Seq::empty()) is None,
{
}

} // verus!
