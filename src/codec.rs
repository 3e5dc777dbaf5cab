//! The trace context and its two propagation headers: `traceparent`
//! (`version-traceid-spanid-flags`, fixed-width lowercase hex) and the
//! optional `tracestate` (vendor `key=value` pairs, comma separated, carried
//! as written).
use vstd::prelude::*;
use crate::hex::{
    all_hex, hex_digits, hex_value, lemma_hex_digits_shape, lemma_hex_round_trip,
    lemma_pow16_widths, parse_hex, push_hex,
};
use crate::state::{entries, members, pair_views, parse_tracestate};
use crate::headers::{
    find_header, header_value, name_is, put_header, remove_header, set_header, view_headers,
    without_header, Header, HeadersView,
};

verus! {

/// The identity of one span within its trace, as propagated between services.
pub struct TraceContext {
    pub trace_id: u128,
    pub span_id: u64,
    pub trace_flags: u8,
    pub trace_state: Vec<u8>,
}

pub struct TraceContextView {
    pub trace_id: u128,
    pub span_id: u64,
    pub trace_flags: u8,
    pub trace_state: Seq<u8>,
}

impl View for TraceContext {
    type V = TraceContextView;

    open spec fn view(&self) -> TraceContextView {
        TraceContextView {
            trace_id: self.trace_id,
            span_id: self.span_id,
            trace_flags: self.trace_flags,
            trace_state: self.trace_state@,
        }
    }
}

/// The sampled bit of the trace flags.
pub const FLAG_SAMPLED: u8 = 1;

impl TraceContextView {
    /// Zero is no identifier in either field.
    pub open spec fn is_valid(self) -> bool {
        self.trace_id != 0 && self.span_id != 0
    }
}

impl TraceContext {
    pub fn is_valid(&self) -> (r: bool)
        ensures
            r == self@.is_valid(),
    {
        self.trace_id != 0 && self.span_id != 0
    }

    /// The vendor entries of the trace state, in order.
    pub fn state_entries(&self) -> (r: Vec<(Vec<u8>, Vec<u8>)>)
        ensures
            pair_views(r@) == entries(members(self.trace_state@)),
    {
        parse_tracestate(&self.trace_state)
    }

    /// A copy of this context.
    pub fn duplicate(&self) -> (r: TraceContext)
        ensures
            r@ == self@,
    {
        TraceContext {
            trace_id: self.trace_id,
            span_id: self.span_id,
            trace_flags: self.trace_flags,
            trace_state: self.trace_state.clone(),
        }
    }
}

/// `traceparent`
pub open spec fn traceparent_key() -> Seq<u8> {
    seq![116u8, 114, 97, 99, 101, 112, 97, 114, 101, 110, 116]
}

/// `tracestate`
pub open spec fn tracestate_key() -> Seq<u8> {
    seq![116u8, 114, 97, 99, 101, 115, 116, 97, 116, 101]
}

pub fn traceparent_name() -> (r: Vec<u8>)
    ensures
        r@ == traceparent_key(),
{
    let v: Vec<u8> = vec![116u8, 114, 97, 99, 101, 112, 97, 114, 101, 110, 116];
    assert(v@ =~= traceparent_key());
    v
}

pub fn tracestate_name() -> (r: Vec<u8>)
    ensures
        r@ == tracestate_key(),
{
    let v: Vec<u8> = vec![116u8, 114, 97, 99, 101, 115, 116, 97, 116, 101];
    assert(v@ =~= tracestate_key());
    v
}

/// Byte `-`.
pub open spec fn dash() -> u8 {
    45
}

/// The `traceparent` value written for a context: version `00`.
#[verifier::opaque]
pub open spec fn encode_traceparent(trace_id: u128, span_id: u64, flags: u8) -> Seq<u8> {
    seq![48u8, 48, dash()] + hex_digits(trace_id as nat, 32) + seq![dash()] + hex_digits(
        span_id as nat,
        16,
    ) + seq![dash()] + hex_digits(flags as nat, 2)
}

/// The fields of a `traceparent` value, if it is well formed: four
/// dash-separated lowercase hex fields of widths 2, 32, 16 and 2, a version
/// other than `ff`, and non-zero trace and span ids.
#[verifier::opaque]
pub open spec fn parse_traceparent(s: Seq<u8>) -> Option<(u128, u64, u8)> {
    let version = s.subrange(0, 2);
    let tid = s.subrange(3, 35);
    let sid = s.subrange(36, 52);
    let flags = s.subrange(53, 55);
    if s.len() == 55 && s[2] == dash() && s[35] == dash() && s[52] == dash() && all_hex(version)
        && hex_value(version) != 255 && all_hex(tid) && all_hex(sid) && all_hex(flags)
        && hex_value(tid) != 0 && hex_value(sid) != 0 {
        Some((hex_value(tid) as u128, hex_value(sid) as u64, hex_value(flags) as u8))
    } else {
        None
    }
}

/// The context that a header list carries, if any.
pub open spec fn extract_spec(h: HeadersView) -> Option<TraceContextView> {
    match find_header(h, traceparent_key()) {
        None => None,
        Some(v) => match parse_traceparent(v) {
            None => None,
            Some(f) => Some(
                TraceContextView {
                    trace_id: f.0,
                    span_id: f.1,
                    trace_flags: f.2,
                    trace_state: match find_header(h, tracestate_key()) {
                        Some(st) => st,
                        None => Seq::empty(),
                    },
                },
            ),
        },
    }
}

/// The header list after writing `ctx` into it: `traceparent` always,
/// `tracestate` where the context has vendor state (else any old one goes).
pub open spec fn inject_spec(ctx: TraceContextView, h: HeadersView) -> HeadersView {
    let with_parent = set_header(
        h,
        traceparent_key(),
        encode_traceparent(ctx.trace_id, ctx.span_id, ctx.trace_flags),
    );
    if ctx.trace_state.len() == 0 {
        without_header(with_parent, tracestate_key())
    } else {
        set_header(with_parent, tracestate_key(), ctx.trace_state)
    }
}

/// The `traceparent` value for the given fields.
pub fn format_traceparent(trace_id: u128, span_id: u64, flags: u8) -> (r: Vec<u8>)
    ensures
        r@ == encode_traceparent(trace_id, span_id, flags),
{
    let mut out: Vec<u8> = Vec::new();
    out.push(48);
    out.push(48);
    out.push(45);
    push_hex(trace_id, 32, &mut out);
    out.push(45);
    push_hex(span_id as u128, 16, &mut out);
    out.push(45);
    push_hex(flags as u128, 2, &mut out);
    reveal(encode_traceparent);
    assert(out@ =~= encode_traceparent(trace_id, span_id, flags));
    out
}

/// Reads a `traceparent` value; `None` where it is malformed.
pub fn read_traceparent(s: &Vec<u8>) -> (r: Option<(u128, u64, u8)>)
    ensures
        r == parse_traceparent(s@),
{
    proof {
        lemma_pow16_widths();
        reveal(parse_traceparent);
    }
    if s.len() != 55 || s[2] != 45 || s[35] != 45 || s[52] != 45 {
        return None;
    }
    let b = s.as_slice();
    let version = match parse_hex(b, 0, 2) {
        Some(v) => v,
        None => return None,
    };
    let tid = match parse_hex(b, 3, 32) {
        Some(v) => v,
        None => return None,
    };
    let sid = match parse_hex(b, 36, 16) {
        Some(v) => v,
        None => return None,
    };
    let flags = match parse_hex(b, 53, 2) {
        Some(v) => v,
        None => return None,
    };
    proof {
        crate::hex::lemma_hex_value_bound(s@.subrange(36, 52));
        crate::hex::lemma_hex_value_bound(s@.subrange(53, 55));
    }
    if version == 255 || tid == 0 || sid == 0 {
        return None;
    }
    Some((tid, sid as u64, flags as u8))
}

/// The context carried by `headers`: `None` where `traceparent` is absent or
/// malformed. Header names match whatever their case.
pub fn extract(headers: &Vec<Header>) -> (r: Option<TraceContext>)
    ensures
        r.is_some() == extract_spec(view_headers(headers@)).is_some(),
        r.is_some() ==> extract_spec(view_headers(headers@)) == Some(r.unwrap()@),
{
    let parent_key = traceparent_name();
    let value = match header_value(headers, &parent_key) {
        Some(v) => v,
        None => return None,
    };
    let fields = match read_traceparent(value) {
        Some(f) => f,
        None => return None,
    };
    let state_key = tracestate_name();
    let trace_state = match header_value(headers, &state_key) {
        Some(st) => st.clone(),
        None => Vec::new(),
    };
    let ctx = TraceContext {
        trace_id: fields.0,
        span_id: fields.1,
        trace_flags: fields.2,
        trace_state,
    };
    assert(extract_spec(view_headers(headers@)) == Some(ctx@));
    Some(ctx)
}

/// Writes `ctx` into `headers`, replacing any earlier propagation headers.
pub fn inject(ctx: &TraceContext, headers: &mut Vec<Header>)
    ensures
        view_headers(final(headers)@) == inject_spec(ctx@, view_headers(old(headers)@)),
{
    let parent_key = traceparent_name();
    let value = format_traceparent(ctx.trace_id, ctx.span_id, ctx.trace_flags);
    put_header(headers, &parent_key, value);
    let state_key = tracestate_name();
    if ctx.trace_state.len() == 0 {
        remove_header(headers, &state_key);
    } else {
        put_header(headers, &state_key, ctx.trace_state.clone());
    }
}

/// Reading back what was written: the `traceparent` of a valid context parses
/// to its trace id, span id and flags.
pub proof fn lemma_traceparent_round_trip(trace_id: u128, span_id: u64, flags: u8)
    requires
        trace_id != 0,
        span_id != 0,
    ensures
        parse_traceparent(encode_traceparent(trace_id, span_id, flags)) == Some(
            (trace_id, span_id, flags),
        ),
{
    reveal(encode_traceparent);
    reveal(parse_traceparent);
    let s = encode_traceparent(trace_id, span_id, flags);
    let t = hex_digits(trace_id as nat, 32);
    let p = hex_digits(span_id as nat, 16);
    let f = hex_digits(flags as nat, 2);
    lemma_pow16_widths();
    lemma_hex_digits_shape(trace_id as nat, 32);
    lemma_hex_digits_shape(span_id as nat, 16);
    lemma_hex_digits_shape(flags as nat, 2);
    lemma_hex_round_trip(trace_id as nat, 32);
    lemma_hex_round_trip(span_id as nat, 16);
    lemma_hex_round_trip(flags as nat, 2);
    assert(s.subrange(3, 35) =~= t);
    assert(s.subrange(36, 52) =~= p);
    assert(s.subrange(53, 55) =~= f);
    let v = s.subrange(0, 2);
    assert(v =~= seq![48u8, 48]);
    assert(v.drop_last() =~= seq![48u8]);
    assert(v.drop_last().drop_last() =~= Seq::<u8>::empty());
    assert(hex_value(v.drop_last().drop_last()) == 0);
    assert(hex_value(v.drop_last()) == 0);
    assert(hex_value(v) == 0);
    assert(all_hex(v));
}

/// A context read from headers is valid: neither id is zero.
pub proof fn lemma_extracted_valid(h: HeadersView)
    requires
        extract_spec(h) is Some,
    ensures
        extract_spec(h)->Some_0.is_valid(),
{
    let v = find_header(h, traceparent_key())->Some_0;
    reveal(parse_traceparent);
    lemma_pow16_widths();
    if v.len() == 55 {
        crate::hex::lemma_hex_value_bound(v.subrange(3, 35));
        crate::hex::lemma_hex_value_bound(v.subrange(36, 52));
    }
}

proof fn lemma_find_one(k: Seq<u8>, v: Seq<u8>, key: Seq<u8>)
    ensures
        find_header(seq![(k, v)], key) == if name_is(k, key) {
            Some(v)
        } else {
            None::<Seq<u8>>
        },
{
    let h = seq![(k, v)];
    assert(h[0] == (k, v));
    assert(h.drop_first() =~= Seq::<(Seq<u8>, Seq<u8>)>::empty());
    assert(find_header(h.drop_first(), key) == None::<Seq<u8>>);
}

proof fn lemma_find_two(k1: Seq<u8>, v1: Seq<u8>, k2: Seq<u8>, v2: Seq<u8>, key: Seq<u8>)
    ensures
        find_header(seq![(k1, v1), (k2, v2)], key) == if name_is(k1, key) {
            Some(v1)
        } else {
            find_header(seq![(k2, v2)], key)
        },
{
    let h = seq![(k1, v1), (k2, v2)];
    assert(h[0] == (k1, v1));
    assert(h.drop_first() =~= seq![(k2, v2)]);
}

proof fn lemma_key_names()
    ensures
        name_is(traceparent_key(), traceparent_key()),
        name_is(tracestate_key(), tracestate_key()),
        !name_is(traceparent_key(), tracestate_key()),
        !name_is(tracestate_key(), traceparent_key()),
{
}

/// The headers that writing `ctx` into an empty list gives.
proof fn lemma_inject_into_empty(ctx: TraceContextView)
    ensures
        ctx.trace_state.len() == 0 ==> inject_spec(ctx, Seq::empty()) == seq![
            (traceparent_key(), encode_traceparent(ctx.trace_id, ctx.span_id, ctx.trace_flags)),
        ],
        ctx.trace_state.len() != 0 ==> inject_spec(ctx, Seq::empty()) == seq![
            (traceparent_key(), encode_traceparent(ctx.trace_id, ctx.span_id, ctx.trace_flags)),
            (tracestate_key(), ctx.trace_state),
        ],
{
    let enc = encode_traceparent(ctx.trace_id, ctx.span_id, ctx.trace_flags);
    let empty = Seq::<(Seq<u8>, Seq<u8>)>::empty();
    lemma_key_names();
    assert(without_header(empty, traceparent_key()) == empty);
    let h1 = set_header(empty, traceparent_key(), enc);
    assert(h1 =~= seq![(traceparent_key(), enc)]);
    assert(h1.drop_last() =~= empty);
    assert(without_header(h1.drop_last(), tracestate_key()) == empty);
    assert(without_header(h1, tracestate_key()) =~= h1);
    if ctx.trace_state.len() != 0 {
        assert(inject_spec(ctx, empty) =~= seq![(traceparent_key(), enc), (tracestate_key(), ctx.trace_state)]);
    }
}

/// Writing a valid context into an empty header list and reading it back
/// gives the same context: trace id, span id, flags and vendor state.
pub proof fn lemma_inject_extract_round_trip(ctx: TraceContextView)
    requires
        ctx.is_valid(),
    ensures
        extract_spec(inject_spec(ctx, Seq::empty())) == Some(ctx),
{
    let enc = encode_traceparent(ctx.trace_id, ctx.span_id, ctx.trace_flags);
    lemma_traceparent_round_trip(ctx.trace_id, ctx.span_id, ctx.trace_flags);
    lemma_inject_into_empty(ctx);
    lemma_key_names();
    let h = inject_spec(ctx, Seq::empty());
    if ctx.trace_state.len() == 0 {
        lemma_find_one(traceparent_key(), enc, traceparent_key());
        lemma_find_one(traceparent_key(), enc, tracestate_key());
        assert(find_header(h, tracestate_key()) == None::<Seq<u8>>);
        assert(ctx.trace_state =~= Seq::<u8>::empty());
    } else {
        lemma_find_two(traceparent_key(), enc, tracestate_key(), ctx.trace_state, traceparent_key());
        lemma_find_two(traceparent_key(), enc, tracestate_key(), ctx.trace_state, tracestate_key());
        lemma_find_one(tracestate_key(), ctx.trace_state, tracestate_key());
        assert(find_header(h, tracestate_key()) == Some(ctx.trace_state));
    }
    assert(find_header(h, traceparent_key()) == Some(enc));
    assert(extract_spec(h) =~= Some(ctx));
}

} // verus!
