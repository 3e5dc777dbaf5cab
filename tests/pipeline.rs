use trace_chain::codec::{extract, TraceContext, FLAG_SAMPLED};
use trace_chain::exporter::{
    after_attempt, backoff, should_flush, ConfigError, DropPolicy, ExportQueue, ExportStep,
    ExporterConfig, RetryPolicy,
};
use trace_chain::flow::{
    begin_outbound, begin_outbound_from, begin_request, begin_request_from, complete, path_name,
};
use trace_chain::headers::{header_value, Header};
use trace_chain::span::{AttrValue, Span, SpanKind};
use trace_chain::tracer::{start_span, start_span_from, Tracer};

fn header(name: &str, value: &str) -> Header {
    Header { name: name.as_bytes().to_vec(), value: value.as_bytes().to_vec() }
}

fn tracer_with(capacity: usize, policy: DropPolicy) -> Tracer {
    let mut cfg = ExporterConfig::with_endpoint(b"http://collector:4317".to_vec());
    cfg.queue_capacity = capacity;
    cfg.batch_size = 1;
    cfg.drop_policy = policy;
    Tracer::new(&cfg).ok().unwrap()
}

fn root(name: &str, start: u64, drawn: u64) -> Span {
    start_span_from(name.as_bytes().to_vec(), SpanKind::Internal, None, 7, drawn, start)
}

fn parent_ctx() -> TraceContext {
    TraceContext {
        trace_id: 0x4bf92f3577b34da6a3ce929d0e0e4736,
        span_id: 0x00f067aa0ba902b7,
        trace_flags: 1,
        trace_state: Vec::new(),
    }
}

#[test]
fn child_span_copies_trace_and_links_parent() {
    let p = parent_ctx();
    let s = start_span_from(b"work".to_vec(), SpanKind::Client, Some(&p), 99, 0x1234, 10);
    assert_eq!(s.context.trace_id, p.trace_id);
    assert_eq!(s.parent_span_id, Some(p.span_id));
    assert_eq!(s.context.span_id, 0x1234);
    assert_eq!(s.context.trace_flags, FLAG_SAMPLED);
    assert_eq!(s.start, 10);
    assert!(s.end.is_none());
    assert_eq!(s.kind, SpanKind::Client);
}

#[test]
fn root_span_mints_trace_from_drawn_id() {
    let s = start_span_from(b"r".to_vec(), SpanKind::Server, None, 0xabc, 0x5, 1);
    assert_eq!(s.context.trace_id, 0xabc);
    assert_eq!(s.parent_span_id, None);
    let z = start_span_from(b"r".to_vec(), SpanKind::Server, None, 0, 0, 1);
    assert_eq!(z.context.trace_id, 1);
    assert_eq!(z.context.span_id, 1);
}

#[test]
fn drawn_span_id_equal_to_parent_is_replaced() {
    let p = parent_ctx();
    let s = start_span_from(b"c".to_vec(), SpanKind::Client, Some(&p), 0, p.span_id, 1);
    assert_eq!(s.context.span_id, 1);
    let mut one = parent_ctx();
    one.span_id = 1;
    let t = start_span_from(b"c".to_vec(), SpanKind::Client, Some(&one), 0, 0, 1);
    assert_eq!(t.context.span_id, 2);
}

#[test]
fn invalid_parent_starts_new_trace() {
    let mut p = parent_ctx();
    p.trace_id = 0;
    let s = start_span_from(b"c".to_vec(), SpanKind::Client, Some(&p), 0x77, 0x8, 1);
    assert_eq!(s.context.trace_id, 0x77);
    assert_eq!(s.parent_span_id, None);
}

#[test]
fn random_ids_are_valid() {
    let s = start_span(b"x".to_vec(), SpanKind::Internal, None, 3);
    assert!(s.context.is_valid());
    let p = parent_ctx();
    let c = start_span(b"y".to_vec(), SpanKind::Client, Some(&p), 3);
    assert_eq!(c.context.trace_id, p.trace_id);
    assert_ne!(c.context.span_id, p.span_id);
}

#[test]
fn set_attribute_overwrites_and_is_ignored_after_finish() {
    let mut s = root("a", 5, 9);
    s.set_attribute(b"k".to_vec(), AttrValue::Int(1));
    s.set_attribute(b"j".to_vec(), AttrValue::Bool(true));
    s.set_attribute(b"k".to_vec(), AttrValue::Int(2));
    assert_eq!(s.attributes.len(), 2);
    assert_eq!(s.attributes[1].key, b"k".to_vec());
    assert!(matches!(s.attributes[1].value, AttrValue::Int(2)));
    s.end = Some(6);
    s.set_attribute(b"late".to_vec(), AttrValue::Int(3));
    assert_eq!(s.attributes.len(), 2);
}

#[test]
fn finish_clamps_end_to_start() {
    let mut t = tracer_with(4, DropPolicy::DropNewest);
    t.finish_span(root("a", 100, 1), 40);
    let b = t.queue.take_batch(10);
    assert_eq!(b.len(), 1);
    assert_eq!(b[0].end, Some(100));
    t.finish_span(root("b", 100, 1), 140);
    assert_eq!(t.queue.take_batch(10)[0].end, Some(140));
}

#[test]
fn finishing_a_finished_span_is_a_no_op() {
    let mut t = tracer_with(4, DropPolicy::DropNewest);
    let mut s = root("a", 1, 1);
    s.end = Some(2);
    t.finish_span(s, 3);
    assert_eq!(t.queue.len(), 0);
}

#[test]
fn full_queue_drops_newest_and_counts() {
    let mut t = tracer_with(2, DropPolicy::DropNewest);
    for i in 0..5u64 {
        t.finish_span(root("s", i, i + 1), i);
    }
    assert_eq!(t.queue.len(), 2);
    assert_eq!(t.queue.dropped(), 3);
    let b = t.queue.take_batch(10);
    assert_eq!(b[0].start, 0);
    assert_eq!(b[1].start, 1);
}

#[test]
fn full_queue_drops_oldest_and_counts() {
    let mut t = tracer_with(2, DropPolicy::DropOldest);
    for i in 0..5u64 {
        t.finish_span(root("s", i, i + 1), i);
    }
    assert_eq!(t.queue.len(), 2);
    assert_eq!(t.queue.dropped(), 3);
    let b = t.queue.take_batch(10);
    assert_eq!(b[0].start, 3);
    assert_eq!(b[1].start, 4);
}

#[test]
fn many_spans_over_capacity_never_exceed_it() {
    let mut q = ExportQueue::new(8, DropPolicy::DropNewest);
    for i in 0..1000u64 {
        let mut s = root("s", i, 1);
        s.end = Some(i);
        q.enqueue(s);
        assert!(q.len() <= q.capacity());
    }
    assert_eq!(q.len() as u64 + q.dropped(), 1000);
}

#[test]
fn batches_come_out_oldest_first() {
    let mut q = ExportQueue::new(10, DropPolicy::DropNewest);
    for i in 0..5u64 {
        q.enqueue(root("s", i, 1));
    }
    let b = q.take_batch(3);
    assert_eq!(b.iter().map(|s| s.start).collect::<Vec<_>>(), vec![0, 1, 2]);
    assert_eq!(q.len(), 2);
    let c = q.take_batch(3);
    assert_eq!(c.iter().map(|s| s.start).collect::<Vec<_>>(), vec![3, 4]);
    assert_eq!(q.len(), 0);
    q.record_lost(2);
    assert_eq!(q.lost(), 2);
    q.record_lost(usize::MAX);
    assert_eq!(q.lost(), u64::MAX);
}

#[test]
fn flush_when_batch_full_or_window_passed() {
    assert!(should_flush(10, 10, 0, 5000));
    assert!(!should_flush(3, 10, 100, 5000));
    assert!(should_flush(3, 10, 5000, 5000));
    assert!(!should_flush(0, 10, 9000, 5000));
}

#[test]
fn backoff_doubles_up_to_cap() {
    let p = RetryPolicy { max_attempts: 5, base_backoff_ms: 100, max_backoff_ms: 1000 };
    assert_eq!(backoff(&p, 0), 100);
    assert_eq!(backoff(&p, 1), 200);
    assert_eq!(backoff(&p, 3), 800);
    assert_eq!(backoff(&p, 4), 1000);
    assert_eq!(backoff(&p, 40), 1000);
}

#[test]
fn retry_steps() {
    let p = RetryPolicy { max_attempts: 3, base_backoff_ms: 100, max_backoff_ms: 5000 };
    assert_eq!(after_attempt(&p, 1, true), ExportStep::Delivered);
    assert_eq!(after_attempt(&p, 1, false), ExportStep::Retry { delay_ms: 100 });
    assert_eq!(after_attempt(&p, 2, false), ExportStep::Retry { delay_ms: 200 });
    assert_eq!(after_attempt(&p, 3, false), ExportStep::GiveUp);
}

#[test]
fn config_errors() {
    let ok = ExporterConfig::with_endpoint(b"e".to_vec());
    assert_eq!(ok.validate(), Ok(()));
    assert_eq!(ok.batch_size, 512);
    assert_eq!(ok.queue_capacity, 2048);
    let mut c = ExporterConfig::with_endpoint(Vec::new());
    assert_eq!(c.validate(), Err(ConfigError::EmptyEndpoint));
    c.endpoint = b"e".to_vec();
    c.batch_size = 0;
    assert_eq!(c.validate(), Err(ConfigError::ZeroBatchSize));
    c.batch_size = 1;
    c.queue_capacity = 0;
    assert_eq!(c.validate(), Err(ConfigError::ZeroQueueCapacity));
    assert!(matches!(Tracer::new(&c), Err(ConfigError::ZeroQueueCapacity)));
    c.queue_capacity = 1;
    c.batch_size = 2;
    assert_eq!(c.validate(), Err(ConfigError::BatchLargerThanQueue));
    c.batch_size = 1;
    c.retry.max_attempts = 0;
    assert_eq!(c.validate(), Err(ConfigError::ZeroAttempts));
}

#[test]
fn inbound_traceparent_flows_to_outbound_call() {
    let inbound = vec![header(
        "traceparent",
        "00-4bf92f3577b34da6a3ce929d0e0e4736-00f067aa0ba902b7-01",
    )];
    let server = begin_request(&inbound, &b"/node-chain".to_vec(), 10);
    assert_eq!(server.context.trace_id, 0x4bf92f3577b34da6a3ce929d0e0e4736);
    assert_eq!(server.parent_span_id, Some(0x00f067aa0ba902b7));
    assert_eq!(server.kind, SpanKind::Server);
    assert_eq!(server.attributes[0].key, path_name());
    let mut outbound = Vec::new();
    let client = begin_outbound(&server, &b"HTTP GET next/node-chain".to_vec(), &mut outbound, 11);
    let tp = header_value(&outbound, &b"traceparent".to_vec()).unwrap();
    let tp = String::from_utf8(tp.clone()).unwrap();
    let parts: Vec<&str> = tp.split('-').collect();
    assert_eq!(parts[1], "4bf92f3577b34da6a3ce929d0e0e4736");
    assert_ne!(parts[2], format!("{:016x}", server.context.span_id));
    assert_ne!(parts[2], "00f067aa0ba902b7");
    assert_eq!(parts[2], format!("{:016x}", client.context.span_id));
    assert_eq!(client.parent_span_id, Some(server.context.span_id));
}

#[test]
fn scenario_with_fixed_ids() {
    let inbound = vec![header(
        "traceparent",
        "00-4bf92f3577b34da6a3ce929d0e0e4736-00f067aa0ba902b7-01",
    )];
    let server = begin_request_from(&inbound, &b"/".to_vec(), 1, 0xaaaa, 10);
    assert_eq!(server.context.span_id, 0xaaaa);
    let mut outbound = vec![header("accept", "*/*")];
    let client = begin_outbound_from(&server, &b"call".to_vec(), &mut outbound, 2, 0xbbbb, 11);
    let back = extract(&outbound).unwrap();
    assert_eq!(back.trace_id, 0x4bf92f3577b34da6a3ce929d0e0e4736);
    assert_eq!(back.span_id, 0xbbbb);
    assert_eq!(client.parent_span_id, Some(0xaaaa));
    assert_eq!(outbound.len(), 2);
}

#[test]
fn handler_error_passes_through_and_span_is_exported() {
    let mut t = tracer_with(4, DropPolicy::DropNewest);
    let server = begin_request(&Vec::new(), &b"/".to_vec(), 5);
    let outcome: Result<u32, String> = Err("handler failed: 42".to_string());
    let r = complete(&mut t, server, outcome, 9);
    assert_eq!(r, Err("handler failed: 42".to_string()));
    let b = t.queue.take_batch(10);
    assert_eq!(b.len(), 1);
    assert_eq!(b[0].end, Some(9));
    assert_eq!(b[0].kind, SpanKind::Server);
}

#[test]
fn handler_success_passes_through() {
    let mut t = tracer_with(4, DropPolicy::DropNewest);
    let server = begin_request(&Vec::new(), &b"/".to_vec(), 5);
    let r: Result<&str, ()> = complete(&mut t, server, Ok("{\"otel\":\"rust\"}"), 6);
    assert_eq!(r, Ok("{\"otel\":\"rust\"}"));
    assert_eq!(t.queue.len(), 1);
}

#[test]
fn untraced_request_gets_fresh_trace() {
    let server = begin_request(&Vec::new(), &b"/".to_vec(), 5);
    assert!(server.context.is_valid());
    assert_eq!(server.parent_span_id, None);
    let other = begin_request(&vec![header("accept", "*/*")], &b"/".to_vec(), 5);
    assert!(other.context.is_valid());
    assert_ne!(server.context.trace_id, other.context.trace_id);
}

#[test]
fn concurrent_requests_keep_their_own_traces() {
    let h1 = vec![header("traceparent", "00-00000000000000000000000000000001-0000000000000011-01")];
    let h2 = vec![header("traceparent", "00-00000000000000000000000000000002-0000000000000022-01")];
    let s1 = begin_request(&h1, &b"/".to_vec(), 1);
    let s2 = begin_request(&h2, &b"/".to_vec(), 1);
    let mut o1 = Vec::new();
    let mut o2 = Vec::new();
    let c2 = begin_outbound(&s2, &b"t".to_vec(), &mut o2, 2);
    let c1 = begin_outbound(&s1, &b"t".to_vec(), &mut o1, 2);
    assert_eq!(c1.context.trace_id, 1);
    assert_eq!(c2.context.trace_id, 2);
    assert_eq!(c1.parent_span_id, Some(s1.context.span_id));
    assert_eq!(c2.parent_span_id, Some(s2.context.span_id));
    assert_eq!(extract(&o1).unwrap().trace_id, 1);
    assert_eq!(extract(&o2).unwrap().trace_id, 2);
}
