use trace_chain::codec::{
    extract, format_traceparent, inject, read_traceparent, traceparent_name, tracestate_name,
    TraceContext,
};
use trace_chain::headers::{header_value, name_matches, put_header, remove_header, Header};
use trace_chain::hex::{parse_hex, push_hex};
use trace_chain::state::{parse_tracestate, split_key_value, split_members};

fn header(name: &str, value: &str) -> Header {
    Header { name: name.as_bytes().to_vec(), value: value.as_bytes().to_vec() }
}

fn ctx(trace_id: u128, span_id: u64, flags: u8, state: &str) -> TraceContext {
    TraceContext { trace_id, span_id, trace_flags: flags, trace_state: state.as_bytes().to_vec() }
}

const SAMPLE: &str = "00-4bf92f3577b34da6a3ce929d0e0e4736-00f067aa0ba902b7-01";

#[test]
fn hex_digits_are_fixed_width_lowercase() {
    let mut out = Vec::new();
    push_hex(0xab, 4, &mut out);
    assert_eq!(out, b"00ab".to_vec());
    assert_eq!(parse_hex(b"00ab", 0, 4), Some(0xab));
    assert_eq!(parse_hex(b"00AB", 0, 4), None);
    assert_eq!(parse_hex(b"ffffffffffffffffffffffffffffffff", 0, 32), Some(u128::MAX));
}

#[test]
fn traceparent_is_formatted_exactly() {
    let v = format_traceparent(0x4bf92f3577b34da6a3ce929d0e0e4736, 0x00f067aa0ba902b7, 1);
    assert_eq!(v, SAMPLE.as_bytes().to_vec());
}

#[test]
fn traceparent_is_read_exactly() {
    let r = read_traceparent(&SAMPLE.as_bytes().to_vec());
    assert_eq!(r, Some((0x4bf92f3577b34da6a3ce929d0e0e4736, 0x00f067aa0ba902b7, 1)));
}

#[test]
fn malformed_traceparent_is_none() {
    let bad = [
        "",
        "00-4bf92f3577b34da6a3ce929d0e0e4736-00f067aa0ba902b7",
        "00-4bf92f3577b34da6a3ce929d0e0e4736-00f067aa0ba902b7-0",
        "00_4bf92f3577b34da6a3ce929d0e0e4736-00f067aa0ba902b7-01",
        "00-4BF92F3577B34DA6A3CE929D0E0E4736-00f067aa0ba902b7-01",
        "00-00000000000000000000000000000000-00f067aa0ba902b7-01",
        "00-4bf92f3577b34da6a3ce929d0e0e4736-0000000000000000-01",
        "ff-4bf92f3577b34da6a3ce929d0e0e4736-00f067aa0ba902b7-01",
        "00-4bf92f3577b34da6a3ce929d0e0e473g-00f067aa0ba902b7-01",
    ];
    for b in bad.iter() {
        assert_eq!(read_traceparent(&b.as_bytes().to_vec()), None, "{}", b);
    }
}

#[test]
fn extract_on_empty_headers_is_none() {
    assert!(extract(&Vec::new()).is_none());
}

#[test]
fn extract_without_tracing_keys_is_none() {
    let h = vec![header("accept", "*/*"), header("host", "example")];
    assert!(extract(&h).is_none());
}

#[test]
fn extract_ignores_header_name_case() {
    let h = vec![header("TraceParent", SAMPLE), header("TRACESTATE", "congo=t61rcWkgMzE")];
    let c = extract(&h).unwrap();
    assert_eq!(c.trace_id, 0x4bf92f3577b34da6a3ce929d0e0e4736);
    assert_eq!(c.span_id, 0x00f067aa0ba902b7);
    assert_eq!(c.trace_flags, 1);
    assert_eq!(c.trace_state, b"congo=t61rcWkgMzE".to_vec());
}

#[test]
fn extract_malformed_is_none() {
    let h = vec![header("traceparent", "garbage")];
    assert!(extract(&h).is_none());
}

#[test]
fn inject_then_extract_round_trips() {
    let cases = [
        ctx(1, 1, 0, ""),
        ctx(u128::MAX, u64::MAX, 255, "a=b,c=d"),
        ctx(0x4bf92f3577b34da6a3ce929d0e0e4736, 0x00f067aa0ba902b7, 1, "rojo=00f067aa0ba902b7"),
    ];
    for c in cases.iter() {
        let mut h = Vec::new();
        inject(c, &mut h);
        let back = extract(&h).unwrap();
        assert_eq!(back.trace_id, c.trace_id);
        assert_eq!(back.span_id, c.span_id);
        assert_eq!(back.trace_flags, c.trace_flags);
        assert_eq!(back.trace_state, c.trace_state);
    }
}

#[test]
fn inject_overwrites_earlier_values() {
    let mut h = vec![
        header("Traceparent", "00-11111111111111111111111111111111-1111111111111111-00"),
        header("x-other", "keep"),
        header("tracestate", "old=1"),
    ];
    inject(&ctx(0x22, 0x33, 1, ""), &mut h);
    assert_eq!(h.len(), 2);
    assert_eq!(h[0].name, b"x-other".to_vec());
    assert_eq!(h[1].name, b"traceparent".to_vec());
    assert_eq!(
        h[1].value,
        b"00-00000000000000000000000000000022-0000000000000033-01".to_vec()
    );
}

#[test]
fn headers_lookup_put_and_remove() {
    let key = b"x-key".to_vec();
    let mut h = vec![header("X-Key", "1"), header("y", "2"), header("x-key", "3")];
    assert!(name_matches(&b"X-KEY".to_vec(), &key));
    assert!(!name_matches(&b"x-ke".to_vec(), &key));
    assert_eq!(header_value(&h, &key), Some(&b"1".to_vec()));
    put_header(&mut h, &key, b"4".to_vec());
    assert_eq!(h.len(), 2);
    assert_eq!(header_value(&h, &key), Some(&b"4".to_vec()));
    remove_header(&mut h, &key);
    assert_eq!(h.len(), 1);
    assert_eq!(header_value(&h, &key), None);
    assert_eq!(traceparent_name(), b"traceparent".to_vec());
    assert_eq!(tracestate_name(), b"tracestate".to_vec());
}

#[test]
fn duplicate_keeps_every_field() {
    let c = ctx(5, 6, 1, "k=v");
    let d = c.duplicate();
    assert_eq!((d.trace_id, d.span_id, d.trace_flags), (5, 6, 1));
    assert_eq!(d.trace_state, b"k=v".to_vec());
    assert!(c.is_valid());
    assert!(!ctx(0, 6, 1, "").is_valid());
}

#[test]
fn tracestate_members_in_order() {
    let v = b"rojo=00f067aa0ba902b7,congo=t61rcWkgMzE".to_vec();
    let e = parse_tracestate(&v);
    assert_eq!(
        e,
        vec![
            (b"rojo".to_vec(), b"00f067aa0ba902b7".to_vec()),
            (b"congo".to_vec(), b"t61rcWkgMzE".to_vec()),
        ]
    );
    assert_eq!(split_members(&b"a,,b".to_vec()), vec![b"a".to_vec(), Vec::new(), b"b".to_vec()]);
    assert_eq!(split_key_value(&b"k=v=w".to_vec()), Some((b"k".to_vec(), b"v=w".to_vec())));
    assert_eq!(split_key_value(&b"novalue".to_vec()), None);
    let skipped = parse_tracestate(&b"=x,,bad,ok=1".to_vec());
    assert_eq!(skipped, vec![(b"ok".to_vec(), b"1".to_vec())]);
    assert!(parse_tracestate(&Vec::new()).is_empty());
    let c = ctx(1, 2, 1, "a=1,b=2");
    assert_eq!(c.state_entries().len(), 2);
}
