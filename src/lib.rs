//! Trace-context propagation for an HTTP service: a header codec, span
//! records, a tracer, a bounded export queue and the decisions of the request
//! middleware and of the outbound call wrapper.
pub mod hex;
pub mod headers;
pub mod state;
pub mod codec;
pub mod span;
pub mod tracer;
pub mod exporter;
pub mod flow;
