use opentelemetry_otlp_capnp::config::{default_protocol, CapnpExporterBuilder};
use opentelemetry_otlp_capnp::fake::FakeCapnp;
use opentelemetry_otlp_capnp::receiver::{acknowledge, received_span_count, reply_outcome, span_total};
use opentelemetry_otlp_capnp::request::build_export_request;
use opentelemetry_otlp_capnp::retry::CallOutcome;
use opentelemetry_otlp_capnp::wire;
use opentelemetry_otlp_capnp::Protocol;

#[test]
fn receiver_counts_one_minimal_span() {
    let request = build_export_request(FakeCapnp::trace_service_request_with_spans(1));
    assert_eq!(received_span_count(&request), 1);
    let reply = acknowledge();
    assert_eq!(reply.partial_success.rejected_spans, 0);
    assert_eq!(reply.partial_success.error_message, "");
}

#[test]
fn receiver_counts_every_span() {
    let request = build_export_request(FakeCapnp::trace_service_request_with_spans(512));
    assert_eq!(received_span_count(&request), 512);
    let empty = wire::ExportTraceServiceRequest { resource_spans: Vec::new() };
    assert_eq!(received_span_count(&empty), 0);
}

#[test]
fn rejected_spans_do_not_fail_the_call() {
    let reply = wire::ExportTraceServiceResponse {
        partial_success: wire::ExportTracePartialSuccess { rejected_spans: 4, error_message: "no".to_string() },
    };
    assert_eq!(reply_outcome(&reply), CallOutcome::Delivered { rejected_spans: 4 });
}

#[test]
fn endpoint_resolution_order() {
    let s = |v: &str| Some(v.to_string());
    assert_eq!(CapnpExporterBuilder::resolve_endpoint(s("a:1"), s("b:2"), s("c:3")), "a:1");
    assert_eq!(CapnpExporterBuilder::resolve_endpoint(s(""), s("b:2"), s("c:3")), "b:2");
    assert_eq!(CapnpExporterBuilder::resolve_endpoint(None, None, s("c:3")), "c:3");
    assert_eq!(CapnpExporterBuilder::resolve_endpoint(None, None, None), "127.0.0.1:4317");
    assert_eq!(CapnpExporterBuilder::resolve_timeout_ms(None, Some(5), Some(6)), 5);
    assert_eq!(CapnpExporterBuilder::resolve_timeout_ms(Some(1), Some(5), Some(6)), 1);
    assert_eq!(CapnpExporterBuilder::resolve_timeout_ms(None, None, None), 10_000);
    assert_eq!(default_protocol(), Protocol::Capnp);
}

#[test]
fn span_total_sums_group_sizes() {
    assert_eq!(span_total(&vec![2, 1]), 3);
    assert_eq!(span_total(&Vec::new()), 0);
    assert_eq!(span_total(&vec![u64::MAX, 5]), u64::MAX);
}
