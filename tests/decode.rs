use opentelemetry_otlp_capnp::decode::decode_span;
use opentelemetry_otlp_capnp::fake::FakeCapnp;
use opentelemetry_otlp_capnp::model::{Array, Event, KeyValue, Link, SpanKind, SpanRecord, Status, Value};
use opentelemetry_otlp_capnp::transform::{populate_span, span_flags};
use opentelemetry_otlp_capnp::wire;

fn rich_span() -> SpanRecord {
    let mut span = FakeCapnp::trace_service_request_with_spans(1).batch.remove(0);
    span.kind = SpanKind::Producer;
    span.trace_state = "a=b".to_string();
    span.attributes = vec![
        KeyValue { key: "b".to_string(), value: Value::Bool(true) },
        KeyValue { key: "f".to_string(), value: Value::F64(2.5f64.to_bits()) },
        KeyValue { key: "s".to_string(), value: Value::Array(Array::String(vec!["x".to_string()])) },
    ];
    span.events = vec![Event {
        time_unix_nano: 5,
        name: "e".to_string(),
        attributes: vec![KeyValue { key: "n".to_string(), value: Value::Array(Array::I64(vec![4, 5])) }],
        dropped_attributes_count: 1,
    }];
    span.links = vec![Link {
        trace_id: [3; 16],
        span_id: [4; 8],
        trace_state: String::new(),
        attributes: Vec::new(),
        flags: span_flags(0, Some(true)),
        dropped_attributes_count: 2,
    }];
    span.status = Status::Error { description: "failed".to_string() };
    span
}

#[test]
fn encoded_span_reads_back_as_itself() {
    let span = rich_span();
    let w = populate_span(span.clone());
    let back = decode_span(&w, span.instrumentation_scope.clone()).expect("readable span");
    assert_eq!(back, span);
}

#[test]
fn unsupported_values_do_not_read_back() {
    let mut span = rich_span();
    span.attributes.push(KeyValue { key: "u".to_string(), value: Value::Unsupported });
    let w = populate_span(span.clone());
    let back = decode_span(&w, span.instrumentation_scope.clone()).unwrap();
    assert_eq!(back.attributes[3].value, Value::String(String::new()));
}

#[test]
fn malformed_wire_spans_are_refused() {
    let span = rich_span();
    let mut w = populate_span(span.clone());
    w.trace_id.pop();
    assert!(decode_span(&w, span.instrumentation_scope.clone()).is_none());
    let mut w = populate_span(span.clone());
    w.kind = wire::SpanKind::Unspecified;
    assert!(decode_span(&w, span.instrumentation_scope.clone()).is_none());
    let mut w = populate_span(span.clone());
    w.status = wire::Status { code: wire::StatusCode::Unset, message: "x".to_string() };
    assert!(decode_span(&w, span.instrumentation_scope.clone()).is_none());
    let mut w = populate_span(span.clone());
    w.attributes[0].value = wire::AnyValue::ArrayValue(wire::ArrayValue {
        values: vec![wire::AnyValue::IntValue(1), wire::AnyValue::BoolValue(true)],
    });
    assert!(decode_span(&w, span.instrumentation_scope.clone()).is_none());
}
