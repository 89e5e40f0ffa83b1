use opentelemetry_otlp_capnp::model::{
    Array, Event, InstrumentationScope, KeyValue, Link, SpanKind, SpanRecord, Status, Value,
};
use opentelemetry_otlp_capnp::transform::{
    populate_attributes, populate_span, populate_span_minimal, populate_status, span_flags,
    status_code,
};
use opentelemetry_otlp_capnp::wire;

const TRACE_ID: [u8; 16] = [
    0x01, 0x23, 0x45, 0x67, 0x89, 0xab, 0xcd, 0xef, 0x01, 0x23, 0x45, 0x67, 0x89, 0xab, 0xcd, 0xef,
];
const SPAN_ID: [u8; 8] = [0x01, 0x23, 0x45, 0x67, 0x89, 0xab, 0xcd, 0xef];
const TIME: u64 = 1_700_000_000_000_000_000;

fn scope(name: &str) -> InstrumentationScope {
    InstrumentationScope {
        name: name.to_string(),
        version: None,
        schema_url: None,
        attributes: Vec::new(),
    }
}

fn minimal_span() -> SpanRecord {
    SpanRecord {
        trace_id: TRACE_ID,
        span_id: SPAN_ID,
        parent_span_id: [0; 8],
        trace_state: String::new(),
        flags: 0,
        name: "benchmark-span".to_string(),
        kind: SpanKind::Internal,
        start_time_unix_nano: TIME,
        end_time_unix_nano: TIME,
        attributes: Vec::new(),
        dropped_attributes_count: 0,
        events: Vec::new(),
        dropped_events_count: 0,
        links: Vec::new(),
        dropped_links_count: 0,
        status: Status::Unset,
        instrumentation_scope: scope("my app"),
    }
}

fn kv(key: &str, value: Value) -> KeyValue {
    KeyValue { key: key.to_string(), value }
}

#[test]
fn minimal_span_is_encoded_byte_exact() {
    let w = populate_span(minimal_span());
    assert_eq!(w.trace_id, TRACE_ID.to_vec());
    assert_eq!(w.span_id, SPAN_ID.to_vec());
    assert_eq!(w.parent_span_id, vec![0u8; 8]);
    assert_eq!(w.name, "benchmark-span");
    assert_eq!(w.kind, wire::SpanKind::Internal);
    assert_eq!(w.kind.ordinal(), 1);
    assert_eq!(w.start_time_unix_nano, TIME);
    assert_eq!(w.end_time_unix_nano, TIME);
    assert!(w.attributes.is_empty());
    assert!(w.events.is_empty());
    assert!(w.links.is_empty());
    assert_eq!(w.status.code, wire::StatusCode::Unset);
    assert_eq!(w.status.message, "");
}

#[test]
fn attributes_of_each_type() {
    let attrs = vec![
        kv("b", Value::Bool(true)),
        kv("i", Value::I64(-7)),
        kv("f", Value::F64(1.5f64.to_bits())),
        kv("s", Value::String("x".to_string())),
        kv("a", Value::Array(Array::I64(vec![1, 2, 3]))),
    ];
    let w = populate_attributes(&attrs);
    assert_eq!(w.len(), 5);
    assert_eq!(w[0].key, "b");
    assert_eq!(w[0].value, wire::AnyValue::BoolValue(true));
    assert_eq!(w[1].value, wire::AnyValue::IntValue(-7));
    assert_eq!(w[2].value, wire::AnyValue::DoubleValue(1.5f64.to_bits()));
    assert_eq!(w[3].value, wire::AnyValue::StringValue("x".to_string()));
    match &w[4].value {
        wire::AnyValue::ArrayValue(a) => {
            assert_eq!(a.values.len(), 3);
            assert_eq!(a.values[0], wire::AnyValue::IntValue(1));
            assert_eq!(a.values[1], wire::AnyValue::IntValue(2));
            assert_eq!(a.values[2], wire::AnyValue::IntValue(3));
        }
        other => panic!("not an array: {:?}", other),
    }
}

#[test]
fn arrays_of_bools_doubles_and_strings() {
    let attrs = vec![
        kv("bs", Value::Array(Array::Bool(vec![true, false]))),
        kv("ds", Value::Array(Array::F64(vec![0.25f64.to_bits()]))),
        kv("ss", Value::Array(Array::String(vec!["p".to_string(), "q".to_string()]))),
        kv("empty", Value::Array(Array::I64(Vec::new()))),
    ];
    let w = populate_attributes(&attrs);
    let values = |i: usize| match &w[i].value {
        wire::AnyValue::ArrayValue(a) => a.values.iter().collect::<Vec<_>>(),
        other => panic!("not an array: {:?}", other),
    };
    assert_eq!(values(0), vec![&wire::AnyValue::BoolValue(true), &wire::AnyValue::BoolValue(false)]);
    assert_eq!(values(1), vec![&wire::AnyValue::DoubleValue(0.25f64.to_bits())]);
    assert_eq!(
        values(2),
        vec![
            &wire::AnyValue::StringValue("p".to_string()),
            &wire::AnyValue::StringValue("q".to_string())
        ]
    );
    assert!(values(3).is_empty());
}

#[test]
fn unsupported_value_is_written_as_empty_string() {
    let w = populate_attributes(&vec![kv("u", Value::Unsupported)]);
    assert_eq!(w[0].value, wire::AnyValue::StringValue(String::new()));
}

#[test]
fn duplicate_keys_keep_input_order() {
    let w = populate_attributes(&vec![kv("k", Value::I64(1)), kv("k", Value::I64(2))]);
    assert_eq!(w.len(), 2);
    assert_eq!(w[0].value, wire::AnyValue::IntValue(1));
    assert_eq!(w[1].value, wire::AnyValue::IntValue(2));
}

#[test]
fn status_message_only_on_error() {
    let e = populate_status(&Status::Error { description: "boom".to_string() });
    assert_eq!(e.code, wire::StatusCode::Error);
    assert_eq!(e.code.ordinal(), 2);
    assert_eq!(e.message, "boom");
    let ok = populate_status(&Status::Success);
    assert_eq!(ok.code, wire::StatusCode::Success);
    assert_eq!(ok.message, "");
    let unset = populate_status(&Status::Unset);
    assert_eq!(unset.code, wire::StatusCode::Unset);
    assert_eq!(unset.message, "");
    assert_eq!(status_code(&Status::Success), wire::StatusCode::Success);
}

#[test]
fn span_kinds_map_to_schema_kinds() {
    let cases = [
        (SpanKind::Internal, wire::SpanKind::Internal, 1),
        (SpanKind::Server, wire::SpanKind::Server, 2),
        (SpanKind::Client, wire::SpanKind::Client, 3),
        (SpanKind::Producer, wire::SpanKind::Producer, 4),
        (SpanKind::Consumer, wire::SpanKind::Consumer, 5),
    ];
    for (kind, expected, ordinal) in cases {
        let mut span = minimal_span();
        span.kind = kind;
        let w = populate_span(span);
        assert_eq!(w.kind, expected);
        assert_eq!(w.kind.ordinal(), ordinal);
    }
    assert_eq!(wire::SpanKind::from(SpanKind::Client), wire::SpanKind::Client);
}

#[test]
fn full_span_keeps_every_field() {
    let mut span = minimal_span();
    span.parent_span_id = [9, 8, 7, 6, 5, 4, 3, 2];
    span.trace_state = "k=v".to_string();
    span.flags = span_flags(1, Some(true));
    span.kind = SpanKind::Server;
    span.end_time_unix_nano = TIME + 5;
    span.attributes = vec![kv("a", Value::Bool(false))];
    span.dropped_attributes_count = 2;
    span.events = vec![Event {
        time_unix_nano: TIME + 1,
        name: "ev".to_string(),
        attributes: vec![kv("e", Value::I64(3))],
        dropped_attributes_count: 4,
    }];
    span.dropped_events_count = 6;
    span.links = vec![Link {
        trace_id: [7; 16],
        span_id: [8; 8],
        trace_state: "l=1".to_string(),
        attributes: Vec::new(),
        flags: span_flags(1, Some(false)),
        dropped_attributes_count: 1,
    }];
    span.dropped_links_count = 7;
    span.status = Status::Error { description: "bad".to_string() };
    let w = populate_span(span);
    assert_eq!(w.parent_span_id, vec![9, 8, 7, 6, 5, 4, 3, 2]);
    assert_eq!(w.trace_state, "k=v");
    assert_eq!(w.flags, 0x301);
    assert_eq!(w.end_time_unix_nano, TIME + 5);
    assert_eq!(w.attributes[0].key, "a");
    assert_eq!(w.dropped_attributes_count, 2);
    assert_eq!(w.events.len(), 1);
    assert_eq!(w.events[0].time_unix_nano, TIME + 1);
    assert_eq!(w.events[0].name, "ev");
    assert_eq!(w.events[0].attributes[0].value, wire::AnyValue::IntValue(3));
    assert_eq!(w.events[0].dropped_attributes_count, 4);
    assert_eq!(w.dropped_events_count, 6);
    assert_eq!(w.links[0].trace_id, vec![7u8; 16]);
    assert_eq!(w.links[0].span_id, vec![8u8; 8]);
    assert_eq!(w.links[0].trace_state, "l=1");
    assert_eq!(w.links[0].flags, 0x101);
    assert_eq!(w.links[0].dropped_attributes_count, 1);
    assert_eq!(w.dropped_links_count, 7);
    assert_eq!(w.status.code, wire::StatusCode::Error);
    assert_eq!(w.status.message, "bad");
}

#[test]
fn span_flags_layout() {
    assert_eq!(span_flags(0x01, Some(false)), 0x101);
    assert_eq!(span_flags(0x01, Some(true)), 0x301);
    assert_eq!(span_flags(0xff, None), 0xff);
    assert_eq!(span_flags(0x00, None), 0);
}

#[test]
fn minimal_population_writes_only_identity_and_times() {
    let mut span = minimal_span();
    span.attributes = vec![kv("dropped", Value::Bool(true))];
    span.kind = SpanKind::Consumer;
    span.status = Status::Error { description: "ignored".to_string() };
    let w = populate_span_minimal(span);
    assert_eq!(w.trace_id, TRACE_ID.to_vec());
    assert_eq!(w.span_id, SPAN_ID.to_vec());
    assert_eq!(w.name, "benchmark-span");
    assert_eq!(w.kind, wire::SpanKind::Internal);
    assert!(w.attributes.is_empty());
    assert_eq!(w.status.code, wire::StatusCode::Unset);
    assert_eq!(w.status.message, "");
}
