use opentelemetry_otlp_capnp::batch::{group_spans_by_resource_and_scope, ScopeSpans, SpanRequest};
use opentelemetry_otlp_capnp::fake::FakeCapnp;
use opentelemetry_otlp_capnp::model::{InstrumentationScope, KeyValue, Resource, SpanRecord, Value};
use opentelemetry_otlp_capnp::request::build_export_request;
use opentelemetry_otlp_capnp::transform::{populate_resource, populate_scope_spans};
use opentelemetry_otlp_capnp::wire;

fn scope(name: &str, version: Option<&str>) -> InstrumentationScope {
    InstrumentationScope {
        name: name.to_string(),
        version: version.map(|v| v.to_string()),
        schema_url: Some(format!("https://{}", name)),
        attributes: vec![KeyValue { key: "lib".to_string(), value: Value::String(name.to_string()) }],
    }
}

fn span_with(id: u8, s: InstrumentationScope) -> SpanRecord {
    let mut span = FakeCapnp::trace_service_request_with_spans(1).batch.remove(0);
    span.span_id = [id; 8];
    span.instrumentation_scope = s;
    span
}

fn resource() -> Resource {
    Resource {
        attributes: vec![KeyValue {
            key: "service.name".to_string(),
            value: Value::String("svc".to_string()),
        }],
        schema_url: Some("https://schema".to_string()),
        dropped_attributes_count: 3,
    }
}

#[test]
fn scope_grouping_splits_by_scope() {
    let a = scope("a", Some("1"));
    let b = scope("b", None);
    let batch = vec![span_with(1, a.clone()), span_with(2, b.clone()), span_with(3, a.clone())];
    let grouped = group_spans_by_resource_and_scope(SpanRequest { batch, resource: resource() });
    assert_eq!(grouped.len(), 1);
    let groups = &grouped[0].scope_spans;
    assert_eq!(groups.len(), 2);
    assert_eq!(groups[0].get_scope(), Some(&a));
    assert_eq!(groups[0].len(), 2);
    assert_eq!(groups[0].spans[0].span_id, [1; 8]);
    assert_eq!(groups[0].spans[1].span_id, [3; 8]);
    assert_eq!(groups[0].schema_url, "https://a");
    assert_eq!(groups[1].get_scope(), Some(&b));
    assert_eq!(groups[1].len(), 1);
    assert!(!groups[1].is_empty());
    assert_eq!(grouped[0].schema_url, "https://schema");
    assert_eq!(grouped[0].resource, resource());
}

#[test]
fn scopes_differing_only_in_version_are_distinct() {
    let batch = vec![span_with(1, scope("a", Some("1"))), span_with(2, scope("a", Some("2")))];
    let grouped = group_spans_by_resource_and_scope(SpanRequest { batch, resource: resource() });
    assert_eq!(grouped[0].scope_spans.len(), 2);
}

#[test]
fn empty_batch_has_no_groups() {
    let grouped =
        group_spans_by_resource_and_scope(SpanRequest { batch: Vec::new(), resource: resource() });
    assert_eq!(grouped.len(), 1);
    assert!(grouped[0].scope_spans.is_empty());
}

#[test]
fn export_request_keeps_ids_and_counts() {
    let a = scope("a", Some("1"));
    let b = scope("b", None);
    let batch = vec![span_with(1, a.clone()), span_with(2, b), span_with(3, a)];
    let request = build_export_request(SpanRequest { batch, resource: resource() });
    assert_eq!(request.resource_spans.len(), 1);
    let rs = &request.resource_spans[0];
    assert_eq!(rs.schema_url, "https://schema");
    assert_eq!(rs.resource.dropped_attributes_count, 3);
    assert_eq!(rs.resource.attributes[0].key, "service.name");
    let total: usize = rs.scope_spans.iter().map(|g| g.spans.len()).sum();
    assert_eq!(total, 3);
    assert_eq!(rs.scope_spans[0].scope.name, "a");
    assert_eq!(rs.scope_spans[0].scope.version, "1");
    assert_eq!(rs.scope_spans[0].scope.dropped_attributes_count, 0);
    assert_eq!(rs.scope_spans[1].scope.version, "");
    let mut ids: Vec<Vec<u8>> =
        rs.scope_spans.iter().flat_map(|g| g.spans.iter().map(|s| s.span_id.clone())).collect();
    ids.sort();
    assert_eq!(ids, vec![vec![1u8; 8], vec![2u8; 8], vec![3u8; 8]]);
    for g in &rs.scope_spans {
        for s in &g.spans {
            assert_eq!(
                s.trace_id,
                vec![0x01, 0x23, 0x45, 0x67, 0x89, 0xab, 0xcd, 0xef, 0x01, 0x23, 0x45, 0x67, 0x89, 0xab, 0xcd, 0xef]
            );
        }
    }
}

#[test]
fn group_without_scope_writes_empty_scope() {
    let group = ScopeSpans { scope: None, spans: Vec::new(), schema_url: String::new() };
    assert!(group.get_scope().is_none());
    let w = populate_scope_spans(group);
    assert_eq!(w.scope.name, "");
    assert_eq!(w.scope.version, "");
    assert!(w.scope.attributes.is_empty());
    assert!(w.spans.is_empty());
}

#[test]
fn resource_keeps_dropped_count() {
    let w: wire::Resource = populate_resource(&resource());
    assert_eq!(w.dropped_attributes_count, 3);
    assert_eq!(w.attributes.len(), 1);
}

#[test]
fn fake_batches_have_the_requested_size() {
    let request = FakeCapnp::trace_service_request_with_spans(4);
    assert_eq!(request.batch.len(), 4);
    assert!(request.resource.attributes.is_empty());
    let span = &request.batch[0];
    assert_eq!(span.name, "benchmark-span");
    assert_eq!(span.flags, 0x101);
    assert_eq!(span.instrumentation_scope.version.as_deref(), Some("1.0"));
    assert_eq!(span.instrumentation_scope.schema_url.as_deref(), Some("www.myapp"));
    assert_eq!(span.dropped_attributes_count + span.dropped_events_count + span.dropped_links_count, 0);
    assert!(FakeCapnp::trace_service_request_with_spans(0).batch.is_empty());
}

#[test]
fn scope_equality_covers_every_field() {
    let a = scope("a", Some("1"));
    assert!(a == a.duplicate());
    let mut other = a.clone();
    other.schema_url = None;
    assert!(a != other);
    let mut other = a.clone();
    other.attributes[0].value = Value::String("z".to_string());
    assert!(a != other);
}
