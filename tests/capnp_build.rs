use opentelemetry_otlp_capnp::wire;

#[test]
fn verify_capnp_schemas_compile() {
    // The schema's span, service request, resource and key-value types are
    // all reachable.
    let _span: Option<wire::Span> = None;
    let _service: Option<wire::ExportTraceServiceRequest> = None;
    let _resource: Option<wire::Resource> = None;
    let _common: Option<wire::KeyValue> = None;
}
