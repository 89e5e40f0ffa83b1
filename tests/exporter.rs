use opentelemetry_otlp_capnp::client::{
    admission_result, envelope, CapnpTracesClient, ExportError,
    SPAN_EXPORTER_MPSC_CHANNEL_BUFFER_SIZE,
};
use opentelemetry_otlp_capnp::config::{ExportConfig, WithExportConfig};
use opentelemetry_otlp_capnp::fake::FakeCapnp;
use opentelemetry_otlp_capnp::model::{KeyValue, Resource, Value};
use opentelemetry_otlp_capnp::queue::Offer;
use opentelemetry_otlp_capnp::retry::RetryPolicy;
use opentelemetry_otlp_capnp::span::{timeout_millis, ExporterEnvironment, SpanExporter};
use opentelemetry_otlp_capnp::worker::{worker_step, WorkerAction, WorkerEvent, WorkerPhase};
use opentelemetry_otlp_capnp::Protocol;
use std::time::Duration;

fn no_env() -> ExporterEnvironment {
    ExporterEnvironment { traces_endpoint: None, endpoint: None, traces_timeout_ms: None, timeout_ms: None }
}

fn batch() -> Vec<opentelemetry_otlp_capnp::model::SpanRecord> {
    FakeCapnp::trace_service_request_with_spans(2).batch
}

#[test]
fn backpressure_when_queue_is_full() {
    let (exporter, worker) = SpanExporter::builder().with_capnp().build(no_env()).unwrap();
    for _ in 0..SPAN_EXPORTER_MPSC_CHANNEL_BUFFER_SIZE {
        assert_eq!(exporter.export(batch()), Ok(()));
    }
    assert_eq!(exporter.export(batch()), Err(ExportError::Backpressure));
    drop(worker);
}

#[test]
fn export_fails_once_worker_is_gone() {
    let (exporter, worker) = SpanExporter::builder().with_capnp().build(no_env()).unwrap();
    drop(worker);
    assert_eq!(exporter.export(batch()), Err(ExportError::InternalFailure));
}

#[test]
fn shutdown_is_idempotent() {
    let (mut exporter, _worker) = SpanExporter::builder().with_capnp().build(no_env()).unwrap();
    assert_eq!(exporter.shutdown(), Ok(()));
    assert_eq!(exporter.shutdown(), Err(ExportError::AlreadyShutdown));
    assert_eq!(exporter.shutdown(), Err(ExportError::AlreadyShutdown));
    assert_eq!(exporter.export(batch()), Err(ExportError::AlreadyShutdown));
}

#[test]
fn shutdown_drains_submitted_batches() {
    let (mut exporter, worker) = SpanExporter::builder().with_capnp().build(no_env()).unwrap();
    for _ in 0..10 {
        assert_eq!(exporter.export(batch()), Ok(()));
    }
    assert_eq!(exporter.shutdown(), Ok(()));
    let mut queues = worker.queues;
    // The worker sees the sentinel, closes the export queue and drains it.
    assert!(queues.rx_shutdown.try_recv().is_ok());
    let (mut phase, action) = worker_step(WorkerPhase::Running, WorkerEvent::ShutdownReceived);
    assert_eq!(action, WorkerAction::CloseAndDrain);
    queues.rx_export.close();
    let mut exported = 0;
    loop {
        let event = match queues.rx_export.try_recv() {
            Ok(request) => {
                assert_eq!(request.batch.len(), 2);
                WorkerEvent::BatchReceived
            }
            Err(_) => WorkerEvent::DrainEmpty,
        };
        let (next, action) = worker_step(phase, event);
        phase = next;
        match action {
            WorkerAction::ExportBatch => exported += 1,
            WorkerAction::Exit => break,
            _ => {}
        }
    }
    assert_eq!(exported, 10);
    assert_eq!(phase, WorkerPhase::Stopped);
}

#[test]
fn worker_steps() {
    assert_eq!(
        worker_step(WorkerPhase::Running, WorkerEvent::BatchReceived),
        (WorkerPhase::Running, WorkerAction::ExportBatch)
    );
    assert_eq!(
        worker_step(WorkerPhase::Running, WorkerEvent::QueuesClosed),
        (WorkerPhase::Stopped, WorkerAction::Exit)
    );
    assert_eq!(
        worker_step(WorkerPhase::Draining, WorkerEvent::ShutdownReceived),
        (WorkerPhase::Draining, WorkerAction::ContinueDrain)
    );
    assert_eq!(
        worker_step(WorkerPhase::Stopped, WorkerEvent::BatchReceived),
        (WorkerPhase::Stopped, WorkerAction::Exit)
    );
}

#[test]
fn batches_carry_the_resource_installed_last() {
    let (mut exporter, worker) = SpanExporter::builder().with_capnp().build(no_env()).unwrap();
    let resource = Resource {
        attributes: vec![KeyValue { key: "service.name".to_string(), value: Value::String("svc".to_string()) }],
        schema_url: None,
        dropped_attributes_count: 1,
    };
    assert_eq!(exporter.export(batch()), Ok(()));
    exporter.set_resource(&resource);
    assert_eq!(exporter.export(batch()), Ok(()));
    let mut queues = worker.queues;
    let first = queues.rx_export.try_recv().unwrap();
    assert!(first.resource.attributes.is_empty());
    let second = queues.rx_export.try_recv().unwrap();
    assert_eq!(second.resource, resource);
}

#[test]
fn admission_results() {
    assert_eq!(admission_result(Offer::Accepted), Ok(()));
    assert_eq!(admission_result(Offer::Full), Err(ExportError::Backpressure));
    assert_eq!(admission_result(Offer::Closed), Err(ExportError::InternalFailure));
    let resource = Resource { attributes: Vec::new(), schema_url: Some("u".to_string()), dropped_attributes_count: 0 };
    let request = envelope(batch(), &resource);
    assert_eq!(request.batch.len(), 2);
    assert_eq!(request.resource, resource);
}

#[test]
fn client_uses_default_retry_policy() {
    let (client, _queues) = CapnpTracesClient::new(None);
    assert_eq!(*client.retry_policy(), RetryPolicy { max_retries: 3, initial_delay_ms: 100, max_delay_ms: 1600, jitter_ms: 100 });
    let custom = RetryPolicy { max_retries: 1, initial_delay_ms: 5, max_delay_ms: 50, jitter_ms: 0 };
    let (client, _queues) = CapnpTracesClient::new(Some(custom));
    assert_eq!(*client.retry_policy(), custom);
}

#[test]
fn builder_settings_reach_the_worker() {
    let policy = RetryPolicy { max_retries: 5, initial_delay_ms: 10, max_delay_ms: 80, jitter_ms: 3 };
    let (_exporter, worker) = SpanExporter::builder()
        .with_capnp()
        .with_endpoint("10.0.0.1:9000")
        .with_timeout(Duration::from_millis(2500))
        .with_protocol(Protocol::Capnp)
        .with_retry_policy(policy)
        .build(no_env())
        .unwrap();
    assert_eq!(worker.endpoint, "10.0.0.1:9000");
    assert_eq!(worker.call_timeout_ms, 2500);
    assert_eq!(worker.retry_policy, policy);
}

#[test]
fn environment_fills_what_the_builder_leaves_unset() {
    let env = ExporterEnvironment {
        traces_endpoint: Some("traces:1".to_string()),
        endpoint: Some("common:2".to_string()),
        traces_timeout_ms: None,
        timeout_ms: Some(700),
    };
    let (_exporter, worker) = SpanExporter::builder().with_capnp().build(env).unwrap();
    assert_eq!(worker.endpoint, "traces:1");
    assert_eq!(worker.call_timeout_ms, 700);
    let (_exporter, worker) = SpanExporter::builder().with_capnp().build(no_env()).unwrap();
    assert_eq!(worker.endpoint, "127.0.0.1:4317");
    assert_eq!(worker.call_timeout_ms, 10_000);
    assert_eq!(worker.retry_policy, RetryPolicy::default());
}

#[test]
fn export_config_replaces_everything() {
    let config = ExportConfig {
        endpoint: Some("h:1".to_string()),
        protocol: Protocol::Capnp,
        timeout: Some(Duration::from_secs(3)),
    };
    let (_exporter, worker) =
        SpanExporter::builder().with_capnp().with_export_config(config).build(no_env()).unwrap();
    assert_eq!(worker.endpoint, "h:1");
    assert_eq!(worker.call_timeout_ms, 3000);
}

#[test]
fn timeouts_are_whole_milliseconds() {
    assert_eq!(timeout_millis(Duration::from_millis(2500)), 2500);
    assert_eq!(timeout_millis(Duration::from_micros(1999)), 1);
    assert_eq!(timeout_millis(Duration::MAX), u64::MAX);
}
