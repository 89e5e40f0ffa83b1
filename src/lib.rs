//! Trace exporter and receiver over a capability-based RPC transport: span
//! records are grouped by instrumentation scope, encoded into the trace wire
//! schema, queued for a dedicated worker and acknowledged by the receiver
//! with a partial-success reply.
pub mod batch;
pub mod client;
pub mod config;
pub mod decode;
pub mod fake;
pub mod model;
pub mod queue;
pub mod receiver;
pub mod request;
pub mod retry;
pub mod span;
pub mod transform;
pub mod wire;
pub mod worker;

pub use crate::config::{
    CapnpConfig, CapnpExporterBuilder, ExportConfig, ExporterBuildError, HasCapnpConfig,
    HasExportConfig, WithExportConfig, OTEL_EXPORTER_CAPNP_ENDPOINT,
    OTEL_EXPORTER_CAPNP_ENDPOINT_DEFAULT, OTEL_EXPORTER_CAPNP_PROTOCOL,
    OTEL_EXPORTER_CAPNP_PROTOCOL_DEFAULT, OTEL_EXPORTER_CAPNP_TIMEOUT,
    OTEL_EXPORTER_CAPNP_TIMEOUT_DEFAULT, OTEL_EXPORTER_CAPNP_TRACES_ENDPOINT,
    OTEL_EXPORTER_CAPNP_TRACES_TIMEOUT,
};
pub use crate::span::{
    CapnpExporterBuilderSet, NoExporterBuilderSet, SpanExporter, SpanExporterBuilder,
};

use vstd::prelude::*;

verus! {

/// The sentinel that tells the worker to drain its queue and stop.
#[derive(Clone, Copy, Debug, PartialEq, Eq, Structural)]
pub struct ShutDown;

/// The communication protocol to use when exporting data.
#[derive(Clone, Copy, Debug, PartialEq, Eq, Structural)]
pub enum Protocol {
    /// Capnp protocol
    Capnp,
}

} // verus!
