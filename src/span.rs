//! The span exporter and its typestate builder:
//! `SpanExporter::builder().with_capnp().with_endpoint(..).build(..)`.
use vstd::prelude::*;

use crate::client::{CapnpTracesClient, ExportError, WorkerQueues};
use crate::config::{
    chosen_endpoint, CapnpConfig, CapnpExporterBuilder, ExportConfig,
    ExporterBuildError, HasCapnpConfig, HasExportConfig,
};
use crate::model::{attributes_view, option_view, Resource, SpanRecord};
use crate::config::chosen_timeout_ms;
use crate::retry::{policy_or_default, RetryPolicy};

verus! {

/// Type to hold the [CapnpExporterBuilder] and indicate it has been set.
#[derive(Debug)]
pub struct CapnpExporterBuilderSet(pub(crate) CapnpExporterBuilder);

/// Type to indicate the builder does not have a client set.
#[derive(Debug, Clone, Copy, PartialEq, Eq, Structural)]
pub struct NoExporterBuilderSet;

/// Cap'n Proto exporter builder.
#[derive(Debug)]
pub struct SpanExporterBuilder<C> {
    client: C,
}

/// What the environment says of the exporter: the values of the endpoint
/// and timeout variables that are set (timeouts in milliseconds).
#[derive(Debug, Clone, PartialEq)]
pub struct ExporterEnvironment {
    pub traces_endpoint: Option<String>,
    pub endpoint: Option<String>,
    pub traces_timeout_ms: Option<u64>,
    pub timeout_ms: Option<u64>,
}

/// What the worker thread needs: where to connect, how long one export call
/// may take, how to retry, and the queues it drains.
pub struct ExportWorker {
    pub endpoint: String,
    pub call_timeout_ms: u64,
    pub retry_policy: RetryPolicy,
    pub queues: WorkerQueues,
}

impl<C> SpanExporterBuilder<C> {
    /// The transport slot of the builder.
    pub closed spec fn spec_client(&self) -> C {
        self.client
    }
}

/// `exporter` and `worker` are what building from `config`, `policy` and
/// `env` yields: a live exporter with an empty resource, feeding queues of
/// bound 32 and 256, and a worker that connects to the chosen endpoint with
/// the chosen per-call timeout and the set retry policy, else the default one.
pub open spec fn built_from(
    exporter: SpanExporter,
    worker: ExportWorker,
    config: ExportConfig,
    policy: Option<RetryPolicy>,
    env: ExporterEnvironment,
) -> bool {
    &&& !exporter.is_shut_down()
    &&& exporter.queues_bounded()
    &&& exporter.resource_view().attributes@.len() == 0
    &&& exporter.resource_view().schema_url is None
    &&& exporter.resource_view().dropped_attributes_count == 0
    &&& exporter.policy() == worker.retry_policy
    &&& worker.retry_policy == policy_or_default(policy)
    &&& worker.endpoint@ == chosen_endpoint(
        option_view(config.endpoint),
        option_view(env.traces_endpoint),
        option_view(env.endpoint),
    )
    &&& worker.call_timeout_ms == chosen_timeout_ms(
        match config.timeout {
            Some(d) => Some(saturated_millis(d)),
            None => None,
        },
        env.traces_timeout_ms,
        env.timeout_ms,
    )
}

impl SpanExporterBuilder<NoExporterBuilderSet> {
    /// Create a new [SpanExporterBuilder] with default settings.
    pub fn new() -> (r: Self)
        ensures
            r.spec_client() == NoExporterBuilderSet,
    {
        SpanExporterBuilder { client: NoExporterBuilderSet }
    }

    /// With the Cap'n Proto transport.
    pub fn with_capnp(self) -> (r: SpanExporterBuilder<CapnpExporterBuilderSet>)
        ensures
            r.spec_capnp_config().spec_retry_policy() is None,
            r.spec_export_config().endpoint is None,
            r.spec_export_config().protocol == crate::Protocol::Capnp,
            r.spec_export_config().timeout is None,
    {
        SpanExporterBuilder { client: CapnpExporterBuilderSet(CapnpExporterBuilder::default()) }
    }
}

impl HasExportConfig for SpanExporterBuilder<CapnpExporterBuilderSet> {
    closed spec fn spec_export_config(&self) -> ExportConfig {
        self.client.0.spec_export_config()
    }

    fn export_config(&mut self) -> (r: &mut ExportConfig) {
        self.client.0.export_config()
    }
}

impl HasCapnpConfig for SpanExporterBuilder<CapnpExporterBuilderSet> {
    closed spec fn spec_capnp_config(&self) -> CapnpConfig {
        self.client.0.spec_capnp_config()
    }

    fn capnp_config(&mut self) -> (r: &mut CapnpConfig) {
        self.client.0.capnp_config()
    }
}

/// The whole milliseconds of a duration.
pub uninterp spec fn millis_of(d: std::time::Duration) -> u128;

/// Relies on `std::time::Duration::as_millis`: the whole milliseconds of the
/// duration, which depend on the duration alone.
#[verifier::external_body]
fn duration_millis(d: std::time::Duration) -> (r: u128)
    ensures
        r == millis_of(d),
{
    d.as_millis()
}

/// The milliseconds of a duration, saturated at `u64::MAX`.
pub open spec fn saturated_millis(d: std::time::Duration) -> u64 {
    if millis_of(d) > u64::MAX as u128 {
        u64::MAX
    } else {
        millis_of(d) as u64
    }
}

/// The whole milliseconds of `d`, or `u64::MAX` when there are more.
pub fn timeout_millis(d: std::time::Duration) -> (r: u64)
    ensures
        r == saturated_millis(d),
{
    let ms = duration_millis(d);
    if ms > u64::MAX as u128 {
        u64::MAX
    } else {
        ms as u64
    }
}

impl SpanExporterBuilder<CapnpExporterBuilderSet> {
    /// Set the retry policy of export calls.
    pub fn with_retry_policy(self, policy: RetryPolicy) -> (r: Self)
        ensures
            r.spec_capnp_config().spec_retry_policy() == Some(policy),
            r.spec_export_config() == self.spec_export_config(),
    {
        let mut builder = self;
        builder.client.0.set_retry_policy(policy);
        builder
    }

    /// Build the [SpanExporter] with the Cap'n Proto transport.
    pub fn build(self, env: ExporterEnvironment) -> (r: Result<
        (SpanExporter, ExportWorker),
        ExporterBuildError,
    >)
        ensures
            r is Ok,
            r matches Ok((exporter, worker)) ==> built_from(
                exporter,
                worker,
                self.spec_export_config(),
                self.spec_capnp_config().spec_retry_policy(),
                env,
            ),
    {
        let SpanExporterBuilder { client } = self;
        client.0.build_span_exporter(env)
    }
}

/// CAPNP exporter that sends tracing data.
///
/// Batches go over a bounded queue to a thread dedicated to the Cap'n Proto
/// RPC client, which cannot leave the thread it was made on.
pub struct SpanExporter {
    client: SupportedTransportClient,
}

enum SupportedTransportClient {
    Capnp(CapnpTracesClient),
}

impl SpanExporter {
    pub closed spec fn is_shut_down(&self) -> bool {
        match self.client {
            SupportedTransportClient::Capnp(c) => c.is_shut_down(),
        }
    }

    /// The resource stamped on batches exported from now on.
    pub closed spec fn resource_view(&self) -> Resource {
        match self.client {
            SupportedTransportClient::Capnp(c) => c.resource_view(),
        }
    }

    pub closed spec fn policy(&self) -> RetryPolicy {
        match self.client {
            SupportedTransportClient::Capnp(c) => c.policy(),
        }
    }

    /// While live, the exporter feeds queues of bound 32 and 256.
    pub closed spec fn queues_bounded(&self) -> bool {
        match self.client {
            SupportedTransportClient::Capnp(c) => c.queues_bounded(),
        }
    }

    /// Obtain a builder to configure a [SpanExporter].
    pub fn builder() -> (r: SpanExporterBuilder<NoExporterBuilderSet>)
        ensures
            r.spec_client() == NoExporterBuilderSet,
    {
        SpanExporterBuilder::new()
    }

    pub(crate) fn from_capnp(client: CapnpTracesClient) -> (r: Self)
        ensures
            r.is_shut_down() == client.is_shut_down(),
            r.resource_view() == client.resource_view(),
            r.policy() == client.policy(),
            r.queues_bounded() == client.queues_bounded(),
    {
        SpanExporter { client: SupportedTransportClient::Capnp(client) }
    }

    /// Offers the batch to the export queue without waiting: `Ok` means it was
    /// queued, not delivered.
    pub fn export(&self, batch: Vec<SpanRecord>) -> (r: Result<(), ExportError>)
        ensures
            self.is_shut_down() ==> r == Err::<(), ExportError>(ExportError::AlreadyShutdown),
            !self.is_shut_down() ==> r == Ok::<(), ExportError>(()) || r == Err::<(), ExportError>(
                ExportError::Backpressure,
            ) || r == Err::<(), ExportError>(ExportError::InternalFailure),
    {
        match &self.client {
            SupportedTransportClient::Capnp(client) => client.export(batch),
        }
    }

    /// Installs the resource stamped on batches exported from now on.
    pub fn set_resource(&mut self, resource: &Resource)
        ensures
            final(self).is_shut_down() == old(self).is_shut_down(),
            final(self).policy() == old(self).policy(),
            old(self).queues_bounded() ==> final(self).queues_bounded(),
            attributes_view(final(self).resource_view().attributes@) == attributes_view(
                resource.attributes@,
            ),
            option_view(final(self).resource_view().schema_url) == option_view(resource.schema_url),
            final(self).resource_view().dropped_attributes_count == resource.dropped_attributes_count,
    {
        match &mut self.client {
            SupportedTransportClient::Capnp(client) => client.set_resource(resource),
        }
    }

    /// Hands the worker its shutdown sentinel on the first call, which
    /// succeeds; later calls fail with `AlreadyShutdown`.
    pub fn shutdown(&mut self) -> (r: Result<(), ExportError>)
        ensures
            (r, final(self).is_shut_down()) == crate::client::shutdown_step(
                old(self).is_shut_down(),
            ),
            final(self).policy() == old(self).policy(),
            final(self).resource_view() == old(self).resource_view(),
            final(self).queues_bounded(),
    {
        match &mut self.client {
            SupportedTransportClient::Capnp(client) => client.shutdown(),
        }
    }
}

} // verus!
