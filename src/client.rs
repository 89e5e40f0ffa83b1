//! The producer-side facade of the exporter: it admits batches into the
//! bounded export queue without waiting, stamps each with the resource
//! installed last, and hands the worker one shutdown sentinel.
use vstd::prelude::*;

use crate::batch::SpanRequest;
use crate::model::{attributes_view, option_view, Resource, SpanRecord};
use crate::queue::{export_bound, export_queue, offer, shutdown_bound, shutdown_queue, Offer};
use crate::retry::{policy_or_default, RetryPolicy};
use crate::ShutDown;

verus! {

/// How long the worker keeps trying to connect, in milliseconds.
pub const SPAN_EXPORTER_TIMEOUT: u64 = 30_000;

/// Bound of the export queue, counted in batches. With batches of 512 spans
/// of about 2 KB, a full queue holds about 32 MB.
pub const SPAN_EXPORTER_MPSC_CHANNEL_BUFFER_SIZE: usize = 32;

/// Bound of the shutdown queue.
pub const SPAN_EXPORTER_SHUTDOWN_CHANNEL_BUFFER_SIZE: usize = 256;

/// Per-call timeout of an export call, in seconds.
pub const CAPNP_EXPORTER_RPC_TRACES_TIMEOUT: u64 = 10;

/// Errors that `export` and `shutdown` report to the producer.
#[derive(Clone, Copy, Debug, PartialEq, Eq, Structural)]
pub enum ExportError {
    /// The exporter was shut down.
    AlreadyShutdown,
    /// The export queue is full; the batch was dropped.
    Backpressure,
    /// The worker no longer receives batches; the batch was dropped.
    InternalFailure,
}

/// The producer's result for a batch offered to the export queue.
pub open spec fn admission(outcome: Offer) -> Result<(), ExportError> {
    match outcome {
        Offer::Accepted => Ok(()),
        Offer::Full => Err(ExportError::Backpressure),
        Offer::Closed => Err(ExportError::InternalFailure),
    }
}

/// The producer's result for a batch offered to the export queue: accepted,
/// refused for lack of room, or refused because the worker is gone.
pub fn admission_result(outcome: Offer) -> (r: Result<(), ExportError>)
    ensures
        r == admission(outcome),
{
    match outcome {
        Offer::Accepted => Ok(()),
        Offer::Full => Err(ExportError::Backpressure),
        Offer::Closed => Err(ExportError::InternalFailure),
    }
}

/// The envelope of a batch: the batch itself and a copy of the resource
/// installed when it was admitted.
pub fn envelope(batch: Vec<SpanRecord>, resource: &Resource) -> (r: SpanRequest)
    ensures
        r.batch == batch,
        attributes_view(r.resource.attributes@) == attributes_view(resource.attributes@),
        option_view(r.resource.schema_url) == option_view(resource.schema_url),
        r.resource.dropped_attributes_count == resource.dropped_attributes_count,
{
    SpanRequest { batch, resource: resource.duplicate() }
}

/// The sending halves of the two queues to the worker.
pub struct CapnpMessageClient {
    tx_export: tokio::sync::mpsc::Sender<SpanRequest>,
    tx_shutdown: tokio::sync::mpsc::Sender<ShutDown>,
}

/// The receiving halves of the two queues, owned by the worker.
pub struct WorkerQueues {
    pub rx_export: tokio::sync::mpsc::Receiver<SpanRequest>,
    pub rx_shutdown: tokio::sync::mpsc::Receiver<ShutDown>,
}

impl CapnpMessageClient {
    /// The bound of the export queue this client feeds.
    pub closed spec fn export_capacity(&self) -> usize {
        export_bound(self.tx_export)
    }

    /// The bound of the shutdown queue this client feeds.
    pub closed spec fn shutdown_capacity(&self) -> usize {
        shutdown_bound(self.tx_shutdown)
    }

    /// Opens the export queue (bound 32) and the shutdown queue (bound 256).
    pub fn new() -> (r: (CapnpMessageClient, WorkerQueues))
        ensures
            r.0.export_capacity() == SPAN_EXPORTER_MPSC_CHANNEL_BUFFER_SIZE,
            r.0.shutdown_capacity() == SPAN_EXPORTER_SHUTDOWN_CHANNEL_BUFFER_SIZE,
    {
        let (tx_export, rx_export) = export_queue(SPAN_EXPORTER_MPSC_CHANNEL_BUFFER_SIZE);
        let (tx_shutdown, rx_shutdown) = shutdown_queue(SPAN_EXPORTER_SHUTDOWN_CHANNEL_BUFFER_SIZE);
        (CapnpMessageClient { tx_export, tx_shutdown }, WorkerQueues { rx_export, rx_shutdown })
    }
}

struct ClientInner {
    client: CapnpMessageClient,
}

/// The result of `shutdown` on an exporter, and whether it is shut down
/// afterwards, given whether it was before.
pub open spec fn shutdown_step(was_shut_down: bool) -> (Result<(), ExportError>, bool) {
    if was_shut_down {
        (Err(ExportError::AlreadyShutdown), true)
    } else {
        (Ok(()), true)
    }
}

/// The results of `n` successive calls of `shutdown`.
pub open spec fn shutdown_results(was_shut_down: bool, n: nat) -> Seq<Result<(), ExportError>>
    decreases n,
{
    if n == 0 {
        Seq::empty()
    } else {
        let (r, now) = shutdown_step(was_shut_down);
        seq![r] + shutdown_results(now, (n - 1) as nat)
    }
}

/// Shutdown is idempotent: on a live exporter the first call succeeds and
/// every later call reports that the exporter is already shut down.
pub proof fn lemma_shutdown_idempotent(n: nat)
    requires
        n >= 1,
    ensures
        shutdown_results(false, n).len() == n,
        shutdown_results(false, n)[0] == Ok::<(), ExportError>(()),
        forall|i: int|
            1 <= i < n ==> shutdown_results(false, n)[i] == Err::<(), ExportError>(
                ExportError::AlreadyShutdown,
            ),
{
    lemma_shut_down_stays((n - 1) as nat);
    assert(shutdown_results(false, n) =~= seq![Ok::<(), ExportError>(())] + shutdown_results(
        true,
        (n - 1) as nat,
    ));
}

proof fn lemma_shut_down_stays(n: nat)
    ensures
        shutdown_results(true, n).len() == n,
        forall|i: int|
            0 <= i < n ==> shutdown_results(true, n)[i] == Err::<(), ExportError>(
                ExportError::AlreadyShutdown,
            ),
    decreases n,
{
    if n > 0 {
        lemma_shut_down_stays((n - 1) as nat);
    }
}

/// The exporter facade. It may be used from any producer thread; it never
/// touches the RPC client, which lives on the worker.
pub struct CapnpTracesClient {
    inner: Option<ClientInner>,
    retry_policy: RetryPolicy,
    resource: Resource,
}

impl CapnpTracesClient {
    pub closed spec fn is_shut_down(&self) -> bool {
        self.inner is None
    }

    pub closed spec fn resource_view(&self) -> Resource {
        self.resource
    }

    pub closed spec fn policy(&self) -> RetryPolicy {
        self.retry_policy
    }

    /// While live, the exporter feeds an export queue of bound 32 and a
    /// shutdown queue of bound 256.
    pub closed spec fn queues_bounded(&self) -> bool {
        match self.inner {
            Some(inner) => {
                &&& inner.client.export_capacity() == SPAN_EXPORTER_MPSC_CHANNEL_BUFFER_SIZE
                &&& inner.client.shutdown_capacity() == SPAN_EXPORTER_SHUTDOWN_CHANNEL_BUFFER_SIZE
            },
            None => true,
        }
    }

    /// A live exporter with an empty resource, the given retry policy (the
    /// default one when none is given), and the queues its worker reads.
    pub fn new(retry_policy: Option<RetryPolicy>) -> (r: (CapnpTracesClient, WorkerQueues))
        ensures
            !r.0.is_shut_down(),
            r.0.resource_view().attributes@.len() == 0,
            r.0.resource_view().schema_url is None,
            r.0.resource_view().dropped_attributes_count == 0,
            r.0.policy() == policy_or_default(retry_policy),
            r.0.queues_bounded(),
    {
        let (client, queues) = CapnpMessageClient::new();
        let policy = match retry_policy {
            Some(p) => p,
            None => RetryPolicy::default(),
        };
        let resource = Resource {
            attributes: Vec::new(),
            schema_url: None,
            dropped_attributes_count: 0,
        };
        (CapnpTracesClient { inner: Some(ClientInner { client }), retry_policy: policy, resource }, queues)
    }

    pub fn retry_policy(&self) -> (r: &RetryPolicy)
        ensures
            *r == self.policy(),
    {
        &self.retry_policy
    }

    /// Offers the batch, stamped with the current resource, to the export
    /// queue without waiting. After shutdown the batch is refused.
    pub fn export(&self, batch: Vec<SpanRecord>) -> (r: Result<(), ExportError>)
        ensures
            self.is_shut_down() ==> r == Err::<(), ExportError>(ExportError::AlreadyShutdown),
            !self.is_shut_down() ==> exists|o: Offer| r == admission(o),
    {
        match &self.inner {
            Some(inner) => {
                let request = envelope(batch, &self.resource);
                let outcome = offer(&inner.client.tx_export, request);
                admission_result(outcome)
            },
            None => Err(ExportError::AlreadyShutdown),
        }
    }

    /// Installs the resource stamped on batches admitted from now on.
    pub fn set_resource(&mut self, resource: &Resource)
        ensures
            final(self).is_shut_down() == old(self).is_shut_down(),
            final(self).policy() == old(self).policy(),
            old(self).queues_bounded() ==> final(self).queues_bounded(),
            attributes_view(final(self).resource_view().attributes@) == attributes_view(
                resource.attributes@,
            ),
            option_view(final(self).resource_view().schema_url) == option_view(resource.schema_url),
            final(self).resource_view().dropped_attributes_count == resource.dropped_attributes_count,
    {
        self.resource = resource.duplicate();
    }

    /// The first call hands the worker its shutdown sentinel, closes this
    /// side of both queues and succeeds; every later call fails.
    pub fn shutdown(&mut self) -> (r: Result<(), ExportError>)
        ensures
            (r, final(self).is_shut_down()) == shutdown_step(old(self).is_shut_down()),
            final(self).policy() == old(self).policy(),
            final(self).queues_bounded(),
            final(self).resource_view() == old(self).resource_view(),
    {
        match self.inner.take() {
            Some(inner) => {
                let _ = offer(&inner.client.tx_shutdown, ShutDown);
                Ok(())
            },
            None => Err(ExportError::AlreadyShutdown),
        }
    }
}

} // verus!
