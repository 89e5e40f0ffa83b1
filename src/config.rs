//! Exporter configuration: the endpoint, protocol and timeout, where each is
//! taken from (builder, then environment, then default), and the builder
//! traits that set them.
use vstd::prelude::*;

use crate::model::option_view;
use crate::retry::RetryPolicy;
use crate::span::{built_from, timeout_millis, ExportWorker, ExporterEnvironment, SpanExporter};
use crate::client::CapnpTracesClient;
use crate::Protocol;

verus! {

/// Environment variable for the collector endpoint of every signal.
pub const OTEL_EXPORTER_CAPNP_ENDPOINT: &'static str = "OTEL_EXPORTER_CAPNP_ENDPOINT";

/// The endpoint used when neither the builder nor the environment gives one.
pub const OTEL_EXPORTER_CAPNP_ENDPOINT_DEFAULT: &'static str = "127.0.0.1:4317";

/// Environment variable for the protocol.
pub const OTEL_EXPORTER_CAPNP_PROTOCOL: &'static str = "OTEL_EXPORTER_CAPNP_PROTOCOL";

/// The protocol used by default.
pub const OTEL_EXPORTER_CAPNP_PROTOCOL_DEFAULT: &'static str = "capnp";

/// Environment variable for the per-call timeout of every signal, in
/// milliseconds.
pub const OTEL_EXPORTER_CAPNP_TIMEOUT: &'static str = "OTEL_EXPORTER_CAPNP_TIMEOUT";

/// The per-call timeout used by default, in milliseconds.
pub const OTEL_EXPORTER_CAPNP_TIMEOUT_DEFAULT: u64 = 10_000;

/// Environment variable for the collector endpoint of spans; it takes
/// precedence over `OTEL_EXPORTER_CAPNP_ENDPOINT`.
pub const OTEL_EXPORTER_CAPNP_TRACES_ENDPOINT: &'static str = "OTEL_EXPORTER_CAPNP_TRACES_ENDPOINT";

/// Environment variable for the per-call timeout of span exports, in
/// milliseconds; it takes precedence over `OTEL_EXPORTER_CAPNP_TIMEOUT`.
pub const OTEL_EXPORTER_CAPNP_TRACES_TIMEOUT: &'static str = "OTEL_EXPORTER_CAPNP_TRACES_TIMEOUT";

/// Configuration for the CAPNP exporter.
#[derive(Debug)]
pub struct ExportConfig {
    /// The address of the CAPNP collector. When unset or empty, the
    /// environment or the default decides.
    pub endpoint: Option<String>,
    /// The protocol to use when communicating with the collector.
    pub protocol: Protocol,
    /// The per-call timeout. When unset, the environment or the default of 10
    /// seconds decides.
    pub timeout: Option<std::time::Duration>,
}

impl Default for ExportConfig {
    fn default() -> (r: ExportConfig)
        ensures
            r.endpoint is None,
            r.protocol == Protocol::Capnp,
            r.timeout is None,
    {
        ExportConfig { endpoint: None, protocol: default_protocol(), timeout: None }
    }
}

/// The protocol of a new configuration: Cap'n Proto, the only one there is.
pub fn default_protocol() -> (r: Protocol)
    ensures
        r == Protocol::Capnp,
{
    Protocol::Capnp
}

/// Errors that can occur while building an exporter.
#[derive(Debug, Clone, PartialEq)]
#[non_exhaustive]
pub enum ExporterBuildError {
    /// Spawning a new thread failed.
    ThreadSpawnFailed,
    /// No client specified.
    NoHttpClient,
    /// Unsupported compression algorithm.
    UnsupportedCompressionAlgorithm(String),
    /// The endpoint is not an address: the endpoint and the reason.
    InvalidUri(String, String),
    /// Failed due to an internal error, described for logging only.
    InternalFailure(String),
}

/// Provide access to the [ExportConfig] field within the exporter builders.
pub trait HasExportConfig {
    spec fn spec_export_config(&self) -> ExportConfig;

    /// Return a mutable reference to the [ExportConfig] within the exporter builders.
    fn export_config(&mut self) -> (r: &mut ExportConfig)
        ensures
            *r == old(self).spec_export_config(),
            final(self).spec_export_config() == *final(r),
    ;
}

/// Expose methods to override [ExportConfig]; every builder that has an
/// [ExportConfig] gets them.
pub trait WithExportConfig: Sized {
    spec fn spec_config(&self) -> ExportConfig;

    /// Set the address of the collector.
    fn with_endpoint<T: Into<String>>(self, endpoint: T) -> (r: Self)
        ensures
            r.spec_config().endpoint is Some,
            r.spec_config().protocol == self.spec_config().protocol,
            r.spec_config().timeout == self.spec_config().timeout,
    ;

    /// Set the protocol. Only one protocol exists, so this changes nothing of
    /// how spans are sent.
    fn with_protocol(self, protocol: Protocol) -> (r: Self)
        ensures
            r.spec_config().protocol == protocol,
            r.spec_config().endpoint == self.spec_config().endpoint,
            r.spec_config().timeout == self.spec_config().timeout,
    ;

    /// Set the per-call timeout.
    fn with_timeout(self, timeout: std::time::Duration) -> (r: Self)
        ensures
            r.spec_config().timeout == Some(timeout),
            r.spec_config().endpoint == self.spec_config().endpoint,
            r.spec_config().protocol == self.spec_config().protocol,
    ;

    /// Replace the whole configuration.
    fn with_export_config(self, export_config: ExportConfig) -> (r: Self)
        ensures
            r.spec_config() == export_config,
    ;
}

impl<B: HasExportConfig> WithExportConfig for B {
    open spec fn spec_config(&self) -> ExportConfig {
        self.spec_export_config()
    }

    fn with_endpoint<T: Into<String>>(self, endpoint: T) -> (r: Self) {
        let endpoint: String = endpoint.into();
        let mut builder = self;
        let config = builder.export_config();
        config.endpoint = Some(endpoint);
        builder
    }

    fn with_protocol(self, protocol: Protocol) -> (r: Self) {
        let mut builder = self;
        let config = builder.export_config();
        config.protocol = protocol;
        builder
    }

    fn with_timeout(self, timeout: std::time::Duration) -> (r: Self) {
        let mut builder = self;
        let config = builder.export_config();
        config.timeout = Some(timeout);
        builder
    }

    fn with_export_config(self, export_config: ExportConfig) -> (r: Self) {
        let mut builder = self;
        let config = builder.export_config();
        *config = export_config;
        builder
    }
}

/// Configuration specific to the Cap'n Proto transport.
#[derive(Debug)]
#[non_exhaustive]
pub struct CapnpConfig {
    /// The retry policy of export calls; the default one when unset.
    pub(crate) retry_policy: Option<RetryPolicy>,
}

impl CapnpConfig {
    pub open(crate) spec fn spec_retry_policy(&self) -> Option<RetryPolicy> {
        self.retry_policy
    }
}

impl Default for CapnpConfig {
    fn default() -> (r: CapnpConfig)
        ensures
            r.spec_retry_policy() is None,
    {
        CapnpConfig { retry_policy: None }
    }
}

/// Expose interface for modifying [CapnpConfig] fields within the exporter builders.
pub trait HasCapnpConfig {
    spec fn spec_capnp_config(&self) -> CapnpConfig;

    /// Return a mutable reference to the export config within the exporter builders.
    fn capnp_config(&mut self) -> (r: &mut CapnpConfig)
        ensures
            *r == old(self).spec_capnp_config(),
            final(self).spec_capnp_config() == *final(r),
    ;
}

/// Builder of the Cap'n Proto span exporter.
#[derive(Debug)]
pub struct CapnpExporterBuilder {
    pub(crate) capnp_config: CapnpConfig,
    pub(crate) exporter_config: ExportConfig,
}

impl Default for CapnpExporterBuilder {
    fn default() -> (r: CapnpExporterBuilder)
        ensures
            r.spec_capnp_config().spec_retry_policy() is None,
            r.spec_export_config().endpoint is None,
            r.spec_export_config().protocol == Protocol::Capnp,
            r.spec_export_config().timeout is None,
    {
        CapnpExporterBuilder {
            capnp_config: CapnpConfig::default(),
            exporter_config: ExportConfig::default(),
        }
    }
}

impl CapnpExporterBuilder {
    pub(crate) fn set_retry_policy(&mut self, policy: RetryPolicy)
        ensures
            final(self).spec_capnp_config().spec_retry_policy() == Some(policy),
            final(self).spec_export_config() == old(self).spec_export_config(),
    {
        self.capnp_config.retry_policy = Some(policy);
    }
}

impl HasCapnpConfig for CapnpExporterBuilder {
    closed spec fn spec_capnp_config(&self) -> CapnpConfig {
        self.capnp_config
    }

    fn capnp_config(&mut self) -> (r: &mut CapnpConfig) {
        &mut self.capnp_config
    }
}

impl HasExportConfig for CapnpExporterBuilder {
    closed spec fn spec_export_config(&self) -> ExportConfig {
        self.exporter_config
    }

    fn export_config(&mut self) -> (r: &mut ExportConfig) {
        &mut self.exporter_config
    }
}

/// The endpoint chosen from, in order: the builder's value when it is set and
/// not empty, the signal's environment variable, the common environment
/// variable, and the default.
pub open spec fn chosen_endpoint(
    provided: Option<Seq<char>>,
    signal_env: Option<Seq<char>>,
    common_env: Option<Seq<char>>,
) -> Seq<char> {
    if provided is Some && provided.unwrap().len() > 0 {
        provided.unwrap()
    } else if signal_env is Some {
        signal_env.unwrap()
    } else if common_env is Some {
        common_env.unwrap()
    } else {
        OTEL_EXPORTER_CAPNP_ENDPOINT_DEFAULT@
    }
}

/// The per-call timeout chosen from, in order: the builder's value, the
/// signal's environment variable, the common one, and the default.
pub open spec fn chosen_timeout_ms(
    provided: Option<u64>,
    signal_env: Option<u64>,
    common_env: Option<u64>,
) -> u64 {
    if provided is Some {
        provided.unwrap()
    } else if signal_env is Some {
        signal_env.unwrap()
    } else if common_env is Some {
        common_env.unwrap()
    } else {
        OTEL_EXPORTER_CAPNP_TIMEOUT_DEFAULT
    }
}

impl CapnpExporterBuilder {
    /// The collector endpoint: the builder's value when set and not empty,
    /// else the value of the signal's environment variable, else that of the
    /// common one, else the default. `signal_env` and `common_env` are the
    /// values the two variables had, if any.
    pub fn resolve_endpoint(
        provided_endpoint: Option<String>,
        signal_env: Option<String>,
        common_env: Option<String>,
    ) -> (r: String)
        ensures
            r@ == chosen_endpoint(
                option_view(provided_endpoint),
                option_view(signal_env),
                option_view(common_env),
            ),
    {
        match provided_endpoint {
            Some(endpoint) if !endpoint.as_str().is_empty() => endpoint,
            _ => match signal_env {
                Some(endpoint) => endpoint,
                None => match common_env {
                    Some(endpoint) => endpoint,
                    None => OTEL_EXPORTER_CAPNP_ENDPOINT_DEFAULT.to_owned(),
                },
            },
        }
    }

    /// The per-call timeout in milliseconds, chosen in the same order as the
    /// endpoint.
    pub fn resolve_timeout_ms(
        provided_ms: Option<u64>,
        signal_env_ms: Option<u64>,
        common_env_ms: Option<u64>,
    ) -> (r: u64)
        ensures
            r == chosen_timeout_ms(provided_ms, signal_env_ms, common_env_ms),
    {
        match provided_ms {
            Some(t) => t,
            None => match signal_env_ms {
                Some(t) => t,
                None => match common_env_ms {
                    Some(t) => t,
                    None => OTEL_EXPORTER_CAPNP_TIMEOUT_DEFAULT,
                },
            },
        }
    }
}

impl CapnpExporterBuilder {
    /// Builds the exporter and what its worker thread needs. The endpoint is
    /// the builder's when set and not empty, else the environment's, else
    /// the default; the timeout likewise.
    pub fn build_span_exporter(self, env: ExporterEnvironment) -> (r: Result<
        (SpanExporter, ExportWorker),
        ExporterBuildError,
    >)
        ensures
            r is Ok,
            r matches Ok((exporter, worker)) ==> built_from(
                exporter,
                worker,
                self.spec_export_config(),
                self.spec_capnp_config().spec_retry_policy(),
                env,
            ),
    {
        let CapnpExporterBuilder { capnp_config, exporter_config } = self;
        let ExporterEnvironment { traces_endpoint, endpoint, traces_timeout_ms, timeout_ms } = env;
        let ExportConfig { endpoint: provided, protocol: _, timeout } = exporter_config;
        let endpoint = CapnpExporterBuilder::resolve_endpoint(provided, traces_endpoint, endpoint);
        let provided_ms = match timeout {
            Some(d) => Some(timeout_millis(d)),
            None => None,
        };
        let call_timeout_ms = CapnpExporterBuilder::resolve_timeout_ms(
            provided_ms,
            traces_timeout_ms,
            timeout_ms,
        );
        let CapnpConfig { retry_policy } = capnp_config;
        let (client, queues) = CapnpTracesClient::new(retry_policy);
        let retry_policy = *client.retry_policy();
        let worker = ExportWorker { endpoint, call_timeout_ms, retry_policy, queues };
        Ok((SpanExporter::from_capnp(client), worker))
    }
}

} // verus!
