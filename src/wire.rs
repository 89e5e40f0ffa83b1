//! The trace wire schema as plain values: what an export request carries and
//! what the reply holds. Identifiers are raw big-endian bytes; doubles are
//! their IEEE-754 bit pattern.
use vstd::prelude::*;

verus! {

/// Wire span kind; the schema numbers them `Unspecified = 0` to `Consumer = 5`.
#[derive(Clone, Copy, Debug, PartialEq, Eq, Structural)]
pub enum SpanKind {
    Unspecified,
    Internal,
    Server,
    Client,
    Producer,
    Consumer,
}

/// Wire status code: `Unset = 0`, `Success = 1` (the schema's `Ok`), `Error = 2`.
#[derive(Clone, Copy, Debug, PartialEq, Eq, Structural)]
pub enum StatusCode {
    Unset,
    Success,
    Error,
}

#[derive(Debug, PartialEq)]
pub struct Status {
    pub code: StatusCode,
    pub message: String,
}

#[derive(Debug, PartialEq)]
pub enum AnyValue {
    BoolValue(bool),
    IntValue(i64),
    DoubleValue(u64),
    StringValue(String),
    BytesValue(Vec<u8>),
    ArrayValue(ArrayValue),
    KvlistValue(KeyValueList),
}

#[derive(Debug, PartialEq)]
pub struct ArrayValue {
    pub values: Vec<AnyValue>,
}

#[derive(Debug, PartialEq)]
pub struct KeyValueList {
    pub values: Vec<KeyValue>,
}

#[derive(Debug, PartialEq)]
pub struct KeyValue {
    pub key: String,
    pub value: AnyValue,
}

#[derive(Debug, PartialEq)]
pub struct Event {
    pub time_unix_nano: u64,
    pub name: String,
    pub attributes: Vec<KeyValue>,
    pub dropped_attributes_count: u32,
}

#[derive(Debug, PartialEq)]
pub struct Link {
    pub trace_id: Vec<u8>,
    pub span_id: Vec<u8>,
    pub trace_state: String,
    pub attributes: Vec<KeyValue>,
    pub dropped_attributes_count: u32,
    pub flags: u32,
}

#[derive(Debug, PartialEq)]
pub struct Span {
    pub trace_id: Vec<u8>,
    pub span_id: Vec<u8>,
    pub trace_state: String,
    pub parent_span_id: Vec<u8>,
    pub flags: u32,
    pub name: String,
    pub kind: SpanKind,
    pub start_time_unix_nano: u64,
    pub end_time_unix_nano: u64,
    pub attributes: Vec<KeyValue>,
    pub dropped_attributes_count: u32,
    pub events: Vec<Event>,
    pub dropped_events_count: u32,
    pub links: Vec<Link>,
    pub dropped_links_count: u32,
    pub status: Status,
}

#[derive(Debug, PartialEq)]
pub struct InstrumentationScope {
    pub name: String,
    pub version: String,
    pub attributes: Vec<KeyValue>,
    pub dropped_attributes_count: u32,
}

#[derive(Debug, PartialEq)]
pub struct Resource {
    pub attributes: Vec<KeyValue>,
    pub dropped_attributes_count: u32,
}

#[derive(Debug, PartialEq)]
pub struct ScopeSpans {
    pub scope: InstrumentationScope,
    pub spans: Vec<Span>,
    pub schema_url: String,
}

#[derive(Debug, PartialEq)]
pub struct ResourceSpans {
    pub resource: Resource,
    pub scope_spans: Vec<ScopeSpans>,
    pub schema_url: String,
}

/// The single argument of the trace service's `export` method.
#[derive(Debug, PartialEq)]
pub struct ExportTraceServiceRequest {
    pub resource_spans: Vec<ResourceSpans>,
}

#[derive(Debug, PartialEq)]
pub struct ExportTracePartialSuccess {
    pub rejected_spans: u64,
    pub error_message: String,
}

/// The reply of the trace service's `export` method.
#[derive(Debug, PartialEq)]
pub struct ExportTraceServiceResponse {
    pub partial_success: ExportTracePartialSuccess,
}

impl SpanKind {
    /// The enumerant's number in the schema.
    pub fn ordinal(&self) -> (r: u16)
        ensures
            r == self.spec_ordinal(),
    {
        match self {
            SpanKind::Unspecified => 0,
            SpanKind::Internal => 1,
            SpanKind::Server => 2,
            SpanKind::Client => 3,
            SpanKind::Producer => 4,
            SpanKind::Consumer => 5,
        }
    }

    pub open spec fn spec_ordinal(&self) -> u16 {
        match self {
            SpanKind::Unspecified => 0,
            SpanKind::Internal => 1,
            SpanKind::Server => 2,
            SpanKind::Client => 3,
            SpanKind::Producer => 4,
            SpanKind::Consumer => 5,
        }
    }
}

impl StatusCode {
    /// The enumerant's number in the schema.
    pub fn ordinal(&self) -> (r: u16)
        ensures
            r == self.spec_ordinal(),
    {
        match self {
            StatusCode::Unset => 0,
            StatusCode::Success => 1,
            StatusCode::Error => 2,
        }
    }

    pub open spec fn spec_ordinal(&self) -> u16 {
        match self {
            StatusCode::Unset => 0,
            StatusCode::Success => 1,
            StatusCode::Error => 2,
        }
    }
}

} // verus!
