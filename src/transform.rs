//! Encoders from span records into the wire schema. Each encoder is total and
//! deterministic: its result is pinned down by an `encodes_*` relation.
use vstd::prelude::*;

use crate::model::{
    attributes_view, Array, Event, InstrumentationScope, KeyValue,
    KeyValueView, Link, Resource, ScopeView, SpanKind, SpanRecord, Status, Value, ValueView,
};
use crate::batch::{scope_view_of, ScopeSpans};
use crate::wire;

verus! {

pub open spec fn is_string_value(w: wire::AnyValue, s: Seq<char>) -> bool {
    match w {
        wire::AnyValue::StringValue(t) => t@ == s,
        _ => false,
    }
}

pub open spec fn array_values(w: wire::AnyValue) -> Seq<wire::AnyValue> {
    match w {
        wire::AnyValue::ArrayValue(a) => a.values@,
        _ => Seq::empty(),
    }
}

/// `w` is the wire form of the attribute value `v`. A value the schema cannot
/// carry is written as the empty string.
pub open spec fn encodes_value(w: wire::AnyValue, v: ValueView) -> bool {
    match v {
        ValueView::Bool(b) => w == wire::AnyValue::BoolValue(b),
        ValueView::I64(i) => w == wire::AnyValue::IntValue(i),
        ValueView::F64(f) => w == wire::AnyValue::DoubleValue(f),
        ValueView::Str(s) => is_string_value(w, s),
        ValueView::BoolArray(xs) => {
            &&& w is ArrayValue
            &&& array_values(w).len() == xs.len()
            &&& forall|i: int|
                0 <= i < xs.len() ==> #[trigger] array_values(w)[i] == wire::AnyValue::BoolValue(
                    xs[i],
                )
        },
        ValueView::I64Array(xs) => {
            &&& w is ArrayValue
            &&& array_values(w).len() == xs.len()
            &&& forall|i: int|
                0 <= i < xs.len() ==> #[trigger] array_values(w)[i] == wire::AnyValue::IntValue(
                    xs[i],
                )
        },
        ValueView::F64Array(xs) => {
            &&& w is ArrayValue
            &&& array_values(w).len() == xs.len()
            &&& forall|i: int|
                0 <= i < xs.len() ==> #[trigger] array_values(w)[i]
                    == wire::AnyValue::DoubleValue(xs[i])
        },
        ValueView::StrArray(xs) => {
            &&& w is ArrayValue
            &&& array_values(w).len() == xs.len()
            &&& forall|i: int|
                0 <= i < xs.len() ==> is_string_value(#[trigger] array_values(w)[i], xs[i])
        },
        ValueView::Unsupported => is_string_value(w, Seq::empty()),
    }
}

pub open spec fn encodes_key_value(w: wire::KeyValue, kv: KeyValueView) -> bool {
    &&& w.key@ == kv.key
    &&& encodes_value(w.value, kv.value)
}

/// `w` holds the wire form of each attribute of `a`, in the same order,
/// duplicate keys included.
pub open spec fn encodes_attributes(w: Seq<wire::KeyValue>, a: Seq<KeyValueView>) -> bool {
    &&& w.len() == a.len()
    &&& forall|i: int| 0 <= i < a.len() ==> encodes_key_value(#[trigger] w[i], a[i])
}

pub open spec fn encodes_event(w: wire::Event, e: Event) -> bool {
    &&& w.time_unix_nano == e.time_unix_nano
    &&& w.name@ == e.name@
    &&& encodes_attributes(w.attributes@, attributes_view(e.attributes@))
    &&& w.dropped_attributes_count == e.dropped_attributes_count
}

pub open spec fn encodes_link(w: wire::Link, l: Link) -> bool {
    &&& w.trace_id@ == l.trace_id@
    &&& w.span_id@ == l.span_id@
    &&& w.trace_state@ == l.trace_state@
    &&& encodes_attributes(w.attributes@, attributes_view(l.attributes@))
    &&& w.dropped_attributes_count == l.dropped_attributes_count
    &&& w.flags == l.flags
}

/// The wire status carries a message exactly when the span ended in error.
pub open spec fn encodes_status(w: wire::Status, s: Status) -> bool {
    match s {
        Status::Unset => w.code == wire::StatusCode::Unset && w.message@ == Seq::<char>::empty(),
        Status::Success => w.code == wire::StatusCode::Success && w.message@ == Seq::<
            char,
        >::empty(),
        Status::Error { description } => w.code == wire::StatusCode::Error && w.message@
            == description@,
    }
}

pub open spec fn wire_kind(k: SpanKind) -> wire::SpanKind {
    match k {
        SpanKind::Internal => wire::SpanKind::Internal,
        SpanKind::Client => wire::SpanKind::Client,
        SpanKind::Server => wire::SpanKind::Server,
        SpanKind::Producer => wire::SpanKind::Producer,
        SpanKind::Consumer => wire::SpanKind::Consumer,
    }
}

/// The three identifiers of `w` are those of `s`, byte for byte.
pub open spec fn same_ids(w: wire::Span, s: SpanRecord) -> bool {
    &&& w.trace_id@ == s.trace_id@
    &&& w.span_id@ == s.span_id@
    &&& w.parent_span_id@ == s.parent_span_id@
}

/// `w` is the wire form of the span record `s`.
pub open spec fn encodes_span(w: wire::Span, s: SpanRecord) -> bool {
    &&& same_ids(w, s)
    &&& w.trace_state@ == s.trace_state@
    &&& w.flags == s.flags
    &&& w.name@ == s.name@
    &&& w.kind == wire_kind(s.kind)
    &&& w.start_time_unix_nano == s.start_time_unix_nano
    &&& w.end_time_unix_nano == s.end_time_unix_nano
    &&& encodes_attributes(w.attributes@, attributes_view(s.attributes@))
    &&& w.dropped_attributes_count == s.dropped_attributes_count
    &&& w.events@.len() == s.events@.len()
    &&& forall|i: int| 0 <= i < s.events@.len() ==> encodes_event(#[trigger] w.events@[i], s.events@[i])
    &&& w.dropped_events_count == s.dropped_events_count
    &&& w.links@.len() == s.links@.len()
    &&& forall|i: int| 0 <= i < s.links@.len() ==> encodes_link(#[trigger] w.links@[i], s.links@[i])
    &&& w.dropped_links_count == s.dropped_links_count
    &&& encodes_status(w.status, s.status)
}

/// `w` holds the wire form of each span of `s`, in the same order.
pub open spec fn encodes_spans(w: Seq<wire::Span>, s: Seq<SpanRecord>) -> bool {
    &&& w.len() == s.len()
    &&& forall|i: int| 0 <= i < s.len() ==> encodes_span(#[trigger] w[i], s[i])
}

pub open spec fn text_or_empty(o: Option<Seq<char>>) -> Seq<char> {
    match o {
        Some(s) => s,
        None => Seq::empty(),
    }
}

/// A missing version is written as the empty string; a scope carries no
/// dropped-attribute count, so zero is written.
pub open spec fn encodes_scope(w: wire::InstrumentationScope, s: ScopeView) -> bool {
    &&& w.name@ == s.name
    &&& w.version@ == text_or_empty(s.version)
    &&& encodes_attributes(w.attributes@, s.attributes)
    &&& w.dropped_attributes_count == 0
}

pub open spec fn encodes_resource(w: wire::Resource, r: Resource) -> bool {
    &&& encodes_attributes(w.attributes@, attributes_view(r.attributes@))
    &&& w.dropped_attributes_count == r.dropped_attributes_count
}

impl From<SpanKind> for wire::SpanKind {
    fn from(kind: SpanKind) -> (r: wire::SpanKind) {
        match kind {
            SpanKind::Client => wire::SpanKind::Client,
            SpanKind::Consumer => wire::SpanKind::Consumer,
            SpanKind::Internal => wire::SpanKind::Internal,
            SpanKind::Producer => wire::SpanKind::Producer,
            SpanKind::Server => wire::SpanKind::Server,
        }
    }
}

impl vstd::std_specs::convert::FromSpecImpl<SpanKind> for wire::SpanKind {
    open spec fn obeys_from_spec() -> bool {
        true
    }

    open spec fn from_spec(kind: SpanKind) -> wire::SpanKind {
        wire_kind(kind)
    }
}

/// The wire status code of a span status.
pub fn status_code(status: &Status) -> (r: wire::StatusCode)
    ensures
        r == match status {
            Status::Unset => wire::StatusCode::Unset,
            Status::Success => wire::StatusCode::Success,
            Status::Error { .. } => wire::StatusCode::Error,
        },
{
    match status {
        Status::Success => wire::StatusCode::Success,
        Status::Unset => wire::StatusCode::Unset,
        Status::Error { .. } => wire::StatusCode::Error,
    }
}

/// The status sub-message: the code, and the description as message when
/// the span ended in error.
pub fn populate_status(status: &Status) -> (r: wire::Status)
    ensures
        encodes_status(r, *status),
        (r.code == wire::StatusCode::Error) == (status is Error),
        status is Error ==> r.message@ == status->description@,
        !(status is Error) ==> r.message@ == Seq::<char>::empty(),
{
    let code = status_code(status);
    let message = match status {
        Status::Error { description } => description.clone(),
        _ => String::new(),
    };
    wire::Status { code, message }
}

/// Copies a fixed-size identifier into a byte list.
pub fn id_bytes<const N: usize>(id: &[u8; N]) -> (r: Vec<u8>)
    ensures
        r@ == id@,
{
    let mut out: Vec<u8> = Vec::with_capacity(N);
    let mut i: usize = 0;
    while i < N
        invariant
            i <= N,
            id@.len() == N,
            out@ == id@.take(i as int),
        decreases N - i,
    {
        out.push(id[i]);
        i += 1;
        assert(out@ =~= id@.take(i as int));
    }
    assert(id@.take(N as int) =~= id@);
    out
}

/// The elements of a homogeneous array, each as a wire value.
fn populate_array(array: &Array) -> (r: wire::ArrayValue)
    ensures
        encodes_value(wire::AnyValue::ArrayValue(r), Value::Array(*array)@),
{
    let mut values: Vec<wire::AnyValue> = Vec::new();
    match array {
        Array::Bool(bools) => {
            let mut i: usize = 0;
            while i < bools.len()
                invariant
                    i <= bools.len(),
                    values@.len() == i,
                    forall|j: int| 0 <= j < i ==> values@[j] == wire::AnyValue::BoolValue(bools@[j]),
                decreases bools.len() - i,
            {
                values.push(wire::AnyValue::BoolValue(bools[i]));
                i += 1;
            }
        },
        Array::I64(ints) => {
            let mut i: usize = 0;
            while i < ints.len()
                invariant
                    i <= ints.len(),
                    values@.len() == i,
                    forall|j: int| 0 <= j < i ==> values@[j] == wire::AnyValue::IntValue(ints@[j]),
                decreases ints.len() - i,
            {
                values.push(wire::AnyValue::IntValue(ints[i]));
                i += 1;
            }
        },
        Array::F64(doubles) => {
            let mut i: usize = 0;
            while i < doubles.len()
                invariant
                    i <= doubles.len(),
                    values@.len() == i,
                    forall|j: int|
                        0 <= j < i ==> values@[j] == wire::AnyValue::DoubleValue(doubles@[j]),
                decreases doubles.len() - i,
            {
                values.push(wire::AnyValue::DoubleValue(doubles[i]));
                i += 1;
            }
        },
        Array::String(strings) => {
            let mut i: usize = 0;
            while i < strings.len()
                invariant
                    i <= strings.len(),
                    values@.len() == i,
                    forall|j: int| 0 <= j < i ==> is_string_value(values@[j], strings@[j]@),
                decreases strings.len() - i,
            {
                values.push(wire::AnyValue::StringValue(strings[i].clone()));
                i += 1;
            }
        },
    }
    wire::ArrayValue { values }
}

/// The wire form of one attribute value.
fn populate_value(value: &Value) -> (r: wire::AnyValue)
    ensures
        encodes_value(r, value@),
{
    match value {
        Value::Bool(b) => wire::AnyValue::BoolValue(*b),
        Value::I64(i) => wire::AnyValue::IntValue(*i),
        Value::F64(f) => wire::AnyValue::DoubleValue(*f),
        Value::String(s) => wire::AnyValue::StringValue(s.clone()),
        Value::Array(a) => wire::AnyValue::ArrayValue(populate_array(a)),
        Value::Unsupported => wire::AnyValue::StringValue(String::new()),
    }
}

/// The wire form of an attribute list, in input order.
pub fn populate_attributes(attributes: &Vec<KeyValue>) -> (r: Vec<wire::KeyValue>)
    ensures
        encodes_attributes(r@, attributes_view(attributes@)),
{
    let mut out: Vec<wire::KeyValue> = Vec::with_capacity(attributes.len());
    let mut i: usize = 0;
    while i < attributes.len()
        invariant
            i <= attributes.len(),
            out@.len() == i,
            forall|j: int| 0 <= j < i ==> encodes_key_value(#[trigger] out@[j], attributes@[j]@),
        decreases attributes.len() - i,
    {
        let kv = &attributes[i];
        out.push(wire::KeyValue { key: kv.key.clone(), value: populate_value(&kv.value) });
        i += 1;
    }
    out
}

fn populate_event(event: &Event) -> (r: wire::Event)
    ensures
        encodes_event(r, *event),
{
    wire::Event {
        time_unix_nano: event.time_unix_nano,
        name: event.name.clone(),
        attributes: populate_attributes(&event.attributes),
        dropped_attributes_count: event.dropped_attributes_count,
    }
}

fn populate_link(link: &Link) -> (r: wire::Link)
    ensures
        encodes_link(r, *link),
{
    wire::Link {
        trace_id: id_bytes(&link.trace_id),
        span_id: id_bytes(&link.span_id),
        trace_state: link.trace_state.clone(),
        attributes: populate_attributes(&link.attributes),
        dropped_attributes_count: link.dropped_attributes_count,
        flags: link.flags,
    }
}

/// The wire form of a span: identifiers as raw bytes, then name, kind,
/// timestamps and dropped counts, then attributes, events and links in input
/// order, and last the status.
pub fn populate_span(span: SpanRecord) -> (r: wire::Span)
    ensures
        encodes_span(r, span),
{
    let mut events: Vec<wire::Event> = Vec::with_capacity(span.events.len());
    let mut i: usize = 0;
    while i < span.events.len()
        invariant
            i <= span.events@.len(),
            events@.len() == i,
            forall|j: int| 0 <= j < i ==> encodes_event(#[trigger] events@[j], span.events@[j]),
        decreases span.events.len() - i,
    {
        events.push(populate_event(&span.events[i]));
        i += 1;
    }
    let mut links: Vec<wire::Link> = Vec::with_capacity(span.links.len());
    let mut i: usize = 0;
    while i < span.links.len()
        invariant
            i <= span.links@.len(),
            links@.len() == i,
            forall|j: int| 0 <= j < i ==> encodes_link(#[trigger] links@[j], span.links@[j]),
        decreases span.links.len() - i,
    {
        links.push(populate_link(&span.links[i]));
        i += 1;
    }
    wire::Span {
        trace_id: id_bytes(&span.trace_id),
        span_id: id_bytes(&span.span_id),
        trace_state: span.trace_state.clone(),
        parent_span_id: id_bytes(&span.parent_span_id),
        flags: span.flags,
        name: span.name.clone(),
        kind: wire::SpanKind::from(span.kind),
        start_time_unix_nano: span.start_time_unix_nano,
        end_time_unix_nano: span.end_time_unix_nano,
        attributes: populate_attributes(&span.attributes),
        dropped_attributes_count: span.dropped_attributes_count,
        events,
        dropped_events_count: span.dropped_events_count,
        links,
        dropped_links_count: span.dropped_links_count,
        status: populate_status(&span.status),
    }
}

/// The identity written for a group that carries no scope: every field empty.
pub open spec fn empty_scope() -> ScopeView {
    ScopeView {
        name: Seq::empty(),
        version: None,
        schema_url: None,
        attributes: Seq::empty(),
    }
}

pub open spec fn scope_or_empty(scope: Option<ScopeView>) -> ScopeView {
    match scope {
        Some(s) => s,
        None => empty_scope(),
    }
}

/// `w` is the wire form of the group `s`: its scope, each of its spans in
/// order, and its schema URL.
pub open spec fn encodes_scope_spans(w: wire::ScopeSpans, s: ScopeSpans) -> bool {
    &&& encodes_scope(w.scope, scope_or_empty(scope_view_of(s.scope)))
    &&& encodes_spans(w.spans@, s.spans@)
    &&& w.schema_url@ == s.schema_url@
}

/// Bit 8 of the span flags: whether the parent's remoteness is known.
pub const CONTEXT_HAS_IS_REMOTE_MASK: u32 = 0x100;

/// Bit 9 of the span flags: the parent is remote.
pub const CONTEXT_IS_REMOTE_MASK: u32 = 0x200;

/// The wire flags of a span or link: the W3C trace flags in bits 0 to 7,
/// bit 8 when it is known whether the parent is remote, bit 9 when it is.
pub fn span_flags(trace_flags: u8, parent_is_remote: Option<bool>) -> (r: u32)
    ensures
        r & 0xff == trace_flags as u32,
        (r & CONTEXT_HAS_IS_REMOTE_MASK != 0) == (parent_is_remote is Some),
        (r & CONTEXT_IS_REMOTE_MASK != 0) == (parent_is_remote == Some(true)),
        r < 0x400,
{
    let base = trace_flags as u32;
    let known: u32 = if parent_is_remote.is_some() { CONTEXT_HAS_IS_REMOTE_MASK } else { 0 };
    let remote: u32 = match parent_is_remote {
        Some(true) => CONTEXT_IS_REMOTE_MASK,
        _ => 0,
    };
    let r = base | known | remote;
    assert(base < 0x100 ==> (base | 0x100u32 | 0x200u32) & 0xff == base && (base | 0x100u32 | 0x200u32)
        & 0x100 != 0 && (base | 0x100u32 | 0x200u32) & 0x200 != 0 && (base | 0x100u32 | 0x200u32) < 0x400)
        by (bit_vector);
    assert(base < 0x100 ==> (base | 0x100u32 | 0u32) & 0xff == base && (base | 0x100u32 | 0u32) & 0x100
        != 0 && (base | 0x100u32 | 0u32) & 0x200 == 0 && (base | 0x100u32 | 0u32) < 0x400) by (bit_vector);
    assert(base < 0x100 ==> (base | 0u32 | 0u32) & 0xff == base && (base | 0u32 | 0u32) & 0x100 == 0
        && (base | 0u32 | 0u32) & 0x200 == 0 && (base | 0u32 | 0u32) < 0x400) by (bit_vector);
    r
}

/// A span with only its identifiers, name and timestamps: kind `Internal`,
/// no attributes, events or links, status `Unset`, no flags or trace state.
pub fn populate_span_minimal(span: SpanRecord) -> (r: wire::Span)
    ensures
        same_ids(r, span),
        r.name@ == span.name@,
        r.start_time_unix_nano == span.start_time_unix_nano,
        r.end_time_unix_nano == span.end_time_unix_nano,
        r.kind == wire::SpanKind::Internal,
        r.trace_state@ == Seq::<char>::empty(),
        r.flags == 0,
        r.attributes@.len() == 0,
        r.events@.len() == 0,
        r.links@.len() == 0,
        r.dropped_attributes_count == 0,
        r.dropped_events_count == 0,
        r.dropped_links_count == 0,
        r.status.code == wire::StatusCode::Unset,
        r.status.message@ == Seq::<char>::empty(),
{
    wire::Span {
        trace_id: id_bytes(&span.trace_id),
        span_id: id_bytes(&span.span_id),
        trace_state: String::new(),
        parent_span_id: id_bytes(&span.parent_span_id),
        flags: 0,
        name: span.name.clone(),
        kind: wire::SpanKind::Internal,
        start_time_unix_nano: span.start_time_unix_nano,
        end_time_unix_nano: span.end_time_unix_nano,
        attributes: Vec::new(),
        dropped_attributes_count: 0,
        events: Vec::new(),
        dropped_events_count: 0,
        links: Vec::new(),
        dropped_links_count: 0,
        status: wire::Status { code: wire::StatusCode::Unset, message: String::new() },
    }
}

/// The resource's attributes and its dropped-attribute count.
pub fn populate_resource(resource: &Resource) -> (r: wire::Resource)
    ensures
        encodes_resource(r, *resource),
{
    wire::Resource {
        attributes: populate_attributes(&resource.attributes),
        dropped_attributes_count: resource.dropped_attributes_count,
    }
}

/// Name, version (empty when absent), attributes, and a zero dropped count.
fn populate_instrumentation_scope(scope: &InstrumentationScope) -> (r: wire::InstrumentationScope)
    ensures
        encodes_scope(r, scope@),
{
    let version = match &scope.version {
        Some(v) => v.clone(),
        None => String::new(),
    };
    wire::InstrumentationScope {
        name: scope.name.clone(),
        version,
        attributes: populate_attributes(&scope.attributes),
        dropped_attributes_count: 0,
    }
}

/// The wire form of one group: its scope (all fields empty when it has
/// none), its spans in order, and its schema URL.
pub fn populate_scope_spans(scope_spans: ScopeSpans) -> (r: wire::ScopeSpans)
    ensures
        encodes_scope_spans(r, scope_spans),
{
    let ScopeSpans { scope, spans, schema_url } = scope_spans;
    let wire_scope = match &scope {
        Some(s) => populate_instrumentation_scope(s),
        None => wire::InstrumentationScope {
            name: String::new(),
            version: String::new(),
            attributes: Vec::new(),
            dropped_attributes_count: 0,
        },
    };
    let ghost all = spans@;
    let mut wire_spans: Vec<wire::Span> = Vec::with_capacity(spans.len());
    for span in it: spans.into_iter()
        invariant
            it.seq() == all,
            wire_spans@.len() == it.index(),
            forall|j: int| 0 <= j < it.index() ==> encodes_span(#[trigger] wire_spans@[j], all[j]),
    {
        wire_spans.push(populate_span(span));
    }
    wire::ScopeSpans { scope: wire_scope, spans: wire_spans, schema_url }
}

} // verus!
