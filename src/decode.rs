//! Reading wire spans back into span records, and the round trip: a span
//! whose attribute values all say their own type reads back as itself.
use vstd::prelude::*;

use crate::model::{
    attributes_view, string_views, Array, Event, InstrumentationScope, KeyValue, KeyValueView, Link,
    SpanKind, SpanRecord, Status, Value, ValueView,
};
use crate::transform::{
    array_values, encodes_attributes, encodes_event, encodes_key_value, encodes_link, encodes_span,
    encodes_status, encodes_value, is_string_value, wire_kind,
};
use crate::wire;

verus! {

/// A value that reads back as itself: not of an unsupported kind (written as
/// an empty string) and not an empty array (which does not say its element
/// type).
pub open spec fn readable_value(v: ValueView) -> bool {
    match v {
        ValueView::Unsupported => false,
        ValueView::BoolArray(xs) => xs.len() > 0,
        ValueView::I64Array(xs) => xs.len() > 0,
        ValueView::F64Array(xs) => xs.len() > 0,
        ValueView::StrArray(xs) => xs.len() > 0,
        _ => true,
    }
}

pub open spec fn readable_attributes(a: Seq<KeyValueView>) -> bool {
    forall|i: int| 0 <= i < a.len() ==> readable_value(#[trigger] a[i].value)
}

/// Every attribute value of the span, its events and its links reads back
/// as itself.
pub open spec fn readable_span(s: SpanRecord) -> bool {
    &&& readable_attributes(attributes_view(s.attributes@))
    &&& forall|i: int|
        0 <= i < s.events@.len() ==> readable_attributes(
            attributes_view(#[trigger] s.events@[i].attributes@),
        )
    &&& forall|i: int|
        0 <= i < s.links@.len() ==> readable_attributes(
            attributes_view(#[trigger] s.links@[i].attributes@),
        )
}

pub open spec fn same_event(x: Event, y: Event) -> bool {
    &&& x.time_unix_nano == y.time_unix_nano
    &&& x.name@ == y.name@
    &&& attributes_view(x.attributes@) == attributes_view(y.attributes@)
    &&& x.dropped_attributes_count == y.dropped_attributes_count
}

pub open spec fn same_link(x: Link, y: Link) -> bool {
    &&& x.trace_id@ == y.trace_id@
    &&& x.span_id@ == y.span_id@
    &&& x.trace_state@ == y.trace_state@
    &&& attributes_view(x.attributes@) == attributes_view(y.attributes@)
    &&& x.flags == y.flags
    &&& x.dropped_attributes_count == y.dropped_attributes_count
}

/// Two records agree on every field the wire carries.
pub open spec fn same_wire_fields(a: SpanRecord, b: SpanRecord) -> bool {
    &&& a.trace_id@ == b.trace_id@
    &&& a.span_id@ == b.span_id@
    &&& a.parent_span_id@ == b.parent_span_id@
    &&& a.trace_state@ == b.trace_state@
    &&& a.flags == b.flags
    &&& a.name@ == b.name@
    &&& a.kind == b.kind
    &&& a.start_time_unix_nano == b.start_time_unix_nano
    &&& a.end_time_unix_nano == b.end_time_unix_nano
    &&& attributes_view(a.attributes@) == attributes_view(b.attributes@)
    &&& a.dropped_attributes_count == b.dropped_attributes_count
    &&& a.events@.len() == b.events@.len()
    &&& forall|i: int|
        #![trigger a.events@[i]]
        0 <= i < a.events@.len() ==> same_event(a.events@[i], b.events@[i])
    &&& a.dropped_events_count == b.dropped_events_count
    &&& a.links@.len() == b.links@.len()
    &&& forall|i: int|
        #![trigger a.links@[i]]
        0 <= i < a.links@.len() ==> same_link(a.links@[i], b.links@[i])
    &&& a.dropped_links_count == b.dropped_links_count
    &&& match (a.status, b.status) {
        (Status::Unset, Status::Unset) => true,
        (Status::Success, Status::Success) => true,
        (Status::Error { description: x }, Status::Error { description: y }) => x@ == y@,
        _ => false,
    }
}

proof fn lemma_value_injective(w: wire::AnyValue, a: ValueView, b: ValueView)
    requires
        encodes_value(w, a),
        encodes_value(w, b),
        readable_value(a),
        readable_value(b),
    ensures
        a == b,
{
    match a {
        ValueView::BoolArray(xs) => {
            match b {
                ValueView::BoolArray(ys) => {
                    assert forall|i: int| 0 <= i < xs.len() implies xs[i] == ys[i] by {
                        assert(array_values(w)[i] == wire::AnyValue::BoolValue(xs[i]));
                    }
                    assert(xs =~= ys);
                },
                _ => {
                    assert(array_values(w)[0] == wire::AnyValue::BoolValue(xs[0]));
                },
            }
        },
        ValueView::I64Array(xs) => {
            match b {
                ValueView::I64Array(ys) => {
                    assert forall|i: int| 0 <= i < xs.len() implies xs[i] == ys[i] by {
                        assert(array_values(w)[i] == wire::AnyValue::IntValue(xs[i]));
                    }
                    assert(xs =~= ys);
                },
                _ => {
                    assert(array_values(w)[0] == wire::AnyValue::IntValue(xs[0]));
                },
            }
        },
        ValueView::F64Array(xs) => {
            match b {
                ValueView::F64Array(ys) => {
                    assert forall|i: int| 0 <= i < xs.len() implies xs[i] == ys[i] by {
                        assert(array_values(w)[i] == wire::AnyValue::DoubleValue(xs[i]));
                    }
                    assert(xs =~= ys);
                },
                _ => {
                    assert(array_values(w)[0] == wire::AnyValue::DoubleValue(xs[0]));
                },
            }
        },
        ValueView::StrArray(xs) => {
            match b {
                ValueView::StrArray(ys) => {
                    assert forall|i: int| 0 <= i < xs.len() implies xs[i] == ys[i] by {
                        assert(is_string_value(array_values(w)[i], xs[i]));
                    }
                    assert(xs =~= ys);
                },
                _ => {
                    assert(is_string_value(array_values(w)[0], xs[0]));
                },
            }
        },
        _ => {
            match b {
                ValueView::BoolArray(ys) => {
                    assert(array_values(w)[0] == wire::AnyValue::BoolValue(ys[0]));
                },
                ValueView::I64Array(ys) => {
                    assert(array_values(w)[0] == wire::AnyValue::IntValue(ys[0]));
                },
                ValueView::F64Array(ys) => {
                    assert(array_values(w)[0] == wire::AnyValue::DoubleValue(ys[0]));
                },
                ValueView::StrArray(ys) => {
                    assert(is_string_value(array_values(w)[0], ys[0]));
                },
                _ => {},
            }
        },
    }
}

proof fn lemma_attributes_injective(
    w: Seq<wire::KeyValue>,
    a: Seq<KeyValueView>,
    b: Seq<KeyValueView>,
)
    requires
        encodes_attributes(w, a),
        encodes_attributes(w, b),
        readable_attributes(a),
        readable_attributes(b),
    ensures
        a == b,
{
    assert forall|i: int| 0 <= i < a.len() implies a[i] == b[i] by {
        assert(encodes_key_value(w[i], a[i]));
        assert(encodes_key_value(w[i], b[i]));
        lemma_value_injective(w[i].value, a[i].value, b[i].value);
    }
    assert(a =~= b);
}

/// A span reads back as itself: two readable records with the same wire
/// form agree on every field the wire carries.
pub proof fn lemma_wire_form_determines_span(w: wire::Span, a: SpanRecord, b: SpanRecord)
    requires
        encodes_span(w, a),
        encodes_span(w, b),
        readable_span(a),
        readable_span(b),
    ensures
        same_wire_fields(a, b),
{
    lemma_attributes_injective(
        w.attributes@,
        attributes_view(a.attributes@),
        attributes_view(b.attributes@),
    );
    assert forall|i: int| 0 <= i < a.events@.len() implies same_event(a.events@[i], b.events@[i]) by {
        assert(encodes_event(w.events@[i], a.events@[i]));
        assert(encodes_event(w.events@[i], b.events@[i]));
        lemma_attributes_injective(
            w.events@[i].attributes@,
            attributes_view(a.events@[i].attributes@),
            attributes_view(b.events@[i].attributes@),
        );
    }
    assert forall|i: int| 0 <= i < a.links@.len() implies same_link(a.links@[i], b.links@[i]) by {
        assert(encodes_link(w.links@[i], a.links@[i]));
        assert(encodes_link(w.links@[i], b.links@[i]));
        lemma_attributes_injective(
            w.links@[i].attributes@,
            attributes_view(a.links@[i].attributes@),
            attributes_view(b.links@[i].attributes@),
        );
    }
}


/// Copies a byte list of exactly `N` bytes into a fixed-size identifier.
fn fixed_id<const N: usize>(bytes: &Vec<u8>) -> (r: Option<[u8; N]>)
    ensures
        r matches Some(id) ==> id@ == bytes@,
        r is None ==> bytes@.len() != N,
{
    if bytes.len() != N {
        return None;
    }
    let mut id = [0u8; N];
    let mut i: usize = 0;
    while i < N
        invariant
            i <= N,
            bytes@.len() == N,
            id@.len() == N,
            forall|j: int| 0 <= j < i ==> id@[j] == bytes@[j],
        decreases N - i,
    {
        id[i] = bytes[i];
        i += 1;
    }
    assert(id@ =~= bytes@);
    Some(id)
}

fn decode_kind(kind: wire::SpanKind) -> (r: Option<SpanKind>)
    ensures
        r matches Some(k) ==> wire_kind(k) == kind,
        r is None ==> forall|k: SpanKind| wire_kind(k) != kind,
{
    match kind {
        wire::SpanKind::Unspecified => None,
        wire::SpanKind::Internal => Some(SpanKind::Internal),
        wire::SpanKind::Server => Some(SpanKind::Server),
        wire::SpanKind::Client => Some(SpanKind::Client),
        wire::SpanKind::Producer => Some(SpanKind::Producer),
        wire::SpanKind::Consumer => Some(SpanKind::Consumer),
    }
}

fn decode_status(status: &wire::Status) -> (r: Option<Status>)
    ensures
        r matches Some(s) ==> encodes_status(*status, s),
        r is None ==> forall|s: Status| !encodes_status(*status, s),
{
    if status.code == wire::StatusCode::Error {
        let description = status.message.clone();
        Some(Status::Error { description })
    } else if !status.message.as_str().is_empty() {
        None
    } else if status.code == wire::StatusCode::Unset {
        assert(status.message@ =~= Seq::<char>::empty());
        Some(Status::Unset)
    } else {
        assert(status.message@ =~= Seq::<char>::empty());
        Some(Status::Success)
    }
}

/// The array whose wire form is `array`, when its elements are all of one
/// scalar kind and there is at least one.
fn decode_array(array: &wire::ArrayValue) -> (r: Option<Value>)
    ensures
        r matches Some(v) ==> encodes_value(wire::AnyValue::ArrayValue(*array), v@) && readable_value(v@),
        r is None ==> forall|v: ValueView|
            readable_value(v) ==> !encodes_value(wire::AnyValue::ArrayValue(*array), v),
{
    let ghost w = wire::AnyValue::ArrayValue(*array);
    let values = &array.values;
    assert(array_values(w) == values@);
    if values.len() == 0 {
        return None;
    }
    match &values[0] {
        wire::AnyValue::BoolValue(_) => {
            let mut out: Vec<bool> = Vec::new();
            let mut i: usize = 0;
            while i < values.len()
                invariant
                    i <= values@.len(),
                    out@.len() == i,
                    w == wire::AnyValue::ArrayValue(*array),
                    values@ == array.values@,
                    values@.len() > 0,
                    values@[0] is BoolValue,
                    forall|j: int| 0 <= j < i ==> values@[j] == wire::AnyValue::BoolValue(out@[j]),
                decreases values.len() - i,
            {
                match &values[i] {
                    wire::AnyValue::BoolValue(b) => out.push(*b),
                    _ => {
                        assert forall|v: ValueView| readable_value(v) implies !encodes_value(w, v) by {
                            if encodes_value(w, v) {
                                assert(array_values(w)[i as int] == values@[i as int]);
                                assert(array_values(w)[0] == values@[0]);
                            }
                        }
                        return None;
                    },
                }
                i += 1;
            }
            Some(Value::Array(Array::Bool(out)))
        },
        wire::AnyValue::IntValue(_) => {
            let mut out: Vec<i64> = Vec::new();
            let mut i: usize = 0;
            while i < values.len()
                invariant
                    i <= values@.len(),
                    out@.len() == i,
                    w == wire::AnyValue::ArrayValue(*array),
                    values@ == array.values@,
                    values@.len() > 0,
                    values@[0] is IntValue,
                    forall|j: int| 0 <= j < i ==> values@[j] == wire::AnyValue::IntValue(out@[j]),
                decreases values.len() - i,
            {
                match &values[i] {
                    wire::AnyValue::IntValue(x) => out.push(*x),
                    _ => {
                        assert forall|v: ValueView| readable_value(v) implies !encodes_value(w, v) by {
                            if encodes_value(w, v) {
                                assert(array_values(w)[i as int] == values@[i as int]);
                                assert(array_values(w)[0] == values@[0]);
                            }
                        }
                        return None;
                    },
                }
                i += 1;
            }
            Some(Value::Array(Array::I64(out)))
        },
        wire::AnyValue::DoubleValue(_) => {
            let mut out: Vec<u64> = Vec::new();
            let mut i: usize = 0;
            while i < values.len()
                invariant
                    i <= values@.len(),
                    out@.len() == i,
                    w == wire::AnyValue::ArrayValue(*array),
                    values@ == array.values@,
                    values@.len() > 0,
                    values@[0] is DoubleValue,
                    forall|j: int| 0 <= j < i ==> values@[j] == wire::AnyValue::DoubleValue(out@[j]),
                decreases values.len() - i,
            {
                match &values[i] {
                    wire::AnyValue::DoubleValue(x) => out.push(*x),
                    _ => {
                        assert forall|v: ValueView| readable_value(v) implies !encodes_value(w, v) by {
                            if encodes_value(w, v) {
                                assert(array_values(w)[i as int] == values@[i as int]);
                                assert(array_values(w)[0] == values@[0]);
                            }
                        }
                        return None;
                    },
                }
                i += 1;
            }
            Some(Value::Array(Array::F64(out)))
        },
        wire::AnyValue::StringValue(_) => {
            let mut out: Vec<String> = Vec::new();
            let mut i: usize = 0;
            while i < values.len()
                invariant
                    i <= values@.len(),
                    out@.len() == i,
                    w == wire::AnyValue::ArrayValue(*array),
                    values@ == array.values@,
                    values@.len() > 0,
                    values@[0] is StringValue,
                    forall|j: int| 0 <= j < i ==> is_string_value(values@[j], out@[j]@),
                decreases values.len() - i,
            {
                match &values[i] {
                    wire::AnyValue::StringValue(x) => out.push(x.clone()),
                    _ => {
                        assert forall|v: ValueView| readable_value(v) implies !encodes_value(w, v) by {
                            if encodes_value(w, v) {
                                assert(array_values(w)[i as int] == values@[i as int]);
                                assert(array_values(w)[0] == values@[0]);
                            }
                        }
                        return None;
                    },
                }
                i += 1;
            }
            Some(Value::Array(Array::String(out)))
        },
        _ => {
            assert forall|v: ValueView| readable_value(v) implies !encodes_value(w, v) by {
                if encodes_value(w, v) {
                    assert(array_values(w)[0] == values@[0]);
                }
            }
            None
        },
    }
}

/// The attribute value whose wire form is `w`, when one reads back as itself.
fn decode_value(w: &wire::AnyValue) -> (r: Option<Value>)
    ensures
        r matches Some(v) ==> encodes_value(*w, v@) && readable_value(v@),
        r is None ==> forall|v: ValueView| readable_value(v) ==> !encodes_value(*w, v),
{
    match w {
        wire::AnyValue::BoolValue(b) => Some(Value::Bool(*b)),
        wire::AnyValue::IntValue(i) => Some(Value::I64(*i)),
        wire::AnyValue::DoubleValue(f) => Some(Value::F64(*f)),
        wire::AnyValue::StringValue(s) => Some(Value::String(s.clone())),
        wire::AnyValue::ArrayValue(a) => decode_array(a),
        _ => None,
    }
}

fn decode_attributes(w: &Vec<wire::KeyValue>) -> (r: Option<Vec<KeyValue>>)
    ensures
        r matches Some(a) ==> encodes_attributes(w@, attributes_view(a@)) && readable_attributes(
            attributes_view(a@),
        ),
        r is None ==> forall|a: Seq<KeyValueView>| readable_attributes(a) ==> !encodes_attributes(w@, a),
{
    let mut out: Vec<KeyValue> = Vec::with_capacity(w.len());
    let mut i: usize = 0;
    while i < w.len()
        invariant
            i <= w@.len(),
            out@.len() == i,
            forall|j: int| 0 <= j < i ==> encodes_key_value(#[trigger] w@[j], out@[j]@),
            forall|j: int| 0 <= j < i ==> readable_value(#[trigger] out@[j]@.value),
        decreases w.len() - i,
    {
        match decode_value(&w[i].value) {
            Some(value) => out.push(KeyValue { key: w[i].key.clone(), value }),
            None => {
                assert forall|a: Seq<KeyValueView>| readable_attributes(a) implies !encodes_attributes(w@, a) by {
                    if encodes_attributes(w@, a) {
                        assert(encodes_key_value(w@[i as int], a[i as int]));
                    }
                }
                return None;
            },
        }
        i += 1;
    }
    proof {
        assert forall|j: int| 0 <= j < out@.len() implies readable_value(
            #[trigger] attributes_view(out@)[j].value,
        ) by {
            assert(attributes_view(out@)[j] == out@[j]@);
        }
    }
    Some(out)
}

/// The span record whose wire form is `w`, with `scope` as its scope, when a
/// readable record has that wire form.
pub fn decode_span(w: &wire::Span, scope: InstrumentationScope) -> (r: Option<SpanRecord>)
    ensures
        r matches Some(s) ==> encodes_span(*w, s) && readable_span(s) && s.instrumentation_scope
            == scope,
        r is None ==> forall|s: SpanRecord| readable_span(s) ==> !encodes_span(*w, s),
{
    let trace_id = match fixed_id::<16>(&w.trace_id) {
        Some(id) => id,
        None => return None,
    };
    let span_id = match fixed_id::<8>(&w.span_id) {
        Some(id) => id,
        None => return None,
    };
    let parent_span_id = match fixed_id::<8>(&w.parent_span_id) {
        Some(id) => id,
        None => return None,
    };
    let kind = match decode_kind(w.kind) {
        Some(k) => k,
        None => return None,
    };
    let status = match decode_status(&w.status) {
        Some(s) => s,
        None => return None,
    };
    let attributes = match decode_attributes(&w.attributes) {
        Some(a) => a,
        None => return None,
    };
    let mut events: Vec<Event> = Vec::with_capacity(w.events.len());
    let mut i: usize = 0;
    while i < w.events.len()
        invariant
            i <= w.events@.len(),
            events@.len() == i,
            forall|j: int| 0 <= j < i ==> encodes_event(#[trigger] w.events@[j], events@[j]),
            forall|j: int| 0 <= j < i ==> readable_attributes(attributes_view(#[trigger] events@[j].attributes@)),
        decreases w.events.len() - i,
    {
        let e = &w.events[i];
        match decode_attributes(&e.attributes) {
            Some(a) => events.push(Event {
                time_unix_nano: e.time_unix_nano,
                name: e.name.clone(),
                attributes: a,
                dropped_attributes_count: e.dropped_attributes_count,
            }),
            None => {
                assert forall|s: SpanRecord| readable_span(s) implies !encodes_span(*w, s) by {
                    if encodes_span(*w, s) {
                        assert(encodes_event(w.events@[i as int], s.events@[i as int]));
                    }
                }
                return None;
            },
        }
        i += 1;
    }
    let mut links: Vec<Link> = Vec::with_capacity(w.links.len());
    let mut i: usize = 0;
    while i < w.links.len()
        invariant
            i <= w.links@.len(),
            links@.len() == i,
            forall|j: int| 0 <= j < i ==> encodes_link(#[trigger] w.links@[j], links@[j]),
            forall|j: int| 0 <= j < i ==> readable_attributes(attributes_view(#[trigger] links@[j].attributes@)),
        decreases w.links.len() - i,
    {
        let l = &w.links[i];
        let link_trace_id = fixed_id::<16>(&l.trace_id);
        let link_span_id = fixed_id::<8>(&l.span_id);
        let link_attributes = decode_attributes(&l.attributes);
        match (link_trace_id, link_span_id, link_attributes) {
            (Some(t), Some(sp), Some(a)) => links.push(Link {
                trace_id: t,
                span_id: sp,
                trace_state: l.trace_state.clone(),
                attributes: a,
                flags: l.flags,
                dropped_attributes_count: l.dropped_attributes_count,
            }),
            _ => {
                assert forall|s: SpanRecord| readable_span(s) implies !encodes_span(*w, s) by {
                    if encodes_span(*w, s) {
                        assert(encodes_link(w.links@[i as int], s.links@[i as int]));
                    }
                }
                return None;
            },
        }
        i += 1;
    }
    Some(SpanRecord {
        trace_id,
        span_id,
        parent_span_id,
        trace_state: w.trace_state.clone(),
        flags: w.flags,
        name: w.name.clone(),
        kind,
        start_time_unix_nano: w.start_time_unix_nano,
        end_time_unix_nano: w.end_time_unix_nano,
        attributes,
        dropped_attributes_count: w.dropped_attributes_count,
        events,
        dropped_events_count: w.dropped_events_count,
        links,
        dropped_links_count: w.dropped_links_count,
        status,
        instrumentation_scope: scope,
    })
}

} // verus!
