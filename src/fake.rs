//! Synthetic batches for benchmarks and tests: copies of one minimal span.
use vstd::prelude::*;

use crate::batch::SpanRequest;
use crate::model::{option_view, InstrumentationScope, Resource, SpanKind, SpanRecord, Status};
use crate::transform::{span_flags, CONTEXT_HAS_IS_REMOTE_MASK, CONTEXT_IS_REMOTE_MASK};

verus! {

/// The trace identifier of the synthetic span, `0x0123456789abcdef0123456789abcdef`.
pub const TEST_TRACE_ID: [u8; 16] = [
    0x01, 0x23, 0x45, 0x67, 0x89, 0xab, 0xcd, 0xef, 0x01, 0x23, 0x45, 0x67, 0x89, 0xab, 0xcd, 0xef,
];

/// The span identifier of the synthetic span, `0x0123456789abcdef`.
pub const TEST_SPAN_ID: [u8; 8] = [0x01, 0x23, 0x45, 0x67, 0x89, 0xab, 0xcd, 0xef];

/// The start and end time of the synthetic span, in Unix nanoseconds.
pub const TEST_SPAN_TIME_UNIX_NANO: u64 = 1_700_000_000_000_000_000;

/// The W3C `sampled` trace flag.
pub const SAMPLED: u8 = 1;

/// The synthetic span: a sampled, local, parentless internal span named
/// `benchmark-span` of the scope `my app` 1.0, with no attributes, events or
/// links, no dropped counts, an unset status and an empty trace state, whose
/// scope carries the schema URL `www.myapp` and no attributes.
pub open spec fn is_test_span(s: SpanRecord) -> bool {
    &&& s.trace_id == TEST_TRACE_ID
    &&& s.span_id == TEST_SPAN_ID
    &&& s.parent_span_id@ == seq![0u8; 8]
    &&& s.name@ == "benchmark-span"@
    &&& s.kind == SpanKind::Internal
    &&& s.start_time_unix_nano == TEST_SPAN_TIME_UNIX_NANO
    &&& s.end_time_unix_nano == TEST_SPAN_TIME_UNIX_NANO
    &&& s.attributes@.len() == 0
    &&& s.events@.len() == 0
    &&& s.links@.len() == 0
    &&& s.status == Status::Unset
    &&& s.trace_state@ == Seq::<char>::empty()
    &&& s.flags & 0xff == SAMPLED as u32
    &&& s.flags & CONTEXT_HAS_IS_REMOTE_MASK != 0
    &&& s.flags & CONTEXT_IS_REMOTE_MASK == 0
    &&& s.dropped_attributes_count == 0
    &&& s.dropped_events_count == 0
    &&& s.dropped_links_count == 0
    &&& s.instrumentation_scope.name@ == "my app"@
    &&& option_view(s.instrumentation_scope.version) == Some("1.0"@)
    &&& option_view(s.instrumentation_scope.schema_url) == Some("www.myapp"@)
    &&& s.instrumentation_scope.attributes@.len() == 0
}

fn create_test_span_data() -> (r: SpanRecord)
    ensures
        is_test_span(r),
{
    let scope = InstrumentationScope {
        name: "my app".to_owned(),
        version: Some("1.0".to_owned()),
        schema_url: Some("www.myapp".to_owned()),
        attributes: Vec::new(),
    };
    let parent_span_id = [0u8; 8];
    proof {
        assert(parent_span_id@ =~= seq![0u8; 8]);
    }
    SpanRecord {
        trace_id: TEST_TRACE_ID,
        span_id: TEST_SPAN_ID,
        parent_span_id,
        trace_state: String::new(),
        flags: span_flags(SAMPLED, Some(false)),
        name: "benchmark-span".to_owned(),
        kind: SpanKind::Internal,
        start_time_unix_nano: TEST_SPAN_TIME_UNIX_NANO,
        end_time_unix_nano: TEST_SPAN_TIME_UNIX_NANO,
        attributes: Vec::new(),
        dropped_attributes_count: 0,
        events: Vec::new(),
        dropped_events_count: 0,
        links: Vec::new(),
        dropped_links_count: 0,
        status: Status::Unset,
        instrumentation_scope: scope,
    }
}

/// Source of synthetic export batches.
pub struct FakeCapnp;

impl FakeCapnp {
    /// A batch of `num_spans` copies of the synthetic span under an empty
    /// resource.
    pub fn trace_service_request_with_spans(num_spans: usize) -> (r: SpanRequest)
        ensures
            r.batch@.len() == num_spans,
            forall|i: int| 0 <= i < num_spans ==> is_test_span(#[trigger] r.batch@[i]),
            r.resource.attributes@.len() == 0,
            r.resource.schema_url is None,
            r.resource.dropped_attributes_count == 0,
    {
        let mut batch: Vec<SpanRecord> = Vec::new();
        let mut i: usize = 0;
        while i < num_spans
            invariant
                i <= num_spans,
                batch@.len() == i,
                forall|j: int| 0 <= j < i ==> is_test_span(#[trigger] batch@[j]),
            decreases num_spans - i,
        {
            batch.push(create_test_span_data());
            i += 1;
        }
        let resource = Resource { attributes: Vec::new(), schema_url: None, dropped_attributes_count: 0 };
        SpanRequest { batch, resource }
    }
}

} // verus!
