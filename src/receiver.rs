//! The receiver's side of an export call: counting what arrived, the
//! default acknowledgement, and how the exporter reads a reply.
use vstd::prelude::*;

use crate::request::wire_span_total;
use crate::retry::{min_int, CallOutcome};
use crate::wire;

verus! {

/// The number of spans over a list of resource groups.
pub open spec fn request_span_total(rs: Seq<wire::ResourceSpans>) -> int
    decreases rs.len(),
{
    if rs.len() == 0 {
        0
    } else {
        request_span_total(rs.drop_last()) + wire_span_total(rs.last().scope_spans@)
    }
}

fn scope_spans_count(ss: &Vec<wire::ScopeSpans>) -> (r: u64)
    ensures
        r == min_int(wire_span_total(ss@), u64::MAX as int),
{
    let mut total: u64 = 0;
    let mut i: usize = 0;
    while i < ss.len()
        invariant
            i <= ss@.len(),
            total == min_int(wire_span_total(ss@.take(i as int)), u64::MAX as int),
        decreases ss.len() - i,
    {
        proof {
            assert(ss@.take(i + 1).drop_last() =~= ss@.take(i as int));
            lemma_wire_total_nonneg(ss@.take(i as int));
        }
        let n = ss[i].spans.len() as u64;
        total = total.saturating_add(n);
        i += 1;
    }
    proof {
        assert(ss@.take(ss@.len() as int) =~= ss@);
    }
    total
}

proof fn lemma_wire_total_nonneg(ss: Seq<wire::ScopeSpans>)
    ensures
        wire_span_total(ss) >= 0,
    decreases ss.len(),
{
    if ss.len() > 0 {
        lemma_wire_total_nonneg(ss.drop_last());
    }
}

proof fn lemma_request_total_nonneg(rs: Seq<wire::ResourceSpans>)
    ensures
        request_span_total(rs) >= 0,
    decreases rs.len(),
{
    if rs.len() > 0 {
        lemma_request_total_nonneg(rs.drop_last());
        lemma_wire_total_nonneg(rs.last().scope_spans@);
    }
}

/// The number of spans a request carries, saturated at `u64::MAX`.
pub fn received_span_count(request: &wire::ExportTraceServiceRequest) -> (r: u64)
    ensures
        r == min_int(request_span_total(request.resource_spans@), u64::MAX as int),
{
    let rs = &request.resource_spans;
    let mut total: u64 = 0;
    let mut i: usize = 0;
    while i < rs.len()
        invariant
            i <= rs@.len(),
            total == min_int(request_span_total(rs@.take(i as int)), u64::MAX as int),
        decreases rs.len() - i,
    {
        proof {
            assert(rs@.take(i + 1).drop_last() =~= rs@.take(i as int));
            lemma_request_total_nonneg(rs@.take(i as int));
            lemma_wire_total_nonneg(rs@[i as int].scope_spans@);
        }
        let n = scope_spans_count(&rs[i].scope_spans);
        total = total.saturating_add(n);
        i += 1;
    }
    proof {
        assert(rs@.take(rs@.len() as int) =~= rs@);
    }
    total
}

/// The sum of a list of counts.
pub open spec fn sum_of(counts: Seq<u64>) -> int
    decreases counts.len(),
{
    if counts.len() == 0 {
        0
    } else {
        sum_of(counts.drop_last()) + counts.last()
    }
}

proof fn lemma_sum_nonneg(counts: Seq<u64>)
    ensures
        sum_of(counts) >= 0,
    decreases counts.len(),
{
    if counts.len() > 0 {
        lemma_sum_nonneg(counts.drop_last());
    }
}

/// The number of spans over groups of the given sizes, saturated at
/// `u64::MAX`: what the receiver reports for a call it read group by group.
pub fn span_total(group_sizes: &Vec<u64>) -> (r: u64)
    ensures
        r == min_int(sum_of(group_sizes@), u64::MAX as int),
{
    let mut total: u64 = 0;
    let mut i: usize = 0;
    while i < group_sizes.len()
        invariant
            i <= group_sizes@.len(),
            total == min_int(sum_of(group_sizes@.take(i as int)), u64::MAX as int),
        decreases group_sizes.len() - i,
    {
        proof {
            assert(group_sizes@.take(i + 1).drop_last() =~= group_sizes@.take(i as int));
            lemma_sum_nonneg(group_sizes@.take(i as int));
        }
        total = total.saturating_add(group_sizes[i]);
        i += 1;
    }
    proof {
        assert(group_sizes@.take(group_sizes@.len() as int) =~= group_sizes@);
    }
    total
}

/// The default handler's reply: every span accepted, no error message.
pub fn acknowledge() -> (r: wire::ExportTraceServiceResponse)
    ensures
        r.partial_success.rejected_spans == 0,
        r.partial_success.error_message@ == Seq::<char>::empty(),
{
    wire::ExportTraceServiceResponse {
        partial_success: wire::ExportTracePartialSuccess {
            rejected_spans: 0,
            error_message: String::new(),
        },
    }
}

/// How the exporter reads a reply: delivered, with the count of spans the
/// collector rejected. A rejection does not fail the call.
pub fn reply_outcome(response: &wire::ExportTraceServiceResponse) -> (r: CallOutcome)
    ensures
        r == (CallOutcome::Delivered { rejected_spans: response.partial_success.rejected_spans }),
{
    CallOutcome::Delivered { rejected_spans: response.partial_success.rejected_spans }
}

} // verus!
