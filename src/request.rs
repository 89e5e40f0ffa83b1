//! The export request built from one batch, and what it preserves of the
//! batch: every span is sent exactly once, with its identifiers unchanged.
use vstd::prelude::*;

use crate::batch::{
    batch_scopes, group_spans_by_resource_and_scope, lemma_scopes_distinct,
    spans_of_scope, ResourceSpans, SpanRequest,
};
use crate::model::{option_view, ScopeView, SpanRecord};
use crate::transform::{
    encodes_resource, encodes_scope, encodes_scope_spans, encodes_spans, populate_resource,
    populate_scope_spans, same_ids, text_or_empty,
};
use crate::wire;

verus! {

/// `ws` holds one wire group per distinct scope of `batch`, in order of
/// first appearance, each with the wire form of that scope's spans.
pub open spec fn encodes_groups(ws: Seq<wire::ScopeSpans>, batch: Seq<SpanRecord>) -> bool {
    let scopes = batch_scopes(batch);
    &&& ws.len() == scopes.len()
    &&& forall|g: int|
        #![trigger ws[g]]
        0 <= g < ws.len() ==> {
            &&& encodes_scope(ws[g].scope, scopes[g])
            &&& encodes_spans(ws[g].spans@, spans_of_scope(batch, scopes[g]))
            &&& ws[g].schema_url@ == text_or_empty(scopes[g].schema_url)
        }
}

/// `w` is the request that carries `req`: exactly one resource group, holding
/// the resource and the batch grouped by scope.
pub open spec fn encodes_request(w: wire::ExportTraceServiceRequest, req: SpanRequest) -> bool {
    &&& w.resource_spans@.len() == 1
    &&& encodes_resource(w.resource_spans@[0].resource, req.resource)
    &&& w.resource_spans@[0].schema_url@ == text_or_empty(option_view(req.resource.schema_url))
    &&& encodes_groups(w.resource_spans@[0].scope_spans@, req.batch@)
}

/// Builds the argument of one `export` call from a batch.
pub fn build_export_request(span_request: SpanRequest) -> (r: wire::ExportTraceServiceRequest)
    ensures
        encodes_request(r, span_request),
{
    let ghost req = span_request;
    let mut grouped = group_spans_by_resource_and_scope(span_request);
    let resource_spans = grouped.pop().unwrap();
    let ResourceSpans { resource, scope_spans, schema_url } = resource_spans;
    let wire_resource = populate_resource(&resource);
    let ghost groups = scope_spans@;
    let mut wire_groups: Vec<wire::ScopeSpans> = Vec::with_capacity(scope_spans.len());
    for group in it: scope_spans.into_iter()
        invariant
            it.seq() == groups,
            wire_groups@.len() == it.index(),
            forall|g: int|
                0 <= g < it.index() ==> encodes_scope_spans(#[trigger] wire_groups@[g], groups[g]),
    {
        wire_groups.push(populate_scope_spans(group));
    }
    let r = wire::ExportTraceServiceRequest {
        resource_spans: vec![
            wire::ResourceSpans { resource: wire_resource, scope_spans: wire_groups, schema_url },
        ],
    };
    r
}

/// The number of spans over a list of wire groups.
pub open spec fn wire_span_total(ws: Seq<wire::ScopeSpans>) -> int
    decreases ws.len(),
{
    if ws.len() == 0 {
        0
    } else {
        wire_span_total(ws.drop_last()) + ws.last().spans@.len()
    }
}

/// The number of spans of `batch` over the groups of the scopes in `scopes`.
pub open spec fn scope_total(batch: Seq<SpanRecord>, scopes: Seq<ScopeView>) -> int
    decreases scopes.len(),
{
    if scopes.len() == 0 {
        0
    } else {
        scope_total(batch, scopes.drop_last()) + spans_of_scope(batch, scopes.last()).len()
    }
}

proof fn lemma_scope_total_push(batch: Seq<SpanRecord>, span: SpanRecord, scopes: Seq<ScopeView>)
    requires
        scopes.no_duplicates(),
    ensures
        scope_total(batch.push(span), scopes) == scope_total(batch, scopes) + if scopes.contains(
            span.instrumentation_scope@,
        ) {
            1int
        } else {
            0int
        },
    decreases scopes.len(),
{
    assert(batch.push(span).drop_last() =~= batch);
    if scopes.len() > 0 {
        let rest = scopes.drop_last();
        assert(rest.no_duplicates());
        lemma_scope_total_push(batch, span, rest);
        let sc = span.instrumentation_scope@;
        if scopes.contains(sc) {
            let i = choose|i: int| 0 <= i < scopes.len() && scopes[i] == sc;
            if i < scopes.len() - 1 {
                assert(rest[i] == sc);
                assert(scopes.last() != sc);
            } else {
                assert forall|j: int| 0 <= j < rest.len() implies rest[j] != sc by {
                    assert(scopes[j] == rest[j]);
                }
            }
        } else {
            assert forall|j: int| 0 <= j < rest.len() implies rest[j] != sc by {
                assert(scopes[j] == rest[j]);
            }
        }
    }
}

proof fn lemma_scope_total_is_len(batch: Seq<SpanRecord>)
    ensures
        scope_total(batch, batch_scopes(batch)) == batch.len(),
    decreases batch.len(),
{
    if batch.len() > 0 {
        let earlier = batch.drop_last();
        let span = batch.last();
        assert(earlier.push(span) =~= batch);
        lemma_scope_total_is_len(earlier);
        lemma_scopes_distinct(earlier);
        lemma_scope_total_push(earlier, span, batch_scopes(earlier));
        let sc = span.instrumentation_scope@;
        if !batch_scopes(earlier).contains(sc) {
            crate::batch::lemma_absent_scope_has_no_spans(earlier, sc);
            assert(batch_scopes(batch).drop_last() =~= batch_scopes(earlier));
        }
    }
}

proof fn lemma_wire_total(ws: Seq<wire::ScopeSpans>, batch: Seq<SpanRecord>, k: int)
    requires
        encodes_groups(ws, batch),
        0 <= k <= ws.len(),
    ensures
        wire_span_total(ws.take(k)) == scope_total(batch, batch_scopes(batch).take(k)),
    decreases k,
{
    if k > 0 {
        assert(ws.take(k).drop_last() =~= ws.take(k - 1));
        assert(batch_scopes(batch).take(k).drop_last() =~= batch_scopes(batch).take(k - 1));
        lemma_wire_total(ws, batch, k - 1);
        assert(encodes_spans(ws[k - 1].spans@, spans_of_scope(batch, batch_scopes(batch)[k - 1])));
    }
}

/// The groups of a request hold as many spans, all together, as the batch it
/// was built from.
pub proof fn lemma_span_count_preserved(w: wire::ExportTraceServiceRequest, req: SpanRequest)
    requires
        encodes_request(w, req),
    ensures
        wire_span_total(w.resource_spans@[0].scope_spans@) == req.batch@.len(),
{
    let ws = w.resource_spans@[0].scope_spans@;
    lemma_wire_total(ws, req.batch@, ws.len() as int);
    assert(ws.take(ws.len() as int) =~= ws);
    assert(batch_scopes(req.batch@).take(ws.len() as int) =~= batch_scopes(req.batch@));
    lemma_scope_total_is_len(req.batch@);
}

proof fn lemma_scope_listed(batch: Seq<SpanRecord>, i: int)
    requires
        0 <= i < batch.len(),
    ensures
        batch_scopes(batch).contains(batch[i].instrumentation_scope@),
    decreases batch.len(),
{
    let earlier = batch.drop_last();
    if i < batch.len() - 1 {
        lemma_scope_listed(earlier, i);
        let j = choose|j: int|
            0 <= j < batch_scopes(earlier).len() && batch_scopes(earlier)[j]
                == earlier[i].instrumentation_scope@;
        assert(batch_scopes(batch)[j] == batch[i].instrumentation_scope@);
    } else if !batch_scopes(earlier).contains(batch[i].instrumentation_scope@) {
        assert(batch_scopes(batch).last() == batch[i].instrumentation_scope@);
    }
}

proof fn lemma_span_in_its_group(batch: Seq<SpanRecord>, i: int)
    requires
        0 <= i < batch.len(),
    ensures
        spans_of_scope(batch, batch[i].instrumentation_scope@).contains(batch[i]),
    decreases batch.len(),
{
    let earlier = batch.drop_last();
    let sc = batch[i].instrumentation_scope@;
    if i < batch.len() - 1 {
        lemma_span_in_its_group(earlier, i);
        let j = choose|j: int|
            0 <= j < spans_of_scope(earlier, sc).len() && spans_of_scope(earlier, sc)[j]
                == earlier[i];
        assert(spans_of_scope(batch, sc)[j] == batch[i]);
    } else {
        assert(spans_of_scope(batch, sc).last() == batch[i]);
    }
}

proof fn lemma_group_member_in_batch(batch: Seq<SpanRecord>, scope: ScopeView, j: int)
    requires
        0 <= j < spans_of_scope(batch, scope).len(),
    ensures
        batch.contains(spans_of_scope(batch, scope)[j]),
    decreases batch.len(),
{
    let earlier = batch.drop_last();
    if j < spans_of_scope(earlier, scope).len() {
        lemma_group_member_in_batch(earlier, scope, j);
        let i = choose|i: int| 0 <= i < earlier.len() && earlier[i] == spans_of_scope(earlier, scope)[j];
        assert(batch[i] == earlier[i]);
    } else {
        assert(batch[batch.len() - 1] == spans_of_scope(batch, scope)[j]);
    }
}

/// Every span of the batch is sent with its trace, span and parent-span
/// identifiers unchanged, and every span sent carries the identifiers of a
/// span of the batch.
pub proof fn lemma_ids_preserved(w: wire::ExportTraceServiceRequest, req: SpanRequest)
    requires
        encodes_request(w, req),
    ensures
        forall|i: int|
            0 <= i < req.batch@.len() ==> exists|g: int, j: int|
                0 <= g < w.resource_spans@[0].scope_spans@.len() && 0 <= j
                    < w.resource_spans@[0].scope_spans@[g].spans@.len() && same_ids(
                    #[trigger] w.resource_spans@[0].scope_spans@[g].spans@[j],
                    #[trigger] req.batch@[i],
                ),
        forall|g: int, j: int|
            0 <= g < w.resource_spans@[0].scope_spans@.len() && 0 <= j
                < w.resource_spans@[0].scope_spans@[g].spans@.len() ==> exists|i: int|
                0 <= i < req.batch@.len() && same_ids(
                    #[trigger] w.resource_spans@[0].scope_spans@[g].spans@[j],
                    #[trigger] req.batch@[i],
                ),
{
    let ws = w.resource_spans@[0].scope_spans@;
    let batch = req.batch@;
    let scopes = batch_scopes(batch);
    assert forall|i: int| 0 <= i < batch.len() implies exists|g: int, j: int|
        0 <= g < ws.len() && 0 <= j < ws[g].spans@.len() && same_ids(
            #[trigger] ws[g].spans@[j],
            #[trigger] batch[i],
        ) by {
        let sc = batch[i].instrumentation_scope@;
        lemma_scope_listed(batch, i);
        let g = choose|g: int| 0 <= g < scopes.len() && scopes[g] == sc;
        lemma_span_in_its_group(batch, i);
        let members = spans_of_scope(batch, sc);
        let j = choose|j: int| 0 <= j < members.len() && members[j] == batch[i];
        assert(encodes_spans(ws[g].spans@, members));
        assert(same_ids(ws[g].spans@[j], batch[i]));
    }
    assert forall|g: int, j: int| 0 <= g < ws.len() && 0 <= j < ws[g].spans@.len() implies exists|
        i: int,
    | 0 <= i < batch.len() && same_ids(#[trigger] ws[g].spans@[j], #[trigger] batch[i]) by {
        let members = spans_of_scope(batch, scopes[g]);
        assert(encodes_spans(ws[g].spans@, members));
        lemma_group_member_in_batch(batch, scopes[g], j);
        let i = choose|i: int| 0 <= i < batch.len() && batch[i] == members[j];
        assert(same_ids(ws[g].spans@[j], batch[i]));
    }
}

} // verus!
