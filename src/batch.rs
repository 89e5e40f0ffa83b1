//! A batch as the worker receives it, and its grouping for transmission: one
//! resource per batch, and within it one group per distinct instrumentation
//! scope, in order of first appearance.
use vstd::prelude::*;

use crate::model::{option_view, InstrumentationScope, Resource, ScopeView, SpanRecord};
use crate::transform::text_or_empty;

verus! {

/// A batch of spans together with the resource installed when it was
/// admitted.
#[derive(Clone, Debug, PartialEq)]
pub struct SpanRequest {
    pub batch: Vec<SpanRecord>,
    pub resource: Resource,
}

/// The spans of one batch under their common resource.
#[derive(Clone, Debug, PartialEq)]
pub struct ResourceSpans {
    pub resource: Resource,
    pub scope_spans: Vec<ScopeSpans>,
    pub schema_url: String,
}

/// The spans of one batch that share an instrumentation scope.
#[derive(Clone, Debug, PartialEq)]
pub struct ScopeSpans {
    pub scope: Option<InstrumentationScope>,
    pub spans: Vec<SpanRecord>,
    pub schema_url: String,
}

impl ScopeSpans {
    pub fn len(&self) -> (r: usize)
        ensures
            r == self.spans@.len(),
    {
        self.spans.len()
    }

    pub fn is_empty(&self) -> (r: bool)
        ensures
            r == (self.spans@.len() == 0),
    {
        self.spans.len() == 0
    }

    /// Whether this group's scope is `scope`.
    pub fn has_scope(&self, scope: &InstrumentationScope) -> (r: bool)
        ensures
            r == (scope_view_of(self.scope) == Some(scope@)),
    {
        match &self.scope {
            Some(own) => *own == *scope,
            None => false,
        }
    }

    pub fn get_scope(&self) -> (r: Option<&InstrumentationScope>)
        ensures
            r.is_some() == self.scope.is_some(),
            r.is_some() ==> *r.unwrap() == self.scope.unwrap(),
    {
        match &self.scope {
            Some(scope) => Some(scope),
            None => None,
        }
    }
}

/// The distinct scopes of a batch, in order of first appearance.
pub open spec fn batch_scopes(batch: Seq<SpanRecord>) -> Seq<ScopeView>
    decreases batch.len(),
{
    if batch.len() == 0 {
        Seq::empty()
    } else {
        let earlier = batch_scopes(batch.drop_last());
        let scope = batch.last().instrumentation_scope@;
        if earlier.contains(scope) {
            earlier
        } else {
            earlier.push(scope)
        }
    }
}

/// The spans of a batch whose scope is `scope`, in batch order.
pub open spec fn spans_of_scope(batch: Seq<SpanRecord>, scope: ScopeView) -> Seq<SpanRecord>
    decreases batch.len(),
{
    if batch.len() == 0 {
        Seq::empty()
    } else {
        let earlier = spans_of_scope(batch.drop_last(), scope);
        if batch.last().instrumentation_scope@ == scope {
            earlier.push(batch.last())
        } else {
            earlier
        }
    }
}

pub open spec fn scope_view_of(scope: Option<InstrumentationScope>) -> Option<ScopeView> {
    match scope {
        Some(s) => Some(s@),
        None => None,
    }
}

/// `groups` is the grouping of `batch` by scope: one group per distinct
/// scope, in order of first appearance, each holding that scope's spans in
/// batch order and the scope's schema URL (empty when it has none).
pub open spec fn groups_batch(groups: Seq<ScopeSpans>, batch: Seq<SpanRecord>) -> bool {
    let scopes = batch_scopes(batch);
    &&& groups.len() == scopes.len()
    &&& forall|g: int|
        0 <= g < groups.len() ==> {
            &&& scope_view_of(#[trigger] groups[g].scope) == Some(scopes[g])
            &&& groups[g].spans@ == spans_of_scope(batch, scopes[g])
            &&& groups[g].schema_url@ == text_or_empty(scopes[g].schema_url)
        }
}

pub proof fn lemma_scopes_distinct(batch: Seq<SpanRecord>)
    ensures
        batch_scopes(batch).no_duplicates(),
    decreases batch.len(),
{
    if batch.len() > 0 {
        lemma_scopes_distinct(batch.drop_last());
    }
}

/// A scope that no span of the batch has owns no span of it.
pub proof fn lemma_absent_scope_has_no_spans(batch: Seq<SpanRecord>, scope: ScopeView)
    requires
        !batch_scopes(batch).contains(scope),
    ensures
        spans_of_scope(batch, scope) == Seq::<SpanRecord>::empty(),
    decreases batch.len(),
{
    if batch.len() > 0 {
        let earlier = batch_scopes(batch.drop_last());
        if earlier.contains(scope) {
            let i = choose|i: int| 0 <= i < earlier.len() && earlier[i] == scope;
            if earlier.contains(batch.last().instrumentation_scope@) {
            } else {
                assert(batch_scopes(batch)[i] == scope);
            }
        }
        if batch.last().instrumentation_scope@ == scope {
            if earlier.contains(scope) {
            } else {
                assert(batch_scopes(batch).last() == scope);
            }
        }
        lemma_absent_scope_has_no_spans(batch.drop_last(), scope);
    }
}

fn schema_url_of(scope: &InstrumentationScope) -> (r: String)
    ensures
        r@ == text_or_empty(scope@.schema_url),
{
    match &scope.schema_url {
        Some(url) => url.clone(),
        None => String::new(),
    }
}

/// Splits a batch into one group per distinct instrumentation scope, under
/// the batch's single resource.
pub fn group_spans_by_resource_and_scope(span_request: SpanRequest) -> (r: Vec<ResourceSpans>)
    ensures
        r@.len() == 1,
        r@[0].resource == span_request.resource,
        r@[0].schema_url@ == text_or_empty(option_view(span_request.resource.schema_url)),
        groups_batch(r@[0].scope_spans@, span_request.batch@),
{
    let SpanRequest { batch, resource } = span_request;
    let ghost all = batch@;
    let mut groups: Vec<ScopeSpans> = Vec::new();
    for span in it: batch.into_iter()
        invariant
            it.seq() == all,
            groups_batch(groups@, all.take(it.index() as int)),
    {
        let ghost done = all.take(it.index() as int);
        proof {
            assert(all.take(it.index() + 1).drop_last() =~= done);
            lemma_scopes_distinct(done);
        }
        let mut k: usize = 0;
        while k < groups.len() && !groups[k].has_scope(&span.instrumentation_scope)
            invariant
                k <= groups@.len(),
                forall|g: int| 0 <= g < k ==> batch_scopes(done)[g] != span.instrumentation_scope@,
                groups_batch(groups@, done),
            decreases groups.len() - k,
        {
            k += 1;
        }
        if k < groups.len() {
            groups[k].spans.push(span);
        } else {
            proof {
                lemma_absent_scope_has_no_spans(done, span.instrumentation_scope@);
            }
            let scope = span.instrumentation_scope.duplicate();
            let schema_url = schema_url_of(&scope);
            let mut spans: Vec<SpanRecord> = Vec::new();
            spans.push(span);
            groups.push(ScopeSpans { scope: Some(scope), spans, schema_url });
        }
    }
    proof {
        assert(all.take(all.len() as int) =~= all);
    }
    let schema_url = match &resource.schema_url {
        Some(url) => url.clone(),
        None => String::new(),
    };
    let mut out: Vec<ResourceSpans> = Vec::new();
    out.push(ResourceSpans { resource, scope_spans: groups, schema_url });
    out
}

} // verus!
