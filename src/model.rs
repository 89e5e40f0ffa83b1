//! In-memory records handed to the encoder: finished spans with their
//! attributes, events, links and status, the instrumentation scope that
//! produced them, and the resource they describe.
use vstd::prelude::*;

verus! {

/// The role a span plays in a trace.
#[derive(Clone, Copy, Debug, PartialEq, Eq, Structural)]
pub enum SpanKind {
    Internal,
    Client,
    Server,
    Producer,
    Consumer,
}

/// The final status of a span.
#[derive(Clone, Debug, PartialEq)]
pub enum Status {
    Unset,
    Success,
    Error { description: String },
}

/// A homogeneous array attribute value. Doubles are held as their IEEE-754
/// bit pattern.
#[derive(Clone, Debug, PartialEq)]
pub enum Array {
    Bool(Vec<bool>),
    I64(Vec<i64>),
    F64(Vec<u64>),
    String(Vec<String>),
}

/// An attribute value. `F64` holds the IEEE-754 bit pattern of the double;
/// `Unsupported` stands for a value of a kind the wire schema cannot carry.
#[derive(Clone, Debug)]
pub enum Value {
    Bool(bool),
    I64(i64),
    F64(u64),
    String(String),
    Array(Array),
    Unsupported,
}

/// An attribute: a key and its value.
#[derive(Clone, Debug)]
pub struct KeyValue {
    pub key: String,
    pub value: Value,
}

/// A timestamped event recorded on a span.
#[derive(Clone, Debug, PartialEq)]
pub struct Event {
    pub time_unix_nano: u64,
    pub name: String,
    pub attributes: Vec<KeyValue>,
    pub dropped_attributes_count: u32,
}

/// A link from a span to another span context.
#[derive(Clone, Debug, PartialEq)]
pub struct Link {
    pub trace_id: [u8; 16],
    pub span_id: [u8; 8],
    pub trace_state: String,
    pub attributes: Vec<KeyValue>,
    pub flags: u32,
    pub dropped_attributes_count: u32,
}

/// The library (name, version, schema) that produced a span.
#[derive(Clone, Debug)]
pub struct InstrumentationScope {
    pub name: String,
    pub version: Option<String>,
    pub schema_url: Option<String>,
    pub attributes: Vec<KeyValue>,
}

/// The entity that produced a batch of spans.
#[derive(Clone, Debug, PartialEq)]
pub struct Resource {
    pub attributes: Vec<KeyValue>,
    pub schema_url: Option<String>,
    pub dropped_attributes_count: u32,
}

/// A finished span, ready to be encoded.
#[derive(Clone, Debug, PartialEq)]
pub struct SpanRecord {
    pub trace_id: [u8; 16],
    pub span_id: [u8; 8],
    /// All zero when the span has no parent.
    pub parent_span_id: [u8; 8],
    pub trace_state: String,
    pub flags: u32,
    pub name: String,
    pub kind: SpanKind,
    pub start_time_unix_nano: u64,
    pub end_time_unix_nano: u64,
    pub attributes: Vec<KeyValue>,
    pub dropped_attributes_count: u32,
    pub events: Vec<Event>,
    pub dropped_events_count: u32,
    pub links: Vec<Link>,
    pub dropped_links_count: u32,
    pub status: Status,
    pub instrumentation_scope: InstrumentationScope,
}

/// The mathematical content of a [`Value`].
pub ghost enum ValueView {
    Bool(bool),
    I64(i64),
    F64(u64),
    Str(Seq<char>),
    BoolArray(Seq<bool>),
    I64Array(Seq<i64>),
    F64Array(Seq<u64>),
    StrArray(Seq<Seq<char>>),
    Unsupported,
}

pub ghost struct KeyValueView {
    pub key: Seq<char>,
    pub value: ValueView,
}

/// The identity of an instrumentation scope: spans are grouped by it.
pub ghost struct ScopeView {
    pub name: Seq<char>,
    pub version: Option<Seq<char>>,
    pub schema_url: Option<Seq<char>>,
    pub attributes: Seq<KeyValueView>,
}

pub open spec fn string_views(v: Seq<String>) -> Seq<Seq<char>> {
    v.map_values(|s: String| s@)
}

pub open spec fn option_view(o: Option<String>) -> Option<Seq<char>> {
    match o {
        Some(s) => Some(s@),
        None => None,
    }
}

impl View for Value {
    type V = ValueView;

    open spec fn view(&self) -> ValueView {
        match self {
            Value::Bool(b) => ValueView::Bool(*b),
            Value::I64(i) => ValueView::I64(*i),
            Value::F64(f) => ValueView::F64(*f),
            Value::String(s) => ValueView::Str(s@),
            Value::Array(Array::Bool(v)) => ValueView::BoolArray(v@),
            Value::Array(Array::I64(v)) => ValueView::I64Array(v@),
            Value::Array(Array::F64(v)) => ValueView::F64Array(v@),
            Value::Array(Array::String(v)) => ValueView::StrArray(string_views(v@)),
            Value::Unsupported => ValueView::Unsupported,
        }
    }
}

impl View for KeyValue {
    type V = KeyValueView;

    open spec fn view(&self) -> KeyValueView {
        KeyValueView { key: self.key@, value: self.value@ }
    }
}

pub open spec fn attributes_view(a: Seq<KeyValue>) -> Seq<KeyValueView> {
    a.map_values(|kv: KeyValue| kv@)
}

impl View for InstrumentationScope {
    type V = ScopeView;

    open spec fn view(&self) -> ScopeView {
        ScopeView {
            name: self.name@,
            version: option_view(self.version),
            schema_url: option_view(self.schema_url),
            attributes: attributes_view(self.attributes@),
        }
    }
}

fn same_bools(a: &Vec<bool>, b: &Vec<bool>) -> (r: bool)
    ensures
        r == (a@ == b@),
{
    if a.len() != b.len() {
        return false;
    }
    let mut i: usize = 0;
    while i < a.len()
        invariant
            i <= a.len() == b.len(),
            forall|j: int| 0 <= j < i ==> a@[j] == b@[j],
        decreases a.len() - i,
    {
        if a[i] != b[i] {
            return false;
        }
        i += 1;
    }
    assert(a@ =~= b@);
    true
}

fn same_ints(a: &Vec<i64>, b: &Vec<i64>) -> (r: bool)
    ensures
        r == (a@ == b@),
{
    if a.len() != b.len() {
        return false;
    }
    let mut i: usize = 0;
    while i < a.len()
        invariant
            i <= a.len() == b.len(),
            forall|j: int| 0 <= j < i ==> a@[j] == b@[j],
        decreases a.len() - i,
    {
        if a[i] != b[i] {
            return false;
        }
        i += 1;
    }
    assert(a@ =~= b@);
    true
}

fn same_bits(a: &Vec<u64>, b: &Vec<u64>) -> (r: bool)
    ensures
        r == (a@ == b@),
{
    if a.len() != b.len() {
        return false;
    }
    let mut i: usize = 0;
    while i < a.len()
        invariant
            i <= a.len() == b.len(),
            forall|j: int| 0 <= j < i ==> a@[j] == b@[j],
        decreases a.len() - i,
    {
        if a[i] != b[i] {
            return false;
        }
        i += 1;
    }
    assert(a@ =~= b@);
    true
}

fn same_strings(a: &Vec<String>, b: &Vec<String>) -> (r: bool)
    ensures
        r == (string_views(a@) == string_views(b@)),
{
    if a.len() != b.len() {
        assert(string_views(a@).len() != string_views(b@).len());
        return false;
    }
    let mut i: usize = 0;
    while i < a.len()
        invariant
            i <= a.len() == b.len(),
            forall|j: int| 0 <= j < i ==> a@[j]@ == b@[j]@,
        decreases a.len() - i,
    {
        if a[i] != b[i] {
            assert(string_views(a@)[i as int] != string_views(b@)[i as int]);
            return false;
        }
        i += 1;
    }
    assert(string_views(a@) =~= string_views(b@));
    true
}

fn same_text(a: &Option<String>, b: &Option<String>) -> (r: bool)
    ensures
        r == (option_view(*a) == option_view(*b)),
{
    match (a, b) {
        (Some(x), Some(y)) => *x == *y,
        (None, None) => true,
        _ => false,
    }
}

impl PartialEq for Value {
    fn eq(&self, other: &Value) -> (r: bool) {
        match (self, other) {
            (Value::Bool(x), Value::Bool(y)) => *x == *y,
            (Value::I64(x), Value::I64(y)) => *x == *y,
            (Value::F64(x), Value::F64(y)) => *x == *y,
            (Value::String(x), Value::String(y)) => *x == *y,
            (Value::Array(Array::Bool(x)), Value::Array(Array::Bool(y))) => same_bools(x, y),
            (Value::Array(Array::I64(x)), Value::Array(Array::I64(y))) => same_ints(x, y),
            (Value::Array(Array::F64(x)), Value::Array(Array::F64(y))) => same_bits(x, y),
            (Value::Array(Array::String(x)), Value::Array(Array::String(y))) => same_strings(x, y),
            (Value::Unsupported, Value::Unsupported) => true,
            _ => false,
        }
    }
}

impl vstd::std_specs::cmp::PartialEqSpecImpl for Value {
    open spec fn obeys_eq_spec() -> bool {
        true
    }

    open spec fn eq_spec(&self, other: &Value) -> bool {
        self@ == other@
    }
}

impl PartialEq for KeyValue {
    fn eq(&self, other: &KeyValue) -> (r: bool) {
        self.key == other.key && self.value == other.value
    }
}

impl vstd::std_specs::cmp::PartialEqSpecImpl for KeyValue {
    open spec fn obeys_eq_spec() -> bool {
        true
    }

    open spec fn eq_spec(&self, other: &KeyValue) -> bool {
        self@ == other@
    }
}

fn same_attributes(a: &Vec<KeyValue>, b: &Vec<KeyValue>) -> (r: bool)
    ensures
        r == (attributes_view(a@) == attributes_view(b@)),
{
    if a.len() != b.len() {
        assert(attributes_view(a@).len() != attributes_view(b@).len());
        return false;
    }
    let mut i: usize = 0;
    while i < a.len()
        invariant
            i <= a.len() == b.len(),
            forall|j: int| 0 <= j < i ==> a@[j]@ == b@[j]@,
        decreases a.len() - i,
    {
        if a[i] != b[i] {
            assert(attributes_view(a@)[i as int] != attributes_view(b@)[i as int]);
            return false;
        }
        i += 1;
    }
    assert(attributes_view(a@) =~= attributes_view(b@));
    true
}

/// Scopes are equal when name, version, schema URL and attributes (in order)
/// are.
impl PartialEq for InstrumentationScope {
    fn eq(&self, other: &InstrumentationScope) -> (r: bool) {
        self.name == other.name && same_text(&self.version, &other.version) && same_text(
            &self.schema_url,
            &other.schema_url,
        ) && same_attributes(&self.attributes, &other.attributes)
    }
}

impl vstd::std_specs::cmp::PartialEqSpecImpl for InstrumentationScope {
    open spec fn obeys_eq_spec() -> bool {
        true
    }

    open spec fn eq_spec(&self, other: &InstrumentationScope) -> bool {
        self@ == other@
    }
}

fn copy_strings(v: &Vec<String>) -> (r: Vec<String>)
    ensures
        string_views(r@) == string_views(v@),
{
    let mut out: Vec<String> = Vec::with_capacity(v.len());
    let mut i: usize = 0;
    while i < v.len()
        invariant
            i <= v.len(),
            out@.len() == i,
            forall|j: int| 0 <= j < i ==> out@[j]@ == v@[j]@,
        decreases v.len() - i,
    {
        out.push(v[i].clone());
        i += 1;
    }
    assert(string_views(out@) =~= string_views(v@));
    out
}

fn copy_text(o: &Option<String>) -> (r: Option<String>)
    ensures
        option_view(r) == option_view(*o),
{
    match o {
        Some(s) => Some(s.clone()),
        None => None,
    }
}

impl Value {
    /// A value with the same content.
    pub fn duplicate(&self) -> (r: Value)
        ensures
            r@ == self@,
    {
        match self {
            Value::Bool(b) => Value::Bool(*b),
            Value::I64(i) => Value::I64(*i),
            Value::F64(f) => Value::F64(*f),
            Value::String(s) => Value::String(s.clone()),
            Value::Array(Array::Bool(v)) => {
                let c = v.clone();
                assert(c@ =~= v@);
                Value::Array(Array::Bool(c))
            },
            Value::Array(Array::I64(v)) => {
                let c = v.clone();
                assert(c@ =~= v@);
                Value::Array(Array::I64(c))
            },
            Value::Array(Array::F64(v)) => {
                let c = v.clone();
                assert(c@ =~= v@);
                Value::Array(Array::F64(c))
            },
            Value::Array(Array::String(v)) => Value::Array(Array::String(copy_strings(v))),
            Value::Unsupported => Value::Unsupported,
        }
    }
}

/// An attribute list with the same content, in the same order.
pub fn copy_attributes(a: &Vec<KeyValue>) -> (r: Vec<KeyValue>)
    ensures
        attributes_view(r@) == attributes_view(a@),
{
    let mut out: Vec<KeyValue> = Vec::with_capacity(a.len());
    let mut i: usize = 0;
    while i < a.len()
        invariant
            i <= a.len(),
            out@.len() == i,
            forall|j: int| 0 <= j < i ==> out@[j]@ == a@[j]@,
        decreases a.len() - i,
    {
        out.push(KeyValue { key: a[i].key.clone(), value: a[i].value.duplicate() });
        i += 1;
    }
    assert(attributes_view(out@) =~= attributes_view(a@));
    out
}

impl InstrumentationScope {
    /// A scope with the same identity.
    pub fn duplicate(&self) -> (r: InstrumentationScope)
        ensures
            r@ == self@,
    {
        InstrumentationScope {
            name: self.name.clone(),
            version: copy_text(&self.version),
            schema_url: copy_text(&self.schema_url),
            attributes: copy_attributes(&self.attributes),
        }
    }
}

impl Resource {
    /// A resource with the same attributes, schema URL and dropped count.
    pub fn duplicate(&self) -> (r: Resource)
        ensures
            attributes_view(r.attributes@) == attributes_view(self.attributes@),
            option_view(r.schema_url) == option_view(self.schema_url),
            r.dropped_attributes_count == self.dropped_attributes_count,
    {
        Resource {
            attributes: copy_attributes(&self.attributes),
            schema_url: copy_text(&self.schema_url),
            dropped_attributes_count: self.dropped_attributes_count,
        }
    }
}

} // verus!
