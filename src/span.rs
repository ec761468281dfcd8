//! The trace data model: identifiers, endpoints, annotations and spans.
use vstd::prelude::*;
use vstd::utf8::encode_utf8;

use crate::number::{is_json_number, json_number};
use crate::octets::{
    signed16, signed32, signed64, to_signed16, to_signed32, to_signed64, to_unsigned16, to_unsigned32,
    to_unsigned64, unsigned16, unsigned32, unsigned64,
};

verus! {

/// Unique 8-byte identifier of a span within a trace.
pub type SpanId = u64;

/// Microseconds since the Unix epoch.
pub type Timestamp = i64;

/// A length of time, in microseconds.
pub type Duration = i64;

pub assume_specification<T>[ rand::random::<T> ]() -> T
    where
        rand::distributions::Standard: rand::distributions::Distribution<T>,
;

#[verifier::external_type_specification]
#[verifier::external_body]
pub struct ExSystemTime(std::time::SystemTime);

/// Relies on `SystemTime::now`: reads the system clock.
#[verifier::external_body]
fn system_now() -> std::time::SystemTime {
    std::time::SystemTime::now()
}

/// Relies on `SystemTime::duration_since` from `UNIX_EPOCH`: whether `t`
/// is at or after the epoch, and its distance from it in whole
/// microseconds.
#[verifier::external_body]
fn micros_from_epoch(t: &std::time::SystemTime) -> (bool, u128) {
    match t.duration_since(std::time::UNIX_EPOCH) {
        Ok(d) => (true, d.as_micros()),
        Err(e) => (false, e.duration().as_micros()),
    }
}

/// A distance from the epoch, in microseconds, held to the range of a
/// timestamp.
pub open spec fn clamp_micros(after: bool, micros: u128) -> int {
    let m: int = if micros > i64::MAX as u128 { i64::MAX as int } else { micros as int };
    if after { m } else { -m }
}

fn to_timestamp(after: bool, micros: u128) -> (r: Timestamp)
    ensures
        r as int == clamp_micros(after, micros),
{
    let m: i64 = if micros > i64::MAX as u128 { i64::MAX } else { micros as i64 };
    if after { m } else { -m }
}

/// The current time, from the system clock; a clock set before the epoch
/// gives a negative timestamp.
pub fn now() -> Timestamp {
    let t = system_now();
    let (after, micros) = micros_from_epoch(&t);
    to_timestamp(after, micros)
}

/// The instant `secs` seconds and `nanos` nanoseconds after the epoch,
/// truncated to whole microseconds.
pub fn timestamp(secs: i64, nanos: u32) -> (r: Timestamp)
    requires
        i64::MIN <= secs * 1_000_000,
        secs * 1_000_000 + nanos / 1000 <= i64::MAX,
    ensures
        r == secs * 1_000_000 + nanos / 1000,
{
    let sub: i64 = (nanos / 1000) as i64;
    secs * 1_000_000 + sub
}

/// A random 64-bit identifier, drawn from the thread-local generator
/// of `rand`.
pub fn next_id() -> u64 {
    rand::random::<u64>()
}

/// Unique identifier for a trace, set on all spans within it.
#[derive(Clone, Copy, Debug, PartialEq, Eq, Structural)]
pub struct TraceId {
    pub lo: u64,
    pub hi: Option<u64>,
}

impl TraceId {
    /// A fresh 128-bit trace id.
    pub fn gen() -> (r: TraceId)
        ensures
            r.hi is Some,
    {
        TraceId { lo: next_id(), hi: Some(next_id()) }
    }
}

/// A network address of a host. The IP address is held as an integer
/// whose big-endian bytes are its octets.
#[derive(Clone, Copy, Debug, PartialEq, Eq, Structural)]
pub enum Address {
    V4 { ipv4: u32, port: u16 },
    V6 { ipv6: u128, port: u16 },
}

impl Address {
    pub open spec fn spec_port(&self) -> u16 {
        match self {
            Address::V4 { port, .. } => *port,
            Address::V6 { port, .. } => *port,
        }
    }

    pub fn port(&self) -> (r: u16)
        ensures
            r == self.spec_port(),
    {
        match self {
            Address::V4 { port, .. } => *port,
            Address::V6 { port, .. } => *port,
        }
    }
}

/// The network context of a service recording an annotation.
#[derive(Clone, Debug, PartialEq, Eq)]
pub struct Endpoint {
    /// Classifier of a source or destination in lowercase, such as "zipkin-server".
    pub name: Option<String>,
    pub addr: Option<Address>,
}

/// An event that explains latency, with the time it happened.
#[derive(Clone, Debug, PartialEq, Eq)]
pub struct Annotation {
    pub timestamp: Timestamp,
    /// Usually a short tag indicating an event.
    pub value: String,
    /// The host that recorded it.
    pub endpoint: Option<Endpoint>,
}

impl Annotation {
    /// Attributes the event to `endpoint`.
    pub fn with_endpoint(&mut self, endpoint: Endpoint) -> (r: &mut Annotation)
        ensures
            *r == (Annotation { endpoint: Some(endpoint), ..*old(self) }),
            *final(self) == *final(r),
    {
        self.endpoint = Some(endpoint);
        self
    }

    /// An annotation stamped with the current time.
    pub fn new(value: &str, endpoint: Option<Endpoint>) -> (r: Annotation)
        ensures
            r.value@ == value@,
            r.endpoint == endpoint,
    {
        Annotation { timestamp: now(), value: value.to_owned(), endpoint }
    }
}

/// A floating-point annotation value: its IEEE-754 binary64 bit pattern,
/// and the shortest decimal text that reads back as that same number
/// (the form in which JSON carries it). The text is always a JSON number.
#[derive(Debug, PartialEq, Eq)]
pub struct Double {
    bits: u64,
    text: String,
}

impl Clone for Double {
    fn clone(&self) -> (r: Double)
        ensures
            r.spec_bits() == self.spec_bits(),
            r.spec_text() == self.spec_text(),
    {
        proof {
            use_type_invariant(self);
        }
        Double { bits: self.bits, text: self.text.clone() }
    }
}

impl Double {
    pub closed spec fn spec_bits(&self) -> u64 {
        self.bits
    }

    pub closed spec fn spec_text(&self) -> Seq<char> {
        self.text@
    }

    #[verifier::type_invariant]
    spec fn well_formed(&self) -> bool {
        is_json_number(encode_utf8(self.text@))
    }

    /// The value with bit pattern `bits` written as `text`; none unless
    /// `text` is a JSON number. That the two stand for the same number is
    /// the caller's to ensure.
    pub fn new(bits: u64, text: String) -> (r: Option<Double>)
        ensures
            r is Some <==> is_json_number(encode_utf8(text@)),
            r is Some ==> r->Some_0.spec_bits() == bits && r->Some_0.spec_text() == text@,
    {
        if json_number(text.as_str().as_bytes()) {
            Some(Double { bits, text })
        } else {
            None
        }
    }

    pub fn bits(&self) -> (r: u64)
        ensures
            r == self.spec_bits(),
    {
        self.bits
    }

    pub fn text(&self) -> (r: &str)
        ensures
            r@ == self.spec_text(),
            is_json_number(encode_utf8(r@)),
    {
        proof {
            use_type_invariant(self);
        }
        self.text.as_str()
    }
}

/// The typed payload of a binary annotation.
#[derive(Clone, Debug, PartialEq, Eq)]
pub enum Value {
    Bool(bool),
    Bytes(Vec<u8>),
    I16(i16),
    I32(i32),
    I64(i64),
    Double(Double),
    Str(String),
}

impl Value {
    pub fn as_bool(&self) -> (r: Option<bool>)
        ensures
            r == (match self {
                Value::Bool(v) => Some(*v),
                _ => None,
            }),
    {
        match self {
            Value::Bool(v) => Some(*v),
            _ => None,
        }
    }

    pub fn as_bytes(&self) -> (r: Option<&[u8]>)
        ensures
            match self {
                Value::Bytes(v) => r is Some && r->Some_0@ == v@,
                _ => r is None,
            },
    {
        match self {
            Value::Bytes(v) => Some(v.as_slice()),
            _ => None,
        }
    }

    pub fn as_i16(&self) -> (r: Option<i16>)
        ensures
            r == (match self {
                Value::I16(v) => Some(*v),
                _ => None,
            }),
    {
        match self {
            Value::I16(v) => Some(*v),
            _ => None,
        }
    }

    pub fn as_i32(&self) -> (r: Option<i32>)
        ensures
            r == (match self {
                Value::I32(v) => Some(*v),
                _ => None,
            }),
    {
        match self {
            Value::I32(v) => Some(*v),
            _ => None,
        }
    }

    pub fn as_i64(&self) -> (r: Option<i64>)
        ensures
            r == (match self {
                Value::I64(v) => Some(*v),
                _ => None,
            }),
    {
        match self {
            Value::I64(v) => Some(*v),
            _ => None,
        }
    }

    /// The 16-bit value read as unsigned.
    pub fn as_u16(&self) -> (r: Option<u16>)
        ensures
            r == (match self {
                Value::I16(v) => Some(unsigned16(*v)),
                _ => None,
            }),
    {
        match self {
            Value::I16(v) => Some(to_unsigned16(*v)),
            _ => None,
        }
    }

    /// The 32-bit value read as unsigned.
    pub fn as_u32(&self) -> (r: Option<u32>)
        ensures
            r == (match self {
                Value::I32(v) => Some(unsigned32(*v)),
                _ => None,
            }),
    {
        match self {
            Value::I32(v) => Some(to_unsigned32(*v)),
            _ => None,
        }
    }

    /// The 64-bit value read as unsigned.
    pub fn as_u64(&self) -> (r: Option<u64>)
        ensures
            r == (match self {
                Value::I64(v) => Some(unsigned64(*v)),
                _ => None,
            }),
    {
        match self {
            Value::I64(v) => Some(to_unsigned64(*v)),
            _ => None,
        }
    }

    pub fn as_double(&self) -> (r: Option<&Double>)
        ensures
            r == (match self {
                Value::Double(v) => Some(v),
                _ => None,
            }),
    {
        match self {
            Value::Double(v) => Some(v),
            _ => None,
        }
    }

    pub fn as_str(&self) -> (r: Option<&str>)
        ensures
            match self {
                Value::Str(v) => r is Some && r->Some_0@ == v@,
                _ => r is None,
            },
    {
        match self {
            Value::Str(v) => Some(v.as_str()),
            _ => None,
        }
    }
}

/// A boolean.
impl From<bool> for Value {
    fn from(v: bool) -> (r: Value)
        ensures
            r == Value::Bool(v),
    {
        Value::Bool(v)
    }
}

impl vstd::std_specs::convert::FromSpecImpl<bool> for Value {
    open spec fn obeys_from_spec() -> bool {
        true
    }

    open spec fn from_spec(v: bool) -> Value {
        Value::Bool(v)
    }
}

impl From<i16> for Value {
    fn from(v: i16) -> (r: Value)
        ensures
            r == Value::I16(v),
    {
        Value::I16(v)
    }
}

impl vstd::std_specs::convert::FromSpecImpl<i16> for Value {
    open spec fn obeys_from_spec() -> bool {
        true
    }

    open spec fn from_spec(v: i16) -> Value {
        Value::I16(v)
    }
}

impl From<i32> for Value {
    fn from(v: i32) -> (r: Value)
        ensures
            r == Value::I32(v),
    {
        Value::I32(v)
    }
}

impl vstd::std_specs::convert::FromSpecImpl<i32> for Value {
    open spec fn obeys_from_spec() -> bool {
        true
    }

    open spec fn from_spec(v: i32) -> Value {
        Value::I32(v)
    }
}

impl From<i64> for Value {
    fn from(v: i64) -> (r: Value)
        ensures
            r == Value::I64(v),
    {
        Value::I64(v)
    }
}

impl vstd::std_specs::convert::FromSpecImpl<i64> for Value {
    open spec fn obeys_from_spec() -> bool {
        true
    }

    open spec fn from_spec(v: i64) -> Value {
        Value::I64(v)
    }
}

/// The bits of the unsigned value, read as signed.
impl From<u16> for Value {
    fn from(v: u16) -> (r: Value)
        ensures
            r == Value::I16(signed16(v)),
    {
        Value::I16(to_signed16(v))
    }
}

impl vstd::std_specs::convert::FromSpecImpl<u16> for Value {
    open spec fn obeys_from_spec() -> bool {
        true
    }

    open spec fn from_spec(v: u16) -> Value {
        Value::I16(signed16(v))
    }
}

/// The bits of the unsigned value, read as signed.
impl From<u32> for Value {
    fn from(v: u32) -> (r: Value)
        ensures
            r == Value::I32(signed32(v)),
    {
        Value::I32(to_signed32(v))
    }
}

impl vstd::std_specs::convert::FromSpecImpl<u32> for Value {
    open spec fn obeys_from_spec() -> bool {
        true
    }

    open spec fn from_spec(v: u32) -> Value {
        Value::I32(signed32(v))
    }
}

/// The bits of the unsigned value, read as signed.
impl From<u64> for Value {
    fn from(v: u64) -> (r: Value)
        ensures
            r == Value::I64(signed64(v)),
    {
        Value::I64(to_signed64(v))
    }
}

impl vstd::std_specs::convert::FromSpecImpl<u64> for Value {
    open spec fn obeys_from_spec() -> bool {
        true
    }

    open spec fn from_spec(v: u64) -> Value {
        Value::I64(signed64(v))
    }
}

impl From<String> for Value {
    fn from(v: String) -> (r: Value)
        ensures
            r == Value::Str(v),
    {
        Value::Str(v)
    }
}

impl vstd::std_specs::convert::FromSpecImpl<String> for Value {
    open spec fn obeys_from_spec() -> bool {
        true
    }

    open spec fn from_spec(v: String) -> Value {
        Value::Str(v)
    }
}

impl From<Vec<u8>> for Value {
    fn from(v: Vec<u8>) -> (r: Value)
        ensures
            r == Value::Bytes(v),
    {
        Value::Bytes(v)
    }
}

impl vstd::std_specs::convert::FromSpecImpl<Vec<u8>> for Value {
    open spec fn obeys_from_spec() -> bool {
        true
    }

    open spec fn from_spec(v: Vec<u8>) -> Value {
        Value::Bytes(v)
    }
}

impl From<Double> for Value {
    fn from(v: Double) -> (r: Value)
        ensures
            r == Value::Double(v),
    {
        Value::Double(v)
    }
}

impl vstd::std_specs::convert::FromSpecImpl<Double> for Value {
    open spec fn obeys_from_spec() -> bool {
        true
    }

    open spec fn from_spec(v: Double) -> Value {
        Value::Double(v)
    }
}

/// A keyed tag with a typed payload.
#[derive(Clone, Debug, PartialEq, Eq)]
pub struct BinaryAnnotation {
    /// Name used to look spans up.
    pub key: String,
    pub value: Value,
    /// The host that recorded it.
    pub endpoint: Option<Endpoint>,
}

impl BinaryAnnotation {
    /// Attributes the value to `endpoint`.
    pub fn with_endpoint(&mut self, endpoint: Endpoint) -> (r: &mut BinaryAnnotation)
        ensures
            *r == (BinaryAnnotation { endpoint: Some(endpoint), ..*old(self) }),
            *final(self) == *final(r),
    {
        self.endpoint = Some(endpoint);
        self
    }

    pub fn new(key: &str, value: Value, endpoint: Option<Endpoint>) -> (r: BinaryAnnotation)
        ensures
            r.key@ == key@,
            r.value == value,
            r.endpoint == endpoint,
    {
        BinaryAnnotation { key: key.to_owned(), value, endpoint }
    }
}

/// One timed unit of work within a trace.
#[derive(Clone, Debug, PartialEq, Eq)]
pub struct Span {
    pub trace_id: TraceId,
    /// Span name in lowercase, rpc method for example.
    pub name: String,
    pub id: SpanId,
    /// The parent's id, or none for the root span of a trace.
    pub parent_id: Option<SpanId>,
    /// Start of the span.
    pub timestamp: Timestamp,
    /// Length of the critical path, once known.
    pub duration: Option<Duration>,
    pub annotations: Vec<Annotation>,
    pub binary_annotations: Vec<BinaryAnnotation>,
    /// A request to store this span even if it overrides sampling policy.
    pub debug: Option<bool>,
    /// Whether the sampling policy kept this span.
    pub sampled: Option<bool>,
}

/// Whether annotations on a span with these flags are recorded: when it is
/// marked for debugging, or not explicitly left out by sampling.
pub open spec fn records(debug: Option<bool>, sampled: Option<bool>) -> bool {
    debug == Some(true) || sampled != Some(false)
}

impl Span {
    /// Whether annotations on this span are recorded.
    pub open spec fn is_used(&self) -> bool {
        records(self.debug, self.sampled)
    }

    /// A root span of a fresh trace, started now.
    pub fn new(name: &str) -> (r: Span)
        ensures
            r.name@ == name@,
            r.trace_id.hi is Some,
            r.parent_id is None,
            r.duration is None,
            r.annotations@.len() == 0,
            r.binary_annotations@.len() == 0,
            r.debug is None,
            r.sampled is None,
    {
        Span {
            trace_id: TraceId::gen(),
            name: name.to_owned(),
            id: next_id(),
            parent_id: None,
            timestamp: now(),
            duration: None,
            annotations: Vec::new(),
            binary_annotations: Vec::new(),
            debug: None,
            sampled: None,
        }
    }

    pub fn with_trace_id(self, trace_id: TraceId) -> (r: Span)
        ensures
            r == (Span { trace_id, ..self }),
    {
        Span { trace_id, ..self }
    }

    pub fn with_id(self, id: SpanId) -> (r: Span)
        ensures
            r == (Span { id, ..self }),
    {
        Span { id, ..self }
    }

    pub fn with_parent_id(self, parent_id: SpanId) -> (r: Span)
        ensures
            r == (Span { parent_id: Some(parent_id), ..self }),
    {
        Span { parent_id: Some(parent_id), ..self }
    }

    pub fn with_debug(self, debug: bool) -> (r: Span)
        ensures
            r == (Span { debug: Some(debug), ..self }),
    {
        Span { debug: Some(debug), ..self }
    }

    pub fn with_sampled(self, sampled: bool) -> (r: Span)
        ensures
            r == (Span { sampled: Some(sampled), ..self }),
    {
        Span { sampled: Some(sampled), ..self }
    }
}

/// What recording the event `value` at `endpoint` does to span `a`,
/// giving `b`: the event is appended when `a` records annotations, and
/// nothing else changes.
pub open spec fn annotated(a: Span, b: Span, value: Seq<char>, endpoint: Option<Endpoint>) -> bool {
    &&& b == (Span { annotations: b.annotations, ..a })
    &&& a.is_used() ==> {
        &&& b.annotations@.len() == a.annotations@.len() + 1
        &&& b.annotations@.drop_last() == a.annotations@
        &&& b.annotations@.last().value@ == value
        &&& b.annotations@.last().endpoint == endpoint
    }
    &&& !a.is_used() ==> b.annotations == a.annotations
}

/// What recording the keyed value `value` does to span `a`, giving `b`:
/// the value is appended when `a` records annotations, and nothing else
/// changes.
pub open spec fn binary_annotated(
    a: Span,
    b: Span,
    key: Seq<char>,
    value: Value,
    endpoint: Option<Endpoint>,
) -> bool {
    &&& b == (Span { binary_annotations: b.binary_annotations, ..a })
    &&& a.is_used() ==> {
        &&& b.binary_annotations@.len() == a.binary_annotations@.len() + 1
        &&& b.binary_annotations@.drop_last() == a.binary_annotations@
        &&& b.binary_annotations@.last().key@ == key
        &&& b.binary_annotations@.last().value == value
        &&& b.binary_annotations@.last().endpoint == endpoint
    }
    &&& !a.is_used() ==> b.binary_annotations == a.binary_annotations
}

/// One annotate or binary-annotate call, taking span `a` to span `b`.
pub open spec fn annotation_step(a: Span, b: Span) -> bool {
    (exists|value: Seq<char>, endpoint: Option<Endpoint>| annotated(a, b, value, endpoint)) || (
    exists|key: Seq<char>, value: Value, endpoint: Option<Endpoint>|
        binary_annotated(a, b, key, value, endpoint))
}

/// However many annotate and binary-annotate calls are made on a span
/// that is not marked for debugging and that sampling explicitly left
/// out, it stays exactly as it was; a span marked for
/// debugging gains one annotation of one kind or the other with every
/// call, whatever its sampling.
pub proof fn lemma_annotation_calls(spans: Seq<Span>)
    requires
        spans.len() >= 1,
        forall|i: int| 1 <= i < spans.len() ==> #[trigger] annotation_step(spans[i - 1], spans[i]),
    ensures
        spans[0].debug != Some(true) && spans[0].sampled == Some(false) ==> spans.last()
            == spans[0],
        spans[0].debug == Some(true) ==> spans.last().annotations@.len()
            + spans.last().binary_annotations@.len() == spans[0].annotations@.len()
            + spans[0].binary_annotations@.len() + spans.len() - 1,
    decreases spans.len(),
{
    if spans.len() > 1 {
        let rest = spans.drop_last();
        assert forall|i: int| 1 <= i < rest.len() implies #[trigger] annotation_step(
            rest[i - 1],
            rest[i],
        ) by {
            assert(annotation_step(spans[i - 1], spans[i]));
        }
        lemma_annotation_calls(rest);
        let a = spans[spans.len() - 2];
        let b = spans.last();
        assert(annotation_step(spans[spans.len() - 2], spans[spans.len() - 1]));
        assert(rest.last() == a);
        assert(rest[0] == spans[0]);
        assert(a.debug == spans[0].debug && a.sampled == spans[0].sampled) by {
            lemma_flags_kept(spans, spans.len() - 2);
        }
    }
}

/// Annotating never changes the debug and sampling flags.
proof fn lemma_flags_kept(spans: Seq<Span>, k: int)
    requires
        0 <= k < spans.len(),
        forall|i: int| 1 <= i < spans.len() ==> #[trigger] annotation_step(spans[i - 1], spans[i]),
    ensures
        spans[k].debug == spans[0].debug,
        spans[k].sampled == spans[0].sampled,
    decreases k,
{
    if k > 0 {
        lemma_flags_kept(spans, k - 1);
        assert(annotation_step(spans[k - 1], spans[k]));
    }
}

/// Something that annotations can be recorded on.
pub trait Annotatable {
    /// Whether annotations are recorded.
    fn used(&self) -> bool;

    /// Records an event, stamped with the current time, if annotations
    /// are recorded.
    fn annotate(&mut self, value: &str, endpoint: Option<Endpoint>);

    /// Records a keyed value, if annotations are recorded.
    fn binary_annotate(&mut self, key: &str, value: Value, endpoint: Option<Endpoint>);
}

impl Annotatable for Span {
    fn used(&self) -> (r: bool)
        ensures
            r == self.is_used(),
    {
        match (self.debug, self.sampled) {
            (Some(true), _) => true,
            (_, Some(false)) => false,
            _ => true,
        }
    }

    fn annotate(&mut self, value: &str, endpoint: Option<Endpoint>)
        ensures
            annotated(*old(self), *final(self), value@, endpoint),
    {
        let ghost before = *self;
        if self.used() {
            self.annotations.push(Annotation::new(value, endpoint));
            assert(self.annotations@.drop_last() =~= before.annotations@);
        }
    }

    fn binary_annotate(&mut self, key: &str, value: Value, endpoint: Option<Endpoint>)
        ensures
            binary_annotated(*old(self), *final(self), key@, value, endpoint),
    {
        let ghost before = *self;
        if self.used() {
            self.binary_annotations.push(BinaryAnnotation::new(key, value, endpoint));
            assert(self.binary_annotations@.drop_last() =~= before.binary_annotations@);
        }
    }
}

impl Annotatable for Option<Span> {
    /// An absent span records nothing.
    fn used(&self) -> (r: bool)
        ensures
            r == (self is Some && self->Some_0.is_used()),
    {
        match self {
            Some(span) => span.used(),
            None => false,
        }
    }

    fn annotate(&mut self, value: &str, endpoint: Option<Endpoint>)
        ensures
            *old(self) is None ==> *final(self) is None,
            *old(self) is Some ==> *final(self) is Some && annotated(
                (*old(self))->Some_0,
                (*final(self))->Some_0,
                value@,
                endpoint,
            ),
    {
        match self {
            Some(span) => span.annotate(value, endpoint),
            None => {},
        }
    }

    fn binary_annotate(&mut self, key: &str, value: Value, endpoint: Option<Endpoint>)
        ensures
            *old(self) is None ==> *final(self) is None,
            *old(self) is Some ==> *final(self) is Some && binary_annotated(
                (*old(self))->Some_0,
                (*final(self))->Some_0,
                key@,
                value,
                endpoint,
            ),
    {
        match self {
            Some(span) => span.binary_annotate(key, value, endpoint),
            None => {},
        }
    }
}

} // verus!
