//! The Thrift schema's structs, filled from the span model.
use vstd::prelude::*;

use crate::octets::{
    be_bytes, push_be, signed16, signed32, signed64, to_signed16, to_signed32, to_signed64,
};
use crate::span::{Address, Annotation, BinaryAnnotation, Endpoint, Span, Value};
use crate::thrift::{millis, to_millis, value_bytes};

verus! {

/// The schema's code for the type of a binary annotation's value.
#[allow(non_camel_case_types)]
#[derive(Clone, Copy, Debug, PartialEq, Eq, Structural)]
pub enum AnnotationType {
    BOOL,
    BYTES,
    I16,
    I32,
    I64,
    DOUBLE,
    STRING,
}

#[derive(Clone, Debug, PartialEq, Eq)]
pub struct ThriftEndpoint {
    pub ipv4: Option<i32>,
    pub port: Option<i16>,
    pub service_name: Option<String>,
    pub ipv6: Option<Vec<u8>>,
}

#[derive(Clone, Debug, PartialEq, Eq)]
pub struct ThriftAnnotation {
    pub timestamp: Option<i64>,
    pub value: Option<String>,
    pub host: Option<ThriftEndpoint>,
}

#[derive(Clone, Debug, PartialEq, Eq)]
pub struct ThriftBinaryAnnotation {
    pub key: Option<String>,
    pub value: Option<Vec<u8>>,
    pub annotation_type: Option<AnnotationType>,
    pub host: Option<ThriftEndpoint>,
}

#[derive(Clone, Debug, PartialEq, Eq)]
pub struct ThriftSpan {
    pub trace_id: Option<i64>,
    pub name: Option<String>,
    pub id: Option<i64>,
    pub parent_id: Option<i64>,
    pub annotations: Option<Vec<ThriftAnnotation>>,
    pub binary_annotations: Option<Vec<ThriftBinaryAnnotation>>,
    pub debug: Option<bool>,
    pub timestamp: Option<i64>,
    pub duration: Option<i64>,
    pub trace_id_high: Option<i64>,
}

pub open spec fn same_text(m: Option<String>, s: Seq<char>) -> bool {
    m is Some && m->Some_0@ == s
}

/// `m` is the schema's form of `e`.
pub open spec fn endpoint_msg(e: Endpoint, m: ThriftEndpoint) -> bool {
    &&& m.ipv4 == (match e.addr {
        Some(Address::V4 { ipv4, .. }) => Some(signed32(ipv4)),
        _ => None,
    })
    &&& m.port == (match e.addr {
        Some(a) => Some(signed16(a.spec_port())),
        None => None,
    })
    &&& (m.service_name is Some <==> e.name is Some)
    &&& e.name is Some ==> same_text(m.service_name, e.name->Some_0@)
    &&& match e.addr {
        Some(Address::V6 { ipv6, .. }) => m.ipv6 is Some && m.ipv6->Some_0@ == be_bytes(
            ipv6 as nat,
            16,
        ),
        _ => m.ipv6 is None,
    }
}

pub open spec fn host_msg(e: Option<Endpoint>, m: Option<ThriftEndpoint>) -> bool {
    (m is Some <==> e is Some) && (e is Some ==> endpoint_msg(e->Some_0, m->Some_0))
}

pub open spec fn annotation_msg(a: Annotation, m: ThriftAnnotation) -> bool {
    &&& m.timestamp == Some(a.timestamp)
    &&& same_text(m.value, a.value@)
    &&& host_msg(a.endpoint, m.host)
}

pub open spec fn type_of(v: Value) -> AnnotationType {
    match v {
        Value::Bool(_) => AnnotationType::BOOL,
        Value::Bytes(_) => AnnotationType::BYTES,
        Value::I16(_) => AnnotationType::I16,
        Value::I32(_) => AnnotationType::I32,
        Value::I64(_) => AnnotationType::I64,
        Value::Double(_) => AnnotationType::DOUBLE,
        Value::Str(_) => AnnotationType::STRING,
    }
}

pub open spec fn binary_annotation_msg(b: BinaryAnnotation, m: ThriftBinaryAnnotation) -> bool {
    &&& same_text(m.key, b.key@)
    &&& m.value is Some && m.value->Some_0@ == value_bytes(b.value)
    &&& m.annotation_type == Some(type_of(b.value))
    &&& host_msg(b.endpoint, m.host)
}

/// `m` is the schema's form of `s`: ids as signed 64-bit integers, the
/// trace id split in halves, the duration in milliseconds, and empty
/// lists left out.
pub open spec fn span_msg(s: Span, m: ThriftSpan) -> bool {
    &&& m.trace_id == Some(signed64(s.trace_id.lo))
    &&& m.trace_id_high == (match s.trace_id.hi {
        Some(h) => Some(signed64(h)),
        None => None,
    })
    &&& same_text(m.name, s.name@)
    &&& m.id == Some(signed64(s.id))
    &&& m.parent_id == (match s.parent_id {
        Some(p) => Some(signed64(p)),
        None => None,
    })
    &&& (m.annotations is None <==> s.annotations@.len() == 0)
    &&& m.annotations is Some ==> {
        let v = m.annotations->Some_0@;
        &&& v.len() == s.annotations@.len()
        &&& forall|i: int| 0 <= i < v.len() ==> annotation_msg(s.annotations@[i], #[trigger] v[i])
    }
    &&& (m.binary_annotations is None <==> s.binary_annotations@.len() == 0)
    &&& m.binary_annotations is Some ==> {
        let v = m.binary_annotations->Some_0@;
        &&& v.len() == s.binary_annotations@.len()
        &&& forall|i: int|
            0 <= i < v.len() ==> binary_annotation_msg(s.binary_annotations@[i], #[trigger] v[i])
    }
    &&& m.debug == s.debug
    &&& m.timestamp == Some(s.timestamp)
    &&& m.duration == (match s.duration {
        Some(d) => Some(millis(d as int) as i64),
        None => None,
    })
}

fn text(s: &String) -> (r: String)
    ensures
        r@ == s@,
{
    s.as_str().to_owned()
}

pub fn endpoint_to_thrift(e: &Endpoint) -> (r: ThriftEndpoint)
    ensures
        endpoint_msg(*e, r),
{
    let ipv4 = match e.addr {
        Some(Address::V4 { ipv4, .. }) => Some(to_signed32(ipv4)),
        _ => None,
    };
    let port = match e.addr {
        Some(a) => Some(to_signed16(a.port())),
        None => None,
    };
    let service_name = match &e.name {
        Some(n) => Some(text(n)),
        None => None,
    };
    let ipv6 = match e.addr {
        Some(Address::V6 { ipv6, .. }) => {
            let mut b: Vec<u8> = Vec::new();
            push_be(&mut b, ipv6, 16);
            assert(b@ =~= be_bytes(ipv6 as nat, 16));
            Some(b)
        },
        _ => None,
    };
    ThriftEndpoint { ipv4, port, service_name, ipv6 }
}

fn host_to_thrift(e: &Option<Endpoint>) -> (r: Option<ThriftEndpoint>)
    ensures
        host_msg(*e, r),
{
    match e {
        Some(e) => Some(endpoint_to_thrift(e)),
        None => None,
    }
}

pub fn annotation_to_thrift(a: &Annotation) -> (r: ThriftAnnotation)
    ensures
        annotation_msg(*a, r),
{
    ThriftAnnotation {
        timestamp: Some(a.timestamp),
        value: Some(text(&a.value)),
        host: host_to_thrift(&a.endpoint),
    }
}

fn value_to_thrift(v: &Value) -> (r: (Vec<u8>, AnnotationType))
    ensures
        r.0@ == value_bytes(*v),
        r.1 == type_of(*v),
{
    let mut b: Vec<u8> = Vec::new();
    let ty = match v {
        Value::Bool(x) => {
            b.push(if *x { 1 } else { 0 });
            AnnotationType::BOOL
        },
        Value::Bytes(x) => {
            crate::octets::push_slice(&mut b, x.as_slice());
            AnnotationType::BYTES
        },
        Value::I16(x) => {
            crate::octets::push_i16(&mut b, *x);
            AnnotationType::I16
        },
        Value::I32(x) => {
            crate::octets::push_i32(&mut b, *x);
            AnnotationType::I32
        },
        Value::I64(x) => {
            crate::octets::push_i64(&mut b, *x);
            AnnotationType::I64
        },
        Value::Double(x) => {
            push_be(&mut b, x.bits() as u128, 8);
            AnnotationType::DOUBLE
        },
        Value::Str(x) => {
            crate::octets::push_slice(&mut b, x.as_str().as_bytes());
            AnnotationType::STRING
        },
    };
    assert(b@ =~= value_bytes(*v));
    (b, ty)
}

pub fn binary_annotation_to_thrift(b: &BinaryAnnotation) -> (r: ThriftBinaryAnnotation)
    ensures
        binary_annotation_msg(*b, r),
{
    let (value, ty) = value_to_thrift(&b.value);
    ThriftBinaryAnnotation {
        key: Some(text(&b.key)),
        value: Some(value),
        annotation_type: Some(ty),
        host: host_to_thrift(&b.endpoint),
    }
}

/// The schema's form of a span.
pub fn to_thrift(s: &Span) -> (r: ThriftSpan)
    ensures
        span_msg(*s, r),
{
    let annotations = if s.annotations.len() == 0 {
        None
    } else {
        let mut v: Vec<ThriftAnnotation> = Vec::new();
        let mut i: usize = 0;
        while i < s.annotations.len()
            invariant
                i <= s.annotations@.len(),
                v@.len() == i,
                forall|j: int| 0 <= j < i ==> annotation_msg(s.annotations@[j], #[trigger] v@[j]),
            decreases s.annotations@.len() - i,
        {
            v.push(annotation_to_thrift(&s.annotations[i]));
            i = i + 1;
        }
        Some(v)
    };
    let binary_annotations = if s.binary_annotations.len() == 0 {
        None
    } else {
        let mut v: Vec<ThriftBinaryAnnotation> = Vec::new();
        let mut i: usize = 0;
        while i < s.binary_annotations.len()
            invariant
                i <= s.binary_annotations@.len(),
                v@.len() == i,
                forall|j: int|
                    0 <= j < i ==> binary_annotation_msg(s.binary_annotations@[j], #[trigger] v@[j]),
            decreases s.binary_annotations@.len() - i,
        {
            v.push(binary_annotation_to_thrift(&s.binary_annotations[i]));
            i = i + 1;
        }
        Some(v)
    };
    ThriftSpan {
        trace_id: Some(to_signed64(s.trace_id.lo)),
        name: Some(text(&s.name)),
        id: Some(to_signed64(s.id)),
        parent_id: match s.parent_id {
            Some(p) => Some(to_signed64(p)),
            None => None,
        },
        annotations,
        binary_annotations,
        debug: s.debug,
        timestamp: Some(s.timestamp),
        duration: match s.duration {
            Some(d) => Some(to_millis(d)),
            None => None,
        },
        trace_id_high: match s.trace_id.hi {
            Some(h) => Some(to_signed64(h)),
            None => None,
        },
    }
}

} // verus!
