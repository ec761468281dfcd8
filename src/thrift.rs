//! The Thrift binary encoding of spans, field for field as the Zipkin
//! Thrift schema lays them out.
use vstd::prelude::*;
use vstd::utf8::encode_utf8;

use crate::octets::{
    be_bytes, i16_bytes, i32_bytes, i64_bytes, push_be, push_i16, push_i32, push_i64, push_slice,
};
use crate::errors::Error;
use crate::span::{Address, Annotation, BinaryAnnotation, Endpoint, Span, Value};

verus! {

pub const T_STOP: u8 = 0;
pub const T_BOOL: u8 = 2;
pub const T_I16: u8 = 6;
pub const T_I32: u8 = 8;
pub const T_I64: u8 = 10;
pub const T_STRING: u8 = 11;
pub const T_STRUCT: u8 = 12;
pub const T_LIST: u8 = 15;

/// Whether a length can be written as a Thrift length prefix.
pub open spec fn fits(n: nat) -> bool {
    n <= i32::MAX
}

/// A field header: the value's type code, then the field id.
pub open spec fn field_begin(ty: u8, id: i16) -> Seq<u8> {
    seq![ty] + i16_bytes(id)
}

/// A string or byte array: its length, then its bytes.
pub open spec fn binary_bytes(b: Seq<u8>) -> Seq<u8> {
    be_bytes(b.len(), 4) + b
}

/// A list header: the elements' type code, then their number.
pub open spec fn list_begin(ty: u8, n: nat) -> Seq<u8> {
    seq![ty] + be_bytes(n, 4)
}

pub open spec fn bool_byte(b: bool) -> u8 {
    if b { 1 } else { 0 }
}

/// Milliseconds in a duration given in microseconds, truncated toward zero.
pub open spec fn millis(us: int) -> int {
    if us >= 0 { us / 1000 } else { -((-us) / 1000) }
}

pub open spec fn endpoint_fits(e: Endpoint) -> bool {
    e.name is Some ==> fits(encode_utf8(e.name->Some_0@).len())
}

/// An endpoint: IPv4 address (1), port (2), service name (3), IPv6
/// address (4), each present only when known.
pub open spec fn endpoint_bytes(e: Endpoint) -> Seq<u8> {
    (match e.addr {
        Some(Address::V4 { ipv4, .. }) => field_begin(T_I32, 1) + be_bytes(ipv4 as nat, 4),
        _ => seq![],
    }) + (match e.addr {
        Some(a) => field_begin(T_I16, 2) + be_bytes(a.spec_port() as nat, 2),
        None => seq![],
    }) + (match e.name {
        Some(n) => field_begin(T_STRING, 3) + binary_bytes(encode_utf8(n@)),
        None => seq![],
    }) + (match e.addr {
        Some(Address::V6 { ipv6, .. }) => field_begin(T_STRING, 4) + binary_bytes(
            be_bytes(ipv6 as nat, 16),
        ),
        _ => seq![],
    }) + seq![T_STOP]
}

pub open spec fn host_fits(e: Option<Endpoint>) -> bool {
    e is Some ==> endpoint_fits(e->Some_0)
}

/// The endpoint that recorded an annotation, as field `id`.
pub open spec fn host_bytes(id: i16, e: Option<Endpoint>) -> Seq<u8> {
    match e {
        Some(e) => field_begin(T_STRUCT, id) + endpoint_bytes(e),
        None => seq![],
    }
}

pub open spec fn annotation_fits(a: Annotation) -> bool {
    fits(encode_utf8(a.value@).len()) && host_fits(a.endpoint)
}

/// An annotation: timestamp (1), value (2), host (3).
pub open spec fn annotation_bytes(a: Annotation) -> Seq<u8> {
    field_begin(T_I64, 1) + i64_bytes(a.timestamp) + field_begin(T_STRING, 2) + binary_bytes(
        encode_utf8(a.value@),
    ) + host_bytes(3, a.endpoint) + seq![T_STOP]
}

/// The payload of a binary annotation: integers big-endian, a float as the
/// big-endian bytes of its bit pattern, a boolean as one byte.
pub open spec fn value_bytes(v: Value) -> Seq<u8> {
    match v {
        Value::Bool(b) => seq![bool_byte(b)],
        Value::Bytes(b) => b@,
        Value::I16(x) => i16_bytes(x),
        Value::I32(x) => i32_bytes(x),
        Value::I64(x) => i64_bytes(x),
        Value::Double(d) => be_bytes(d.spec_bits() as nat, 8),
        Value::Str(s) => encode_utf8(s@),
    }
}

/// The schema's annotation type code of a value.
pub open spec fn value_type(v: Value) -> i32 {
    match v {
        Value::Bool(_) => 0,
        Value::Bytes(_) => 1,
        Value::I16(_) => 2,
        Value::I32(_) => 3,
        Value::I64(_) => 4,
        Value::Double(_) => 5,
        Value::Str(_) => 6,
    }
}

pub open spec fn binary_annotation_fits(b: BinaryAnnotation) -> bool {
    fits(encode_utf8(b.key@).len()) && fits(value_bytes(b.value).len()) && host_fits(b.endpoint)
}

/// A binary annotation: key (1), value (2), annotation type (3), host (4).
pub open spec fn binary_annotation_bytes(b: BinaryAnnotation) -> Seq<u8> {
    field_begin(T_STRING, 1) + binary_bytes(encode_utf8(b.key@)) + field_begin(T_STRING, 2)
        + binary_bytes(value_bytes(b.value)) + field_begin(T_I32, 3) + i32_bytes(
        value_type(b.value),
    ) + host_bytes(4, b.endpoint) + seq![T_STOP]
}

pub open spec fn annotations_bytes(s: Seq<Annotation>) -> Seq<u8>
    decreases s.len(),
{
    if s.len() == 0 {
        seq![]
    } else {
        annotations_bytes(s.drop_last()) + annotation_bytes(s.last())
    }
}

pub open spec fn binary_annotations_bytes(s: Seq<BinaryAnnotation>) -> Seq<u8>
    decreases s.len(),
{
    if s.len() == 0 {
        seq![]
    } else {
        binary_annotations_bytes(s.drop_last()) + binary_annotation_bytes(s.last())
    }
}

pub open spec fn span_fits(s: Span) -> bool {
    &&& fits(encode_utf8(s.name@).len())
    &&& fits(s.annotations@.len())
    &&& fits(s.binary_annotations@.len())
    &&& forall|i: int|
        0 <= i < s.annotations@.len() ==> #[trigger] annotation_fits(s.annotations@[i])
    &&& forall|i: int|
        0 <= i < s.binary_annotations@.len() ==> #[trigger] binary_annotation_fits(
            s.binary_annotations@[i],
        )
}

/// The leading fields of a span: trace id (1), name (3), id (4), and
/// parent id (5) when there is one.
pub open spec fn span_head_bytes(s: Span) -> Seq<u8> {
    field_begin(T_I64, 1) + be_bytes(s.trace_id.lo as nat, 8) + field_begin(T_STRING, 3)
        + binary_bytes(encode_utf8(s.name@)) + field_begin(T_I64, 4) + be_bytes(s.id as nat, 8)
        + (match s.parent_id {
        Some(p) => field_begin(T_I64, 5) + be_bytes(p as nat, 8),
        None => seq![],
    })
}

/// The annotations list (6), left out when empty.
pub open spec fn span_annotations_bytes(s: Span) -> Seq<u8> {
    if s.annotations@.len() == 0 {
        seq![]
    } else {
        field_begin(T_LIST, 6) + list_begin(T_STRUCT, s.annotations@.len()) + annotations_bytes(
            s.annotations@,
        )
    }
}

/// The binary annotations list (8), left out when empty.
pub open spec fn span_binary_annotations_bytes(s: Span) -> Seq<u8> {
    if s.binary_annotations@.len() == 0 {
        seq![]
    } else {
        field_begin(T_LIST, 8) + list_begin(T_STRUCT, s.binary_annotations@.len())
            + binary_annotations_bytes(s.binary_annotations@)
    }
}

/// The trailing fields of a span: debug flag (9), timestamp (10),
/// duration in milliseconds (11), high half of the trace id (12), each
/// but the timestamp only when known; then the end of the struct.
pub open spec fn span_tail_bytes(s: Span) -> Seq<u8> {
    (match s.debug {
        Some(d) => field_begin(T_BOOL, 9) + seq![bool_byte(d)],
        None => seq![],
    }) + field_begin(T_I64, 10) + i64_bytes(s.timestamp) + (match s.duration {
        Some(d) => field_begin(T_I64, 11) + i64_bytes(millis(d as int) as i64),
        None => seq![],
    }) + (match s.trace_id.hi {
        Some(h) => field_begin(T_I64, 12) + be_bytes(h as nat, 8),
        None => seq![],
    }) + seq![T_STOP]
}

/// A span, its fields in the order of their ids.
pub open spec fn span_bytes(s: Span) -> Seq<u8> {
    span_head_bytes(s) + span_annotations_bytes(s) + span_binary_annotations_bytes(s)
        + span_tail_bytes(s)
}

pub open spec fn spans_fit(s: Seq<Span>) -> bool {
    fits(s.len()) && forall|i: int| 0 <= i < s.len() ==> #[trigger] span_fits(s[i])
}

pub open spec fn span_items_bytes(s: Seq<Span>) -> Seq<u8>
    decreases s.len(),
{
    if s.len() == 0 {
        seq![]
    } else {
        span_items_bytes(s.drop_last()) + span_bytes(s.last())
    }
}

/// A batch of spans: a list header, then each span in turn.
pub open spec fn spans_bytes(s: Seq<Span>) -> Seq<u8> {
    list_begin(T_STRUCT, s.len()) + span_items_bytes(s)
}

fn write_field_begin(out: &mut Vec<u8>, ty: u8, id: i16)
    ensures
        final(out)@ == old(out)@ + field_begin(ty, id),
{
    out.push(ty);
    push_i16(out, id);
    assert(final(out)@ =~= old(out)@ + field_begin(ty, id));
}

fn write_binary(out: &mut Vec<u8>, b: &[u8]) -> (r: Result<(), Error>)
    ensures
        r is Ok <==> fits(b@.len()),
        r is Err ==> r->Err_0 == Error::ThriftTooLong,
        r is Ok ==> final(out)@ == old(out)@ + binary_bytes(b@),
{
    if b.len() > i32::MAX as usize {
        return Err(Error::ThriftTooLong);
    }
    push_be(out, b.len() as u128, 4);
    push_slice(out, b);
    assert(final(out)@ =~= old(out)@ + binary_bytes(b@));
    Ok(())
}

fn write_list_begin(out: &mut Vec<u8>, ty: u8, n: usize) -> (r: Result<(), Error>)
    ensures
        r is Ok <==> fits(n as nat),
        r is Err ==> r->Err_0 == Error::ThriftTooLong,
        r is Ok ==> final(out)@ == old(out)@ + list_begin(ty, n as nat),
{
    if n > i32::MAX as usize {
        return Err(Error::ThriftTooLong);
    }
    out.push(ty);
    push_be(out, n as u128, 4);
    assert(final(out)@ =~= old(out)@ + list_begin(ty, n as nat));
    Ok(())
}

fn write_endpoint(out: &mut Vec<u8>, e: &Endpoint) -> (r: Result<(), Error>)
    ensures
        r is Ok <==> endpoint_fits(*e),
        r is Err ==> r->Err_0 == Error::ThriftTooLong,
        r is Ok ==> final(out)@ == old(out)@ + endpoint_bytes(*e),
{
    let ghost start = out@;
    if let Some(Address::V4 { ipv4, .. }) = e.addr {
        write_field_begin(out, T_I32, 1);
        push_be(out, ipv4 as u128, 4);
    }
    let ghost a1 = out@;
    if let Some(addr) = e.addr {
        write_field_begin(out, T_I16, 2);
        push_be(out, addr.port() as u128, 2);
    }
    let ghost a2 = out@;
    if let Some(name) = &e.name {
        write_field_begin(out, T_STRING, 3);
        let r = write_binary(out, name.as_str().as_bytes());
        if r.is_err() {
            return r;
        }
    }
    let ghost a3 = out@;
    if let Some(Address::V6 { ipv6, .. }) = e.addr {
        write_field_begin(out, T_STRING, 4);
        proof {
            crate::octets::lemma_be_bytes_len(ipv6 as nat, 16);
        }
        push_be(out, 16, 4);
        push_be(out, ipv6, 16);
        assert(be_bytes(16, 4) + be_bytes(ipv6 as nat, 16) =~= binary_bytes(be_bytes(ipv6 as nat, 16)));
    }
    out.push(T_STOP);
    assert(out@ =~= start + endpoint_bytes(*e));
    Ok(())
}

fn write_host(out: &mut Vec<u8>, id: i16, e: &Option<Endpoint>) -> (r: Result<(), Error>)
    ensures
        r is Ok <==> host_fits(*e),
        r is Err ==> r->Err_0 == Error::ThriftTooLong,
        r is Ok ==> final(out)@ == old(out)@ + host_bytes(id, *e),
{
    match e {
        Some(e) => {
            write_field_begin(out, T_STRUCT, id);
            let r = write_endpoint(out, e);
            assert(r is Ok ==> final(out)@ =~= old(out)@ + host_bytes(id, Some(*e)));
            r
        },
        None => {
            assert(final(out)@ =~= old(out)@ + host_bytes(id, None));
            Ok(())
        },
    }
}

fn write_annotation(out: &mut Vec<u8>, a: &Annotation) -> (r: Result<(), Error>)
    ensures
        r is Ok <==> annotation_fits(*a),
        r is Err ==> r->Err_0 == Error::ThriftTooLong,
        r is Ok ==> final(out)@ == old(out)@ + annotation_bytes(*a),
{
    let ghost start = out@;
    write_field_begin(out, T_I64, 1);
    push_i64(out, a.timestamp);
    write_field_begin(out, T_STRING, 2);
    let r = write_binary(out, a.value.as_str().as_bytes());
    if r.is_err() {
        return r;
    }
    let r = write_host(out, 3, &a.endpoint);
    if r.is_err() {
        return r;
    }
    out.push(T_STOP);
    assert(out@ =~= start + annotation_bytes(*a));
    Ok(())
}

/// The payload of a value, as `value_bytes` gives it.
fn value_payload(v: &Value) -> (r: Vec<u8>)
    ensures
        r@ == value_bytes(*v),
{
    let mut out: Vec<u8> = Vec::new();
    match v {
        Value::Bool(b) => out.push(if *b { 1 } else { 0 }),
        Value::Bytes(b) => push_slice(&mut out, b.as_slice()),
        Value::I16(x) => push_i16(&mut out, *x),
        Value::I32(x) => push_i32(&mut out, *x),
        Value::I64(x) => push_i64(&mut out, *x),
        Value::Double(d) => push_be(&mut out, d.bits() as u128, 8),
        Value::Str(s) => push_slice(&mut out, s.as_str().as_bytes()),
    }
    assert(out@ =~= value_bytes(*v));
    out
}

fn value_type_code(v: &Value) -> (r: i32)
    ensures
        r == value_type(*v),
{
    match v {
        Value::Bool(_) => 0,
        Value::Bytes(_) => 1,
        Value::I16(_) => 2,
        Value::I32(_) => 3,
        Value::I64(_) => 4,
        Value::Double(_) => 5,
        Value::Str(_) => 6,
    }
}

fn write_binary_annotation(out: &mut Vec<u8>, b: &BinaryAnnotation) -> (r: Result<(), Error>)
    ensures
        r is Ok <==> binary_annotation_fits(*b),
        r is Err ==> r->Err_0 == Error::ThriftTooLong,
        r is Ok ==> final(out)@ == old(out)@ + binary_annotation_bytes(*b),
{
    let ghost start = out@;
    write_field_begin(out, T_STRING, 1);
    let r = write_binary(out, b.key.as_str().as_bytes());
    if r.is_err() {
        return r;
    }
    write_field_begin(out, T_STRING, 2);
    let payload = value_payload(&b.value);
    let r = write_binary(out, payload.as_slice());
    if r.is_err() {
        return r;
    }
    write_field_begin(out, T_I32, 3);
    push_i32(out, value_type_code(&b.value));
    let r = write_host(out, 4, &b.endpoint);
    if r.is_err() {
        return r;
    }
    out.push(T_STOP);
    assert(out@ =~= start + binary_annotation_bytes(*b));
    Ok(())
}

fn write_annotations(out: &mut Vec<u8>, s: &Vec<Annotation>) -> (r: Result<(), Error>)
    ensures
        r is Ok <==> forall|i: int| 0 <= i < s@.len() ==> #[trigger] annotation_fits(s@[i]),
        r is Err ==> r->Err_0 == Error::ThriftTooLong,
        r is Ok ==> final(out)@ == old(out)@ + annotations_bytes(s@),
{
    let ghost start = out@;
    let mut i: usize = 0;
    while i < s.len()
        invariant
            i <= s@.len(),
            forall|j: int| 0 <= j < i ==> #[trigger] annotation_fits(s@[j]),
            out@ == start + annotations_bytes(s@.take(i as int)),
        decreases s@.len() - i,
    {
        let r = write_annotation(out, &s[i]);
        if r.is_err() {
            return r;
        }
        assert(s@.take(i + 1).drop_last() =~= s@.take(i as int));
        i = i + 1;
        assert(out@ =~= start + annotations_bytes(s@.take(i as int)));
    }
    assert(s@.take(i as int) =~= s@);
    Ok(())
}

fn write_binary_annotations(out: &mut Vec<u8>, s: &Vec<BinaryAnnotation>) -> (r: Result<(), Error>)
    ensures
        r is Ok <==> forall|i: int|
            0 <= i < s@.len() ==> #[trigger] binary_annotation_fits(s@[i]),
        r is Err ==> r->Err_0 == Error::ThriftTooLong,
        r is Ok ==> final(out)@ == old(out)@ + binary_annotations_bytes(s@),
{
    let ghost start = out@;
    let mut i: usize = 0;
    while i < s.len()
        invariant
            i <= s@.len(),
            forall|j: int| 0 <= j < i ==> #[trigger] binary_annotation_fits(s@[j]),
            out@ == start + binary_annotations_bytes(s@.take(i as int)),
        decreases s@.len() - i,
    {
        let r = write_binary_annotation(out, &s[i]);
        if r.is_err() {
            return r;
        }
        assert(s@.take(i + 1).drop_last() =~= s@.take(i as int));
        i = i + 1;
        assert(out@ =~= start + binary_annotations_bytes(s@.take(i as int)));
    }
    assert(s@.take(i as int) =~= s@);
    Ok(())
}

/// Milliseconds in a duration given in microseconds, truncated toward zero.
pub fn to_millis(us: i64) -> (r: i64)
    ensures
        r == millis(us as int),
{
    if us >= 0 {
        us / 1000
    } else if us == i64::MIN {
        -9_223_372_036_854_775
    } else {
        -((-us) / 1000)
    }
}

fn write_span_head(out: &mut Vec<u8>, s: &Span) -> (r: Result<(), Error>)
    ensures
        r is Ok <==> fits(encode_utf8(s.name@).len()),
        r is Err ==> r->Err_0 == Error::ThriftTooLong,
        r is Ok ==> final(out)@ == old(out)@ + span_head_bytes(*s),
{
    let ghost start = out@;
    write_field_begin(out, T_I64, 1);
    push_be(out, s.trace_id.lo as u128, 8);
    write_field_begin(out, T_STRING, 3);
    let r = write_binary(out, s.name.as_str().as_bytes());
    if r.is_err() {
        return r;
    }
    write_field_begin(out, T_I64, 4);
    push_be(out, s.id as u128, 8);
    if let Some(p) = s.parent_id {
        write_field_begin(out, T_I64, 5);
        push_be(out, p as u128, 8);
    }
    assert(out@ =~= start + span_head_bytes(*s));
    Ok(())
}

fn write_span_annotations(out: &mut Vec<u8>, s: &Span) -> (r: Result<(), Error>)
    ensures
        r is Ok <==> (fits(s.annotations@.len()) && forall|i: int|
            0 <= i < s.annotations@.len() ==> #[trigger] annotation_fits(s.annotations@[i])),
        r is Err ==> r->Err_0 == Error::ThriftTooLong,
        r is Ok ==> final(out)@ == old(out)@ + span_annotations_bytes(*s),
{
    let ghost start = out@;
    if s.annotations.len() > 0 {
        write_field_begin(out, T_LIST, 6);
        let r = write_list_begin(out, T_STRUCT, s.annotations.len());
        if r.is_err() {
            return r;
        }
        let r = write_annotations(out, &s.annotations);
        if r.is_err() {
            return r;
        }
    }
    assert(out@ =~= start + span_annotations_bytes(*s));
    Ok(())
}

fn write_span_binary_annotations(out: &mut Vec<u8>, s: &Span) -> (r: Result<(), Error>)
    ensures
        r is Ok <==> (fits(s.binary_annotations@.len()) && forall|i: int|
            0 <= i < s.binary_annotations@.len() ==> #[trigger] binary_annotation_fits(
                s.binary_annotations@[i],
            )),
        r is Err ==> r->Err_0 == Error::ThriftTooLong,
        r is Ok ==> final(out)@ == old(out)@ + span_binary_annotations_bytes(*s),
{
    let ghost start = out@;
    if s.binary_annotations.len() > 0 {
        write_field_begin(out, T_LIST, 8);
        let r = write_list_begin(out, T_STRUCT, s.binary_annotations.len());
        if r.is_err() {
            return r;
        }
        let r = write_binary_annotations(out, &s.binary_annotations);
        if r.is_err() {
            return r;
        }
    }
    assert(out@ =~= start + span_binary_annotations_bytes(*s));
    Ok(())
}

fn write_span_tail(out: &mut Vec<u8>, s: &Span)
    ensures
        final(out)@ == old(out)@ + span_tail_bytes(*s),
{
    let ghost start = out@;
    if let Some(d) = s.debug {
        write_field_begin(out, T_BOOL, 9);
        out.push(if d { 1 } else { 0 });
    }
    write_field_begin(out, T_I64, 10);
    push_i64(out, s.timestamp);
    if let Some(d) = s.duration {
        write_field_begin(out, T_I64, 11);
        push_i64(out, to_millis(d));
    }
    if let Some(h) = s.trace_id.hi {
        write_field_begin(out, T_I64, 12);
        push_be(out, h as u128, 8);
    }
    out.push(T_STOP);
    assert(out@ =~= start + span_tail_bytes(*s));
}

/// Appends the Thrift encoding of one span.
pub fn write_span(out: &mut Vec<u8>, s: &Span) -> (r: Result<(), Error>)
    ensures
        r is Ok <==> span_fits(*s),
        r is Err ==> r->Err_0 == Error::ThriftTooLong,
        r is Ok ==> final(out)@ == old(out)@ + span_bytes(*s),
{
    let ghost start = out@;
    let r = write_span_head(out, s);
    if r.is_err() {
        return r;
    }
    let r = write_span_annotations(out, s);
    if r.is_err() {
        return r;
    }
    let r = write_span_binary_annotations(out, s);
    if r.is_err() {
        return r;
    }
    write_span_tail(out, s);
    assert(out@ =~= start + span_bytes(*s));
    Ok(())
}

/// Appends the Thrift encoding of a batch of spans.
pub fn write_spans(out: &mut Vec<u8>, s: &Vec<Span>) -> (r: Result<(), Error>)
    ensures
        r is Ok <==> spans_fit(s@),
        r is Err ==> r->Err_0 == Error::ThriftTooLong,
        r is Ok ==> final(out)@ == old(out)@ + spans_bytes(s@),
{
    let ghost start = out@;
    let r = write_list_begin(out, T_STRUCT, s.len());
    if r.is_err() {
        return r;
    }
    let mut i: usize = 0;
    while i < s.len()
        invariant
            i <= s@.len(),
            fits(s@.len()),
            forall|j: int| 0 <= j < i ==> #[trigger] span_fits(s@[j]),
            out@ == start + list_begin(T_STRUCT, s@.len()) + span_items_bytes(s@.take(i as int)),
        decreases s@.len() - i,
    {
        let r = write_span(out, &s[i]);
        if r.is_err() {
            return r;
        }
        assert(s@.take(i + 1).drop_last() =~= s@.take(i as int));
        i = i + 1;
        assert(out@ =~= start + list_begin(T_STRUCT, s@.len()) + span_items_bytes(
            s@.take(i as int),
        ));
    }
    assert(s@.take(i as int) =~= s@);
    assert(out@ =~= start + spans_bytes(s@));
    Ok(())
}

/// What can be written in the Thrift binary encoding.
pub trait ToThrift {
    /// Whether every length in the value fits a Thrift length prefix.
    spec fn thrift_fits(&self) -> bool;

    /// The encoding of the value.
    spec fn thrift_bytes(&self) -> Seq<u8>;

    /// Appends the encoding of the value; fails, with `ThriftTooLong`,
    /// exactly when a length does not fit, and then appends nothing.
    fn write_to(&self, out: &mut Vec<u8>) -> (r: Result<(), Error>)
        ensures
            r is Ok <==> self.thrift_fits(),
            r is Err ==> r->Err_0 == Error::ThriftTooLong,
            r is Ok ==> final(out)@ == old(out)@ + self.thrift_bytes(),
            r is Err ==> final(out)@ == old(out)@,
    ;
}

impl ToThrift for Endpoint {
    open spec fn thrift_fits(&self) -> bool {
        endpoint_fits(*self)
    }

    open spec fn thrift_bytes(&self) -> Seq<u8> {
        endpoint_bytes(*self)
    }

    fn write_to(&self, out: &mut Vec<u8>) -> (r: Result<(), Error>) {
        let mut tmp: Vec<u8> = Vec::new();
        let r = write_endpoint(&mut tmp, self);
        if r.is_ok() {
            assert(tmp@ =~= seq![] + self.thrift_bytes());
            push_slice(out, tmp.as_slice());
        }
        r
    }
}

impl ToThrift for Annotation {
    open spec fn thrift_fits(&self) -> bool {
        annotation_fits(*self)
    }

    open spec fn thrift_bytes(&self) -> Seq<u8> {
        annotation_bytes(*self)
    }

    fn write_to(&self, out: &mut Vec<u8>) -> (r: Result<(), Error>) {
        let mut tmp: Vec<u8> = Vec::new();
        let r = write_annotation(&mut tmp, self);
        if r.is_ok() {
            assert(tmp@ =~= seq![] + self.thrift_bytes());
            push_slice(out, tmp.as_slice());
        }
        r
    }
}

impl ToThrift for BinaryAnnotation {
    open spec fn thrift_fits(&self) -> bool {
        binary_annotation_fits(*self)
    }

    open spec fn thrift_bytes(&self) -> Seq<u8> {
        binary_annotation_bytes(*self)
    }

    fn write_to(&self, out: &mut Vec<u8>) -> (r: Result<(), Error>) {
        let mut tmp: Vec<u8> = Vec::new();
        let r = write_binary_annotation(&mut tmp, self);
        if r.is_ok() {
            assert(tmp@ =~= seq![] + self.thrift_bytes());
            push_slice(out, tmp.as_slice());
        }
        r
    }
}

impl ToThrift for Span {
    open spec fn thrift_fits(&self) -> bool {
        span_fits(*self)
    }

    open spec fn thrift_bytes(&self) -> Seq<u8> {
        span_bytes(*self)
    }

    fn write_to(&self, out: &mut Vec<u8>) -> (r: Result<(), Error>) {
        let mut tmp: Vec<u8> = Vec::new();
        let r = write_span(&mut tmp, self);
        if r.is_ok() {
            assert(tmp@ =~= seq![] + self.thrift_bytes());
            push_slice(out, tmp.as_slice());
        }
        r
    }
}

impl ToThrift for Vec<Span> {
    open spec fn thrift_fits(&self) -> bool {
        spans_fit(self@)
    }

    open spec fn thrift_bytes(&self) -> Seq<u8> {
        spans_bytes(self@)
    }

    fn write_to(&self, out: &mut Vec<u8>) -> (r: Result<(), Error>) {
        let mut tmp: Vec<u8> = Vec::new();
        let r = write_spans(&mut tmp, self);
        if r.is_ok() {
            assert(tmp@ =~= seq![] + self.thrift_bytes());
            push_slice(out, tmp.as_slice());
        }
        r
    }
}

/// The Thrift encoding of `value`.
pub fn to_vec<T: ToThrift>(value: &T) -> (r: Result<Vec<u8>, Error>)
    ensures
        r is Ok <==> value.thrift_fits(),
        r is Ok ==> r->Ok_0@ == value.thrift_bytes(),
        r is Err ==> r->Err_0 == Error::ThriftTooLong,
{
    let mut out: Vec<u8> = Vec::new();
    match value.write_to(&mut out) {
        Ok(()) => {
            assert(out@ =~= value.thrift_bytes());
            Ok(out)
        },
        Err(e) => Err(e),
    }
}

/// Appends the Thrift encoding of `value` to `out`, and tells how many
/// bytes it took. Nothing is appended when it fails.
pub fn to_writer<T: ToThrift>(out: &mut Vec<u8>, value: &T) -> (r: Result<usize, Error>)
    ensures
        r is Ok <==> value.thrift_fits(),
        r is Err ==> r->Err_0 == Error::ThriftTooLong,
        r is Ok ==> final(out)@ == old(out)@ + value.thrift_bytes() && r->Ok_0
            == value.thrift_bytes().len(),
        r is Err ==> final(out)@ == old(out)@ && r->Err_0 == Error::ThriftTooLong,
{
    match to_vec(value) {
        Ok(bytes) => {
            push_slice(out, bytes.as_slice());
            Ok(bytes.len())
        },
        Err(e) => Err(e),
    }
}

} // verus!
