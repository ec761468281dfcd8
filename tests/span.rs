use xoroshiro128::{RngCore, Xoroshiro128Rng};
use zipkin::{
    next_id, Address, Annotatable, Double, Endpoint, IdGenerator, Span, TraceId, Value,
    CLIENT_RECV, CLIENT_RECV_FRAGMENT, CLIENT_SEND, ERROR, HTTP_METHOD, HTTP_REQUEST_SIZE,
    HTTP_RESPONSE_SIZE, HTTP_STATUS_CODE,
};

fn test_endpoint() -> Option<Endpoint> {
    Some(Endpoint { name: Some("test".to_string()), addr: None })
}

fn double(v: f64) -> Value {
    Value::Double(Double::new(v.to_bits(), format!("{:?}", v)).unwrap())
}

#[test]
fn gen_id() {
    assert!(next_id() != 0);
    assert!(next_id() != next_id());

    let trace_id = TraceId::gen();

    assert!(trace_id.lo != 0);
    assert!(trace_id.hi.is_some());
    assert!(trace_id.hi.unwrap() != 0);
}

#[test]
fn test_gen_id() {
    assert!(next_id() != 0);
    assert!(next_id() != next_id());

    let trace_id = TraceId::gen();

    assert!(trace_id.lo != 0);
    assert!(trace_id.hi.is_some());
    assert!(trace_id.hi.unwrap() != 0);
}

#[test]
fn id_generator_draws_distinct_ids() {
    let mut ids = IdGenerator::new();
    let a = ids.next_id();
    let b = ids.next_id();
    assert!(a != b);
    let t = ids.trace_id();
    assert!(t.hi.is_some());

    let mut x = IdGenerator::from_seed(1, 2);
    let mut y = IdGenerator::from_seed(1, 2);
    assert_eq!(x.next_id(), y.next_id());
    let mut z = IdGenerator::from_seed(0, 0);
    let _ = z.next_id();
}

fn check_new_span(span: &Span) {
    assert!(span.trace_id.lo != 0);
    assert!(span.trace_id.hi.is_some());
    assert!(span.trace_id.hi.unwrap() != 0);

    assert_eq!(span.name, "test");

    assert!(span.id != 0);
    assert_eq!(span.parent_id, None);
    assert!(span.timestamp != 0);
    assert_eq!(span.duration, None);
    assert!(span.annotations.is_empty());
    assert!(span.binary_annotations.is_empty());
    assert_eq!(span.debug, None);

    assert_eq!(span.clone().with_id(123).id, 123);
    assert_eq!(span.clone().with_parent_id(456).parent_id, Some(456));
    assert_eq!(span.clone().with_debug(true).debug, Some(true));
}

#[test]
fn span() {
    let span = Span::new("test");
    check_new_span(&span);
}

#[test]
fn test_span() {
    let span = Span::new("test");
    check_new_span(&span);
}

#[test]
fn annonation() {
    let mut span = Span::new("test");
    let endpoint = test_endpoint();

    span.annotate(CLIENT_SEND, endpoint.clone());
    {
        let annonation = span.annotations.last().unwrap();

        assert_eq!(span.annotations.len(), 1);
        assert_eq!(annonation.value, CLIENT_SEND);
        assert!(annonation.timestamp != 0);
        assert!(annonation.endpoint.is_some());
        assert_eq!(annonation.endpoint.as_ref().unwrap().name, Some("test".to_string()));
    }
    span.annotate(CLIENT_RECV, None);
    {
        let annonation = span.annotations.last().unwrap();

        assert_eq!(span.annotations.len(), 2);
        assert_eq!(annonation.value, CLIENT_RECV);
        assert!(annonation.timestamp != 0);
        assert!(annonation.endpoint.is_none());
    }
    span.binary_annotate(HTTP_METHOD, Value::Str("GET".to_string()), endpoint.clone());
    {
        let annonation = span.binary_annotations.last().unwrap();

        assert_eq!(span.binary_annotations.len(), 1);
        assert_eq!(annonation.key, HTTP_METHOD);
        assert_eq!(annonation.value, Value::Str("GET".to_string()));
    }
    span.binary_annotate("debug", Value::from(true), None);
    {
        let annonation = span.binary_annotations.last().unwrap();

        assert_eq!(span.binary_annotations.len(), 2);
        assert_eq!(annonation.key, "debug");
        assert_eq!(annonation.value, Value::Bool(true));
    }
    span.binary_annotate(HTTP_STATUS_CODE, Value::from(123i16), None);
    {
        let annonation = span.binary_annotations.last().unwrap();

        assert_eq!(span.binary_annotations.len(), 3);
        assert_eq!(annonation.key, HTTP_STATUS_CODE);
        assert_eq!(annonation.value, Value::I16(123));
    }
    span.binary_annotate(HTTP_REQUEST_SIZE, Value::from(-456i32), None);
    {
        let annonation = span.binary_annotations.last().unwrap();

        assert_eq!(span.binary_annotations.len(), 4);
        assert_eq!(annonation.key, HTTP_REQUEST_SIZE);
        assert_eq!(annonation.value, Value::I32(-456));
    }
    span.binary_annotate(HTTP_RESPONSE_SIZE, Value::from(-789i64), None);
    {
        let annonation = span.binary_annotations.last().unwrap();

        assert_eq!(span.binary_annotations.len(), 5);
        assert_eq!(annonation.key, HTTP_RESPONSE_SIZE);
        assert_eq!(annonation.value, Value::I64(-789));
    }
    span.binary_annotate("time", double(123.456), None);
    {
        let annonation = span.binary_annotations.last().unwrap();

        assert_eq!(span.binary_annotations.len(), 6);
        assert_eq!(annonation.key, "time");
        assert_eq!(annonation.value, double(123.456));
        assert_eq!(annonation.value.as_double().unwrap().bits(), 123.456f64.to_bits());
        assert_eq!(annonation.value.as_double().unwrap().text(), "123.456");
    }
    span.binary_annotate(ERROR, Value::Str("some error".to_string()), None);
    {
        let annonation = span.binary_annotations.last().unwrap();

        assert_eq!(span.binary_annotations.len(), 7);
        assert_eq!(annonation.key, ERROR);
        assert_eq!(annonation.value, Value::Str("some error".to_string()));
    }
    span.binary_annotate("raw", Value::from(b"some\0raw\0data".to_vec()), None);
    {
        let annonation = span.binary_annotations.last().unwrap();

        assert_eq!(span.binary_annotations.len(), 8);
        assert_eq!(annonation.key, "raw");
        assert_eq!(annonation.value, Value::Bytes(b"some\0raw\0data".to_vec()));
    }
    span.binary_annotate(HTTP_STATUS_CODE, Value::from(i16::max_value() as u16 + 1), None);
    {
        let annonation = span.binary_annotations.last().unwrap();

        assert_eq!(span.binary_annotations.len(), 9);
        assert_eq!(annonation.key, HTTP_STATUS_CODE);
        assert_eq!(annonation.value, Value::I16(-32768));
        assert_eq!(annonation.value.as_u16(), Some(0x8000));
    }
    span.binary_annotate(HTTP_REQUEST_SIZE, Value::from(i32::max_value() as u32 + 1), None);
    {
        let annonation = span.binary_annotations.last().unwrap();

        assert_eq!(span.binary_annotations.len(), 10);
        assert_eq!(annonation.key, HTTP_REQUEST_SIZE);
        assert_eq!(annonation.value, Value::I32(-2147483648));
        assert_eq!(annonation.value.as_u32(), Some(0x80000000));
    }
    span.binary_annotate(HTTP_RESPONSE_SIZE, Value::from(i64::max_value() as u64 + 1), None);
    {
        let annonation = span.binary_annotations.last().unwrap();

        assert_eq!(span.binary_annotations.len(), 11);
        assert_eq!(annonation.key, HTTP_RESPONSE_SIZE);
        assert_eq!(annonation.value, Value::I64(-9223372036854775808));
        assert_eq!(annonation.value.as_u64(), Some(0x8000000000000000));
    }
}

#[test]
fn test_annonation() {
    let mut span = Span::new("test");

    span.annotate(CLIENT_SEND, None);
    let annonation = span.annotations.last().unwrap().clone();

    assert_eq!(span.annotations.len(), 1);
    assert_eq!(annonation.value, CLIENT_SEND);
    assert!(annonation.timestamp != 0);

    span.annotate(CLIENT_RECV, None);
    let annonation = span.annotations.last().unwrap().clone();

    assert_eq!(span.annotations.len(), 2);
    assert_eq!(annonation.value, CLIENT_RECV);
    assert!(annonation.timestamp != 0);

    let cases: Vec<(&str, Value, Value)> = vec![
        (HTTP_METHOD, Value::Str("GET".to_string()), Value::Str("GET".to_string())),
        ("debug", Value::from(true), Value::Bool(true)),
        (HTTP_STATUS_CODE, Value::from(123i16), Value::I16(123)),
        (HTTP_REQUEST_SIZE, Value::from(-456i32), Value::I32(-456)),
        (HTTP_RESPONSE_SIZE, Value::from(-789i64), Value::I64(-789)),
        ("time", double(123.456), double(123.456)),
        (ERROR, Value::Str("some error".to_string()), Value::Str("some error".to_string())),
        ("raw", Value::from(b"some\0raw\0data".to_vec()), Value::Bytes(b"some\0raw\0data".to_vec())),
        (HTTP_STATUS_CODE, Value::from(i16::max_value() as u16 + 1), Value::I16(-32768)),
        (HTTP_REQUEST_SIZE, Value::from(i32::max_value() as u32 + 1), Value::I32(-2147483648)),
        (
            HTTP_RESPONSE_SIZE,
            Value::from(i64::max_value() as u64 + 1),
            Value::I64(-9223372036854775808),
        ),
    ];
    for (i, (key, value, expected)) in cases.into_iter().enumerate() {
        span.binary_annotate(key, value, None);
        let annonation = span.binary_annotations.last().unwrap();
        assert_eq!(span.binary_annotations.len(), i + 1);
        assert_eq!(annonation.key, key);
        assert_eq!(annonation.value, expected);
    }
    let last = span.binary_annotations.len();
    assert_eq!(span.binary_annotations[last - 3].value.as_u16(), Some(0x8000));
    assert_eq!(span.binary_annotations[last - 2].value.as_u32(), Some(0x80000000));
    assert_eq!(span.binary_annotations[last - 1].value.as_u64(), Some(0x8000000000000000));
}

#[test]
fn macros() {
    let mut span = Span::new("test");
    let endpoint = test_endpoint();

    span.annotate(CLIENT_SEND, None);
    {
        let annonation = span.annotations.last().unwrap();

        assert_eq!(span.annotations.len(), 1);
        assert_eq!(annonation.value, CLIENT_SEND);
    }

    span.annotate(CLIENT_RECV, endpoint.clone());
    {
        let annonation = span.annotations.last().unwrap();

        assert_eq!(span.annotations.len(), 2);
        assert_eq!(annonation.value, CLIENT_RECV);
        assert_eq!(annonation.endpoint.as_ref().unwrap().name, Some("test".to_string()));
    }

    span.binary_annotate(HTTP_METHOD, Value::Str("GET".to_string()), None);
    {
        let annonation = span.binary_annotations.last().unwrap();

        assert_eq!(span.binary_annotations.len(), 1);
        assert_eq!(annonation.key, HTTP_METHOD);
        assert_eq!(annonation.value, Value::Str("GET".to_string()));
    }

    span.binary_annotate(HTTP_STATUS_CODE, Value::I16(123), endpoint.clone());
    {
        let annonation = span.binary_annotations.last().unwrap();

        assert_eq!(span.binary_annotations.len(), 2);
        assert_eq!(annonation.key, HTTP_STATUS_CODE);
        assert_eq!(annonation.value, Value::I16(123));
        assert_eq!(annonation.endpoint.as_ref().unwrap().name, Some("test".to_string()));
    }

    span = span.with_sampled(false);

    span.annotate(CLIENT_SEND, None);
    {
        assert_eq!(span.annotations.len(), 2);
    }

    span = span.with_debug(true);

    span.binary_annotate(HTTP_METHOD, Value::Str("GET".to_string()), None);
    {
        assert_eq!(span.binary_annotations.len(), 3);
    }

    let mut span = Some(span);

    span.annotate(CLIENT_RECV_FRAGMENT, None);
    {
        assert_eq!(
            span.clone()
                .map(|span| (span.annotations.len(), span.annotations.last().unwrap().value.clone()))
                .unwrap(),
            (3, CLIENT_RECV_FRAGMENT.to_string())
        );
    }

    span = None;

    span.annotate(CLIENT_RECV_FRAGMENT, None);
    assert!(span.is_none());
}

#[test]
fn unsampled_span_records_nothing() {
    let mut span = Span::new("test").with_sampled(false);
    assert!(!span.used());
    for _ in 0..10 {
        span.annotate(CLIENT_SEND, None);
        span.binary_annotate(HTTP_METHOD, Value::Str("GET".to_string()), None);
    }
    assert!(span.annotations.is_empty());
    assert!(span.binary_annotations.is_empty());

    let mut debug = Span::new("test").with_sampled(false).with_debug(true);
    assert!(debug.used());
    for _ in 0..3 {
        debug.annotate(CLIENT_SEND, None);
    }
    assert_eq!(debug.annotations.len(), 3);

    let mut open = Span::new("test");
    assert!(open.used());
    open.annotate(CLIENT_SEND, None);
    assert_eq!(open.annotations.len(), 1);

    let absent: Option<Span> = None;
    assert!(!absent.used());
}

#[test]
fn value_accessors() {
    assert_eq!(Value::Bool(true).as_bool(), Some(true));
    assert_eq!(Value::I16(1).as_bool(), None);
    assert_eq!(Value::Bytes(vec![1, 2]).as_bytes(), Some(&[1u8, 2][..]));
    assert_eq!(Value::I16(-1).as_i16(), Some(-1));
    assert_eq!(Value::I32(-1).as_i32(), Some(-1));
    assert_eq!(Value::I64(-1).as_i64(), Some(-1));
    assert_eq!(Value::I16(-1).as_u16(), Some(0xffff));
    assert_eq!(Value::I32(-1).as_u32(), Some(0xffff_ffff));
    assert_eq!(Value::I64(-1).as_u64(), Some(u64::MAX));
    assert_eq!(Value::Str("x".to_string()).as_str(), Some("x"));
    assert_eq!(Value::I64(1).as_str(), None);
    assert!(double(1.5).as_double().is_some());
}

#[test]
fn timestamps() {
    assert_eq!(zipkin::timestamp(0, 0), 0);
    assert_eq!(zipkin::timestamp(123, 456), 123_000_000);
    assert_eq!(zipkin::timestamp(1, 999_999_999), 1_999_999);
    assert!(zipkin::now() > zipkin::timestamp(1_500_000_000, 0));
}

#[test]
fn address_port() {
    assert_eq!(Address::V4 { ipv4: 0x7f00_0001, port: 80 }.port(), 80);
    assert_eq!(Address::V6 { ipv6: 1, port: 443 }.port(), 443);
}

#[test]
fn double_text_must_be_a_number() {
    for ok in ["0", "-0", "1.5", "123.456", "1e-7", "-2.5E+10", "10"] {
        assert!(Double::new(0, ok.to_string()).is_some(), "{}", ok);
    }
    for bad in ["", "-", "01", "1.", ".5", "1e", "1e+", "NaN", "inf", "1.5x", "+1", "null"] {
        assert!(Double::new(0, bad.to_string()).is_none(), "{}", bad);
    }
    let d = Double::new(7, "2.0".to_string()).unwrap();
    assert_eq!(d.clone(), d);
    assert_eq!(d.bits(), 7);
}

#[test]
fn id_generator_matches_xoroshiro128() {
    for (s0, s1) in [(1u64, 2u64), (0x193a6754a8a7d469, 0x97830e05113ba7bb), (u64::MAX, u64::MAX)] {
        let mut ours = IdGenerator::from_seed(s0, s1);
        let mut theirs = Xoroshiro128Rng::from_seed_u64([s0, s1]);
        for _ in 0..100 {
            assert_eq!(ours.next_id(), theirs.next_u64());
        }
    }
    let mut zero = IdGenerator::from_seed(0, 0);
    let mut one = Xoroshiro128Rng::from_seed_u64([0, 1]);
    assert_eq!(zero.next_id(), one.next_u64());
}
