use bytes::BytesMut;

use zipkin::json::{to_string, to_string_pretty, to_vec as json_to_vec};
use zipkin::thrift::{to_vec, to_writer};
use zipkin::thrift_msg::{self, AnnotationType};
use zipkin::{
    timestamp, Address, Annotatable, Codec, Double, Endpoint, JsonCodec, Span, ThriftCodec,
    TraceId, Value, CLIENT_RECV, CLIENT_SEND, HTTP_METHOD, HTTP_REQUEST_SIZE, HTTP_RESPONSE_SIZE,
    HTTP_STATUS_CODE,
};

fn endpoint() -> Option<Endpoint> {
    Some(Endpoint {
        name: Some("test".to_string()),
        addr: Some(Address::V4 { ipv4: u32::from_be_bytes([127, 0, 0, 1]), port: 8080 }),
    })
}

fn base_span() -> Span {
    Span::new("test")
        .with_trace_id(TraceId { lo: 123, hi: Some(456) })
        .with_id(123)
        .with_parent_id(456)
        .with_debug(true)
}

fn fixture_span(secs: i64, nanos: u32) -> Span {
    let mut span = base_span();
    let endpoint = endpoint();

    span.annotate(CLIENT_SEND, endpoint.clone());
    span.annotate(CLIENT_RECV, None);
    span.binary_annotate(HTTP_METHOD, Value::Str("GET".to_string()), endpoint.clone());
    span.binary_annotate("debug", Value::from(true), None);
    span.binary_annotate(HTTP_STATUS_CODE, Value::from(123i16), None);
    span.binary_annotate(HTTP_REQUEST_SIZE, Value::from(-456i32), None);
    span.binary_annotate(HTTP_RESPONSE_SIZE, Value::from(-789i64), None);
    span.binary_annotate(
        "time",
        Value::Double(Double::new(123.456f64.to_bits(), "123.456".to_string()).unwrap()),
        None,
    );
    span.binary_annotate("raw", Value::from(b"some\0raw\0data".to_vec()), None);

    span.annotations[0].timestamp = timestamp(secs, nanos);
    span.annotations[1].timestamp = timestamp(secs, nanos);
    span.timestamp = timestamp(secs, nanos);
    span
}

const PRETTY_JSON: &str = r#"{
  "annotations": [
    {
      "endpoint": {
        "ipv4": "127.0.0.1",
        "port": 8080,
        "serviceName": "test"
      },
      "timestamp": 0,
      "value": "cs"
    },
    {
      "timestamp": 0,
      "value": "cr"
    }
  ],
  "binaryAnnotations": [
    {
      "endpoint": {
        "ipv4": "127.0.0.1",
        "port": 8080,
        "serviceName": "test"
      },
      "key": "http.method",
      "value": "GET"
    },
    {
      "key": "debug",
      "value": true
    },
    {
      "key": "http.status_code",
      "type": "I16",
      "value": 123
    },
    {
      "key": "http.request.size",
      "type": "I32",
      "value": -456
    },
    {
      "key": "http.response.size",
      "type": "I64",
      "value": -789
    },
    {
      "key": "time",
      "type": "DOUBLE",
      "value": 123.456
    },
    {
      "key": "raw",
      "type": "BYTES",
      "value": "c29tZQByYXcAZGF0YQ=="
    }
  ],
  "debug": true,
  "id": "000000000000007b",
  "name": "test",
  "parentId": "00000000000001c8",
  "timestamp": 0,
  "traceId": "00000000000001c8000000000000007b"
}"#;

#[test]
fn to_json() {
    let span = fixture_span(0, 0);

    let json = to_string_pretty(&span);
    let diffs: Vec<String> = json
        .lines()
        .zip(PRETTY_JSON.lines())
        .filter(|(l, r)| l != r)
        .map(|(l, r)| format!("-{}\n+{}", l, r))
        .collect();

    assert_eq!(diffs, Vec::<String>::new());
    assert_eq!(json, PRETTY_JSON);
}

#[test]
fn json_round_trip() {
    let span = fixture_span(0, 0);
    let text = to_string(&span);
    assert!(!text.contains('\n'));
    let v: serde_json::Value = serde_json::from_str(&text).unwrap();
    assert_eq!(v["traceId"], "00000000000001c8000000000000007b");
    assert_eq!(v["id"], "000000000000007b");
    assert_eq!(v["parentId"], "00000000000001c8");
    assert_eq!(v["name"], "test");
    assert_eq!(v["timestamp"], 0);
    assert_eq!(v["debug"], true);
    assert_eq!(v["annotations"][0]["value"], "cs");
    assert_eq!(v["annotations"][0]["endpoint"]["port"], 8080);
    assert_eq!(v["binaryAnnotations"][5]["value"], 123.456);
    assert_eq!(v["binaryAnnotations"][6]["value"], "c29tZQByYXcAZGF0YQ==");
    let pretty: serde_json::Value = serde_json::from_str(&to_string_pretty(&span)).unwrap();
    assert_eq!(pretty, v);
    assert_eq!(json_to_vec(&span), text.into_bytes());
}

#[test]
fn json_edge_cases() {
    let mut span = base_span().with_trace_id(TraceId { lo: 0xab, hi: None });
    span.timestamp = -5;
    span.duration = Some(2_500);
    span.name = "quote\" and \\ back\nslash".to_string();
    let text = to_string(&span);
    assert_eq!(
        text,
        "{\"debug\":true,\"duration\":2,\"id\":\"000000000000007b\",\"name\":\"quote\\\" and \\\\ back\\nslash\",\"parentId\":\"00000000000001c8\",\"timestamp\":-5,\"traceId\":\"00000000000000ab\"}"
    );
    let batch: Vec<Span> = vec![];
    assert_eq!(to_string(&batch), "[]");
    assert_eq!(to_string_pretty(&batch), "[]");
    let empty = Endpoint { name: None, addr: None };
    assert_eq!(to_string(&empty), "{}");
    let zero_port = Endpoint { name: None, addr: Some(Address::V4 { ipv4: 0x0a00_0001, port: 0 }) };
    assert_eq!(to_string(&zero_port), "{\"ipv4\":\"10.0.0.1\"}");
}

#[test]
fn json_ipv6_text() {
    let cases: Vec<(u128, &str)> = vec![
        (0, "::"),
        (1, "::1"),
        (0x2001_0db8_0000_0000_0000_0000_0000_0001, "2001:db8::1"),
        (0x2001_0db8_0000_0001_0000_0000_0000_0001, "2001:db8:0:1::1"),
        (0x0000_0000_0000_0000_0000_ffff_c000_0280, "::ffff:192.0.2.128"),
        (0x2001_0db8_0001_0002_0003_0004_0005_0006, "2001:db8:1:2:3:4:5:6"),
        (0x2001_0000_0000_0001_0000_0000_0000_0001, "2001:0:0:1::1"),
        (0x2001_0000_0000_0001_0000_0000_0001_0001, "2001::1:0:0:1:1"),
        (0x2001_0db8_0000_0001_0001_0001_0001_0001, "2001:db8:0:1:1:1:1:1"),
    ];
    for (ip, text) in cases {
        let e = Endpoint { name: None, addr: Some(Address::V6 { ipv6: ip, port: 9 }) };
        assert_eq!(to_string(&e), format!("{{\"ipv6\":\"{}\",\"port\":9}}", text));
    }
}

#[test]
fn to_thrift() {
    let span = fixture_span(123, 456);

    let msg = thrift_msg::to_thrift(&span);

    assert_eq!(msg.trace_id.unwrap(), 123);
    assert_eq!(msg.trace_id_high.unwrap(), 456);
    assert_eq!(msg.name.unwrap(), "test");
    assert_eq!(msg.id.unwrap(), 123);
    assert_eq!(msg.parent_id.unwrap(), 456);
    assert_eq!(msg.debug.unwrap(), true);
    assert_eq!(msg.timestamp.unwrap(), 123000000);
    assert!(msg.duration.is_none());

    let annotations = msg.annotations.unwrap();

    assert_eq!(annotations.len(), 2);
    assert_eq!(annotations[0].value.as_ref().unwrap(), CLIENT_SEND);
    assert_eq!(annotations[0].host.as_ref().unwrap().port.unwrap(), 8080);
    assert_eq!(annotations[1].value.as_ref().unwrap(), CLIENT_RECV);

    let annotations = msg.binary_annotations.unwrap();

    assert_eq!(annotations.len(), 7);
    assert_eq!(annotations[0].key.as_ref().unwrap(), HTTP_METHOD);
    assert_eq!(annotations[0].annotation_type.unwrap(), AnnotationType::STRING);
    assert_eq!(annotations[0].host.as_ref().unwrap().port.unwrap(), 8080);

    assert_eq!(annotations[1].key.as_ref().unwrap(), "debug");
    assert_eq!(annotations[1].annotation_type.unwrap(), AnnotationType::BOOL);

    assert_eq!(annotations[2].key.as_ref().unwrap(), HTTP_STATUS_CODE);
    assert_eq!(annotations[2].annotation_type.unwrap(), AnnotationType::I16);

    assert_eq!(annotations[3].key.as_ref().unwrap(), HTTP_REQUEST_SIZE);
    assert_eq!(annotations[3].annotation_type.unwrap(), AnnotationType::I32);

    assert_eq!(annotations[4].key.as_ref().unwrap(), HTTP_RESPONSE_SIZE);
    assert_eq!(annotations[4].annotation_type.unwrap(), AnnotationType::I64);

    assert_eq!(annotations[5].key.as_ref().unwrap(), "time");
    assert_eq!(annotations[5].annotation_type.unwrap(), AnnotationType::DOUBLE);

    assert_eq!(annotations[6].key.as_ref().unwrap(), "raw");
    assert_eq!(annotations[6].annotation_type.unwrap(), AnnotationType::BYTES);

    let bytes = to_vec(&span).unwrap();

    assert_eq!(bytes.len(), 450);
}

#[test]
fn thrift_layout() {
    let span = Span::new("ab").with_trace_id(TraceId { lo: 1, hi: None }).with_id(2);
    let mut span = span;
    span.timestamp = -1;
    span.duration = Some(-2_500);
    let bytes = to_vec(&span).unwrap();
    let mut want: Vec<u8> = vec![];
    want.extend_from_slice(&[10, 0, 1, 0, 0, 0, 0, 0, 0, 0, 1]);
    want.extend_from_slice(&[11, 0, 3, 0, 0, 0, 2, b'a', b'b']);
    want.extend_from_slice(&[10, 0, 4, 0, 0, 0, 0, 0, 0, 0, 2]);
    want.extend_from_slice(&[10, 0, 10, 0xff, 0xff, 0xff, 0xff, 0xff, 0xff, 0xff, 0xff]);
    want.extend_from_slice(&[10, 0, 11, 0xff, 0xff, 0xff, 0xff, 0xff, 0xff, 0xff, 0xfe]);
    want.push(0);
    assert_eq!(bytes, want);
    assert_eq!(to_vec(&span).unwrap(), bytes);

    let mut out = vec![7u8];
    assert_eq!(to_writer(&mut out, &vec![span.clone()]), Ok(want.len() + 5));
    assert_eq!(&out[..6], &[7, 12, 0, 0, 0, 1]);
    assert_eq!(&out[6..], &want[..]);

    let e = Endpoint {
        name: None,
        addr: Some(Address::V4 { ipv4: u32::from_be_bytes([127, 0, 0, 1]), port: 8080 }),
    };
    assert_eq!(to_vec(&e).unwrap(), vec![8, 0, 1, 127, 0, 0, 1, 6, 0, 2, 0x1f, 0x90, 0]);
}

#[test]
fn thrift_values() {
    let mut span = base_span();
    span.binary_annotate(
        "d",
        Value::Double(Double::new(1.5f64.to_bits(), "1.5".to_string()).unwrap()),
        None,
    );
    span.binary_annotate("i", Value::I16(-2), None);
    let msg = thrift_msg::to_thrift(&span);
    let values = msg.binary_annotations.unwrap();
    assert_eq!(values[0].value.as_ref().unwrap(), &1.5f64.to_be_bytes().to_vec());
    assert_eq!(values[1].value.as_ref().unwrap(), &vec![0xff, 0xfe]);
}

#[test]
fn codec_encoder() {
    let mut span = base_span();
    let endpoint = endpoint();

    span.annotate(CLIENT_SEND, endpoint.clone());
    span.binary_annotate(HTTP_METHOD, Value::Str("GET".to_string()), endpoint.clone());

    let mut codec = JsonCodec::new();
    let mut buf = BytesMut::with_capacity(1024);

    codec.encode(&vec![span.clone()], &mut buf).unwrap();
    assert_eq!(&buf[..], to_string(&vec![span.clone()]).as_bytes());
    assert_eq!(codec.mime_type(), "application/json");

    let mut codec = ThriftCodec::new();
    let mut buf = BytesMut::with_capacity(1024);

    codec.encode(&vec![span.clone()], &mut buf).unwrap();
    assert_eq!(&buf[..], &to_vec(&vec![span]).unwrap()[..]);
    assert_eq!(codec.mime_type(), "application/x-thrift");
}
