use bytes::{BufMut, BytesMut};

use zipkin::{
    BaseCollector, Codec, Collector, Compression, Error, KafkaConfig, MessageEncoder, RedirectPolicy,
    RequiredAcks, Span, Transport,
};

struct MockTransport {
    sent: usize,
    buf: Vec<u8>,
}

impl MockTransport {
    fn new() -> Self {
        MockTransport { sent: 0, buf: vec![] }
    }
}

impl Transport for MockTransport {
    fn send(&mut self, buf: &BytesMut) -> Result<(), Error> {
        self.sent += 1;
        self.buf.extend_from_slice(&buf[..]);

        Ok(())
    }
}

struct MockEncoder {
    encoded: usize,
}

impl MockEncoder {
    fn new() -> Self {
        MockEncoder { encoded: 0 }
    }
}

impl Codec for MockEncoder {
    fn encode(&mut self, _: &Vec<Span>, buf: &mut BytesMut) -> Result<(), Error> {
        self.encoded += 1;

        buf.put_slice(b"hello");
        buf.put_slice(b" world");

        Ok(())
    }

    fn mime_type(&self) -> &'static str {
        "text/plain"
    }
}

#[test]
fn collector_submit() {
    let span = Span::new("test");

    let mut collector = BaseCollector {
        max_message_size: 1024,
        encoder: MockEncoder::new(),
        transport: MockTransport::new(),
    };

    collector.submit(vec![span]).unwrap();

    assert_eq!(collector.encoder.encoded, 1);
    assert_eq!(collector.transport.sent, 1);
    assert_eq!(collector.transport.buf, b"hello world");
}

struct Recorder {
    buffers: Vec<Vec<u8>>,
    fail: bool,
}

impl Transport for Recorder {
    fn send(&mut self, buf: &BytesMut) -> Result<(), Error> {
        if self.fail {
            return Err(Error::Transport("refused".to_string()));
        }
        self.buffers.push(buf.to_vec());
        Ok(())
    }
}

#[test]
fn each_submit_sends_one_whole_buffer() {
    let mut collector = zipkin::collector::new(
        zipkin::codec::thrift(),
        Recorder { buffers: vec![], fail: false },
    );
    assert_eq!(collector.max_message_size, zipkin::DEFAULT_MAX_MESSAGE_SIZE);
    let a = Span::new("a");
    let b = Span::new("b");
    collector.submit(vec![a.clone()]).unwrap();
    collector.submit(vec![b.clone(), a.clone()]).unwrap();
    assert_eq!(collector.transport.buffers.len(), 2);
    assert_eq!(collector.transport.buffers[0], zipkin::thrift::to_vec(&vec![a.clone()]).unwrap());
    assert_eq!(collector.transport.buffers[1], zipkin::thrift::to_vec(&vec![b, a]).unwrap());

    collector.transport.fail = true;
    assert_eq!(collector.submit(vec![Span::new("c")]), Err(Error::Transport("refused".to_string())));
    assert_eq!(collector.transport.buffers.len(), 2);
}

#[test]
fn builder_configures_collector() {
    let mut builder = zipkin::CollectorBuilder::json();
    assert_eq!(builder.max_message_size(), 4096);
    builder.with_max_message_size(1024);
    assert_eq!(builder.max_message_size(), 1024);
    let collector = builder.build(Recorder { buffers: vec![], fail: false });
    assert_eq!(collector.max_message_size, 1024);
    assert_eq!(collector.encoder.mime_type(), "application/json");

    let thrift = zipkin::CollectorBuilder::thrift();
    assert_eq!(thrift.encoder().mime_type(), "application/x-thrift");
    let pretty = zipkin::CollectorBuilder::pretty_json();
    assert_eq!(pretty.encoder(), zipkin::MessageEncoder::PrettyJson(zipkin::JsonCodec::pretty()));
}

#[test]
fn encoders_by_name() {
    assert_eq!(MessageEncoder::from_name("json"), Ok(MessageEncoder::Json(zipkin::JsonCodec::new())));
    assert_eq!(
        MessageEncoder::from_name("pretty-json"),
        Ok(MessageEncoder::PrettyJson(zipkin::JsonCodec::pretty()))
    );
    assert_eq!(
        MessageEncoder::from_name("pretty"),
        Ok(MessageEncoder::PrettyJson(zipkin::JsonCodec::pretty()))
    );
    assert_eq!(
        "thrift".parse::<MessageEncoder>(),
        Ok(MessageEncoder::Thrift(zipkin::ThriftCodec::new()))
    );
    assert_eq!(
        MessageEncoder::from_name("xml"),
        Err(Error::UnknownCodec("xml".to_string()))
    );
    assert!(zipkin::codec::str_eq("abc", "abc"));
    assert!(!zipkin::codec::str_eq("abc", "abd"));
    assert!(!zipkin::codec::str_eq("abc", "ab"));
}

#[test]
fn kafka_settings() {
    let hosts = vec!["a:9092".to_string(), "b:9092".to_string()];
    let mut kafka = zipkin::CollectorBuilder::thrift().with_kafka(&hosts, "spans");
    assert_eq!(kafka.config.hosts, hosts);
    assert_eq!(kafka.config.topic, "spans");
    assert_eq!(kafka.config.max_message_size, 4096);
    assert_eq!(kafka.config.compression, Compression::NONE);
    assert_eq!(kafka.config.ack_timeout_ms, 5000);
    assert_eq!(kafka.config.connection_idle_timeout_ms, 30000);
    assert_eq!(kafka.config.required_acks, RequiredAcks::One);
    kafka
        .with_compression(Compression::GZIP)
        .with_ack_timeout(1000)
        .with_connection_idle_timeout(2000)
        .with_required_acks(RequiredAcks::All);
    assert_eq!(kafka.config.compression, Compression::GZIP);
    assert_eq!(kafka.config.ack_timeout_ms, 1000);
    assert_eq!(kafka.config.connection_idle_timeout_ms, 2000);
    assert_eq!(kafka.config.required_acks, RequiredAcks::All);

    let default = KafkaConfig::default();
    assert!(default.hosts.is_empty());
    assert_eq!(default.topic, "zipkin");
}

#[test]
fn http_settings() {
    let url = url::Url::parse("http://localhost:9411/api/v1/spans").unwrap();
    let mut http = zipkin::CollectorBuilder::thrift().with_http(url.clone());
    assert_eq!(http.url, url);
    assert_eq!(http.config.content_type, "application/x-thrift");
    assert_eq!(http.config.redirect_policy, RedirectPolicy::FollowAll);
    assert_eq!(http.config.read_timeout_ms, Some(15000));
    assert_eq!(http.config.write_timeout_ms, Some(15000));
    assert_eq!(http.config.max_idle_connections, None);
    http.with_redirect_policy(RedirectPolicy::FollowNone)
        .with_read_timeout(3000)
        .with_write_timeout(4000)
        .with_max_idle_connections(8);
    assert_eq!(http.config.redirect_policy, RedirectPolicy::FollowNone);
    assert_eq!(http.config.read_timeout_ms, Some(3000));
    assert_eq!(http.config.write_timeout_ms, Some(4000));
    assert_eq!(http.config.max_idle_connections, Some(8));

    let json = zipkin::CollectorBuilder::json().with_http(url);
    assert_eq!(json.config.content_type, "application/json");
}

#[test]
fn memory_transport_receives_whole_encodings() {
    let mut collector = BaseCollector::new(MessageEncoder::from_name("json").unwrap(), zipkin::MemoryTransport::new());
    let a = Span::new("a");
    let b = Span::new("b");
    collector.submit(vec![a.clone(), b.clone()]).unwrap();
    collector.submit(vec![]).unwrap();
    assert_eq!(collector.transport.buffers.len(), 2);
    assert_eq!(collector.transport.buffers[0], zipkin::json::to_vec(&vec![a, b]));
    assert_eq!(collector.transport.buffers[1], b"[]".to_vec());

    let mut encoder = zipkin::codec::thrift();
    let buf = zipkin::collector::encode_batch(&mut encoder, &vec![Span::new("c")], 16).unwrap();
    assert_eq!(buf.len(), zipkin::thrift::to_vec(&vec![Span::new("c").with_id(0)]).unwrap().len());
}
