//! Configuring a collector: which encoding, and how large a message.
pub mod http;
pub mod kafka;

use url::Url;
use vstd::prelude::*;

use crate::codec::{json_mime, thrift_mime, Codec, JsonCodec, MessageEncoder, ThriftCodec};
use crate::collector::{BaseCollector, Transport, DEFAULT_MAX_MESSAGE_SIZE};

verus! {

#[verifier::external_type_specification]
#[verifier::external_body]
pub struct ExUrl(url::Url);

pub struct CollectorBuilder {
    max_message_size: usize,
    encoder: MessageEncoder,
}

impl CollectorBuilder {
    pub closed spec fn spec_max_message_size(&self) -> usize {
        self.max_message_size
    }

    pub closed spec fn spec_encoder(&self) -> MessageEncoder {
        self.encoder
    }

    fn new(encoder: MessageEncoder) -> (r: CollectorBuilder)
        ensures
            r.spec_max_message_size() == DEFAULT_MAX_MESSAGE_SIZE,
            r.spec_encoder() == encoder,
    {
        CollectorBuilder { max_message_size: DEFAULT_MAX_MESSAGE_SIZE, encoder }
    }

    pub fn json() -> (r: CollectorBuilder)
        ensures
            r.spec_max_message_size() == DEFAULT_MAX_MESSAGE_SIZE,
            r.spec_encoder() == MessageEncoder::Json(JsonCodec { pretty_print: false }),
    {
        CollectorBuilder::new(MessageEncoder::Json(JsonCodec::new()))
    }

    pub fn pretty_json() -> (r: CollectorBuilder)
        ensures
            r.spec_max_message_size() == DEFAULT_MAX_MESSAGE_SIZE,
            r.spec_encoder() == MessageEncoder::PrettyJson(JsonCodec { pretty_print: true }),
    {
        CollectorBuilder::new(MessageEncoder::PrettyJson(JsonCodec::pretty()))
    }

    pub fn thrift() -> (r: CollectorBuilder)
        ensures
            r.spec_max_message_size() == DEFAULT_MAX_MESSAGE_SIZE,
            r.spec_encoder() == MessageEncoder::Thrift(ThriftCodec {}),
    {
        CollectorBuilder::new(MessageEncoder::Thrift(ThriftCodec::new()))
    }

    pub fn max_message_size(&self) -> (r: usize)
        ensures
            r == self.spec_max_message_size(),
    {
        self.max_message_size
    }

    pub fn encoder(&self) -> (r: MessageEncoder)
        ensures
            r == self.spec_encoder(),
    {
        self.encoder
    }

    pub fn with_max_message_size(&mut self, max_message_size: usize) -> (r: &mut CollectorBuilder)
        ensures
            r.spec_max_message_size() == max_message_size,
            r.spec_encoder() == old(self).spec_encoder(),
            *final(self) == *final(r),
    {
        self.max_message_size = max_message_size;
        self
    }

    /// Goes on to configure a message-queue transport for `topic` on
    /// `hosts`.
    pub fn with_kafka(self, hosts: &[String], topic: &str) -> (r: kafka::Builder)
        ensures
            r.builder == self,
            r.config.hosts@.len() == hosts@.len(),
            forall|i: int| 0 <= i < hosts@.len() ==> #[trigger] r.config.hosts@[i]@ == hosts@[i]@,
            r.config.topic@ == topic@,
            r.config.max_message_size == DEFAULT_MAX_MESSAGE_SIZE,
            r.config.compression == kafka::Compression::NONE,
            r.config.ack_timeout_ms == 5_000,
            r.config.connection_idle_timeout_ms == 30_000,
            r.config.required_acks == kafka::RequiredAcks::One,
    {
        kafka::Builder { builder: self, config: kafka::KafkaConfig::new(hosts, topic) }
    }

    /// Goes on to configure an HTTP transport posting to `url`, whose
    /// requests carry the MIME type of the chosen encoding.
    pub fn with_http(self, url: Url) -> (r: http::Builder)
        ensures
            r.builder == self,
            r.url == url,
            r.config.content_type@ == (match self.spec_encoder() {
                MessageEncoder::Thrift(_) => thrift_mime(),
                _ => json_mime(),
            }),
            r.config.redirect_policy == http::RedirectPolicy::FollowAll,
            r.config.read_timeout_ms == Some(15_000u64),
            r.config.write_timeout_ms == Some(15_000u64),
            r.config.max_message_size == DEFAULT_MAX_MESSAGE_SIZE,
            r.config.max_idle_connections is None,
    {
        let mime = self.encoder.mime_type();
        http::Builder { builder: self, url, config: http::HttpConfig::new(mime) }
    }

    /// A collector that encodes with the chosen encoding, into buffers of
    /// the chosen size, for `transport`.
    pub fn build<T: Transport>(self, transport: T) -> (r: BaseCollector<MessageEncoder, T>)
        ensures
            r.max_message_size == self.spec_max_message_size(),
            r.encoder == self.spec_encoder(),
            r.transport == transport,
    {
        BaseCollector { max_message_size: self.max_message_size, encoder: self.encoder, transport }
    }
}

} // verus!
