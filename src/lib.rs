//! Distributed-tracing instrumentation: the span model, sampling,
//! the JSON and Thrift wire encodings, and the collector pipeline.

pub mod builder;
pub mod codec;
pub mod collector;
pub mod constants;
pub mod errors;
pub mod ids;
pub mod ip;
pub mod json;
pub mod number;
pub mod octets;
pub mod sampler;
pub mod span;
pub mod text;
pub mod thrift;
pub mod thrift_msg;
pub mod tracer;

pub use builder::http::{HttpConfig, RedirectPolicy};
pub use builder::kafka::{Compression, KafkaConfig, RequiredAcks};
pub use builder::CollectorBuilder;
pub use codec::{Codec, JsonCodec, MessageEncoder, ThriftCodec};
pub use collector::{BaseCollector, Collector, MemoryTransport, Transport, DEFAULT_MAX_MESSAGE_SIZE};
pub use constants::{
    CLIENT_ADDR, CLIENT_RECV, CLIENT_RECV_FRAGMENT, CLIENT_SEND, CLIENT_SEND_FRAGMENT, ERROR,
    HTTP_HOST, HTTP_METHOD, HTTP_PATH, HTTP_REQUEST_SIZE, HTTP_RESPONSE_SIZE, HTTP_STATUS_CODE,
    HTTP_URL, LOCAL_COMPONENT, SERVER_ADDR, SERVER_RECV, SERVER_RECV_FRAGMENT, SERVER_SEND,
    SERVER_SEND_FRAGMENT, SQL_QUERY, WIRE_RECV, WIRE_SEND,
};
pub use errors::Error;
pub use ids::IdGenerator;
pub use sampler::{FixedRate, RateLimit, Sampler};
pub use span::{
    next_id, now, timestamp, Address, Annotatable, Annotation, BinaryAnnotation, Double, Duration,
    Endpoint, Span, SpanId, Timestamp, TraceId, Value,
};
pub use tracer::Tracer;
