//! The settings of a message-queue transport, and a builder for them.
use vstd::prelude::*;

use crate::builder::CollectorBuilder;
use crate::collector::DEFAULT_MAX_MESSAGE_SIZE;

verus! {

/// How a message-queue producer compresses what it sends.
#[allow(non_camel_case_types)]
#[derive(Clone, Copy, Debug, PartialEq, Eq, Structural)]
pub enum Compression {
    NONE,
    GZIP,
    SNAPPY,
}

/// How many brokers must acknowledge a message before it counts as sent:
/// none, the leader, or all replicas in sync.
#[derive(Clone, Copy, Debug, PartialEq, Eq, Structural)]
pub enum RequiredAcks {
    NoAcks,
    One,
    All,
}

/// Settings of a message-queue transport; timeouts are in milliseconds.
#[derive(Debug)]
pub struct KafkaConfig {
    pub hosts: Vec<String>,
    pub topic: String,
    pub max_message_size: usize,
    pub compression: Compression,
    pub ack_timeout_ms: u64,
    pub connection_idle_timeout_ms: u64,
    pub required_acks: RequiredAcks,
}

fn copy_hosts(hosts: &[String]) -> (r: Vec<String>)
    ensures
        r@.len() == hosts@.len(),
        forall|i: int| 0 <= i < hosts@.len() ==> #[trigger] r@[i]@ == hosts@[i]@,
{
    let mut r: Vec<String> = Vec::new();
    let mut i: usize = 0;
    while i < hosts.len()
        invariant
            i <= hosts@.len(),
            r@.len() == i,
            forall|j: int| 0 <= j < i ==> #[trigger] r@[j]@ == hosts@[j]@,
        decreases hosts@.len() - i,
    {
        r.push(hosts[i].clone());
        i = i + 1;
    }
    r
}

impl KafkaConfig {
    /// The settings for `hosts` and `topic`, with the defaults for the
    /// rest: messages of 4096 bytes, no compression, one acknowledgement,
    /// waited for 5 s, and idle connections closed after 30 s.
    pub fn new(hosts: &[String], topic: &str) -> (r: KafkaConfig)
        ensures
            r.hosts@.len() == hosts@.len(),
            forall|i: int| 0 <= i < hosts@.len() ==> #[trigger] r.hosts@[i]@ == hosts@[i]@,
            r.topic@ == topic@,
            r.max_message_size == DEFAULT_MAX_MESSAGE_SIZE,
            r.compression == Compression::NONE,
            r.ack_timeout_ms == 5_000,
            r.connection_idle_timeout_ms == 30_000,
            r.required_acks == RequiredAcks::One,
    {
        KafkaConfig {
            hosts: copy_hosts(hosts),
            topic: topic.to_owned(),
            max_message_size: DEFAULT_MAX_MESSAGE_SIZE,
            compression: Compression::NONE,
            ack_timeout_ms: 5_000,
            connection_idle_timeout_ms: 30_000,
            required_acks: RequiredAcks::One,
        }
    }
}

impl Default for KafkaConfig {
    /// No hosts, and the topic "zipkin".
    fn default() -> (r: KafkaConfig)
        ensures
            r.hosts@.len() == 0,
            r.topic@ == "zipkin"@,
            r.max_message_size == DEFAULT_MAX_MESSAGE_SIZE,
            r.compression == Compression::NONE,
            r.ack_timeout_ms == 5_000,
            r.connection_idle_timeout_ms == 30_000,
            r.required_acks == RequiredAcks::One,
    {
        let hosts: Vec<String> = Vec::new();
        KafkaConfig::new(hosts.as_slice(), "zipkin")
    }
}

/// A collector builder, with the settings of a message-queue transport.
pub struct Builder {
    pub builder: CollectorBuilder,
    pub config: KafkaConfig,
}

impl Builder {
    pub fn with_compression(&mut self, compression: Compression) -> (r: &mut Builder)
        ensures
            r.config.compression == compression,
            r.config.required_acks == old(self).config.required_acks,
            r.builder == old(self).builder,
            *final(self) == *final(r),
    {
        self.config.compression = compression;
        self
    }

    pub fn with_ack_timeout(&mut self, ack_timeout_ms: u64) -> (r: &mut Builder)
        ensures
            r.config.ack_timeout_ms == ack_timeout_ms,
            r.config.compression == old(self).config.compression,
            r.builder == old(self).builder,
            *final(self) == *final(r),
    {
        self.config.ack_timeout_ms = ack_timeout_ms;
        self
    }

    pub fn with_connection_idle_timeout(&mut self, connection_idle_timeout_ms: u64) -> (r:
        &mut Builder)
        ensures
            r.config.connection_idle_timeout_ms == connection_idle_timeout_ms,
            r.config.compression == old(self).config.compression,
            r.builder == old(self).builder,
            *final(self) == *final(r),
    {
        self.config.connection_idle_timeout_ms = connection_idle_timeout_ms;
        self
    }

    pub fn with_required_acks(&mut self, required_acks: RequiredAcks) -> (r: &mut Builder)
        ensures
            r.config.required_acks == required_acks,
            r.config.compression == old(self).config.compression,
            r.builder == old(self).builder,
            *final(self) == *final(r),
    {
        self.config.required_acks = required_acks;
        self
    }
}

} // verus!
