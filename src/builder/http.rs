//! The settings of an HTTP transport, and a builder for them.
use url::Url;
use vstd::prelude::*;

use crate::builder::CollectorBuilder;
use crate::collector::DEFAULT_MAX_MESSAGE_SIZE;

verus! {

/// Whether an HTTP transport follows redirects.
#[derive(Clone, Copy, Debug, PartialEq, Eq, Structural)]
pub enum RedirectPolicy {
    FollowAll,
    FollowNone,
}

/// Settings of an HTTP transport; timeouts are in milliseconds.
#[derive(Debug)]
pub struct HttpConfig {
    /// The `Content-Type` of the requests.
    pub content_type: String,
    pub redirect_policy: RedirectPolicy,
    pub read_timeout_ms: Option<u64>,
    pub write_timeout_ms: Option<u64>,
    pub max_message_size: usize,
    pub max_idle_connections: Option<usize>,
}

impl HttpConfig {
    /// The settings for requests of `content_type`, with the defaults for
    /// the rest: redirects followed, 15 s to read and to write, messages
    /// of 4096 bytes, no limit on idle connections.
    pub fn new(content_type: &str) -> (r: HttpConfig)
        ensures
            r.content_type@ == content_type@,
            r.redirect_policy == RedirectPolicy::FollowAll,
            r.read_timeout_ms == Some(15_000u64),
            r.write_timeout_ms == Some(15_000u64),
            r.max_message_size == DEFAULT_MAX_MESSAGE_SIZE,
            r.max_idle_connections is None,
    {
        HttpConfig {
            content_type: content_type.to_owned(),
            redirect_policy: RedirectPolicy::FollowAll,
            read_timeout_ms: Some(15_000),
            write_timeout_ms: Some(15_000),
            max_message_size: DEFAULT_MAX_MESSAGE_SIZE,
            max_idle_connections: None,
        }
    }
}

/// A collector builder, with the settings of an HTTP transport.
pub struct Builder {
    pub builder: CollectorBuilder,
    pub url: Url,
    pub config: HttpConfig,
}

impl Builder {
    pub fn with_redirect_policy(&mut self, redirect_policy: RedirectPolicy) -> (r: &mut Builder)
        ensures
            r.config.redirect_policy == redirect_policy,
            r.config.max_idle_connections == old(self).config.max_idle_connections,
            r.builder == old(self).builder,
            *final(self) == *final(r),
    {
        self.config.redirect_policy = redirect_policy;
        self
    }

    pub fn with_read_timeout(&mut self, read_timeout_ms: u64) -> (r: &mut Builder)
        ensures
            r.config.read_timeout_ms == Some(read_timeout_ms),
            r.config.redirect_policy == old(self).config.redirect_policy,
            r.builder == old(self).builder,
            *final(self) == *final(r),
    {
        self.config.read_timeout_ms = Some(read_timeout_ms);
        self
    }

    pub fn with_write_timeout(&mut self, write_timeout_ms: u64) -> (r: &mut Builder)
        ensures
            r.config.write_timeout_ms == Some(write_timeout_ms),
            r.config.redirect_policy == old(self).config.redirect_policy,
            r.builder == old(self).builder,
            *final(self) == *final(r),
    {
        self.config.write_timeout_ms = Some(write_timeout_ms);
        self
    }

    pub fn with_max_idle_connections(&mut self, max_idle_connections: usize) -> (r:
        &mut Builder)
        ensures
            r.config.max_idle_connections == Some(max_idle_connections),
            r.config.redirect_policy == old(self).config.redirect_policy,
            r.builder == old(self).builder,
            *final(self) == *final(r),
    {
        self.config.max_idle_connections = Some(max_idle_connections);
        self
    }
}

} // verus!
