//! The pipeline that encodes spans and hands the buffer to a transport.
use bytes::BytesMut;
use vstd::prelude::*;

use crate::codec::{buffer_bytes, buffer_to_vec, buffer_with_capacity, Codec};
use crate::errors::Error;
use crate::span::Span;

verus! {

/// The default size hint, in bytes, for the buffer of one message.
pub const DEFAULT_MAX_MESSAGE_SIZE: usize = 4096;

/// Delivers encoded buffers to a trace-collection backend. What counts as
/// failure is the backend's to say.
pub trait Transport: Sized {
    /// Whether the transport keeps the account that `sent` gives. A
    /// transport that keeps none promises nothing.
    open spec fn obeys_transport_spec() -> bool {
        false
    }

    /// The buffers delivered so far, in order.
    open spec fn sent(&self) -> Seq<Seq<u8>> {
        Seq::empty()
    }

    /// The backend's answer to the delivery of `buf`.
    open spec fn answer(&self, buf: Seq<u8>) -> Result<(), Error> {
        Ok(())
    }

    /// Delivers `buf`, whole, and hands back the backend's answer; a
    /// failed delivery delivers nothing.
    fn send(&mut self, buf: &BytesMut) -> (r: Result<(), Error>)
        ensures
            Self::obeys_transport_spec() ==> {
                &&& r == old(self).answer(buffer_bytes(*buf))
                &&& r is Ok ==> final(self).sent() == old(self).sent().push(buffer_bytes(*buf))
                &&& r is Err ==> final(self).sent() == old(self).sent()
            },
    ;
}

/// A transport that keeps what it is sent in memory.
#[derive(Debug)]
pub struct MemoryTransport {
    pub buffers: Vec<Vec<u8>>,
}

impl MemoryTransport {
    pub fn new() -> (r: MemoryTransport)
        ensures
            r.sent() == Seq::<Seq<u8>>::empty(),
    {
        let r = MemoryTransport { buffers: Vec::new() };
        assert(r.sent() =~= Seq::<Seq<u8>>::empty());
        r
    }
}

impl Transport for MemoryTransport {
    open spec fn obeys_transport_spec() -> bool {
        true
    }

    open spec fn sent(&self) -> Seq<Seq<u8>> {
        self.buffers@.map_values(|b: Vec<u8>| b@)
    }

    /// Every buffer is accepted.
    open spec fn answer(&self, buf: Seq<u8>) -> Result<(), Error> {
        Ok(())
    }

    fn send(&mut self, buf: &BytesMut) -> (r: Result<(), Error>) {
        let b = buffer_to_vec(buf);
        self.buffers.push(b);
        assert(self.sent() =~= old(self).sent().push(buffer_bytes(*buf)));
        Ok(())
    }
}

/// Accepts batches of spans for delivery.
pub trait Collector: Sized {
    /// Whether the collector's answers are the ones `answer` gives. A
    /// collector that does not say promises nothing.
    open spec fn obeys_collector_spec() -> bool {
        false
    }

    /// The answer to the submission of `spans`.
    open spec fn answer(&self, spans: Seq<Span>) -> Result<(), Error> {
        Ok(())
    }

    fn submit(&mut self, spans: Vec<Span>) -> (r: Result<(), Error>)
        ensures
            Self::obeys_collector_spec() ==> r == old(self).answer(spans@),
    ;
}

/// What a collector with encoder `encoder` and transport `transport`
/// answers for `spans`: the encoder's error, or else the transport's
/// answer to the complete encoding.
pub open spec fn pipeline_answer<C: Codec, T: Transport>(
    encoder: C,
    transport: T,
    spans: Seq<Span>,
) -> Result<(), Error> {
    match encoder.encoding(spans) {
        Ok(bytes) => transport.answer(bytes),
        Err(e) => Err(e),
    }
}

/// Encodes each batch into a fresh buffer, then hands that buffer, whole,
/// to the transport in one call.
pub struct BaseCollector<C, T> {
    /// Size hint for the buffer of one message.
    pub max_message_size: usize,
    pub encoder: C,
    pub transport: T,
}

impl<C: Codec, T: Transport> BaseCollector<C, T> {
    pub fn new(encoder: C, transport: T) -> (r: BaseCollector<C, T>)
        ensures
            r.max_message_size == DEFAULT_MAX_MESSAGE_SIZE,
            r.encoder == encoder,
            r.transport == transport,
    {
        BaseCollector { max_message_size: DEFAULT_MAX_MESSAGE_SIZE, encoder, transport }
    }
}

/// A collector with the default message size.
pub fn new<C: Codec, T: Transport>(codec: C, transport: T) -> (r: BaseCollector<C, T>)
    ensures
        r.max_message_size == DEFAULT_MAX_MESSAGE_SIZE,
        r.encoder == codec,
        r.transport == transport,
{
    BaseCollector::new(codec, transport)
}

/// Encodes a batch into a fresh buffer, sized by `max_message_size`. With
/// a codec that keeps its promise, the buffer holds the complete encoding
/// of the batch and nothing else.
pub fn encode_batch<C: Codec>(encoder: &mut C, spans: &Vec<Span>, max_message_size: usize) -> (r:
    Result<BytesMut, Error>)
    ensures
        C::obeys_codec_spec() ==> {
            &&& r is Ok <==> old(encoder).encoding(spans@) is Ok
            &&& r is Ok ==> buffer_bytes(r->Ok_0) == old(encoder).encoding(spans@)->Ok_0
            &&& r is Err ==> r->Err_0 == old(encoder).encoding(spans@)->Err_0
            &&& *final(encoder) == *old(encoder)
        },
{
    let mut buf = buffer_with_capacity(max_message_size);
    let r = encoder.encode(spans, &mut buf);
    match r {
        Ok(()) => {
            assert(C::obeys_codec_spec() ==> buffer_bytes(buf) =~= old(encoder).encoding(
                spans@,
            )->Ok_0);
            Ok(buf)
        },
        Err(e) => Err(e),
    }
}

impl<C: Codec, T: Transport> BaseCollector<C, T> {
    /// Encodes a batch into a fresh buffer, sized by the message size hint.
    pub fn encode_message(&mut self, spans: &Vec<Span>) -> (r: Result<BytesMut, Error>)
        ensures
            final(self).max_message_size == old(self).max_message_size,
            final(self).transport == old(self).transport,
            C::obeys_codec_spec() ==> {
                &&& r is Ok <==> old(self).encoder.encoding(spans@) is Ok
                &&& r is Ok ==> buffer_bytes(r->Ok_0) == old(self).encoder.encoding(spans@)->Ok_0
                &&& r is Err ==> r->Err_0 == old(self).encoder.encoding(spans@)->Err_0
                &&& final(self).encoder == old(self).encoder
            },
    {
        encode_batch(&mut self.encoder, spans, self.max_message_size)
    }
}

impl<C: Codec, T: Transport> Collector for BaseCollector<C, T> {
    open spec fn obeys_collector_spec() -> bool {
        C::obeys_codec_spec() && T::obeys_transport_spec()
    }

    open spec fn answer(&self, spans: Seq<Span>) -> Result<(), Error> {
        pipeline_answer(self.encoder, self.transport, spans)
    }

    /// Encodes the batch into one buffer, then hands that buffer, whole,
    /// to the transport in a single call, and returns the transport's
    /// answer. A batch that cannot be encoded is refused with the
    /// encoder's error, and nothing is sent.
    fn submit(&mut self, spans: Vec<Span>) -> (r: Result<(), Error>)
        ensures
            final(self).max_message_size == old(self).max_message_size,
            C::obeys_codec_spec() ==> final(self).encoder == old(self).encoder,
            C::obeys_codec_spec() && old(self).encoder.encoding(spans@) is Err ==> r == Err::<
                (),
                Error,
            >(old(self).encoder.encoding(spans@)->Err_0) && final(self).transport == old(
                self,
            ).transport,
            C::obeys_codec_spec() && T::obeys_transport_spec() ==> r == pipeline_answer(
                old(self).encoder,
                old(self).transport,
                spans@,
            ),
            C::obeys_codec_spec() && T::obeys_transport_spec() && old(self).encoder.encoding(
                spans@,
            ) is Ok ==> {
                let sent = old(self).transport.sent();
                &&& r is Ok ==> final(self).transport.sent() == sent.push(
                    old(self).encoder.encoding(spans@)->Ok_0,
                )
                &&& r is Err ==> final(self).transport.sent() == sent
            },
    {
        let buf = self.encode_message(&spans)?;
        self.transport.send(&buf)
    }
}

} // verus!
