//! Codecs: the wire encodings of a batch of spans, written into a buffer.
use bytes::BytesMut;
use vstd::prelude::*;
use vstd::string::*;
use vstd::utf8::encode_utf8;

use crate::errors::Error;
use crate::json;
use crate::span::Span;
use crate::thrift;

verus! {

#[verifier::external_type_specification]
#[verifier::external_body]
pub struct ExBytesMut(bytes::BytesMut);

/// The bytes a buffer holds.
pub uninterp spec fn buffer_bytes(b: BytesMut) -> Seq<u8>;

/// Relies on `BytesMut::with_capacity`: an empty buffer.
#[verifier::external_body]
pub(crate) fn buffer_with_capacity(capacity: usize) -> (r: BytesMut)
    ensures
        buffer_bytes(r) == Seq::<u8>::empty(),
{
    BytesMut::with_capacity(capacity)
}

/// Relies on `BytesMut::extend_from_slice`: appends the bytes of `s`.
#[verifier::external_body]
pub(crate) fn buffer_extend(b: &mut BytesMut, s: &[u8])
    ensures
        buffer_bytes(*final(b)) == buffer_bytes(*old(b)) + s@,
{
    b.extend_from_slice(s)
}

/// Relies on `<[u8]>::to_vec` through `BytesMut`'s `Deref`: a copy of the
/// bytes the buffer holds.
#[verifier::external_body]
pub(crate) fn buffer_to_vec(b: &BytesMut) -> (r: Vec<u8>)
    ensures
        r@ == buffer_bytes(*b),
{
    b.to_vec()
}

/// Writes a batch of spans into a buffer in one wire format.
pub trait Codec: Sized {
    /// Whether the codec promises what `encoding` says. A codec that does
    /// not say what it writes promises nothing.
    open spec fn obeys_codec_spec() -> bool {
        false
    }

    /// The bytes that encode `spans`, or the error that encoding them
    /// gives.
    open spec fn encoding(&self, spans: Seq<Span>) -> Result<Seq<u8>, Error> {
        Err(Error::Poisoned)
    }

    /// Appends the encoding of `spans` to `dst`, or fails with the error
    /// `encoding` gives, leaving `dst` as it was. A codec that keeps its
    /// promise keeps no state either.
    fn encode(&mut self, spans: &Vec<Span>, dst: &mut BytesMut) -> (r: Result<(), Error>)
        ensures
            Self::obeys_codec_spec() ==> {
                &&& r is Ok <==> old(self).encoding(spans@) is Ok
                &&& r is Ok ==> buffer_bytes(*final(dst)) == buffer_bytes(*old(dst)) + old(self).encoding(spans@)->Ok_0
                &&& r is Err ==> r->Err_0 == old(self).encoding(spans@)->Err_0
                    && buffer_bytes(*final(dst)) == buffer_bytes(*old(dst))
                &&& *final(self) == *old(self)
            },
    ;

    /// The MIME type of the encoding, for a `Content-Type` header.
    fn mime_type(&self) -> &'static str;
}

pub open spec fn json_mime() -> Seq<char> {
    "application/json"@
}

pub open spec fn thrift_mime() -> Seq<char> {
    "application/x-thrift"@
}

/// JSON: an array of span objects, compact or pretty-printed.
#[derive(Clone, Copy, Debug, PartialEq, Eq, Structural)]
pub struct JsonCodec {
    pub pretty_print: bool,
}

impl JsonCodec {
    pub fn new() -> (r: JsonCodec)
        ensures
            !r.pretty_print,
    {
        JsonCodec { pretty_print: false }
    }

    pub fn pretty() -> (r: JsonCodec)
        ensures
            r.pretty_print,
    {
        JsonCodec { pretty_print: true }
    }
}

impl Codec for JsonCodec {
    open spec fn obeys_codec_spec() -> bool {
        true
    }

    /// The UTF-8 bytes of the JSON array of `spans`.
    open spec fn encoding(&self, spans: Seq<Span>) -> Result<Seq<u8>, Error> {
        Ok(encode_utf8(json::spans_text(spans, self.pretty_print)))
    }

    fn encode(&mut self, spans: &Vec<Span>, dst: &mut BytesMut) -> (r: Result<(), Error>) {
        let text = if self.pretty_print {
            json::to_vec_pretty(spans)
        } else {
            json::to_vec(spans)
        };
        buffer_extend(dst, text.as_slice());
        Ok(())
    }

    fn mime_type(&self) -> (r: &'static str)
        ensures
            r@ == json_mime(),
    {
        "application/json"
    }
}

/// Thrift binary: a list of span structs.
#[derive(Clone, Copy, Debug, PartialEq, Eq, Structural)]
pub struct ThriftCodec {}

impl ThriftCodec {
    pub fn new() -> (r: ThriftCodec)
        ensures
            r == (ThriftCodec {}),
    {
        ThriftCodec {}
    }
}

impl Codec for ThriftCodec {
    open spec fn obeys_codec_spec() -> bool {
        true
    }

    /// The Thrift list of `spans`, or `ThriftTooLong` when a length does not
    /// fit.
    open spec fn encoding(&self, spans: Seq<Span>) -> Result<Seq<u8>, Error> {
        if thrift::spans_fit(spans) {
            Ok(thrift::spans_bytes(spans))
        } else {
            Err(Error::ThriftTooLong)
        }
    }

    fn encode(&mut self, spans: &Vec<Span>, dst: &mut BytesMut) -> (r: Result<(), Error>) {
        let bytes = thrift::to_vec(spans)?;
        buffer_extend(dst, bytes.as_slice());
        Ok(())
    }

    fn mime_type(&self) -> (r: &'static str)
        ensures
            r@ == thrift_mime(),
    {
        "application/x-thrift"
    }
}

/// The compact JSON codec.
pub fn json() -> (r: JsonCodec)
    ensures
        !r.pretty_print,
{
    JsonCodec::new()
}

/// The pretty-printing JSON codec.
pub fn pretty_json() -> (r: JsonCodec)
    ensures
        r.pretty_print,
{
    JsonCodec::pretty()
}

/// The Thrift codec.
pub fn thrift() -> (r: ThriftCodec)
    ensures
        r == (ThriftCodec {}),
{
    ThriftCodec::new()
}

/// Whether two strings are equal, compared byte by byte.
pub fn str_eq(a: &str, b: &str) -> (r: bool)
    ensures
        r == (a@ == b@),
{
    let x = a.as_bytes();
    let y = b.as_bytes();
    proof {
        vstd::utf8::encode_utf8_decode_utf8(a@);
        vstd::utf8::encode_utf8_decode_utf8(b@);
    }
    if x.len() != y.len() {
        return false;
    }
    let mut i: usize = 0;
    while i < x.len()
        invariant
            x@ == encode_utf8(a@),
            y@ == encode_utf8(b@),
            x@.len() == y@.len(),
            i <= x@.len(),
            forall|j: int| 0 <= j < i ==> x@[j] == y@[j],
        decreases x@.len() - i,
    {
        if x[i] != y[i] {
            assert(x@[i as int] != y@[i as int]);
            assert(x@ != y@);
            return false;
        }
        i = i + 1;
    }
    assert(x@ =~= y@);
    true
}

/// One of the encodings, chosen by name.
#[derive(Clone, Copy, Debug, PartialEq, Eq, Structural)]
pub enum MessageEncoder {
    Json(JsonCodec),
    PrettyJson(JsonCodec),
    Thrift(ThriftCodec),
}

/// The encoder that a name stands for: "json"; "pretty" or "pretty-json";
/// "thrift".
pub open spec fn encoder_named(name: Seq<char>) -> Option<MessageEncoder> {
    if name == "json"@ {
        Some(MessageEncoder::Json(JsonCodec { pretty_print: false }))
    } else if name == "pretty"@ || name == "pretty-json"@ {
        Some(MessageEncoder::PrettyJson(JsonCodec { pretty_print: true }))
    } else if name == "thrift"@ {
        Some(MessageEncoder::Thrift(ThriftCodec {}))
    } else {
        None
    }
}

impl MessageEncoder {
    /// The encoder called `name`; an unknown name is an error that
    /// carries it.
    pub fn from_name(name: &str) -> (r: Result<MessageEncoder, Error>)
        ensures
            encoder_named(name@) is Some ==> r == Ok::<MessageEncoder, Error>(
                encoder_named(name@)->Some_0,
            ),
            encoder_named(name@) is None ==> r is Err && r->Err_0 is UnknownCodec
                && r->Err_0->UnknownCodec_0@ == name@,
    {
        if str_eq(name, "json") {
            Ok(MessageEncoder::Json(JsonCodec::new()))
        } else if str_eq(name, "pretty") || str_eq(name, "pretty-json") {
            Ok(MessageEncoder::PrettyJson(JsonCodec::pretty()))
        } else if str_eq(name, "thrift") {
            Ok(MessageEncoder::Thrift(ThriftCodec::new()))
        } else {
            Err(Error::UnknownCodec(name.to_owned()))
        }
    }
}

impl std::str::FromStr for MessageEncoder {
    type Err = Error;

    fn from_str(s: &str) -> (r: Result<MessageEncoder, Error>)
        ensures
            encoder_named(s@) is Some ==> r == Ok::<MessageEncoder, Error>(
                encoder_named(s@)->Some_0,
            ),
            encoder_named(s@) is None ==> r is Err && r->Err_0 is UnknownCodec
                && r->Err_0->UnknownCodec_0@ == s@,
    {
        MessageEncoder::from_name(s)
    }
}

impl Codec for MessageEncoder {
    open spec fn obeys_codec_spec() -> bool {
        true
    }

    /// The encoding of the chosen codec.
    open spec fn encoding(&self, spans: Seq<Span>) -> Result<Seq<u8>, Error> {
        match self {
            MessageEncoder::Json(c) => c.encoding(spans),
            MessageEncoder::PrettyJson(c) => c.encoding(spans),
            MessageEncoder::Thrift(c) => c.encoding(spans),
        }
    }

    fn encode(&mut self, spans: &Vec<Span>, dst: &mut BytesMut) -> (r: Result<(), Error>) {
        match self {
            MessageEncoder::Json(c) => c.encode(spans, dst),
            MessageEncoder::PrettyJson(c) => c.encode(spans, dst),
            MessageEncoder::Thrift(c) => c.encode(spans, dst),
        }
    }

    fn mime_type(&self) -> (r: &'static str)
        ensures
            r@ == (match self {
                MessageEncoder::Thrift(_) => thrift_mime(),
                _ => json_mime(),
            }),
    {
        match self {
            MessageEncoder::Json(c) => c.mime_type(),
            MessageEncoder::PrettyJson(c) => c.mime_type(),
            MessageEncoder::Thrift(c) => c.mime_type(),
        }
    }
}

} // verus!
