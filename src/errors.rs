//! The library's error type.
use vstd::prelude::*;

verus! {

/// Why encoding or delivering spans failed.
#[derive(Clone, Debug, PartialEq, Eq)]
pub enum Error {
    /// An I/O failure while delivering a buffer.
    Io(String),
    /// A string, a byte array or a list too long for the Thrift encoding,
    /// which counts lengths in 32-bit signed integers.
    ThriftTooLong,
    /// The backend did not accept a buffer.
    Transport(String),
    /// A lock was poisoned: an earlier holder panicked while holding it.
    Poisoned,
    /// An encoding name that no codec answers to.
    UnknownCodec(String),
}

} // verus!
