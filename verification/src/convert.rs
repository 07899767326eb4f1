//! The conversion layer: total, side-effect-free functions mapping each raw
//! failure reported by an external collaborator into exactly one [`Error`]
//! value.
//!
//! All mappings are structural 1:1 mappings, with one exception: a raw
//! header-parse failure that reports too many headers is reclassified as a
//! capacity violation rather than wrapped as a protocol error.

use vstd::prelude::*;

use crate::capacity::CapacityError;
use crate::error::Error;
use crate::error::HttpFormatError;
use crate::error::HttpResponse;
use crate::protocol::HeaderParseError;
use crate::protocol::ProtocolError;
use crate::url::UrlError;

verus! {

impl Error {
    /// Classifies a raw header-parser failure.
    ///
    /// A "too many headers" report is a capacity violation and is
    /// reclassified as such; every other parser failure is wrapped unchanged
    /// as a protocol error — never the reverse.
    pub fn from_header_parse(e: HeaderParseError) -> (r: Error)
        ensures
            e == HeaderParseError::TooManyHeaders ==> r == Error::Capacity(
                CapacityError::TooManyHeaders,
            ),
            e != HeaderParseError::TooManyHeaders ==> r == Error::Protocol(
                ProtocolError::HttparseError(e),
            ),
    {
        match e {
            HeaderParseError::TooManyHeaders => Error::Capacity(CapacityError::TooManyHeaders),
            other => Error::Protocol(ProtocolError::HttparseError(other)),
        }
    }

    /// Classifies a failure to decode a byte sequence as text; the decoding
    /// position is not preserved.
    pub fn from_byte_decode_failure() -> (r: Error)
        ensures
            r == Error::Utf8,
    {
        Error::Utf8
    }

    /// Classifies a failure to decode an owned byte buffer as text; the
    /// decoding position is not preserved.
    pub fn from_owned_decode_failure() -> (r: Error)
        ensures
            r == Error::Utf8,
    {
        Error::Utf8
    }

    /// Classifies a failure to read a header value as text.
    pub fn from_header_value_text_failure() -> (r: Error)
        ensures
            r == Error::Utf8,
    {
        Error::Utf8
    }

    /// Classifies a header-value validation failure.
    pub fn from_invalid_header_value() -> (r: Error)
        ensures
            r == Error::HttpFormat(HttpFormatError::InvalidHeaderValue),
    {
        Error::HttpFormat(HttpFormatError::InvalidHeaderValue)
    }

    /// Classifies a header-name validation failure.
    pub fn from_invalid_header_name() -> (r: Error)
        ensures
            r == Error::HttpFormat(HttpFormatError::InvalidHeaderName),
    {
        Error::HttpFormat(HttpFormatError::InvalidHeaderName)
    }

    /// Classifies a URI validation failure.
    pub fn from_invalid_uri() -> (r: Error)
        ensures
            r == Error::HttpFormat(HttpFormatError::InvalidUri),
    {
        Error::HttpFormat(HttpFormatError::InvalidUri)
    }

    /// Classifies a status-code validation failure.
    pub fn from_invalid_status_code() -> (r: Error)
        ensures
            r == Error::HttpFormat(HttpFormatError::InvalidStatusCode),
    {
        Error::HttpFormat(HttpFormatError::InvalidStatusCode)
    }

    /// Wraps an I/O failure, given its diagnostic text.
    pub fn from_io(detail: String) -> (r: Error)
        ensures
            r == Error::Io(detail),
    {
        Error::Io(detail)
    }

    /// Wraps a TLS failure, given its diagnostic text.
    pub fn from_tls(detail: String) -> (r: Error)
        ensures
            r == Error::Tls(detail),
    {
        Error::Tls(detail)
    }

    /// Wraps a capacity violation.
    pub fn from_capacity(e: CapacityError) -> (r: Error)
        ensures
            r == Error::Capacity(e),
    {
        Error::Capacity(e)
    }

    /// Wraps a protocol violation.
    pub fn from_protocol(e: ProtocolError) -> (r: Error)
        ensures
            r == Error::Protocol(e),
    {
        Error::Protocol(e)
    }

    /// Wraps a URL validation failure.
    pub fn from_url(e: UrlError) -> (r: Error)
        ensures
            r == Error::Url(e),
    {
        Error::Url(e)
    }

    /// Wraps an HTTP-format failure.
    pub fn from_http_format(e: HttpFormatError) -> (r: Error)
        ensures
            r == Error::HttpFormat(e),
    {
        Error::HttpFormat(e)
    }

    /// Wraps a rejected handshake response.
    pub fn from_http_response(resp: HttpResponse) -> (r: Error)
        ensures
            r == Error::Http(resp),
    {
        Error::Http(resp)
    }
}

} // verus!
