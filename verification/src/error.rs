//! The single closed error type that every fallible operation of the
//! endpoint returns, together with the models of the payloads it carries.

use vstd::prelude::*;
use vstd::string::StringExecFns;

use crate::capacity::CapacityError;
use crate::digits::decimal;
use crate::digits::decimal_string;
use crate::protocol::ProtocolError;
use crate::url::UrlError;

verus! {

/// A WebSocket message that could not be enqueued; carried back to the
/// caller inside [`Error::WriteBufferFull`] so that no data is lost on
/// backpressure rejection.
#[derive(Clone, Debug, PartialEq, Eq)]
pub enum Message {
    /// A text message.
    Text(String),
    /// A binary message.
    Binary(Vec<u8>),
}

/// The status code and optional body bytes of a rejected handshake response.
#[derive(Clone, Debug, PartialEq, Eq)]
pub struct HttpResponse {
    /// The HTTP status code of the response.
    pub status: u16,
    /// The body bytes of the response, if any.
    pub body: Option<Vec<u8>>,
}

/// A failure of HTTP header-name, header-value, URI, or status-code
/// validation.
#[derive(Clone, Copy, Debug, PartialEq, Eq, Structural)]
pub enum HttpFormatError {
    /// A header name failed validation.
    InvalidHeaderName,
    /// A header value failed validation.
    InvalidHeaderValue,
    /// A URI failed validation.
    InvalidUri,
    /// A status code failed validation.
    InvalidStatusCode,
}

impl HttpFormatError {
    /// The diagnostic text for this HTTP-format failure.
    pub open spec fn spec_message(self) -> Seq<char> {
        match self {
            HttpFormatError::InvalidHeaderName => "invalid HTTP header name"@,
            HttpFormatError::InvalidHeaderValue => "failed to parse header value"@,
            HttpFormatError::InvalidUri => "invalid uri"@,
            HttpFormatError::InvalidStatusCode => "invalid status code"@,
        }
    }

    /// Renders the diagnostic text for this HTTP-format failure.
    pub fn message(&self) -> (s: String)
        ensures
            s@ == self.spec_message(),
    {
        match self {
            HttpFormatError::InvalidHeaderName => String::from_str("invalid HTTP header name"),
            HttpFormatError::InvalidHeaderValue => String::from_str("failed to parse header value"),
            HttpFormatError::InvalidUri => String::from_str("invalid uri"),
            HttpFormatError::InvalidStatusCode => String::from_str("invalid status code"),
        }
    }
}

/// Possible WebSocket errors.
///
/// This union is closed: every failure the transport, handshake, or framing
/// layers can produce is normalized into exactly one of these variants, and
/// callers pattern-match exhaustively over them.
#[derive(Clone, Debug, PartialEq, Eq)]
pub enum Error {
    /// WebSocket connection closed normally. This informs you of the close.
    /// It's not an error as such and nothing wrong happened.
    ///
    /// This is returned as soon as the close handshake is finished (we have
    /// both sent and received a close frame) on the server end and as soon as
    /// the server has closed the underlying connection if this endpoint is a
    /// client.
    ///
    /// Thus when you receive this, it is safe to drop the underlying
    /// connection.
    ///
    /// Receiving this error means that the WebSocket object is not usable
    /// anymore and the only meaningful action with it is dropping it.
    ConnectionClosed,
    /// Trying to work with already closed connection.
    ///
    /// Trying to read or write after receiving `ConnectionClosed` causes
    /// this.
    ///
    /// As opposed to `ConnectionClosed`, this indicates your code tries to
    /// operate on the connection when it really shouldn't anymore, so this
    /// really indicates a programmer error on your part.
    AlreadyClosed,
    /// Input-output error. Apart from would-block conditions, these are
    /// generally errors with the underlying connection and you should
    /// probably consider them fatal. Carries the diagnostic text of the
    /// underlying failure.
    Io(String),
    /// TLS error. Carries the diagnostic text of the underlying failure.
    ///
    /// Note that this error variant is available unconditionally even if no
    /// TLS support is compiled in, to provide a feature-agnostic API surface.
    Tls(String),
    /// - When reading: buffer capacity exhausted.
    /// - When writing: your message is bigger than the configured max message
    ///   size.
    Capacity(CapacityError),
    /// Protocol violation.
    Protocol(ProtocolError),
    /// The write buffer is full; the rejected message is handed back.
    WriteBufferFull(Message),
    /// UTF coding error.
    Utf8,
    /// Attack attempt detected.
    AttackAttempt,
    /// URL error.
    Url(UrlError),
    /// A rejected handshake response.
    Http(HttpResponse),
    /// HTTP format error.
    HttpFormat(HttpFormatError),
    /// Parsing blobs is unsupported.
    BlobFormatUnsupported,
    /// Unknown data format encountered.
    UnknownFormat,
}

impl Error {
    /// The diagnostic text for this error.
    pub open spec fn spec_message(self) -> Seq<char> {
        match self {
            Error::ConnectionClosed => "Connection closed normally"@,
            Error::AlreadyClosed => "Trying to work with closed connection"@,
            Error::Io(detail) => "IO error: "@ + detail@,
            Error::Tls(detail) => "TLS error: "@ + detail@,
            Error::Capacity(e) => "Space limit exceeded: "@ + e.spec_message(),
            Error::Protocol(e) => "WebSocket protocol error: "@ + e.spec_message(),
            Error::WriteBufferFull(_) => "Write buffer is full"@,
            Error::Utf8 => "UTF-8 encoding error"@,
            Error::AttackAttempt => "Attack attempt detected"@,
            Error::Url(e) => "URL error: "@ + e.spec_message(),
            Error::Http(resp) => "HTTP error: "@ + decimal(resp.status as nat),
            Error::HttpFormat(e) => "HTTP format error: "@ + e.spec_message(),
            Error::BlobFormatUnsupported => "Parsing blobs is unsupported"@,
            Error::UnknownFormat => "Unknown data format encountered"@,
        }
    }

    /// Renders the diagnostic text for this error.
    pub fn message(&self) -> (s: String)
        ensures
            s@ == self.spec_message(),
    {
        match self {
            Error::ConnectionClosed => String::from_str("Connection closed normally"),
            Error::AlreadyClosed => String::from_str("Trying to work with closed connection"),
            Error::Io(detail) => {
                let mut s = String::from_str("IO error: ");
                s.append(detail.as_str());
                s
            },
            Error::Tls(detail) => {
                let mut s = String::from_str("TLS error: ");
                s.append(detail.as_str());
                s
            },
            Error::Capacity(e) => {
                let mut s = String::from_str("Space limit exceeded: ");
                s.append(e.message().as_str());
                s
            },
            Error::Protocol(e) => {
                let mut s = String::from_str("WebSocket protocol error: ");
                s.append(e.message().as_str());
                s
            },
            Error::WriteBufferFull(_) => String::from_str("Write buffer is full"),
            Error::Utf8 => String::from_str("UTF-8 encoding error"),
            Error::AttackAttempt => String::from_str("Attack attempt detected"),
            Error::Url(e) => {
                let mut s = String::from_str("URL error: ");
                s.append(e.message().as_str());
                s
            },
            Error::Http(resp) => {
                let mut s = String::from_str("HTTP error: ");
                s.append(decimal_string(resp.status as u64).as_str());
                s
            },
            Error::HttpFormat(e) => {
                let mut s = String::from_str("HTTP format error: ");
                s.append(e.message().as_str());
                s
            },
            Error::BlobFormatUnsupported => String::from_str("Parsing blobs is unsupported"),
            Error::UnknownFormat => String::from_str("Unknown data format encountered"),
        }
    }

    /// Records that `message` could not be enqueued because the write buffer
    /// is full; the very message passed in is carried inside the result.
    pub fn write_buffer_full(message: Message) -> (e: Error)
        ensures
            e == Error::WriteBufferFull(message),
    {
        Error::WriteBufferFull(message)
    }

    /// Hands the rejected message back to the caller: returns the message
    /// carried by `WriteBufferFull`, unchanged, and nothing for any other
    /// variant.
    pub fn into_message(self) -> (r: Option<Message>)
        ensures
            r == (match self {
                Error::WriteBufferFull(message) => Some(message),
                _ => None,
            }),
    {
        match self {
            Error::WriteBufferFull(message) => Some(message),
            _ => None,
        }
    }

    /// The status code of the rejected handshake response carried by `Http`,
    /// and nothing for any other variant.
    pub fn http_status(&self) -> (r: Option<u16>)
        ensures
            r == (match self {
                Error::Http(resp) => Some(resp.status),
                _ => None,
            }),
    {
        match self {
            Error::Http(resp) => Some(resp.status),
            _ => None,
        }
    }
}

} // verus!
