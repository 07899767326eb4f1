//! End-to-end scenarios: raw failures produced by the real collaborators
//! flow through the conversion layer.

use client_websocket::CapacityError;
use client_websocket::Error;
use client_websocket::HeaderParseError;
use client_websocket::ProtocolError;

/// Mirrors how the transport hands a raw parser failure to the library.
fn modeled(raw: httparse::Error) -> HeaderParseError {
    match raw {
        httparse::Error::HeaderName => HeaderParseError::HeaderName,
        httparse::Error::HeaderValue => HeaderParseError::HeaderValue,
        httparse::Error::NewLine => HeaderParseError::NewLine,
        httparse::Error::Status => HeaderParseError::Status,
        httparse::Error::Token => HeaderParseError::Token,
        httparse::Error::TooManyHeaders => HeaderParseError::TooManyHeaders,
        httparse::Error::Version => HeaderParseError::Version,
    }
}

#[test]
fn handshake_response_with_too_many_headers_is_a_capacity_error() {
    // A handshake response carrying 200 headers, parsed against a
    // configured limit of 100.
    let mut raw = String::from("HTTP/1.1 101 Switching Protocols\r\n");
    for i in 0..200 {
        raw.push_str(&format!("x-header-{}: value\r\n", i));
    }
    raw.push_str("\r\n");

    let mut headers = [httparse::EMPTY_HEADER; 100];
    let mut response = httparse::Response::new(&mut headers);
    let err = response.parse(raw.as_bytes()).unwrap_err();
    assert_eq!(err, httparse::Error::TooManyHeaders);

    let converted = Error::from_header_parse(modeled(err));
    assert_eq!(converted, Error::Capacity(CapacityError::TooManyHeaders));
    assert!(!matches!(converted, Error::Protocol(_)));
}

#[test]
fn malformed_handshake_response_stays_a_protocol_error() {
    // A garbled status line is a genuine parse failure, not a capacity one.
    let raw = b"HTTP/1.1 10x Nonsense\r\n\r\n";
    let mut headers = [httparse::EMPTY_HEADER; 16];
    let mut response = httparse::Response::new(&mut headers);
    let err = response.parse(raw).unwrap_err();

    let converted = Error::from_header_parse(modeled(err));
    assert!(matches!(converted, Error::Protocol(ProtocolError::HttparseError(_))));
    assert!(!matches!(converted, Error::Capacity(_)));
}

#[test]
fn data_frame_with_reserved_bits_set_is_reported_unchanged() {
    // First byte of a text data frame with the RSV1 bit set.
    let first_byte: u8 = 0b1100_0001;
    let reserved_bits = first_byte & 0b0111_0000;
    assert_ne!(reserved_bits, 0);

    // The framing validator reports the violation; the conversion layer
    // carries it through unchanged.
    let converted = Error::from_protocol(ProtocolError::NonZeroReservedBits);
    assert_eq!(converted, Error::Protocol(ProtocolError::NonZeroReservedBits));
    assert_eq!(converted.message(), "WebSocket protocol error: Reserved bits are non-zero");
}

#[test]
fn write_after_completed_closing_handshake_is_send_after_closing() {
    // Once both close frames have been exchanged, a further write attempt is
    // a closing-discipline violation, reported by the framing layer...
    let converted = Error::from_protocol(ProtocolError::SendAfterClosing);
    assert_eq!(converted, Error::Protocol(ProtocolError::SendAfterClosing));

    // ...and not the lifecycle sentinel, which is reserved for operations
    // issued after the connection object itself observed `ConnectionClosed`.
    assert_ne!(converted, Error::AlreadyClosed);
    assert_eq!(converted.message(), "WebSocket protocol error: Sending after closing is not allowed");
    assert_eq!(Error::AlreadyClosed.message(), "Trying to work with closed connection");
}
