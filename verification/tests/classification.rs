//! The conversion layer: every raw failure classifies into exactly one
//! `Error` variant, with the capacity-vs-protocol disambiguation.

use client_websocket::CapacityError;
use client_websocket::Error;
use client_websocket::HeaderParseError;
use client_websocket::HttpFormatError;
use client_websocket::HttpResponse;
use client_websocket::Message;
use client_websocket::ProtocolError;
use client_websocket::UrlError;

#[test]
fn too_many_headers_is_reclassified_as_capacity() {
    let e = Error::from_header_parse(HeaderParseError::TooManyHeaders);
    assert_eq!(e, Error::Capacity(CapacityError::TooManyHeaders));
    assert!(!matches!(e, Error::Protocol(_)));
}

#[test]
fn every_other_header_parse_failure_stays_a_protocol_error() {
    let raw = [
        HeaderParseError::HeaderName,
        HeaderParseError::HeaderValue,
        HeaderParseError::NewLine,
        HeaderParseError::Status,
        HeaderParseError::Token,
        HeaderParseError::Version,
    ];
    for e in raw {
        let converted = Error::from_header_parse(e);
        assert_eq!(converted, Error::Protocol(ProtocolError::HttparseError(e)));
        assert!(!matches!(converted, Error::Capacity(_)));
    }
}

#[test]
fn text_decoding_failures_collapse_to_utf8() {
    // A real byte-sequence decode failure from std drives the conversion.
    let bad = [0xffu8, 0xfe];
    assert!(std::str::from_utf8(&bad).is_err());
    assert_eq!(Error::from_byte_decode_failure(), Error::Utf8);

    // The owned-buffer shape.
    assert!(String::from_utf8(bad.to_vec()).is_err());
    assert_eq!(Error::from_owned_decode_failure(), Error::Utf8);
}

#[test]
fn header_value_text_failure_collapses_to_utf8() {
    // A header value that holds non-UTF-8 bytes cannot be read as text.
    let value = http::header::HeaderValue::from_bytes(&[0xffu8]).unwrap();
    assert!(value.to_str().is_err());
    assert_eq!(Error::from_header_value_text_failure(), Error::Utf8);
}

#[test]
fn validation_failures_collapse_to_http_format() {
    // Each shape really is producible by the HTTP validation layer.
    assert!(http::header::HeaderValue::from_bytes(b"\n").is_err());
    assert_eq!(
        Error::from_invalid_header_value(),
        Error::HttpFormat(HttpFormatError::InvalidHeaderValue)
    );

    assert!("bad header\n".parse::<http::header::HeaderName>().is_err());
    assert_eq!(
        Error::from_invalid_header_name(),
        Error::HttpFormat(HttpFormatError::InvalidHeaderName)
    );

    assert!("http://[invalid".parse::<http::Uri>().is_err());
    assert_eq!(Error::from_invalid_uri(), Error::HttpFormat(HttpFormatError::InvalidUri));

    assert!(http::StatusCode::from_u16(1000).is_err());
    assert_eq!(
        Error::from_invalid_status_code(),
        Error::HttpFormat(HttpFormatError::InvalidStatusCode)
    );
}

#[test]
fn wrapping_conversions_preserve_their_payload() {
    let cap = CapacityError::message_too_long(70, 66);
    assert_eq!(Error::from_capacity(cap), Error::Capacity(cap));

    let proto = ProtocolError::InvalidOpcode(14);
    assert_eq!(Error::from_protocol(proto.clone()), Error::Protocol(proto));

    let url = UrlError::UnableToConnect(String::from("ws://example.invalid/"));
    assert_eq!(Error::from_url(url.clone()), Error::Url(url));

    assert_eq!(
        Error::from_http_format(HttpFormatError::InvalidUri),
        Error::HttpFormat(HttpFormatError::InvalidUri)
    );

    let resp = HttpResponse { status: 404, body: Some(b"not found".to_vec()) };
    assert_eq!(Error::from_http_response(resp.clone()), Error::Http(resp));

    assert_eq!(Error::from_io(String::from("connection reset")), Error::Io(String::from("connection reset")));
    assert_eq!(Error::from_tls(String::from("handshake failed")), Error::Tls(String::from("handshake failed")));
}

#[test]
fn message_too_long_records_the_actual_violation() {
    let e = CapacityError::message_too_long(128, 64);
    assert_eq!(e, CapacityError::MessageTooLong { size: 128, max_size: 64 });
    match e {
        CapacityError::MessageTooLong { size, max_size } => {
            assert!(size > max_size);
            assert_eq!(size, 128);
            assert_eq!(max_size, 64);
        }
        CapacityError::TooManyHeaders => panic!("wrong variant"),
    }
}

#[test]
fn write_buffer_full_hands_the_message_back_unchanged() {
    let message = Message::Text(String::from("hello, world"));
    let e = Error::write_buffer_full(message.clone());
    assert_eq!(e, Error::WriteBufferFull(message.clone()));
    assert_eq!(e.into_message(), Some(message));

    let binary = Message::Binary(vec![0u8, 1, 2, 255]);
    let e = Error::write_buffer_full(binary.clone());
    assert_eq!(e.into_message(), Some(binary));

    assert_eq!(Error::Utf8.into_message(), None);
    assert_eq!(Error::ConnectionClosed.into_message(), None);
}

#[test]
fn http_status_is_exposed_for_rejected_responses_only() {
    let resp = HttpResponse { status: 403, body: None };
    assert_eq!(Error::Http(resp).http_status(), Some(403));
    assert_eq!(Error::AlreadyClosed.http_status(), None);
    assert_eq!(Error::Utf8.http_status(), None);
}
