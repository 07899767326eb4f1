//! Protocol violations: handshake validation, closing-handshake discipline,
//! and framing discipline, plus the low-level header-parse failures that the
//! handshake validator can surface.

use vstd::prelude::*;
use vstd::string::StringExecFns;

use crate::data::Data;
use crate::digits::decimal;
use crate::digits::decimal_string;

verus! {

/// A failure reported by the low-level HTTP header parser.
///
/// `TooManyHeaders` is special: the conversion layer reclassifies it as a
/// capacity violation instead of wrapping it as a protocol error.
#[derive(Clone, Copy, Debug, PartialEq, Eq, Structural)]
pub enum HeaderParseError {
    /// Invalid byte in header name.
    HeaderName,
    /// Invalid byte in header value.
    HeaderValue,
    /// Invalid byte in new line.
    NewLine,
    /// Invalid byte in response status.
    Status,
    /// Invalid byte where token is required.
    Token,
    /// Parsed more headers than the provided buffer can contain.
    TooManyHeaders,
    /// Invalid byte in HTTP version.
    Version,
}

impl HeaderParseError {
    /// The diagnostic text for this header-parse failure.
    pub open spec fn spec_message(self) -> Seq<char> {
        match self {
            HeaderParseError::HeaderName => "invalid header name"@,
            HeaderParseError::HeaderValue => "invalid header value"@,
            HeaderParseError::NewLine => "invalid new line"@,
            HeaderParseError::Status => "invalid response status"@,
            HeaderParseError::Token => "invalid token"@,
            HeaderParseError::TooManyHeaders => "too many headers"@,
            HeaderParseError::Version => "invalid HTTP version"@,
        }
    }

    /// Renders the diagnostic text for this header-parse failure.
    pub fn message(&self) -> (s: String)
        ensures
            s@ == self.spec_message(),
    {
        match self {
            HeaderParseError::HeaderName => String::from_str("invalid header name"),
            HeaderParseError::HeaderValue => String::from_str("invalid header value"),
            HeaderParseError::NewLine => String::from_str("invalid new line"),
            HeaderParseError::Status => String::from_str("invalid response status"),
            HeaderParseError::Token => String::from_str("invalid token"),
            HeaderParseError::TooManyHeaders => String::from_str("too many headers"),
            HeaderParseError::Version => String::from_str("invalid HTTP version"),
        }
    }
}

/// Indicates the specific type/cause of a protocol error.
#[derive(Clone, Debug, PartialEq, Eq)]
pub enum ProtocolError {
    /// Use of the wrong HTTP method (the WebSocket protocol requires the GET method be used).
    WrongHttpMethod,
    /// Wrong HTTP version used (the WebSocket protocol requires version 1.1 or higher).
    WrongHttpVersion,
    /// Missing `Connection: upgrade` HTTP header.
    MissingConnectionUpgradeHeader,
    /// Missing `Upgrade: websocket` HTTP header.
    MissingUpgradeWebSocketHeader,
    /// Missing `Sec-WebSocket-Version: 13` HTTP header.
    MissingSecWebSocketVersionHeader,
    /// Missing `Sec-WebSocket-Key` HTTP header.
    MissingSecWebSocketKey,
    /// The `Sec-WebSocket-Accept` header is either not present or does not specify the correct key value.
    SecWebSocketAcceptKeyMismatch,
    /// Garbage data encountered after client request.
    JunkAfterRequest,
    /// Custom responses must be unsuccessful.
    CustomResponseSuccessful,
    /// Invalid header is passed. This header is formed by the library automatically
    /// and must not be overwritten by the user.
    InvalidHeader(String),
    /// No more data while still performing handshake.
    HandshakeIncomplete,
    /// Wrapper around a [`HeaderParseError`] value.
    HttparseError(HeaderParseError),
    /// Not allowed to send after having sent a closing frame.
    SendAfterClosing,
    /// Remote sent data after sending a closing frame.
    ReceivedAfterClosing,
    /// Reserved bits in frame header are non-zero.
    NonZeroReservedBits,
    /// The server must close the connection when an unmasked frame is received.
    UnmaskedFrameFromClient,
    /// The client must close the connection when a masked frame is received.
    MaskedFrameFromServer,
    /// Control frames must not be fragmented.
    FragmentedControlFrame,
    /// Control frames must have a payload of 125 bytes or less.
    ControlFrameTooBig,
    /// Type of control frame not recognised.
    UnknownControlFrameType(u8),
    /// Type of data frame not recognised.
    UnknownDataFrameType(u8),
    /// Received a continue frame despite there being nothing to continue.
    UnexpectedContinueFrame,
    /// Received data while waiting for more fragments.
    ExpectedFragment(Data),
    /// Connection closed without performing the closing handshake.
    ResetWithoutClosingHandshake,
    /// Encountered an invalid opcode.
    InvalidOpcode(u8),
    /// The payload for the closing frame is invalid.
    InvalidCloseSequence,
}

impl ProtocolError {
    /// The diagnostic text for this protocol error.
    pub open spec fn spec_message(self) -> Seq<char> {
        match self {
            ProtocolError::WrongHttpMethod => "Unsupported HTTP method used - only GET is allowed"@,
            ProtocolError::WrongHttpVersion => "HTTP version must be 1.1 or higher"@,
            ProtocolError::MissingConnectionUpgradeHeader => "No \"Connection: upgrade\" header"@,
            ProtocolError::MissingUpgradeWebSocketHeader => "No \"Upgrade: websocket\" header"@,
            ProtocolError::MissingSecWebSocketVersionHeader => "No \"Sec-WebSocket-Version: 13\" header"@,
            ProtocolError::MissingSecWebSocketKey => "No \"Sec-WebSocket-Key\" header"@,
            ProtocolError::SecWebSocketAcceptKeyMismatch => "Key mismatch in \"Sec-WebSocket-Accept\" header"@,
            ProtocolError::JunkAfterRequest => "Junk after client request"@,
            ProtocolError::CustomResponseSuccessful => "Custom response must not be successful"@,
            ProtocolError::InvalidHeader(name) => "Not allowed to pass overwrite the standard header "@
                + name@,
            ProtocolError::HandshakeIncomplete => "Handshake not finished"@,
            ProtocolError::HttparseError(e) => "httparse error: "@ + e.spec_message(),
            ProtocolError::SendAfterClosing => "Sending after closing is not allowed"@,
            ProtocolError::ReceivedAfterClosing => "Remote sent after having closed"@,
            ProtocolError::NonZeroReservedBits => "Reserved bits are non-zero"@,
            ProtocolError::UnmaskedFrameFromClient => "Received an unmasked frame from client"@,
            ProtocolError::MaskedFrameFromServer => "Received a masked frame from server"@,
            ProtocolError::FragmentedControlFrame => "Fragmented control frame"@,
            ProtocolError::ControlFrameTooBig => "Control frame too big (payload must be 125 bytes or less)"@,
            ProtocolError::UnknownControlFrameType(code) => "Unknown control frame type: "@
                + decimal(code as nat),
            ProtocolError::UnknownDataFrameType(code) => "Unknown data frame type: "@ + decimal(
                code as nat,
            ),
            ProtocolError::UnexpectedContinueFrame => "Continue frame but nothing to continue"@,
            ProtocolError::ExpectedFragment(data) => "While waiting for more fragments received: "@
                + data.spec_message(),
            ProtocolError::ResetWithoutClosingHandshake => "Connection reset without closing handshake"@,
            ProtocolError::InvalidOpcode(code) => "Encountered invalid opcode: "@ + decimal(
                code as nat,
            ),
            ProtocolError::InvalidCloseSequence => "Invalid close sequence"@,
        }
    }

    /// Renders the diagnostic text for this protocol error.
    pub fn message(&self) -> (s: String)
        ensures
            s@ == self.spec_message(),
    {
        match self {
            ProtocolError::WrongHttpMethod => String::from_str(
                "Unsupported HTTP method used - only GET is allowed",
            ),
            ProtocolError::WrongHttpVersion => String::from_str("HTTP version must be 1.1 or higher"),
            ProtocolError::MissingConnectionUpgradeHeader => String::from_str(
                "No \"Connection: upgrade\" header",
            ),
            ProtocolError::MissingUpgradeWebSocketHeader => String::from_str(
                "No \"Upgrade: websocket\" header",
            ),
            ProtocolError::MissingSecWebSocketVersionHeader => String::from_str(
                "No \"Sec-WebSocket-Version: 13\" header",
            ),
            ProtocolError::MissingSecWebSocketKey => String::from_str("No \"Sec-WebSocket-Key\" header"),
            ProtocolError::SecWebSocketAcceptKeyMismatch => String::from_str(
                "Key mismatch in \"Sec-WebSocket-Accept\" header",
            ),
            ProtocolError::JunkAfterRequest => String::from_str("Junk after client request"),
            ProtocolError::CustomResponseSuccessful => String::from_str(
                "Custom response must not be successful",
            ),
            ProtocolError::InvalidHeader(name) => {
                let mut s = String::from_str("Not allowed to pass overwrite the standard header ");
                s.append(name.as_str());
                s
            },
            ProtocolError::HandshakeIncomplete => String::from_str("Handshake not finished"),
            ProtocolError::HttparseError(e) => {
                let mut s = String::from_str("httparse error: ");
                s.append(e.message().as_str());
                s
            },
            ProtocolError::SendAfterClosing => String::from_str("Sending after closing is not allowed"),
            ProtocolError::ReceivedAfterClosing => String::from_str("Remote sent after having closed"),
            ProtocolError::NonZeroReservedBits => String::from_str("Reserved bits are non-zero"),
            ProtocolError::UnmaskedFrameFromClient => String::from_str(
                "Received an unmasked frame from client",
            ),
            ProtocolError::MaskedFrameFromServer => String::from_str(
                "Received a masked frame from server",
            ),
            ProtocolError::FragmentedControlFrame => String::from_str("Fragmented control frame"),
            ProtocolError::ControlFrameTooBig => String::from_str(
                "Control frame too big (payload must be 125 bytes or less)",
            ),
            ProtocolError::UnknownControlFrameType(code) => {
                let mut s = String::from_str("Unknown control frame type: ");
                s.append(decimal_string(*code as u64).as_str());
                s
            },
            ProtocolError::UnknownDataFrameType(code) => {
                let mut s = String::from_str("Unknown data frame type: ");
                s.append(decimal_string(*code as u64).as_str());
                s
            },
            ProtocolError::UnexpectedContinueFrame => String::from_str(
                "Continue frame but nothing to continue",
            ),
            ProtocolError::ExpectedFragment(data) => {
                let mut s = String::from_str("While waiting for more fragments received: ");
                s.append(data.message().as_str());
                s
            },
            ProtocolError::ResetWithoutClosingHandshake => String::from_str(
                "Connection reset without closing handshake",
            ),
            ProtocolError::InvalidOpcode(code) => {
                let mut s = String::from_str("Encountered invalid opcode: ");
                s.append(decimal_string(*code as u64).as_str());
                s
            },
            ProtocolError::InvalidCloseSequence => String::from_str("Invalid close sequence"),
        }
    }
}

} // verus!
