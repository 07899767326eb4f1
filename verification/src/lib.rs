//! Closed error model for a WebSocket endpoint.
//!
//! Every failure that the transport, handshake, or framing layers of a
//! WebSocket connection can produce is normalized into the single closed
//! [`Error`] type defined here, so that callers handle one exhaustive
//! taxonomy instead of a zoo of raw failure types.

mod capacity;
mod convert;
mod data;
mod digits;
mod error;
mod protocol;
mod url;

pub use capacity::CapacityError;
pub use data::Data;
pub use error::Error;
pub use error::HttpFormatError;
pub use error::HttpResponse;
pub use error::Message;
pub use protocol::HeaderParseError;
pub use protocol::ProtocolError;
pub use url::UrlError;
