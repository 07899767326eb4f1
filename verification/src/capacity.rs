//! Resource-limit violations: too many headers, or an oversized message.

use vstd::prelude::*;
use vstd::string::StringExecFns;

use crate::digits::decimal;
use crate::digits::decimal_string;

verus! {

/// Indicates the specific type/cause of a capacity error.
#[derive(Clone, Copy, Debug, PartialEq, Eq, Structural)]
pub enum CapacityError {
    /// Too many headers were provided during handshake parsing.
    TooManyHeaders,
    /// A message is bigger than the maximum allowed size.
    MessageTooLong {
        /// The size of the message.
        size: usize,
        /// The maximum allowed message size.
        max_size: usize,
    },
}

impl CapacityError {
    /// A capacity error is well formed when an oversized message really is
    /// oversized: the recorded size exceeds the recorded maximum.
    pub open spec fn wf(self) -> bool {
        match self {
            CapacityError::TooManyHeaders => true,
            CapacityError::MessageTooLong { size, max_size } => size > max_size,
        }
    }

    /// Records that a message of `size` bytes exceeded the configured
    /// `max_size`; only an actual violation can be recorded.
    pub fn message_too_long(size: usize, max_size: usize) -> (e: CapacityError)
        requires
            size > max_size,
        ensures
            e == (CapacityError::MessageTooLong { size, max_size }),
            e.wf(),
    {
        CapacityError::MessageTooLong { size, max_size }
    }

    /// The diagnostic text for this capacity error.
    pub open spec fn spec_message(self) -> Seq<char> {
        match self {
            CapacityError::TooManyHeaders => "Too many headers"@,
            CapacityError::MessageTooLong { size, max_size } => "Message too long: "@ + decimal(
                size as nat,
            ) + " > "@ + decimal(max_size as nat),
        }
    }

    /// Renders the diagnostic text for this capacity error.
    pub fn message(&self) -> (s: String)
        ensures
            s@ == self.spec_message(),
    {
        match self {
            CapacityError::TooManyHeaders => String::from_str("Too many headers"),
            CapacityError::MessageTooLong { size, max_size } => {
                let mut s = String::from_str("Message too long: ");
                s.append(decimal_string(*size as u64).as_str());
                s.append(" > ");
                s.append(decimal_string(*max_size as u64).as_str());
                s
            },
        }
    }
}

} // verus!
