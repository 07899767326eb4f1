//! The class of a WebSocket data frame, as named by the frame opcode.

use vstd::prelude::*;
use vstd::string::StringExecFns;

use crate::digits::decimal;
use crate::digits::decimal_string;

verus! {

/// Data opcodes as in RFC 6455.
#[derive(Clone, Copy, Debug, PartialEq, Eq, Structural)]
pub enum Data {
    /// 0x0 denotes a continuation frame.
    Continue,
    /// 0x1 denotes a text frame.
    Text,
    /// 0x2 denotes a binary frame.
    Binary,
    /// 0x3-7 are reserved for further non-control frames.
    Reserved(u8),
}

impl Data {
    /// A frame class is well formed when `Reserved` only names the reserved
    /// data opcodes 0x3 through 0x7; opcodes 0x0 through 0x2 are always
    /// carried by the named variants instead.
    pub open spec fn wf(self) -> bool {
        match self {
            Data::Reserved(code) => 3 <= code <= 7,
            _ => true,
        }
    }

    /// The frame class named by a data opcode (0x0 through 0x7).
    pub fn from_opcode(code: u8) -> (d: Data)
        requires
            code <= 7,
        ensures
            d == if code == 0 {
                Data::Continue
            } else if code == 1 {
                Data::Text
            } else if code == 2 {
                Data::Binary
            } else {
                Data::Reserved(code)
            },
            d.wf(),
    {
        match code {
            0 => Data::Continue,
            1 => Data::Text,
            2 => Data::Binary,
            _ => Data::Reserved(code),
        }
    }

    /// The diagnostic text for this frame class.
    pub open spec fn spec_message(self) -> Seq<char> {
        match self {
            Data::Continue => "CONTINUE"@,
            Data::Text => "TEXT"@,
            Data::Binary => "BINARY"@,
            Data::Reserved(code) => "RESERVED_DATA_"@ + decimal(code as nat),
        }
    }

    /// Renders the diagnostic text for this frame class.
    pub fn message(&self) -> (s: String)
        ensures
            s@ == self.spec_message(),
    {
        match self {
            Data::Continue => String::from_str("CONTINUE"),
            Data::Text => String::from_str("TEXT"),
            Data::Binary => String::from_str("BINARY"),
            Data::Reserved(code) => {
                let mut s = String::from_str("RESERVED_DATA_");
                s.append(decimal_string(*code as u64).as_str());
                s
            },
        }
    }
}

} // verus!
