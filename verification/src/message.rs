//! The transport-agnostic message model: framed messages, close frames
//! and the fixed table of reserved close codes with their 16-bit wire
//! values.

use vstd::prelude::*;

verus! {

/// One of the thirteen reserved reasons for closing a connection.
#[derive(Clone, Copy, Debug, PartialEq, Eq, Structural)]
pub enum CloseCode {
    /// A normal closure: the purpose of the connection has been fulfilled.
    Normal,
    /// The endpoint is going away (server shutdown, page navigated away).
    Away,
    /// The endpoint saw a protocol error.
    Protocol,
    /// The endpoint received a type of data it cannot accept.
    Unsupported,
    /// No status code was present in the closing frame.
    Status,
    /// The connection ended abnormally, without a closing frame.
    Abnormal,
    /// A message carried data inconsistent with its type.
    Invalid,
    /// A message violated the endpoint's policy.
    Policy,
    /// A message was too big to process.
    Size,
    /// The client expected an extension the server did not negotiate.
    Extension,
    /// The server hit an unexpected condition.
    Error,
    /// The server is restarting; the client may reconnect after a delay.
    Restart,
    /// The server is overloaded; the client should try again later.
    Again,
}

impl CloseCode {
    /// The registered 16-bit wire value of this close code.
    pub open spec fn wire(self) -> u16 {
        match self {
            CloseCode::Normal => 1000,
            CloseCode::Away => 1001,
            CloseCode::Protocol => 1002,
            CloseCode::Unsupported => 1003,
            CloseCode::Status => 1005,
            CloseCode::Abnormal => 1006,
            CloseCode::Invalid => 1007,
            CloseCode::Policy => 1008,
            CloseCode::Size => 1009,
            CloseCode::Extension => 1010,
            CloseCode::Error => 1011,
            CloseCode::Restart => 1012,
            CloseCode::Again => 1013,
        }
    }

    /// The close code registered for a wire value, if that value is one
    /// of the thirteen reserved ones.
    pub open spec fn of_wire(value: u16) -> Option<CloseCode> {
        if value == 1000 {
            Some(CloseCode::Normal)
        } else if value == 1001 {
            Some(CloseCode::Away)
        } else if value == 1002 {
            Some(CloseCode::Protocol)
        } else if value == 1003 {
            Some(CloseCode::Unsupported)
        } else if value == 1005 {
            Some(CloseCode::Status)
        } else if value == 1006 {
            Some(CloseCode::Abnormal)
        } else if value == 1007 {
            Some(CloseCode::Invalid)
        } else if value == 1008 {
            Some(CloseCode::Policy)
        } else if value == 1009 {
            Some(CloseCode::Size)
        } else if value == 1010 {
            Some(CloseCode::Extension)
        } else if value == 1011 {
            Some(CloseCode::Error)
        } else if value == 1012 {
            Some(CloseCode::Restart)
        } else if value == 1013 {
            Some(CloseCode::Again)
        } else {
            None
        }
    }

    /// Encode this close code as its wire value. Total: every code has one.
    pub fn to_wire(self) -> (value: u16)
        ensures
            value == self.wire(),
    {
        match self {
            CloseCode::Normal => 1000,
            CloseCode::Away => 1001,
            CloseCode::Protocol => 1002,
            CloseCode::Unsupported => 1003,
            CloseCode::Status => 1005,
            CloseCode::Abnormal => 1006,
            CloseCode::Invalid => 1007,
            CloseCode::Policy => 1008,
            CloseCode::Size => 1009,
            CloseCode::Extension => 1010,
            CloseCode::Error => 1011,
            CloseCode::Restart => 1012,
            CloseCode::Again => 1013,
        }
    }

    /// Decode a wire value. Succeeds exactly on the thirteen reserved
    /// values; any other value is rejected and handed back as the error.
    pub fn from_wire(value: u16) -> (decoded: Result<CloseCode, u16>)
        ensures
            decoded == (match CloseCode::of_wire(value) {
                Some(code) => Ok::<CloseCode, u16>(code),
                None => Err::<CloseCode, u16>(value),
            }),
    {
        if value == 1000 {
            Ok(CloseCode::Normal)
        } else if value == 1001 {
            Ok(CloseCode::Away)
        } else if value == 1002 {
            Ok(CloseCode::Protocol)
        } else if value == 1003 {
            Ok(CloseCode::Unsupported)
        } else if value == 1005 {
            Ok(CloseCode::Status)
        } else if value == 1006 {
            Ok(CloseCode::Abnormal)
        } else if value == 1007 {
            Ok(CloseCode::Invalid)
        } else if value == 1008 {
            Ok(CloseCode::Policy)
        } else if value == 1009 {
            Ok(CloseCode::Size)
        } else if value == 1010 {
            Ok(CloseCode::Extension)
        } else if value == 1011 {
            Ok(CloseCode::Error)
        } else if value == 1012 {
            Ok(CloseCode::Restart)
        } else if value == 1013 {
            Ok(CloseCode::Again)
        } else {
            Err(value)
        }
    }
}

impl From<CloseCode> for u16 {
    /// Encoding a close code as `u16` is its wire value.
    fn from(code: CloseCode) -> (value: u16) {
        code.to_wire()
    }
}

impl vstd::std_specs::convert::FromSpecImpl<CloseCode> for u16 {
    open spec fn obeys_from_spec() -> bool {
        true
    }

    open spec fn from_spec(code: CloseCode) -> u16 {
        code.wire()
    }
}

impl TryFrom<u16> for CloseCode {
    type Error = u16;

    /// Decoding a `u16` yields the reserved code it stands for, or the
    /// value itself as the error when it stands for none.
    fn try_from(value: u16) -> (decoded: Result<CloseCode, u16>) {
        CloseCode::from_wire(value)
    }
}

impl vstd::std_specs::convert::TryFromSpecImpl<u16> for CloseCode {
    open spec fn obeys_try_from_spec() -> bool {
        true
    }

    open spec fn try_from_spec(value: u16) -> Result<CloseCode, u16> {
        match CloseCode::of_wire(value) {
            Some(code) => Ok(code),
            None => Err(value),
        }
    }
}

/// Law: every close code decodes back from its own wire value, so
/// encoding and then decoding round-trips to the original code; and a
/// value outside the reserved table decodes to nothing.
pub proof fn lemma_close_code_round_trip(code: CloseCode)
    ensures
        CloseCode::of_wire(code.wire()) == Some(code),
{
}

/// Law: the wire mapping is injective: two codes with the same wire
/// value are the same code.
pub proof fn lemma_wire_values_distinct(a: CloseCode, b: CloseCode)
    ensures
        a.wire() == b.wire() ==> a == b,
{
}

/// The payload of a close message: a reserved code and a reason string.
#[derive(Clone, Debug, PartialEq, Eq)]
pub struct CloseFrame {
    pub code: CloseCode,
    pub reason: String,
}

/// A framed message as the session layer sees it, above any concrete
/// wire encoding.
#[derive(Clone, Debug, PartialEq, Eq)]
pub enum Message {
    Text(String),
    Binary(Vec<u8>),
    Ping(Vec<u8>),
    Pong(Vec<u8>),
    Close(Option<CloseFrame>),
}

} // verus!
