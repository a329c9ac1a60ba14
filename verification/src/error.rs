//! The error taxonomy shared by every layer of the client.

use vstd::prelude::*;
use vstd::string::StringExecFns;

verus! {

/// Every failure a caller can see, across the codec, a single connection and
/// the reconnecting supervisor.
#[derive(Debug, PartialEq, Eq)]
pub enum RconError {
    /// The address could not be parsed or resolved; carries the resolver's text.
    AddressParse(String),
    /// A transport-level failure (connect, read, write, reset); carries a description.
    IO(String),
    /// The command body is longer than the 1014-byte frame ceiling.
    CommandTooLong,
    /// The server's reply body was not valid UTF-8.
    UTFEncoding,
    /// The server sent a packet of a kind the protocol does not allow here.
    UnexpectedPacket,
    /// The server rejected the password during the handshake.
    PasswordIncorrect,
    /// The supervisor is between connections; carries the description of the
    /// transport failure that triggered the reconnect.
    BusyReconnecting(String),
}

impl RconError {
    /// Whether this is a transport-level failure — the only class of error the
    /// reconnecting supervisor recovers from.
    pub fn is_io(&self) -> (r: bool)
        ensures
            r <==> self is IO,
    {
        match self {
            RconError::IO(_) => true,
            _ => false,
        }
    }

    /// The text of this error, one line per variant.
    pub open spec fn spec_description(&self) -> Seq<char> {
        match self {
            RconError::AddressParse(m) => "address parse error: "@ + m@,
            RconError::IO(m) => "IO error: "@ + m@,
            RconError::CommandTooLong => "command is longer than 1014 bytes"@,
            RconError::UTFEncoding => "reply is not valid UTF-8"@,
            RconError::UnexpectedPacket => "unexpected packet"@,
            RconError::PasswordIncorrect => "password incorrect"@,
            RconError::BusyReconnecting(m) => "busy reconnecting: "@ + m@,
        }
    }

    /// Renders the error as one line of text.
    pub fn describe(&self) -> (r: String)
        ensures
            r@ == self.spec_description(),
    {
        match self {
            RconError::AddressParse(m) => {
                let mut s = String::from_str("address parse error: ");
                s.append(m.as_str());
                s
            },
            RconError::IO(m) => {
                let mut s = String::from_str("IO error: ");
                s.append(m.as_str());
                s
            },
            RconError::CommandTooLong => String::from_str("command is longer than 1014 bytes"),
            RconError::UTFEncoding => String::from_str("reply is not valid UTF-8"),
            RconError::UnexpectedPacket => String::from_str("unexpected packet"),
            RconError::PasswordIncorrect => String::from_str("password incorrect"),
            RconError::BusyReconnecting(m) => {
                let mut s = String::from_str("busy reconnecting: ");
                s.append(m.as_str());
                s
            },
        }
    }
}

} // verus!
