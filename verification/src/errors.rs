//! The errors a daemon operation can end in.

use crate::http_client::response::{canonical_reason, canonical_reason_of};
use crate::text::{decimal, decimal_string};
use vstd::prelude::*;
use vstd::string::StringExecFns;

verus! {

/// What kind of I/O failure an `Error::IO` reports.
#[derive(Debug, Clone, Copy, PartialEq, Eq, Structural)]
pub enum IoKind {
    /// What was handed in cannot be worked on.
    InvalidInput,
    /// What was read is not what it has to be.
    InvalidData,
    /// Anything else.
    Other,
}

/// Everything that can go wrong between building a request and handing its
/// outcome to the caller. Failures that arise below this library (in the
/// transport, in a JSON or UTF-8 decoder) are carried by their message.
#[derive(Debug, Clone)]
pub enum Error {
    /// A body or stream item was not the JSON that was expected.
    SerdeJsonError(String),
    /// The transport failed: refused connection, failed handshake, broken pipe.
    Hyper(String),
    /// The request could not be put together from what the caller gave.
    Http(String),
    /// Reading or writing a byte stream failed, in this way and with this
    /// message.
    IO(IoKind, String),
    /// A body was expected to be UTF-8 text and was not.
    Encoding(String),
    /// The daemon broke an invariant of its own protocol.
    InvalidResponse(String),
    /// The daemon answered, and rejected the request.
    Fault { code: u16, message: String },
    /// The daemon did not switch protocols when asked to.
    ConnectionNotUpgraded,
    /// A frame of a stream could not be cut out of the bytes.
    Decode,
}

/// A status as it is shown: its number, a space, and its standard reason
/// phrase or a note that it has none.
pub open spec fn status_text(code: u16) -> Seq<char> {
    decimal(code as nat) + " "@ + match canonical_reason_of(code) {
        Some(reason) => reason,
        None => "<unknown status code>"@,
    }
}

impl Error {
    /// What the error says of itself, behind the common prefix.
    pub open spec fn detail(self) -> Seq<char> {
        match self {
            Error::SerdeJsonError(cause) => cause@,
            Error::Hyper(cause) => cause@,
            Error::Http(cause) => cause@,
            Error::IO(_, cause) => cause@,
            Error::Encoding(cause) => cause@,
            Error::InvalidResponse(cause) => "Response doesn't have the expected format: "@
                + cause@,
            Error::Fault { code, .. } => status_text(code),
            Error::ConnectionNotUpgraded =>
                "expected the docker host to upgrade the HTTP connection but it did not"@,
            Error::Decode => "failed to decode bytes"@,
        }
    }

    /// The error as one line of text.
    pub open spec fn text(self) -> Seq<char> {
        "Docker Error: "@ + self.detail()
    }

    /// Writes the error as one line of text.
    pub fn to_string(&self) -> (line: String)
        ensures
            line@ == self.text(),
    {
        let prefix = String::from_str("Docker Error: ");
        match self {
            Error::SerdeJsonError(cause) => prefix.concat(cause.as_str()),
            Error::Hyper(cause) => prefix.concat(cause.as_str()),
            Error::Http(cause) => prefix.concat(cause.as_str()),
            Error::IO(_, cause) => prefix.concat(cause.as_str()),
            Error::Encoding(cause) => prefix.concat(cause.as_str()),
            Error::InvalidResponse(cause) => {
                let line = prefix.concat("Response doesn't have the expected format: ").concat(
                    cause.as_str(),
                );
                assert(line@ =~= self.text());
                line
            },
            Error::Fault { code, .. } => {
                let number = decimal_string(*code as u64);
                let line = prefix.concat(number.as_str()).concat(" ");
                let line = match canonical_reason(*code) {
                    Some(reason) => line.concat(reason.as_str()),
                    None => line.concat("<unknown status code>"),
                };
                assert(line@ =~= self.text());
                line
            },
            Error::ConnectionNotUpgraded => prefix.concat(
                "expected the docker host to upgrade the HTTP connection but it did not",
            ),
            Error::Decode => prefix.concat("failed to decode bytes"),
        }
    }
}

} // verus!
