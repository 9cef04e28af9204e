//! Error kinds for identifier resolution and event rendering.

use vstd::prelude::*;

verus! {

/// What can go wrong while resolving an identifier or rendering an event.
#[derive(Clone, Copy, Debug, PartialEq, Eq, Structural)]
pub enum Error {
    /// The token was valid base64 but its payload was not valid UTF-8.
    DecodeError,
    /// The token was valid base64 but decoded to an empty payload.
    MalformedIdentifier,
    /// No identifier could be extracted from an invitation email.
    NoMatchFound,
    /// An event carried a start or end timestamp that is not valid RFC 3339.
    InvalidTimestamp,
}

impl Error {
    /// The human-readable message for this error kind.
    pub open spec fn message_spec(self) -> Seq<char> {
        match self {
            Error::DecodeError => "can't parse decoded base64 to UTF-8"@,
            Error::MalformedIdentifier => "identifier token decoded to an empty payload"@,
            Error::NoMatchFound => "unable to extract event ID from email"@,
            Error::InvalidTimestamp => "can't parse event time"@,
        }
    }

    /// A human-readable message describing the error.
    pub fn message(&self) -> (r: &'static str)
        ensures
            r@ == self.message_spec(),
    {
        match self {
            Error::DecodeError => "can't parse decoded base64 to UTF-8",
            Error::MalformedIdentifier => "identifier token decoded to an empty payload",
            Error::NoMatchFound => "unable to extract event ID from email",
            Error::InvalidTimestamp => "can't parse event time",
        }
    }
}

} // verus!
