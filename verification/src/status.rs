//! The RSVP response chosen by the user.

use vstd::prelude::*;

verus! {

/// An RSVP response, chosen once from the command line.
#[derive(Clone, Copy, Debug, PartialEq, Eq, Structural)]
pub enum ResponseStatus {
    Accepted,
    Declined,
    Tentative,
}

impl ResponseStatus {
    /// The exact lowercase string the remote calendar API requires for this
    /// response.
    pub open spec fn api_str_spec(self) -> Seq<char> {
        match self {
            ResponseStatus::Accepted => "accepted"@,
            ResponseStatus::Declined => "declined"@,
            ResponseStatus::Tentative => "tentative"@,
        }
    }

    /// Translate the response to the equivalent string required by the remote
    /// calendar API.
    pub fn api_str(&self) -> (r: &'static str)
        ensures
            r@ == self.api_str_spec(),
    {
        match self {
            ResponseStatus::Accepted => "accepted",
            ResponseStatus::Declined => "declined",
            ResponseStatus::Tentative => "tentative",
        }
    }
}

} // verus!
