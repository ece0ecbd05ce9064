//! The conditions that routing and the protocol client can raise.

use vstd::prelude::*;
use vstd::string::*;

verus! {

/// The kinds of failure.
#[derive(Debug, Clone, PartialEq, Eq)]
pub enum InnerError {
    /// Queried endpoint requires authentication but was called on an anonymous client.
    AuthenticationRequired,
    /// A failure of the protocol client, with its description.
    Ruma(String),
    /// The receiving end of a channel is gone.
    Channel,
    /// A failure of the async runtime.
    Tokio,
    /// A failure of the database.
    Database,
    /// A handler was given an event that is not of its kind.
    Match,
}

/// An error that can occur during client operations.
#[derive(Debug, Clone, PartialEq, Eq)]
pub struct Error(pub InnerError);

impl Error {
    /// The text that `message` returns.
    pub open spec fn message_text(&self) -> Seq<char> {
        match self.0 {
            InnerError::AuthenticationRequired =>
                "The queried endpoint requires authentication but was called with an anonymous client."@,
            InnerError::Ruma(_) =>
                "An error occurred converting between ruma_client_api and hyper types."@,
            InnerError::Channel => "Failed to create a channel"@,
            InnerError::Tokio => "Tokio library caused an error"@,
            InnerError::Database => "Datbase error"@,
            InnerError::Match => "Event did not match the event handlers type"@,
        }
    }

    /// A description of the error for a reader.
    pub fn message(&self) -> (text: String)
        ensures
            text@ == self.message_text(),
    {
        match &self.0 {
            InnerError::AuthenticationRequired => String::from_str(
                "The queried endpoint requires authentication but was called with an anonymous client.",
            ),
            InnerError::Ruma(_) => String::from_str(
                "An error occurred converting between ruma_client_api and hyper types.",
            ),
            InnerError::Channel => String::from_str("Failed to create a channel"),
            InnerError::Tokio => String::from_str("Tokio library caused an error"),
            InnerError::Database => String::from_str("Datbase error"),
            InnerError::Match => String::from_str("Event did not match the event handlers type"),
        }
    }

    /// The error for a failure of the protocol client, described by `detail`.
    pub fn ruma(detail: String) -> (e: Error)
        ensures
            e == Error(InnerError::Ruma(detail)),
    {
        Error(InnerError::Ruma(detail))
    }
}

} // verus!
