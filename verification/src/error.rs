//! What can go wrong, and how a caller should take it.

use vstd::prelude::*;
use vstd::string::StringExecFns;

verus! {

/// Why an engine could not be made ready.
#[derive(Clone, Copy, Debug, PartialEq, Eq, Structural)]
pub enum BootstrapError {
    /// The script resource no longer holds an API key where one is looked for.
    ApiKeyNotFound,
    /// The token endpoint refused the login, or answered what cannot be read.
    AuthRejected,
    /// The login has no account with the service.
    NoAccount,
}

/// Why an answer of the service could not be used.
#[derive(Clone, Debug, PartialEq, Eq)]
pub enum ParseError {
    /// The body could not be decoded; the decoder's own words.
    Body(String),
    /// The list of rate options was empty.
    NoRateOption,
    /// A session's start or expiry is not an RFC 3339 instant.
    SessionTime,
    /// The instants are too far out to schedule a renewal from.
    OutOfRange,
    /// The answer does not belong to the step that was waiting.
    Unexpected,
}

/// Why a session could not be created.
#[derive(Clone, Debug, PartialEq, Eq)]
pub enum BookingError {
    /// The service answered the booking with anything but "accepted"; the
    /// body of its answer.
    RejectedByService(String),
}

/// Anything that ends an operation of the engine early.
#[derive(Clone, Debug, PartialEq, Eq)]
pub enum EngineError {
    /// The network call itself failed; the transport's own words.
    Transport(String),
    Parse(ParseError),
    Bootstrap(BootstrapError),
    Booking(BookingError),
    /// No current session is for the vehicle asked about.
    NoActiveSession,
    /// No account goes by the name asked for.
    AccountNotFound,
}

/// Whose fault a failure is, so that a caller can decide whether to retry.
#[derive(Clone, Copy, Debug, PartialEq, Eq, Structural)]
pub enum FailureClass {
    /// The request named something that is not there; retrying will not help.
    Client,
    /// The service refused, or no longer speaks as expected.
    Upstream,
    /// The network failed; the same request may succeed later.
    Transient,
}

/// The HTTP status under which a failure of each class is reported: a bad
/// request, a bad gateway, or a service that is unavailable for now.
pub open spec fn status_of(class: FailureClass) -> u16 {
    match class {
        FailureClass::Client => 400,
        FailureClass::Upstream => 502,
        FailureClass::Transient => 503,
    }
}

impl FailureClass {
    /// The HTTP status under which a failure of this class is reported.
    pub fn http_status(&self) -> (status: u16)
        ensures
            status == status_of(*self),
    {
        match self {
            FailureClass::Client => 400,
            FailureClass::Upstream => 502,
            FailureClass::Transient => 503,
        }
    }
}

/// The class of each failure.
pub open spec fn class_of(error: EngineError) -> FailureClass {
    match error {
        EngineError::Transport(_) => FailureClass::Transient,
        EngineError::Parse(_) => FailureClass::Upstream,
        EngineError::Bootstrap(BootstrapError::ApiKeyNotFound) => FailureClass::Upstream,
        EngineError::Bootstrap(BootstrapError::AuthRejected) => FailureClass::Client,
        EngineError::Bootstrap(BootstrapError::NoAccount) => FailureClass::Client,
        EngineError::Booking(_) => FailureClass::Upstream,
        EngineError::NoActiveSession => FailureClass::Client,
        EngineError::AccountNotFound => FailureClass::Client,
    }
}

/// The words for each failure.
pub open spec fn message_of(error: EngineError) -> Seq<char> {
    match error {
        EngineError::Transport(words) => "Network failure: "@ + words@,
        EngineError::Parse(ParseError::Body(words)) => "Unexpected response: "@ + words@,
        EngineError::Parse(ParseError::NoRateOption) => "No rate option offered"@,
        EngineError::Parse(ParseError::SessionTime) => "Unreadable session time"@,
        EngineError::Parse(ParseError::OutOfRange) => "Session time out of range"@,
        EngineError::Parse(ParseError::Unexpected) => "Response out of turn"@,
        EngineError::Bootstrap(BootstrapError::ApiKeyNotFound) => "API key not found"@,
        EngineError::Bootstrap(BootstrapError::AuthRejected) => "Login rejected"@,
        EngineError::Bootstrap(BootstrapError::NoAccount) => "No parking account"@,
        EngineError::Booking(BookingError::RejectedByService(body)) => "Failed to park: "@ + body@,
        EngineError::NoActiveSession => "No active parking session found"@,
        EngineError::AccountNotFound => "Account not found"@,
    }
}

impl EngineError {
    /// Whose fault this failure is.
    pub fn class(&self) -> (class: FailureClass)
        ensures
            class == class_of(*self),
    {
        match self {
            EngineError::Transport(_) => FailureClass::Transient,
            EngineError::Parse(_) => FailureClass::Upstream,
            EngineError::Bootstrap(BootstrapError::ApiKeyNotFound) => FailureClass::Upstream,
            EngineError::Bootstrap(_) => FailureClass::Client,
            EngineError::Booking(_) => FailureClass::Upstream,
            EngineError::NoActiveSession => FailureClass::Client,
            EngineError::AccountNotFound => FailureClass::Client,
        }
    }

    /// Whether the same request may succeed if made again later.
    pub fn is_transient(&self) -> (yes: bool)
        ensures
            yes == (class_of(*self) == FailureClass::Transient),
    {
        match self {
            EngineError::Transport(_) => true,
            _ => false,
        }
    }

    /// This failure in words.
    pub fn message(&self) -> (words: String)
        ensures
            words@ == message_of(*self),
    {
        match self {
            EngineError::Transport(words) => String::from_str("Network failure: ").concat(
                words.as_str(),
            ),
            EngineError::Parse(ParseError::Body(words)) => String::from_str(
                "Unexpected response: ",
            ).concat(words.as_str()),
            EngineError::Parse(ParseError::NoRateOption) => String::from_str(
                "No rate option offered",
            ),
            EngineError::Parse(ParseError::SessionTime) => String::from_str(
                "Unreadable session time",
            ),
            EngineError::Parse(ParseError::OutOfRange) => String::from_str(
                "Session time out of range",
            ),
            EngineError::Parse(ParseError::Unexpected) => String::from_str("Response out of turn"),
            EngineError::Bootstrap(BootstrapError::ApiKeyNotFound) => String::from_str(
                "API key not found",
            ),
            EngineError::Bootstrap(BootstrapError::AuthRejected) => String::from_str(
                "Login rejected",
            ),
            EngineError::Bootstrap(BootstrapError::NoAccount) => String::from_str(
                "No parking account",
            ),
            EngineError::Booking(BookingError::RejectedByService(body)) => String::from_str(
                "Failed to park: ",
            ).concat(body.as_str()),
            EngineError::NoActiveSession => String::from_str("No active parking session found"),
            EngineError::AccountNotFound => String::from_str("Account not found"),
        }
    }
}

} // verus!
