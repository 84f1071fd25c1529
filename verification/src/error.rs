//! The error taxonomy of the messaging core.

use vstd::prelude::*;

verus! {

/// Every failure the core can report.
///
/// Construction-time validation errors propagate immediately to the caller.
/// Per-endpoint delivery failures during fan-out are diagnostic only and are
/// never surfaced to a publisher's caller.
#[derive(Clone, Copy, Debug, PartialEq, Eq, Structural)]
pub enum AuraError {
    /// The topic string fails the absolute-name format check; returned
    /// synchronously at publisher construction.
    InvalidTopicName,
    /// The shared registry guard was left in a corrupted state by an earlier
    /// failure while held; fatal to the affected call.
    RegistryAccessFailure,
    /// No message arrived within the requested bound on a receive call;
    /// recoverable, callers are expected to loop.
    Timeout,
    /// The receiving endpoint can never produce another message; terminal
    /// for that subscriber.
    Disconnected,
    /// Catch-all for a delivery-path failure on an individual endpoint
    /// during fan-out.
    CommunicationError,
}

impl AuraError {
    /// The description shown for each error kind.
    pub open spec fn message_spec(self) -> Seq<char> {
        match self {
            AuraError::InvalidTopicName => "invalid topic name: must be absolute (start with '/') and non-empty"@,
            AuraError::RegistryAccessFailure => "failed to access the shared topic registry"@,
            AuraError::Timeout => "receive timed out"@,
            AuraError::Disconnected => "channel disconnected"@,
            AuraError::CommunicationError => "communication error"@,
        }
    }

    /// A short human-readable description of the error.
    pub fn message(&self) -> (s: String)
        ensures
            s@ == self.message_spec(),
    {
        match self {
            AuraError::InvalidTopicName => "invalid topic name: must be absolute (start with '/') and non-empty".to_owned(),
            AuraError::RegistryAccessFailure => "failed to access the shared topic registry".to_owned(),
            AuraError::Timeout => "receive timed out".to_owned(),
            AuraError::Disconnected => "channel disconnected".to_owned(),
            AuraError::CommunicationError => "communication error".to_owned(),
        }
    }
}

} // verus!
