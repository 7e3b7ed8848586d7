//! The ways in which the bot fails, and what each of them stops.

use vstd::prelude::*;

verus! {

/// A failure of the bot.
#[derive(Clone, Copy, Debug, PartialEq, Eq, Structural)]
pub enum Error {
    /// The server refused the user name and password.
    AuthFailed,
    /// The server refused the credential of an earlier session.
    AuthExpired,
    /// The record of the earlier session cannot be read.
    SessionCorrupt,
    /// The command is no valid substitution.
    MalformedCommand,
    /// No message was found to apply the command to.
    TargetUnresolvable,
    /// The answer could not be sent to the room.
    DeliveryFailed,
    /// A round of synchronization failed.
    SyncTransient,
    /// An attempt to join a room failed.
    JoinTransient,
}

/// What a failure puts an end to.
#[derive(Clone, Copy, Debug, PartialEq, Eq, Structural)]
pub enum Severity {
    /// The process: the failure is reported to whoever started the bot.
    Fatal,
    /// The one event that was being handled; the room hears nothing.
    DropsEvent,
    /// Nothing: what failed is tried again.
    Retried,
}

impl Error {
    /// What the failure puts an end to.
    pub open spec fn severity_spec(self) -> Severity {
        match self {
            Error::AuthFailed | Error::AuthExpired | Error::SessionCorrupt => Severity::Fatal,
            Error::MalformedCommand | Error::TargetUnresolvable | Error::DeliveryFailed =>
                Severity::DropsEvent,
            Error::SyncTransient | Error::JoinTransient => Severity::Retried,
        }
    }

    /// What the failure puts an end to.
    pub fn severity(&self) -> (r: Severity)
        ensures
            r == self.severity_spec(),
    {
        match self {
            Error::AuthFailed | Error::AuthExpired | Error::SessionCorrupt => Severity::Fatal,
            Error::MalformedCommand | Error::TargetUnresolvable | Error::DeliveryFailed =>
                Severity::DropsEvent,
            Error::SyncTransient | Error::JoinTransient => Severity::Retried,
        }
    }
}

} // verus!
