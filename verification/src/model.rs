//! Data model of the remote collections and the library's error type.

use vstd::prelude::*;

use crate::digits::dec_rep;
use crate::digits::format_index;

verus! {

/// One entry of a remote collection: the server-assigned identifier
/// (never reused) and the user-chosen display title (not necessarily
/// unique). Lists and tasks are both enumerated as items.
#[derive(Debug)]
pub struct Item {
    pub id: String,
    pub title: String,
}

/// A task as fetched for the finish operation: the enumeration fields
/// plus the completion timestamp and the hidden flag that finishing
/// mutates.
#[derive(Debug)]
pub struct Task {
    pub id: String,
    pub title: String,
    pub completed: Option<String>,
    pub hidden: Option<bool>,
}

/// The error kinds a batch operation can surface.
#[derive(Debug)]
pub enum Error {
    /// Network or connection failure; surfaced verbatim, never retried.
    Transport(String),
    /// A non-success response from the remote service.
    Remote { status: u16, message: String },
    /// An identifier vanished between resolution and mutation.
    NotFound,
    /// The resolution phase found no match for a user-supplied token:
    /// a client-side usage mistake, not a service failure.
    IdentifierNotFound { token: String },
    /// A config file was present but unreadable; recovered locally by
    /// falling back to the default configuration.
    ConfigMalformed,
}

impl Error {
    /// The message the process boundary reports for this error.
    pub open spec fn message_view(self) -> Seq<char> {
        match self {
            Error::Transport(m) => "transport failure: "@ + m@,
            Error::Remote { status, message } => "remote service error (status "@ + dec_rep(
                status as int,
            ) + "): "@ + message@,
            Error::NotFound => "resource not found"@,
            Error::IdentifierNotFound { token } => "task name or index not found: "@ + token@,
            Error::ConfigMalformed => "malformed config path, using default"@,
        }
    }

    /// Render the error for display.
    pub fn message(&self) -> (m: String)
        ensures
            m@ == self.message_view(),
    {
        match self {
            Error::Transport(msg) => "transport failure: ".to_owned().concat(msg.as_str()),
            Error::Remote { status, message } => {
                let s = "remote service error (status ".to_owned();
                let s = s.concat(format_index(*status as usize).as_str());
                let s = s.concat("): ");
                let s = s.concat(message.as_str());
                s
            },
            Error::NotFound => "resource not found".to_owned(),
            Error::IdentifierNotFound { token } => "task name or index not found: ".to_owned()
                .concat(token.as_str()),
            Error::ConfigMalformed => "malformed config path, using default".to_owned(),
        }
    }
}

} // verus!
