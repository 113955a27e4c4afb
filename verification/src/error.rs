//! How a login attempt fails.

use crate::decimal::{decimal, decimal_of};
use crate::model::LOCAL_PORT;
use crate::text::string_of;
use vstd::prelude::*;
use vstd::string::StringExecFns;

verus! {

/// Why a login attempt, or a second-factor enrollment, ended without
/// success. Nothing is retried: the user starts over.
#[derive(Clone, Debug)]
pub enum AuthError {
    /// The loopback port could not be bound.
    PortBind,
    /// No callback came within the deadline.
    Timeout,
    /// The user left a required input empty; no request was made.
    Validation(String),
    /// The service answered with a failure, or with an answer that cannot be
    /// used; the text is shown as it is.
    Server(String),
    /// The service turned the credentials down for a reason the user can
    /// mend.
    Unauthorized(String),
    /// A prompt was cancelled, or a request did not get through.
    Aborted(String),
}

/// An `AuthError` as contracts see it.
pub enum Failure {
    PortBind,
    Timeout,
    Validation(Seq<char>),
    Server(Seq<char>),
    Unauthorized(Seq<char>),
    Aborted(Seq<char>),
}

impl View for AuthError {
    type V = Failure;

    open spec fn view(&self) -> Failure {
        match self {
            AuthError::PortBind => Failure::PortBind,
            AuthError::Timeout => Failure::Timeout,
            AuthError::Validation(s) => Failure::Validation(s@),
            AuthError::Server(s) => Failure::Server(s@),
            AuthError::Unauthorized(s) => Failure::Unauthorized(s@),
            AuthError::Aborted(s) => Failure::Aborted(s@),
        }
    }
}

impl Failure {
    /// What the user is told.
    pub open spec fn text(self) -> Seq<char> {
        match self {
            Failure::PortBind => "Could not start local server on port "@ + decimal(
                LOCAL_PORT as nat,
            ) + ". Is another process using it?"@,
            Failure::Timeout => "Login timed out. Please try again."@,
            Failure::Validation(s) => s,
            Failure::Server(s) => s,
            Failure::Unauthorized(s) => s,
            Failure::Aborted(s) => s,
        }
    }
}

impl AuthError {
    /// What the user is told.
    pub fn message(&self) -> (s: String)
        ensures
            s@ == self@.text(),
    {
        match self {
            AuthError::PortBind => {
                let mut s = String::from_str("Could not start local server on port ");
                let port = string_of(&decimal_of(LOCAL_PORT as usize));
                s.append(port.as_str());
                s.append(". Is another process using it?");
                s
            },
            AuthError::Timeout => String::from_str("Login timed out. Please try again."),
            AuthError::Validation(s) => s.clone(),
            AuthError::Server(s) => s.clone(),
            AuthError::Unauthorized(s) => s.clone(),
            AuthError::Aborted(s) => s.clone(),
        }
    }
}

} // verus!
