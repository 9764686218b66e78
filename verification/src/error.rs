//! Error values handed across the gateway.
//!
//! Two kinds of failure are kept apart: the backend could not be reached or
//! refused a call (`Upstream`), or it answered with a shape that the gateway
//! refuses to trust (`Validation`).

use crate::text::{decimal_text, push_decimal};
use vstd::prelude::*;
use vstd::string::StringExecFns;

verus! {

/// An error value carried inside a response stream in place of a fragment.
#[derive(Debug, PartialEq, Eq)]
pub struct StreamError {
    src: String,
}

impl View for StreamError {
    type V = Seq<char>;

    /// The error's message.
    closed spec fn view(&self) -> Seq<char> {
        self.src@
    }
}

impl StreamError {
    /// Builds an error whose message is `s`.
    pub fn new(s: &str) -> (e: StreamError)
        ensures
            e@ == s@,
    {
        StreamError { src: s.to_owned() }
    }

    /// The error's message as text.
    pub fn to_string(&self) -> (s: String)
        ensures
            s@ == self@,
    {
        self.src.clone()
    }
}

impl StreamError {
    /// The error whose message is `t`.
    pub fn from(t: String) -> (e: StreamError)
        ensures
            e@ == t@,
    {
        StreamError { src: t }
    }

    /// The error's message, taken out of it.
    pub fn into_string(self) -> (s: String)
        ensures
            s@ == self@,
    {
        self.src
    }
}

/// Why an operation of the gateway failed.
#[derive(Debug, Clone, Copy, PartialEq, Eq, Structural)]
pub enum FailureKind {
    /// The backend was unreachable or answered a call with an error.
    Upstream,
    /// A value broke a rule of translation.
    Validation,
}

/// A failed operation: its kind and a message for the operator.
#[derive(Debug, PartialEq, Eq)]
pub struct Failure {
    pub kind: FailureKind,
    pub message: String,
}

/// The status with which an upstream failure is answered: a failure on the
/// server's side.
pub const UPSTREAM_STATUS: u16 = 500;

/// The status with which a validation failure is answered: the gateway got
/// an answer that it cannot pass on.
pub const VALIDATION_STATUS: u16 = 502;

impl Failure {
    /// The status with which a failure of this kind is answered.
    pub open spec fn spec_status(&self) -> u16 {
        match self.kind {
            FailureKind::Upstream => UPSTREAM_STATUS,
            FailureKind::Validation => VALIDATION_STATUS,
        }
    }

    #[verifier::when_used_as_spec(spec_status)]
    pub fn status(&self) -> (status: u16)
        ensures
            status == self.spec_status(),
    {
        match self.kind {
            FailureKind::Upstream => UPSTREAM_STATUS,
            FailureKind::Validation => VALIDATION_STATUS,
        }
    }

    /// A failure of the backend or of the way to it.
    pub fn upstream(message: String) -> (f: Failure)
        ensures
            f == (Failure { kind: FailureKind::Upstream, message }),
    {
        Failure { kind: FailureKind::Upstream, message }
    }

    /// A value that the gateway refuses to pass on.
    pub fn validation(message: String) -> (f: Failure)
        ensures
            f == (Failure { kind: FailureKind::Validation, message }),
    {
        Failure { kind: FailureKind::Validation, message }
    }
}

impl Failure {
    /// A stream error raised by translation is a validation failure.
    pub fn from(e: StreamError) -> (f: Failure)
        ensures
            f.kind == FailureKind::Validation,
            f.message@ == e@,
    {
        Failure { kind: FailureKind::Validation, message: e.src }
    }
}

/// The status code sent where an error carries a status that is no
/// three-digit code.
pub const DEFAULT_STATUS: u16 = 500;

/// A failure together with the HTTP status with which it is answered.
#[derive(Debug, PartialEq, Eq)]
pub struct RustixErr {
    pub err: Failure,
    pub status: u16,
}

/// The text under which an error with status `status` and message `message`
/// is shown.
pub open spec fn error_text(status: u16, message: Seq<char>) -> Seq<char> {
    "status "@ + decimal_text(status as nat) + " - err "@ + message + ")"@
}

impl RustixErr {
    pub fn new(err: Failure, status: u16) -> (r: RustixErr)
        ensures
            r == (RustixErr { err, status }),
    {
        Self { err, status }
    }

    /// The status code to answer with: the error's own status where it is a
    /// three-digit code, the default otherwise.
    pub fn status_code(&self) -> (code: u16)
        ensures
            code == if 100 <= self.status < 1000 {
                self.status
            } else {
                DEFAULT_STATUS
            },
    {
        if 100 <= self.status && self.status < 1000 {
            self.status
        } else {
            DEFAULT_STATUS
        }
    }

    /// The body of the error response.
    pub fn to_string(&self) -> (s: String)
        ensures
            s@ == error_text(self.status, self.err.message@),
    {
        let mut s = String::from_str("status ");
        push_decimal(&mut s, self.status as u64);
        s.append(" - err ");
        s.append(self.err.message.as_str());
        s.append(")");
        s
    }
}

impl RustixErr {
    /// The failure, answered with the status of its kind.
    pub fn from(err: Failure) -> (r: RustixErr)
        ensures
            r == (RustixErr { err, status: err.status() }),
    {
        let status = err.status();
        Self { err, status }
    }
}

} // verus!
