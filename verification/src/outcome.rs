//! What an authentication attempt can end in, and why it failed.

use vstd::prelude::*;
use vstd::string::StringExecFns;
use crate::text::decimal;
use crate::text::push_decimal;

verus! {

/// The outcome reported to the operating system's authentication stack.
#[derive(Debug, Clone, Copy, PartialEq, Eq, Structural)]
pub enum PamOutcome {
    Success,
    AuthError,
    CredentialsInsufficient,
    CredentialsUnavailable,
    ServiceError,
}

/// Why an attempt failed.
#[derive(Debug, Clone, Copy, PartialEq, Eq, Structural)]
pub enum AuthErrorKind {
    /// The remote provider could not be reached, or did not answer in time.
    Connection,
    /// The remote provider answered with something that was not expected.
    Protocol,
    /// The remote provider does not let this user log in.
    AccessDenied,
    /// The credential or the hardware key was not accepted.
    AuthFailed,
    /// No credential was supplied.
    Unavailable,
    /// A local fault: I/O, permissions, encoding.
    Internal,
}

impl AuthErrorKind {
    /// The outcome that stands for a failure of this kind.
    pub open spec fn spec_outcome(self) -> PamOutcome {
        match self {
            AuthErrorKind::Connection => PamOutcome::ServiceError,
            AuthErrorKind::Protocol => PamOutcome::ServiceError,
            AuthErrorKind::AccessDenied => PamOutcome::CredentialsInsufficient,
            AuthErrorKind::AuthFailed => PamOutcome::AuthError,
            AuthErrorKind::Unavailable => PamOutcome::CredentialsUnavailable,
            AuthErrorKind::Internal => PamOutcome::ServiceError,
        }
    }

    /// The outcome that stands for a failure of this kind. The detailed cause
    /// goes to the system log only.
    #[verifier::when_used_as_spec(spec_outcome)]
    pub fn outcome(self) -> (r: PamOutcome)
        ensures
            r == self.spec_outcome(),
            r != PamOutcome::Success,
    {
        match self {
            AuthErrorKind::Connection => PamOutcome::ServiceError,
            AuthErrorKind::Protocol => PamOutcome::ServiceError,
            AuthErrorKind::AccessDenied => PamOutcome::CredentialsInsufficient,
            AuthErrorKind::AuthFailed => PamOutcome::AuthError,
            AuthErrorKind::Unavailable => PamOutcome::CredentialsUnavailable,
            AuthErrorKind::Internal => PamOutcome::ServiceError,
        }
    }
}

/// A failure with what is known of its cause.
#[derive(Debug, Clone, PartialEq, Eq)]
pub struct AuthError {
    pub kind: AuthErrorKind,
    /// The HTTP status of the answer, where there was one.
    pub status: Option<u16>,
    /// What the failing side said, where it said anything.
    pub detail: Option<String>,
}

impl AuthError {
    /// A failure of `kind` with no further cause.
    pub open spec fn bare(kind: AuthErrorKind) -> AuthError {
        AuthError { kind, status: None, detail: None }
    }

    /// The same cause, counted as a failed authentication.
    pub open spec fn as_auth_failed(self) -> AuthError {
        AuthError { kind: AuthErrorKind::AuthFailed, status: self.status, detail: self.detail }
    }
}

impl AuthErrorKind {
    /// A few words that name the kind.
    pub open spec fn spec_label(self) -> Seq<char> {
        match self {
            AuthErrorKind::Connection => "connection error"@,
            AuthErrorKind::Protocol => "unexpected answer"@,
            AuthErrorKind::AccessDenied => "login denied"@,
            AuthErrorKind::AuthFailed => "authentication failed"@,
            AuthErrorKind::Unavailable => "no credential provided"@,
            AuthErrorKind::Internal => "internal error"@,
        }
    }

    /// A few words that name the kind.
    pub fn label(self) -> (r: &'static str)
        ensures
            r@ == self.spec_label(),
    {
        match self {
            AuthErrorKind::Connection => "connection error",
            AuthErrorKind::Protocol => "unexpected answer",
            AuthErrorKind::AccessDenied => "login denied",
            AuthErrorKind::AuthFailed => "authentication failed",
            AuthErrorKind::Unavailable => "no credential provided",
            AuthErrorKind::Internal => "internal error",
        }
    }
}

impl AuthError {
    /// The line that tells of the failure in the system log: the kind,
    /// then the HTTP status where there was one, then the cause where one
    /// is known.
    pub open spec fn spec_message(&self) -> Seq<char> {
        self.kind.spec_label() + (match self.status {
            Some(status) => " (HTTP "@ + decimal(status as nat) + ")"@,
            None => Seq::<char>::empty(),
        }) + (match self.detail {
            Some(detail) => ": "@ + detail@,
            None => Seq::<char>::empty(),
        })
    }

    /// The line that tells of the failure in the system log.
    pub fn message(&self) -> (r: String)
        ensures
            r@ == self.spec_message(),
    {
        let mut r = String::from_str(self.kind.label());
        match self.status {
            Some(status) => {
                r.append(" (HTTP ");
                push_decimal(&mut r, status as u64);
                r.append(")");
            },
            None => {},
        }
        match &self.detail {
            Some(detail) => {
                r.append(": ");
                r.append(detail.as_str());
            },
            None => {},
        }
        assert(r@ =~= self.spec_message());
        r
    }
}

} // verus!
