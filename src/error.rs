//! The ways the authorization flow can fail.

use vstd::prelude::*;

verus! {

/// A failure of one step of the flow, returned to the caller of that step.
#[derive(Clone, Copy, Debug, PartialEq, Eq, Structural)]
pub enum AuthError {
    /// The callback port could not be bound.
    PortUnavailable,
    /// The callback carried no authorization code (the user refused, or the
    /// request was malformed).
    CallbackDenied,
    /// No callback arrived before the deadline.
    CallbackTimeout,
    /// The token endpoint refused the authorization code.
    TokenExchangeRejected { status: u16 },
    /// The token endpoint refused the refresh token.
    TokenRefreshRejected { status: u16 },
    /// The token endpoint could not be reached.
    NetworkFailure,
    /// The token endpoint's answer lacked a required field.
    MalformedResponse,
    /// A token was asked for before any authorization succeeded.
    NotAuthenticated,
}

} // verus!
