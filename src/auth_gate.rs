//! Token issue and token validation against the authentication service:
//! mapping its tri-state answers to login responses and caller identities.
use vstd::prelude::*;

use crate::status::{LoginRes, LoginView, Status, login_failure_view};

verus! {

/// The call to a downstream service failed in transport (connection, deadline,
/// RPC status). Its details are logged where it is caught, never forwarded.
#[derive(Clone, Copy, Debug, PartialEq, Eq, Structural)]
pub struct TransportError;

/// Tri-state result of a token request.
#[derive(Clone, Copy, Debug, PartialEq, Eq, Structural)]
pub enum TokenStatus {
    Unspecified,
    Success,
    Fail,
}

/// What the authentication service answers to a token request.
pub struct TokenReply {
    pub status: TokenStatus,
    pub token: String,
    pub user_id: i64,
}

/// Tri-state result of a token validation.
#[derive(Clone, Copy, Debug, PartialEq, Eq, Structural)]
pub enum AuthStatus {
    Unspecified,
    Success,
    AuthFail,
}

/// What the authentication service answers to a token validation.
#[derive(Clone, Copy, Debug, PartialEq, Eq, Structural)]
pub struct AuthReply {
    pub status: AuthStatus,
    pub user_id: i64,
}

/// The login response for an answer of the token service: the token and the
/// identity on success; `fail` and `unspecified` alike are forbidden, so the
/// caller does not learn which field was wrong; a transport failure is a bad gateway.
pub open spec fn login_view(reply: Result<TokenReply, TransportError>) -> LoginView {
    match reply {
        Ok(t) => match t.status {
            TokenStatus::Success => LoginView { status: Status::Success, user_id: t.user_id, token: t.token@ },
            _ => login_failure_view(Status::Forbidden),
        },
        Err(_) => login_failure_view(Status::BadGateway),
    }
}

/// Turns the authentication service's answer to a token request into the
/// body of a login response.
pub fn login_response(reply: Result<TokenReply, TransportError>) -> (r: LoginRes)
    ensures
        r@ == login_view(reply),
{
    match reply {
        Ok(t) => match t.status {
            TokenStatus::Success => LoginRes { status: Status::Success, user_id: t.user_id, token: t.token },
            _ => LoginRes::failure(Status::Forbidden),
        },
        Err(_) => LoginRes::failure(Status::BadGateway),
    }
}

/// The caller's identity for an answer of the validation service: only a
/// success authenticates; `unspecified` is a failed authentication, not an error.
pub open spec fn identity_of(reply: AuthReply) -> Option<i64> {
    if reply.status == AuthStatus::Success { Some(reply.user_id) } else { None }
}

/// Recovers the caller's identity from the answer to a token validation.
pub fn authenticated_identity(reply: AuthReply) -> (r: Option<i64>)
    ensures
        r == identity_of(reply),
{
    match reply.status {
        AuthStatus::Success => Some(reply.user_id),
        _ => None,
    }
}

} // verus!
