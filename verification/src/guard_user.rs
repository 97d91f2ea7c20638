//! The authentication gate: converts an inbound request's bearer token
//! into either a rejection or a proven `(subject, role)` pair, and
//! enforces a minimum-privilege tier.
//!
//! Gating is two composable checks: `authenticate` asks "is this a
//! valid, live bearer token", and `verify_role` asks "does the subject
//! meet tier X". `authorize` chains them. The subject's role is resolved
//! against the directory on every call — never cached in the token — so a
//! role change takes effect on the subject's next request. Every
//! ambiguous or failing condition is a rejection, never an implicit
//! allow.

use vstd::prelude::*;

use crate::config_jwt::{get_email_by_token, token_accepted, valid_token};
use crate::errors::AuthError;
use crate::user_directory::{has_email, user_with_email, UserDirectory};
use crate::user_enums::{rank_authorized, valid_rank};

verus! {

/// Proof of plain authentication: holds the raw bearer token that passed
/// the signature and expiry check.
#[derive(Default)]
pub struct AuthenticationGuard(pub String);

/// Marker for routes demanding at least the Admin tier.
#[derive(Default)]
pub struct AdminAuthenticationGuard;

/// Marker for routes demanding at least the Manager tier.
#[derive(Default)]
pub struct MannagerAuthenticationGuard;

/// Marker for routes demanding at least the Operator tier.
#[derive(Default)]
pub struct OperatorAuthenticationGuard;

/// Marker for routes demanding at least the Viewer tier.
#[derive(Default)]
pub struct ViewerAuthenticationGuard;

impl AdminAuthenticationGuard {
    pub fn tier() -> (t: u8)
        ensures
            t == 1,
    {
        1
    }
}

impl MannagerAuthenticationGuard {
    pub fn tier() -> (t: u8)
        ensures
            t == 2,
    {
        2
    }
}

impl OperatorAuthenticationGuard {
    pub fn tier() -> (t: u8)
        ensures
            t == 3,
    {
        3
    }
}

impl ViewerAuthenticationGuard {
    pub fn tier() -> (t: u8)
        ensures
            t == 4,
    {
        4
    }
}

/// A proven subject: the email a live token asserts, with the role the
/// directory holds for it right now.
pub struct Subject {
    pub email: String,
    pub role: u8,
}

/// The subject a token asserts under a secret; meaningful only when the
/// token decodes.
pub open spec fn token_subject(token: Seq<char>, secret: Seq<char>) -> Seq<char> {
    crate::config_jwt::decoded_claims(token, secret).unwrap().0
}

/// Plain authentication: a missing header is `Unauthenticated`, a token
/// failing the signature or expiry check is `InvalidToken`, and a live
/// token is returned as proof.
pub fn authenticate(jwt_secret: &str, token_header: Option<&str>, now_seconds: u64) -> (r: Result<
    AuthenticationGuard,
    AuthError,
>)
    ensures
        match r {
            Ok(guard) => token_header matches Some(t) && guard.0@ == t@ && token_accepted(
                t@,
                jwt_secret@,
                now_seconds,
            ),
            Err(e) => match token_header {
                None => e == AuthError::Unauthenticated,
                Some(t) => e == AuthError::InvalidToken && !token_accepted(
                    t@,
                    jwt_secret@,
                    now_seconds,
                ),
            },
        },
{
    match token_header {
        None => Err(AuthError::Unauthenticated),
        Some(token) => {
            if valid_token(jwt_secret, token, now_seconds) {
                Ok(AuthenticationGuard(token.to_owned()))
            } else {
                Err(AuthError::InvalidToken)
            }
        },
    }
}

/// The tier check: resolves the subject's current role in the directory
/// and compares it against the route's minimum tier. A subject the
/// directory cannot resolve, or one holding a rank outside the closed
/// set, is a directory fault — rejected, never shown leniency.
pub fn verify_role(directory: &UserDirectory, email: &str, role: u8) -> (r: Result<(), AuthError>)
    requires
        directory.wf(),
    ensures
        (r is Ok) == (has_email(directory@, email@) && rank_authorized(
            user_with_email(directory@, email@).role,
            role,
        )),
        match r {
            Ok(_) => true,
            Err(e) => {
                if !has_email(directory@, email@) {
                    e == AuthError::DirectoryError
                } else if !valid_rank(user_with_email(directory@, email@).role) {
                    e == AuthError::DirectoryError
                } else {
                    e == AuthError::Forbidden && user_with_email(directory@, email@).role > role
                }
            },
        },
{
    let user = match directory.find_by_email(email) {
        Some(user) => user,
        None => {
            return Err(AuthError::DirectoryError);
        },
    };
    if user.role < 1 || user.role > 4 {
        return Err(AuthError::DirectoryError);
    }
    if user.role <= role {
        Ok(())
    } else {
        Err(AuthError::Forbidden)
    }
}

/// The tiered gate: plain authentication, then subject resolution, then
/// the tier check — both checks mandatory, in that order.
pub fn authorize(
    directory: &UserDirectory,
    jwt_secret: &str,
    token_header: Option<&str>,
    minimum_tier: u8,
    now_seconds: u64,
) -> (r: Result<Subject, AuthError>)
    requires
        directory.wf(),
    ensures
        match r {
            Ok(subject) => token_header matches Some(t) && token_accepted(
                t@,
                jwt_secret@,
                now_seconds,
            ) && has_email(directory@, token_subject(t@, jwt_secret@)) && subject.email@
                == token_subject(t@, jwt_secret@) && subject.role == user_with_email(
                directory@,
                token_subject(t@, jwt_secret@),
            ).role && rank_authorized(subject.role, minimum_tier),
            Err(e) => match token_header {
                None => e == AuthError::Unauthenticated,
                Some(t) => {
                    if !token_accepted(t@, jwt_secret@, now_seconds) {
                        e == AuthError::InvalidToken
                    } else if !has_email(directory@, token_subject(t@, jwt_secret@))
                        || !valid_rank(
                        user_with_email(directory@, token_subject(t@, jwt_secret@)).role,
                    ) {
                        e == AuthError::DirectoryError
                    } else {
                        e == AuthError::Forbidden && user_with_email(
                            directory@,
                            token_subject(t@, jwt_secret@),
                        ).role > minimum_tier
                    }
                },
            },
        },
{
    let guard = match authenticate(jwt_secret, token_header, now_seconds) {
        Ok(guard) => guard,
        Err(e) => {
            return Err(e);
        },
    };
    let email = get_email_by_token(jwt_secret, guard.0.as_str());
    if let Err(e) = verify_role(directory, email.as_str(), minimum_tier) {
        return Err(e);
    }
    let user = match directory.find_by_email(email.as_str()) {
        Some(user) => user,
        None => {
            return Err(AuthError::DirectoryError);
        },
    };
    Ok(Subject { email, role: user.role })
}

} // verus!
