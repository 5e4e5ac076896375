//! Who may ask: HTTP Basic credentials are compared with the configured ones
//! before a request is let through to the cache.

use vstd::prelude::*;
use vstd::string::StringExecFns;
use crate::config::ProxyConfig;

verus! {

/// Why a request is turned away.
#[derive(Clone, Copy, Debug, PartialEq, Eq, Structural)]
pub enum AuthError {
    /// The user or the password is not the configured one, or no password
    /// was sent.
    InvalidCredentials,
}

/// The status with which a request that is turned away is answered.
pub const UNAUTHORIZED: u16 = 401;

impl AuthError {
    /// The status with which the listener answers: always [`UNAUTHORIZED`].
    pub fn status_code(&self) -> (code: u16)
        ensures
            code == UNAUTHORIZED,
    {
        UNAUTHORIZED
    }

    /// What the client is told.
    pub fn message(&self) -> (text: String)
        ensures
            text@ == "Invalid credentials"@,
    {
        String::from_str("Invalid credentials")
    }
}

/// Whether the credentials are the configured ones: the user is the
/// configured user, and a password was sent and is the configured password.
pub open spec fn credentials_match(
    username: Seq<char>,
    configured_password: Seq<char>,
    user_id: Seq<char>,
    password: Option<Seq<char>>,
) -> bool {
    &&& user_id == username
    &&& password is Some
    &&& password->Some_0 == configured_password
}

/// What a sent password is to the contracts.
pub open spec fn password_view(password: Option<&str>) -> Option<Seq<char>> {
    match password {
        Some(p) => Some(p@),
        None => None,
    }
}

/// Decides whether a request with the given credentials is let through.
///
/// It is let through exactly when the credentials are the configured ones.
/// The decision reads nothing but the configuration: a request that is turned
/// away has touched neither the cache nor the upstream.
pub fn authorize(config: &ProxyConfig, user_id: &str, password: Option<&str>) -> (r: Result<
    (),
    AuthError,
>)
    ensures
        r is Ok <==> credentials_match(
            config.http_auth_username@,
            config.http_auth_password@,
            user_id@,
            password_view(password),
        ),
        r is Err ==> r == Err::<(), AuthError>(AuthError::InvalidCredentials),
{
    match password {
        Some(p) => {
            if *user_id == *config.http_auth_username.as_str() && *p
                == *config.http_auth_password.as_str() {
                Ok(())
            } else {
                Err(AuthError::InvalidCredentials)
            }
        },
        None => Err(AuthError::InvalidCredentials),
    }
}

} // verus!
