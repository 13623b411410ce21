//! Authentication resolution for the messaging tool: of username, password
//! and token, only username together with password, a token alone, or no
//! credential at all is a valid configuration.

use vstd::prelude::*;

verus! {

/// A valid way to authenticate against the messaging server.
#[derive(Debug)]
pub enum AuthMethod {
    /// No credential was supplied: connect without authentication.
    NoAuth,
    /// A token alone was supplied.
    Token(String),
    /// A username and a password were supplied together.
    UserPass(String, String),
}

/// An invalid combination of credentials, rejected before any connection
/// attempt.
#[derive(Clone, Copy, PartialEq, Eq, Structural, Debug)]
pub enum AuthError {
    /// A username was supplied without a password.
    UsernameWithoutPassword,
    /// A password was supplied without a username.
    PasswordWithoutUsername,
    /// Username, password and token were all supplied at once.
    AmbiguousCredentials,
}

impl AuthError {
    /// The descriptive message this rejection is logged with.
    pub fn describe(&self) -> (r: String)
        ensures
            r@ == (match self {
                AuthError::UsernameWithoutPassword => "Username but no password specified."@,
                AuthError::PasswordWithoutUsername => "Password but no username specified"@,
                AuthError::AmbiguousCredentials => "Username and password, token specified. Can't decide which to use."@,
            }),
    {
        match self {
            AuthError::UsernameWithoutPassword => String::from_str("Username but no password specified."),
            AuthError::PasswordWithoutUsername => String::from_str("Password but no username specified"),
            AuthError::AmbiguousCredentials => String::from_str(
                "Username and password, token specified. Can't decide which to use.",
            ),
        }
    }
}

/// Validates the supplied credentials and resolves them to an authentication
/// method: username and password together, a token alone, or nothing; every
/// other combination is rejected with the matching error, before any network
/// activity.
pub fn resolve_auth(
    username: Option<String>,
    password: Option<String>,
    token: Option<String>,
) -> (r: Result<AuthMethod, AuthError>)
    ensures
        r is Ok <==> ((username is Some <==> password is Some) && !(username is Some
            && token is Some)),
        (username is Some && password is Some && token is None) ==> r == Ok::<
            AuthMethod,
            AuthError,
        >(AuthMethod::UserPass(username.unwrap(), password.unwrap())),
        (username is None && password is None && token is Some) ==> r == Ok::<
            AuthMethod,
            AuthError,
        >(AuthMethod::Token(token.unwrap())),
        (username is None && password is None && token is None) ==> r == Ok::<
            AuthMethod,
            AuthError,
        >(AuthMethod::NoAuth),
        (username is Some && password is None) ==> r == Err::<AuthMethod, AuthError>(
            AuthError::UsernameWithoutPassword,
        ),
        (username is None && password is Some) ==> r == Err::<AuthMethod, AuthError>(
            AuthError::PasswordWithoutUsername,
        ),
        (username is Some && password is Some && token is Some) ==> r == Err::<
            AuthMethod,
            AuthError,
        >(AuthError::AmbiguousCredentials),
{
    match (username, password, token) {
        (Some(user), Some(pass), None) => Ok(AuthMethod::UserPass(user, pass)),
        (Some(_), None, _) => Err(AuthError::UsernameWithoutPassword),
        (None, Some(_), _) => Err(AuthError::PasswordWithoutUsername),
        (None, None, Some(tok)) => Ok(AuthMethod::Token(tok)),
        (Some(_), Some(_), Some(_)) => Err(AuthError::AmbiguousCredentials),
        (None, None, None) => Ok(AuthMethod::NoAuth),
    }
}

} // verus!
