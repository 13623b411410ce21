use wirecli::auth::{resolve_auth, AuthError, AuthMethod};

#[test]
fn username_only_is_rejected() {
    let r = resolve_auth(Some("user".to_string()), None, None);
    assert_eq!(r.unwrap_err(), AuthError::UsernameWithoutPassword);
}

#[test]
fn username_with_token_but_no_password_is_rejected() {
    let r = resolve_auth(Some("user".to_string()), None, Some("tok".to_string()));
    assert_eq!(r.unwrap_err(), AuthError::UsernameWithoutPassword);
}

#[test]
fn password_only_is_rejected() {
    let r = resolve_auth(None, Some("secret".to_string()), None);
    assert_eq!(r.unwrap_err(), AuthError::PasswordWithoutUsername);
}

#[test]
fn password_with_token_but_no_username_is_rejected() {
    let r = resolve_auth(None, Some("secret".to_string()), Some("tok".to_string()));
    assert_eq!(r.unwrap_err(), AuthError::PasswordWithoutUsername);
}

#[test]
fn all_three_credentials_are_rejected() {
    let r = resolve_auth(
        Some("user".to_string()),
        Some("secret".to_string()),
        Some("tok".to_string()),
    );
    assert_eq!(r.unwrap_err(), AuthError::AmbiguousCredentials);
}

#[test]
fn no_credentials_connect_without_authentication() {
    let r = resolve_auth(None, None, None);
    assert!(matches!(r, Ok(AuthMethod::NoAuth)));
}

#[test]
fn token_only_connects_with_token() {
    let r = resolve_auth(None, None, Some("tok".to_string()));
    match r {
        Ok(AuthMethod::Token(t)) => assert_eq!(t, "tok"),
        other => panic!("unexpected resolution: {:?}", other.is_ok()),
    }
}

#[test]
fn username_and_password_connect_with_both() {
    let r = resolve_auth(Some("user".to_string()), Some("secret".to_string()), None);
    match r {
        Ok(AuthMethod::UserPass(u, p)) => {
            assert_eq!(u, "user");
            assert_eq!(p, "secret");
        }
        other => panic!("unexpected resolution: {:?}", other.is_ok()),
    }
}

#[test]
fn rejection_messages() {
    assert_eq!(
        AuthError::UsernameWithoutPassword.describe(),
        "Username but no password specified."
    );
    assert_eq!(
        AuthError::PasswordWithoutUsername.describe(),
        "Password but no username specified"
    );
    assert_eq!(
        AuthError::AmbiguousCredentials.describe(),
        "Username and password, token specified. Can't decide which to use."
    );
}
