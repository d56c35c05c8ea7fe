//! Authentication and permission checks.

use vstd::prelude::*;
use crate::error::AppError;
use crate::utils::hash_utils::{generate_subsonic_token, subsonic_token_of};

verus! {

/// Checks a password against the stored one. Passwords are stored as the
/// user gave them, so they match exactly when they are equal.
pub fn verify_password(password: &str, stored: &str) -> (ok: bool)
    ensures
        ok == (password@ == stored@),
{
    let given = String::from_str(password);
    let kept = String::from_str(stored);
    given == kept
}

/// Checks Subsonic credentials.
///
/// A clear-text `password` is checked against the stored one. Without a
/// password, a `token` together with a `salt` is checked against the token
/// of the stored password and that salt: the lowercase hex MD5 digest of
/// the password followed by the salt. With neither, the request is refused
/// as missing its authentication parameters.
pub fn verify_subsonic_auth(
    _username: &str,
    token: Option<&str>,
    salt: Option<&str>,
    password: Option<&str>,
    stored_password_hash: &str,
) -> (r: Result<bool, AppError>)
    ensures
        password matches Some(p) ==> (r matches Ok(b) && b == (p@ == stored_password_hash@)),
        password is None && token is Some && salt is Some ==> (r matches Ok(b)
            && b == (token->0@ == subsonic_token_of(stored_password_hash@, salt->0@))),
        password is None && !(token is Some && salt is Some) ==> (r matches Err(AppError::AuthFailed(m))
            && m@ == "Missing authentication parameters"@),
{
    if let Some(p) = password {
        return Ok(verify_password(p, stored_password_hash));
    }
    if let (Some(t), Some(s)) = (token, salt) {
        let expected = generate_subsonic_token(stored_password_hash, s);
        return Ok(String::from_str(t) == expected);
    }
    Err(AppError::auth_failed("Missing authentication parameters"))
}

/// Admits administrators only.
pub fn require_admin(is_admin: bool) -> (r: Result<(), AppError>)
    ensures
        r is Ok <==> is_admin,
        !is_admin ==> (r matches Err(AppError::AccessDenied(m)) && m@ == "Admin privileges required"@),
{
    if !is_admin {
        return Err(AppError::access_denied("Admin privileges required"));
    }
    Ok(())
}

/// Admits the owner of a playlist, or a user granted access to it.
pub fn require_playlist_permission(is_owner: bool, has_permission: bool) -> (r: Result<(), AppError>)
    ensures
        r is Ok <==> (is_owner || has_permission),
        !(is_owner || has_permission) ==> (r matches Err(AppError::AccessDenied(m))
            && m@ == "Playlist access denied"@),
{
    if !is_owner && !has_permission {
        return Err(AppError::access_denied("Playlist access denied"));
    }
    Ok(())
}

} // verus!
