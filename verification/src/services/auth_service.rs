//! Registration and login decisions.

use vstd::prelude::*;
use crate::error::AppError;
use crate::models::user::{User, CreateUserRequest, LoginRequest};

verus! {

/// A user as reported after registration or login.
#[derive(Debug)]
pub struct UserWithToken {
    pub username: String,
    pub email: String,
    pub admin: bool,
    pub scrobbling_enabled: bool,
    pub max_bit_rate: i32,
    pub download_role: bool,
    pub upload_role: bool,
    pub playlist_role: bool,
    pub cover_art_role: bool,
    pub comment_role: bool,
    pub podcast_role: bool,
    pub share_role: bool,
    pub video_conversion_role: bool,
}

/// Refuses a registration whose username or email is taken (`taken`: a
/// user with either exists).
pub fn check_registration(taken: bool) -> (r: Result<(), AppError>)
    ensures
        r is Ok <==> !taken,
        taken ==> (r matches Err(AppError::ValidationError(m)) && m@ == "Username or email already exists"@),
{
    if taken {
        return Err(AppError::validation_error("Username or email already exists"));
    }
    Ok(())
}

/// The settings a registered user starts with: admin as requested (no by
/// default), a 320 kbit/s limit, scrobbling, download, playlist, cover art
/// and share roles on, the other roles off.
pub open spec fn is_registered(req: CreateUserRequest, u: UserWithToken) -> bool {
    &&& u.username == req.username
    &&& u.email == req.email
    &&& u.admin == (match req.is_admin { Some(b) => b, None => false })
    &&& u.scrobbling_enabled
    &&& u.max_bit_rate == 320
    &&& u.download_role
    &&& !u.upload_role
    &&& u.playlist_role
    &&& u.cover_art_role
    &&& !u.comment_role
    &&& !u.podcast_role
    &&& u.share_role
    &&& !u.video_conversion_role
}

/// The report of a newly registered user.
pub fn registered_user(req: CreateUserRequest) -> (u: UserWithToken)
    ensures
        is_registered(req, u),
{
    let admin = match req.is_admin {
        Some(b) => b,
        None => false,
    };
    UserWithToken {
        username: req.username,
        email: req.email,
        admin,
        scrobbling_enabled: true,
        max_bit_rate: 320,
        download_role: true,
        upload_role: false,
        playlist_role: true,
        cover_art_role: true,
        comment_role: false,
        podcast_role: false,
        share_role: true,
        video_conversion_role: false,
    }
}

/// `t` reports the settings of user row `u`.
pub open spec fn reports_user(u: User, t: UserWithToken) -> bool {
    &&& t.username == u.username
    &&& t.email == u.email
    &&& t.admin == u.is_admin
    &&& t.scrobbling_enabled == u.scrobbling_enabled
    &&& t.max_bit_rate == u.max_bitrate
    &&& t.download_role == u.download_role
    &&& t.upload_role == u.upload_role
    &&& t.playlist_role == u.playlist_role
    &&& t.cover_art_role == u.cover_art_role
    &&& t.comment_role == u.comment_role
    &&& t.podcast_role == u.podcast_role
    &&& t.share_role == u.share_role
    &&& t.video_conversion_role == u.video_conversion_role
}

/// The outcome of a login, given the user row found by name (if any): the
/// user's settings when the password equals the stored one, otherwise an
/// authentication failure that does not say which part was wrong.
pub fn login_outcome(found: Option<User>, req: LoginRequest) -> (r: Result<UserWithToken, AppError>)
    ensures
        (match found {
            Some(u) => if req.password@ == u.password_hash@ {
                r matches Ok(t) && reports_user(u, t)
            } else {
                r matches Err(AppError::AuthFailed(m)) && m@ == "Invalid username or password"@
            },
            None => r matches Err(AppError::AuthFailed(m)) && m@ == "Invalid username or password"@,
        }),
{
    let user = match found {
        Some(u) => u,
        None => return Err(AppError::auth_failed("Invalid username or password")),
    };
    if req.password != user.password_hash {
        return Err(AppError::auth_failed("Invalid username or password"));
    }
    Ok(UserWithToken {
        username: user.username,
        email: user.email,
        admin: user.is_admin,
        scrobbling_enabled: user.scrobbling_enabled,
        max_bit_rate: user.max_bitrate,
        download_role: user.download_role,
        upload_role: user.upload_role,
        playlist_role: user.playlist_role,
        cover_art_role: user.cover_art_role,
        comment_role: user.comment_role,
        podcast_role: user.podcast_role,
        share_role: user.share_role,
        video_conversion_role: user.video_conversion_role,
    })
}

} // verus!
