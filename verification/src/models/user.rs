//! Users and the requests that manage them.

use vstd::prelude::*;
use crate::utils::id_builder::{new_uuid_string, is_hyphenated_uuid};
use crate::utils::clock::now_rfc3339;

verus! {

/// A user row.
#[derive(Debug)]
pub struct User {
    pub id: String,
    pub username: String,
    /// The stored password.
    pub password_hash: String,
    /// The password used for Subsonic token authentication.
    pub api_password: Option<String>,
    pub email: String,
    pub is_admin: bool,
    pub max_bitrate: i32,
    pub download_role: bool,
    pub upload_role: bool,
    pub playlist_role: bool,
    pub cover_art_role: bool,
    pub comment_role: bool,
    pub podcast_role: bool,
    pub share_role: bool,
    pub video_conversion_role: bool,
    pub scrobbling_enabled: bool,
    /// RFC 3339 creation time.
    pub created_at: String,
    /// RFC 3339 time of the last change.
    pub updated_at: String,
}

/// A request to create a user.
#[derive(Debug)]
pub struct CreateUserRequest {
    pub username: String,
    pub password: String,
    pub email: String,
    pub is_admin: Option<bool>,
}

/// A login request.
#[derive(Debug)]
pub struct LoginRequest {
    pub username: String,
    pub password: String,
}

/// A request to change some of a user's settings; absent fields stay.
#[derive(Debug)]
pub struct UpdateUserRequest {
    pub email: Option<String>,
    pub max_bitrate: Option<i32>,
    pub download_role: Option<bool>,
    pub upload_role: Option<bool>,
    pub playlist_role: Option<bool>,
    pub cover_art_role: Option<bool>,
    pub comment_role: Option<bool>,
    pub podcast_role: Option<bool>,
    pub share_role: Option<bool>,
    pub video_conversion_role: Option<bool>,
    pub scrobbling_enabled: Option<bool>,
}

/// A user as described to clients.
#[derive(Debug)]
pub struct UserResponse {
    pub username: String,
    pub email: String,
    pub admin: bool,
    pub scrobbling_enabled: bool,
    pub max_bit_rate: i32,
    pub download_role: bool,
    pub upload_role: bool,
    pub playlist_role: bool,
    pub cover_art_role: bool,
    pub comment_role: bool,
    pub podcast_role: bool,
    pub share_role: bool,
    pub video_conversion_role: bool,
}

/// A list of users.
#[derive(Debug)]
pub struct UsersResponse {
    pub user: Vec<UserResponse>,
}

/// A password change request.
#[derive(Debug)]
pub struct ChangePasswordRequest {
    pub username: String,
    pub password: String,
}

/// `r` describes the user row `u`.
pub open spec fn user_response_of(u: User, r: UserResponse) -> bool {
    &&& r.username == u.username
    &&& r.email == u.email
    &&& r.admin == u.is_admin
    &&& r.scrobbling_enabled == u.scrobbling_enabled
    &&& r.max_bit_rate == u.max_bitrate
    &&& r.download_role == u.download_role
    &&& r.upload_role == u.upload_role
    &&& r.playlist_role == u.playlist_role
    &&& r.cover_art_role == u.cover_art_role
    &&& r.comment_role == u.comment_role
    &&& r.podcast_role == u.podcast_role
    &&& r.share_role == u.share_role
    &&& r.video_conversion_role == u.video_conversion_role
}

impl From<User> for UserResponse {
    fn from(user: User) -> (r: Self) {
        UserResponse::from_user(user)
    }
}

impl vstd::std_specs::convert::FromSpecImpl<User> for UserResponse {
    open spec fn obeys_from_spec() -> bool {
        true
    }

    open spec fn from_spec(d: User) -> Self {
        UserResponse {
            username: d.username,
            email: d.email,
            admin: d.is_admin,
            scrobbling_enabled: d.scrobbling_enabled,
            max_bit_rate: d.max_bitrate,
            download_role: d.download_role,
            upload_role: d.upload_role,
            playlist_role: d.playlist_role,
            cover_art_role: d.cover_art_role,
            comment_role: d.comment_role,
            podcast_role: d.podcast_role,
            share_role: d.share_role,
            video_conversion_role: d.video_conversion_role,
        }
    }
}

impl UserResponse {
    /// Describes a user row to clients.
    pub fn from_user(user: User) -> (r: Self)
        ensures
            user_response_of(user, r),
    {
        UserResponse {
            username: user.username,
            email: user.email,
            admin: user.is_admin,
            scrobbling_enabled: user.scrobbling_enabled,
            max_bit_rate: user.max_bitrate,
            download_role: user.download_role,
            upload_role: user.upload_role,
            playlist_role: user.playlist_role,
            cover_art_role: user.cover_art_role,
            comment_role: user.comment_role,
            podcast_role: user.podcast_role,
            share_role: user.share_role,
            video_conversion_role: user.video_conversion_role,
        }
    }
}

/// The settings of a new user: a fresh id, the username as API password,
/// a 320 kbit/s limit, download, playlist, cover art and share roles,
/// scrobbling on, every other role off.
pub open spec fn is_new_user(u: User, username: String, password_hash: String, email: String, is_admin: bool) -> bool {
    &&& is_hyphenated_uuid(u.id@)
    &&& u.username == username
    &&& u.password_hash == password_hash
    &&& u.api_password == Some(username)
    &&& u.email == email
    &&& u.is_admin == is_admin
    &&& u.max_bitrate == 320
    &&& u.download_role
    &&& !u.upload_role
    &&& u.playlist_role
    &&& u.cover_art_role
    &&& !u.comment_role
    &&& !u.podcast_role
    &&& u.share_role
    &&& !u.video_conversion_role
    &&& u.scrobbling_enabled
}

impl User {
    /// A new user row, stamped with the current time.
    pub fn new(username: String, password_hash: String, email: String, is_admin: bool) -> (u: Self)
        ensures
            is_new_user(u, username, password_hash, email, is_admin),
    {
        let api_password = username.clone();
        let now = now_rfc3339();
        let later = now.clone();
        User {
            id: new_uuid_string(),
            username,
            password_hash,
            api_password: Some(api_password),
            email,
            is_admin,
            max_bitrate: 320,
            download_role: true,
            upload_role: false,
            playlist_role: true,
            cover_art_role: true,
            comment_role: false,
            podcast_role: false,
            share_role: true,
            video_conversion_role: false,
            scrobbling_enabled: true,
            created_at: now,
            updated_at: later,
        }
    }
}

} // verus!
