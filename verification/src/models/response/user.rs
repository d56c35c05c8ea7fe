//! User responses.

use vstd::prelude::*;
use crate::models::dto::UserDto;
use crate::models::user::User;

verus! {

/// A user as described to clients.
#[derive(Debug, Clone)]
pub struct UserResponse {
    pub username: String,
    pub email: String,
    pub admin: bool,
    pub scrobbling_enabled: bool,
    pub max_bit_rate: i32,
    pub download_role: bool,
    pub upload_role: bool,
    pub playlist_role: bool,
    pub cover_art_role: bool,
    pub comment_role: bool,
    pub podcast_role: bool,
    pub share_role: bool,
    pub video_conversion_role: bool,
}

/// A list of users.
#[derive(Debug, Clone)]
pub struct UsersResponse {
    pub user: Vec<UserResponse>,
}

/// `r` describes the user row `d`.
pub open spec fn user_response_from_dto(d: UserDto, r: UserResponse) -> bool {
    &&& r.username == d.username
    &&& r.email == d.email
    &&& r.admin == d.is_admin
    &&& r.scrobbling_enabled == d.scrobbling_enabled
    &&& r.max_bit_rate == d.max_bitrate
    &&& r.download_role == d.download_role
    &&& r.upload_role == d.upload_role
    &&& r.playlist_role == d.playlist_role
    &&& r.cover_art_role == d.cover_art_role
    &&& r.comment_role == d.comment_role
    &&& r.podcast_role == d.podcast_role
    &&& r.share_role == d.share_role
    &&& r.video_conversion_role == d.video_conversion_role
}

/// `r` describes the full user row `u`.
pub open spec fn user_response_from_user(u: User, r: UserResponse) -> bool {
    &&& r.username == u.username
    &&& r.email == u.email
    &&& r.admin == u.is_admin
    &&& r.scrobbling_enabled == u.scrobbling_enabled
    &&& r.max_bit_rate == u.max_bitrate
    &&& r.download_role == u.download_role
    &&& r.upload_role == u.upload_role
    &&& r.playlist_role == u.playlist_role
    &&& r.cover_art_role == u.cover_art_role
    &&& r.comment_role == u.comment_role
    &&& r.podcast_role == u.podcast_role
    &&& r.share_role == u.share_role
    &&& r.video_conversion_role == u.video_conversion_role
}

impl From<UserDto> for UserResponse {
    fn from(dto: UserDto) -> (r: Self) {
        UserResponse::from_dto(dto)
    }
}

impl vstd::std_specs::convert::FromSpecImpl<UserDto> for UserResponse {
    open spec fn obeys_from_spec() -> bool {
        true
    }

    open spec fn from_spec(d: UserDto) -> Self {
        UserResponse {
            username: d.username,
            email: d.email,
            admin: d.is_admin,
            scrobbling_enabled: d.scrobbling_enabled,
            max_bit_rate: d.max_bitrate,
            download_role: d.download_role,
            upload_role: d.upload_role,
            playlist_role: d.playlist_role,
            cover_art_role: d.cover_art_role,
            comment_role: d.comment_role,
            podcast_role: d.podcast_role,
            share_role: d.share_role,
            video_conversion_role: d.video_conversion_role,
        }
    }
}

impl From<User> for UserResponse {
    fn from(user: User) -> (r: Self) {
        UserResponse::from_user(user)
    }
}

impl vstd::std_specs::convert::FromSpecImpl<User> for UserResponse {
    open spec fn obeys_from_spec() -> bool {
        true
    }

    open spec fn from_spec(d: User) -> Self {
        UserResponse {
            username: d.username,
            email: d.email,
            admin: d.is_admin,
            scrobbling_enabled: d.scrobbling_enabled,
            max_bit_rate: d.max_bitrate,
            download_role: d.download_role,
            upload_role: d.upload_role,
            playlist_role: d.playlist_role,
            cover_art_role: d.cover_art_role,
            comment_role: d.comment_role,
            podcast_role: d.podcast_role,
            share_role: d.share_role,
            video_conversion_role: d.video_conversion_role,
        }
    }
}

impl UserResponse {
    /// Describes a user row.
    pub fn from_dto(dto: UserDto) -> (r: Self)
        ensures
            user_response_from_dto(dto, r),
    {
        UserResponse {
            username: dto.username,
            email: dto.email,
            admin: dto.is_admin,
            scrobbling_enabled: dto.scrobbling_enabled,
            max_bit_rate: dto.max_bitrate,
            download_role: dto.download_role,
            upload_role: dto.upload_role,
            playlist_role: dto.playlist_role,
            cover_art_role: dto.cover_art_role,
            comment_role: dto.comment_role,
            podcast_role: dto.podcast_role,
            share_role: dto.share_role,
            video_conversion_role: dto.video_conversion_role,
        }
    }

    /// Describes a full user row.
    pub fn from_user(user: User) -> (r: Self)
        ensures
            user_response_from_user(user, r),
    {
        UserResponse {
            username: user.username,
            email: user.email,
            admin: user.is_admin,
            scrobbling_enabled: user.scrobbling_enabled,
            max_bit_rate: user.max_bitrate,
            download_role: user.download_role,
            upload_role: user.upload_role,
            playlist_role: user.playlist_role,
            cover_art_role: user.cover_art_role,
            comment_role: user.comment_role,
            podcast_role: user.podcast_role,
            share_role: user.share_role,
            video_conversion_role: user.video_conversion_role,
        }
    }
}

} // verus!
