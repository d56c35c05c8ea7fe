//! Starred items.

use vstd::prelude::*;
use crate::utils::id_builder::{new_uuid_string, is_hyphenated_uuid};
use crate::utils::clock::now_rfc3339;
use crate::models::response::artist::ArtistResponse;
use crate::models::response::album::AlbumResponse;
use crate::models::song::SongResponse;

verus! {

/// A starred row: one of artist, album or song, starred by a user.
#[derive(Debug)]
pub struct Starred {
    pub id: String,
    pub user_id: String,
    pub artist_id: Option<String>,
    pub album_id: Option<String>,
    pub song_id: Option<String>,
    /// RFC 3339 creation time.
    pub created_at: String,
}

/// Starred items in the attribute form.
#[derive(Debug)]
pub struct StarredResponse {
    pub artist: Option<Vec<ArtistResponse>>,
    pub album: Option<Vec<AlbumResponse>>,
    pub song: Option<Vec<SongResponse>>,
}

/// A request to star or unstar items.
#[derive(Debug)]
pub struct StarRequest {
    pub id: Option<String>,
    pub album_id: Option<String>,
    pub artist_id: Option<String>,
}

impl Starred {
    /// A new starred row with a fresh id, stamped with the current time.
    pub fn new(user_id: String, artist_id: Option<String>, album_id: Option<String>, song_id: Option<String>) -> (s: Self)
        ensures
            is_hyphenated_uuid(s.id@),
            s.user_id == user_id,
            s.artist_id == artist_id,
            s.album_id == album_id,
            s.song_id == song_id,
    {
        Starred {
            id: new_uuid_string(),
            user_id,
            artist_id,
            album_id,
            song_id,
            created_at: now_rfc3339(),
        }
    }
}

} // verus!
