//! Rows read from the database, as the services hand them to the response
//! layer.

use vstd::prelude::*;

verus! {

/// An artist: id and name.
#[derive(Debug)]
pub struct ArtistDto {
    pub id: String,
    pub name: String,
}

/// An artist with its cover art.
#[derive(Debug)]
pub struct ArtistDetailDto {
    pub id: String,
    pub name: String,
    pub cover_art_path: Option<String>,
}

/// An album in short form.
#[derive(Debug)]
pub struct AlbumDto {
    pub id: String,
    pub name: String,
    pub artist: String,
    pub year: Option<i32>,
    pub song_count: i32,
}

/// An album with its statistics.
#[derive(Debug)]
pub struct AlbumDetailDto {
    pub id: String,
    pub name: String,
    pub artist: String,
    pub artist_id: String,
    pub year: Option<i32>,
    pub genre: Option<String>,
    pub cover_art_path: Option<String>,
    pub song_count: i32,
    pub duration: i32,
    pub play_count: i32,
}

/// A song in short form.
#[derive(Debug)]
pub struct SongDto {
    pub id: String,
    pub title: String,
    pub artist: String,
    pub album: String,
    pub duration: i32,
    pub content_type: Option<String>,
    pub cover_art: Option<String>,
}

/// A song joined with its album and artist.
#[derive(Debug)]
pub struct SongDetailDto {
    pub id: String,
    pub title: String,
    pub artist: String,
    pub artist_id: String,
    pub album: String,
    pub album_id: String,
    pub track_number: Option<i32>,
    pub disc_number: Option<i32>,
    pub duration: i32,
    pub bit_rate: Option<i32>,
    pub genre: Option<String>,
    pub year: Option<i32>,
    pub content_type: Option<String>,
    pub path: Option<String>,
    pub cover_art: Option<String>,
    pub file_size: Option<u32>,
    pub play_count: Option<i32>,
}

/// A song together with what the requesting user thinks of it.
#[derive(Debug)]
pub struct ComplexSongDto {
    pub song: SongDetailDto,
    pub user_rating: Option<i32>,
    pub starred: Option<bool>,
    pub suffix: Option<String>,
}

/// A playlist row with its owner's name.
#[derive(Debug)]
pub struct PlaylistDto {
    pub id: String,
    pub name: String,
    pub owner: String,
    pub is_public: bool,
    pub song_count: i32,
    pub duration: i32,
}

/// A user row without secrets.
#[derive(Debug)]
pub struct UserDto {
    pub username: String,
    pub email: String,
    pub is_admin: bool,
    pub scrobbling_enabled: bool,
    pub max_bitrate: i32,
    pub download_role: bool,
    pub upload_role: bool,
    pub playlist_role: bool,
    pub cover_art_role: bool,
    pub comment_role: bool,
    pub podcast_role: bool,
    pub share_role: bool,
    pub video_conversion_role: bool,
}

} // verus!
