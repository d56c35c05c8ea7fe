//! Playlist responses.

use vstd::prelude::*;
use crate::models::dto::PlaylistDto;
use crate::models::response::song::SongResponse;

verus! {

/// A playlist in a list.
#[derive(Debug, Clone)]
pub struct PlaylistResponse {
    pub id: String,
    pub name: String,
    pub owner: String,
    pub public: bool,
    pub song_count: i32,
    pub duration: Option<i32>,
}

/// A playlist with its songs.
#[derive(Debug, Clone)]
pub struct PlaylistDetail {
    pub id: String,
    pub name: String,
    pub owner: String,
    pub public: bool,
    pub song_count: i32,
    pub duration: i32,
    pub entry: Vec<SongResponse>,
}

/// A list of playlists.
#[derive(Debug, Clone)]
pub struct Playlists {
    pub playlists: Vec<PlaylistResponse>,
}

/// `r` describes the playlist row `d`.
pub open spec fn playlist_from_dto(d: PlaylistDto, r: PlaylistResponse) -> bool {
    &&& r.id == d.id
    &&& r.name == d.name
    &&& r.owner == d.owner
    &&& r.public == d.is_public
    &&& r.song_count == d.song_count
    &&& r.duration == Some(d.duration)
}

impl From<PlaylistDto> for PlaylistResponse {
    fn from(dto: PlaylistDto) -> (r: Self) {
        PlaylistResponse::from_dto(dto)
    }
}

impl vstd::std_specs::convert::FromSpecImpl<PlaylistDto> for PlaylistResponse {
    open spec fn obeys_from_spec() -> bool {
        true
    }

    open spec fn from_spec(d: PlaylistDto) -> Self {
        PlaylistResponse {
            id: d.id,
            name: d.name,
            owner: d.owner,
            public: d.is_public,
            song_count: d.song_count,
            duration: Some(d.duration),
        }
    }
}

impl PlaylistResponse {
    /// Describes a playlist row.
    pub fn from_dto(dto: PlaylistDto) -> (r: Self)
        ensures
            playlist_from_dto(dto, r),
    {
        PlaylistResponse {
            id: dto.id,
            name: dto.name,
            owner: dto.owner,
            public: dto.is_public,
            song_count: dto.song_count,
            duration: Some(dto.duration),
        }
    }
}

} // verus!
