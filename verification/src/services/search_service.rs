//! Search requests and results.

use vstd::prelude::*;
use crate::models::dto::{ArtistDto, AlbumDto, AlbumDetailDto, ComplexSongDto};

verus! {

/// Results of a search, albums in detail.
#[derive(Debug)]
pub struct SearchResults {
    pub artists: Vec<ArtistDto>,
    pub albums: Vec<AlbumDetailDto>,
    pub songs: Vec<ComplexSongDto>,
}

/// Results of a search, albums in short form.
#[derive(Debug)]
pub struct SearchResults2 {
    pub artists: Vec<ArtistDto>,
    pub albums: Vec<AlbumDto>,
    pub songs: Vec<ComplexSongDto>,
}

/// What to search for and which page of each kind of result to return.
#[derive(Debug, Clone)]
pub struct SearchParams {
    pub query: String,
    pub artist_count: i32,
    pub artist_offset: i32,
    pub album_count: i32,
    pub album_offset: i32,
    pub song_count: i32,
    pub song_offset: i32,
}

impl Default for SearchParams {
    /// An empty query; the first twenty results of each kind.
    fn default() -> (p: Self)
        ensures
            p.query@ == Seq::<char>::empty(),
            p.artist_count == 20 && p.artist_offset == 0,
            p.album_count == 20 && p.album_offset == 0,
            p.song_count == 20 && p.song_offset == 0,
    {
        SearchParams {
            query: String::new(),
            artist_count: 20,
            artist_offset: 0,
            album_count: 20,
            album_offset: 0,
            song_count: 20,
            song_offset: 0,
        }
    }
}

/// The `LIKE` pattern matching names that contain the query.
pub fn like_pattern(query: &str) -> (p: String)
    ensures
        p@ == "%"@ + query@ + "%"@,
{
    String::from_str("%").concat(query).concat("%")
}

} // verus!
