//! The song row.

use vstd::prelude::*;
use crate::utils::id_builder::{new_uuid_string, is_hyphenated_uuid};
use crate::utils::clock::now_rfc3339;

verus! {

/// A song row.
#[derive(Debug)]
pub struct Song {
    pub id: String,
    pub album_id: String,
    pub artist_id: String,
    pub title: String,
    pub track_number: Option<i32>,
    pub disc_number: Option<i32>,
    pub duration: i32,
    pub bit_rate: Option<i32>,
    pub genre: Option<String>,
    pub year: Option<i32>,
    pub content_type: Option<String>,
    pub file_path: String,
    pub file_size: Option<i64>,
    pub play_count: i32,
    /// RFC 3339 creation time.
    pub created_at: String,
    /// RFC 3339 time of the last change.
    pub updated_at: String,
}

/// A song as described to clients in the attribute form.
#[derive(Debug)]
pub struct SongResponse {
    pub id: String,
    pub title: String,
    pub artist: String,
    pub album: String,
    pub genre: Option<String>,
    pub year: Option<i32>,
    pub duration: i32,
    pub bit_rate: Option<i32>,
    pub content_type: String,
    pub path: Option<String>,
    pub track_number: Option<i32>,
    pub disc_number: Option<i32>,
    pub cover_art: Option<String>,
}

/// Random songs in the attribute form.
#[derive(Debug)]
pub struct RandomSongs {
    pub songs: Vec<SongResponse>,
}

impl Song {
    /// A new song row with a fresh id, never played, stamped with the current
    /// time.
    pub fn new(
        album_id: String,
        artist_id: String,
        title: String,
        duration: i32,
        file_path: String,
        track_number: Option<i32>,
        disc_number: Option<i32>,
        bit_rate: Option<i32>,
        genre: Option<String>,
        year: Option<i32>,
        content_type: Option<String>,
        file_size: Option<i64>,
    ) -> (s: Self)
        ensures
            is_hyphenated_uuid(s.id@),
            s.album_id == album_id,
            s.artist_id == artist_id,
            s.title == title,
            s.track_number == track_number,
            s.disc_number == disc_number,
            s.duration == duration,
            s.bit_rate == bit_rate,
            s.genre == genre,
            s.year == year,
            s.content_type == content_type,
            s.file_path == file_path,
            s.file_size == file_size,
            s.play_count == 0,
    {
        let now = now_rfc3339();
        let later = now.clone();
        Song {
            id: new_uuid_string(),
            album_id,
            artist_id,
            title,
            track_number,
            disc_number,
            duration,
            bit_rate,
            genre,
            year,
            content_type,
            file_path,
            file_size,
            play_count: 0,
            created_at: now,
            updated_at: later,
        }
    }
}

} // verus!
