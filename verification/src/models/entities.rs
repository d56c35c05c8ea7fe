//! Rows written by the library scan and the play queue.

use vstd::prelude::*;
use crate::utils::id_builder::{new_uuid_string, is_hyphenated_uuid};
use crate::utils::clock::now_rfc3339;

verus! {

/// An artist row.
#[derive(Debug)]
pub struct Artist {
    pub id: String,
    pub name: String,
    pub music_brainz_id: Option<String>,
    pub cover_art_path: Option<String>,
    /// RFC 3339 creation time.
    pub created_at: String,
    /// RFC 3339 time of the last change.
    pub updated_at: String,
}

impl Artist {
    /// A new artist row with a fresh id, stamped with the current time.
    pub fn new(name: String, music_brainz_id: Option<String>, cover_art_path: Option<String>) -> (a: Self)
        ensures
            is_hyphenated_uuid(a.id@),
            a.name == name,
            a.music_brainz_id == music_brainz_id,
            a.cover_art_path == cover_art_path,
    {
        let now = now_rfc3339();
        let later = now.clone();
        Artist { id: new_uuid_string(), name, music_brainz_id, cover_art_path, created_at: now, updated_at: later }
    }
}

/// An album row.
#[derive(Debug)]
pub struct Album {
    pub id: String,
    pub artist_id: String,
    pub name: String,
    /// The library directory the album was found under.
    pub path: String,
    pub year: Option<i32>,
    pub genre: Option<String>,
    pub cover_art_path: Option<String>,
    pub song_count: i32,
    pub duration: i32,
    pub play_count: i32,
    /// RFC 3339 creation time.
    pub created_at: String,
    /// RFC 3339 time of the last change.
    pub updated_at: String,
}

impl Album {
    /// A new album row with a fresh id, no songs and no plays yet, stamped
    /// with the current time.
    pub fn new(
        artist_id: String,
        name: String,
        path: String,
        year: Option<i32>,
        genre: Option<String>,
        cover_art_path: Option<String>,
    ) -> (a: Self)
        ensures
            is_hyphenated_uuid(a.id@),
            a.artist_id == artist_id,
            a.name == name,
            a.path == path,
            a.year == year,
            a.genre == genre,
            a.cover_art_path == cover_art_path,
            a.song_count == 0 && a.duration == 0 && a.play_count == 0,
    {
        let now = now_rfc3339();
        let later = now.clone();
        Album {
            id: new_uuid_string(),
            artist_id,
            name,
            path,
            year,
            genre,
            cover_art_path,
            song_count: 0,
            duration: 0,
            play_count: 0,
            created_at: now,
            updated_at: later,
        }
    }
}

/// A song row as the library scan writes it.
#[derive(Debug)]
pub struct Song {
    pub id: String,
    pub album_id: String,
    pub artist_id: String,
    pub title: String,
    pub duration: i32,
    pub file_path: String,
    pub track_number: Option<i32>,
    pub disc_number: Option<i32>,
    pub bit_rate: Option<i32>,
    pub genre: Option<String>,
    pub year: Option<i32>,
    pub content_type: Option<String>,
    pub file_size: Option<i64>,
    pub lyrics: Option<String>,
    pub play_count: i32,
    /// RFC 3339 creation time.
    pub created_at: String,
    /// RFC 3339 time of the last change.
    pub updated_at: String,
}

impl Song {
    /// A new song row with a fresh id, never played, stamped with the current
    /// time.
    pub fn new(
        album_id: String,
        artist_id: String,
        title: String,
        duration: i32,
        file_path: String,
        track_number: Option<i32>,
        disc_number: Option<i32>,
        bit_rate: Option<i32>,
        genre: Option<String>,
        year: Option<i32>,
        content_type: Option<String>,
        file_size: Option<i64>,
        lyrics: Option<String>,
    ) -> (s: Self)
        ensures
            is_hyphenated_uuid(s.id@),
            s.album_id == album_id,
            s.artist_id == artist_id,
            s.title == title,
            s.duration == duration,
            s.file_path == file_path,
            s.track_number == track_number,
            s.disc_number == disc_number,
            s.bit_rate == bit_rate,
            s.genre == genre,
            s.year == year,
            s.content_type == content_type,
            s.file_size == file_size,
            s.lyrics == lyrics,
            s.play_count == 0,
    {
        let now = now_rfc3339();
        let later = now.clone();
        Song {
            id: new_uuid_string(),
            album_id,
            artist_id,
            title,
            duration,
            file_path,
            track_number,
            disc_number,
            bit_rate,
            genre,
            year,
            content_type,
            file_size,
            lyrics,
            play_count: 0,
            created_at: now,
            updated_at: later,
        }
    }
}

/// A user's play queue.
#[derive(Debug)]
pub struct PlayQueue {
    pub id: String,
    pub user_id: String,
    pub current_song_id: Option<String>,
    pub position: i64,
    /// RFC 3339 time of the last change.
    pub changed_at: String,
    /// The client that made the last change.
    pub changed_by: String,
}

/// One song of a play queue, at its place in the queue.
#[derive(Debug)]
pub struct PlayQueueSong {
    pub id: String,
    pub play_queue_id: String,
    pub song_id: String,
    pub song_order: i32,
}

impl PlayQueueSong {
    /// A queue entry with a fresh id.
    pub fn new(play_queue_id: String, song_id: String, song_order: i32) -> (e: Self)
        ensures
            is_hyphenated_uuid(e.id@),
            e.play_queue_id == play_queue_id,
            e.song_id == song_id,
            e.song_order == song_order,
    {
        PlayQueueSong { id: new_uuid_string(), play_queue_id, song_id, song_order }
    }
}

} // verus!
