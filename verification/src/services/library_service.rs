//! Library decisions: starring, ratings and what a scrobble updates.

use vstd::prelude::*;
use crate::error::AppError;
use crate::models::dto::{ArtistDto, AlbumDto, SongDto};

verus! {

/// What can be starred.
#[derive(Debug, Clone, Copy, PartialEq, Eq, Structural)]
pub enum StarItemType {
    Artist,
    Album,
    Song,
}

/// A user's starred artists, albums and songs.
#[derive(Debug)]
pub struct StarredItems {
    pub artists: Vec<ArtistDto>,
    pub albums: Vec<AlbumDto>,
    pub songs: Vec<SongDto>,
}

/// The column of the starred table that names an item of the kind.
pub open spec fn star_column(t: StarItemType) -> Seq<char> {
    match t {
        StarItemType::Artist => "artist_id"@,
        StarItemType::Album => "album_id"@,
        StarItemType::Song => "song_id"@,
    }
}

/// The statement starring an item (ignored when already starred); it binds
/// a fresh id, the user and the item.
pub open spec fn star_sql_of(t: StarItemType) -> Seq<char> {
    "INSERT OR IGNORE INTO starred (id, user_id, "@ + star_column(t)
        + ", created_at)\n                 VALUES (?, ?, ?, CURRENT_TIMESTAMP)"@
}

/// The statement removing a star; it binds the user and the item.
pub open spec fn unstar_sql_of(t: StarItemType) -> Seq<char> {
    "DELETE FROM starred WHERE user_id = ? AND "@ + star_column(t) + " = ?"@
}

/// The statement starring an item of the kind.
pub fn star_sql(t: StarItemType) -> (s: &'static str)
    ensures
        s@ == star_sql_of(t),
{
    proof {
        reveal_strlit("INSERT OR IGNORE INTO starred (id, user_id, ");
        reveal_strlit(", created_at)\n                 VALUES (?, ?, ?, CURRENT_TIMESTAMP)");
        reveal_strlit("artist_id");
        reveal_strlit("album_id");
        reveal_strlit("song_id");
    }
    match t {
        StarItemType::Artist => {
            proof { reveal_strlit("INSERT OR IGNORE INTO starred (id, user_id, artist_id, created_at)\n                 VALUES (?, ?, ?, CURRENT_TIMESTAMP)"); }
            "INSERT OR IGNORE INTO starred (id, user_id, artist_id, created_at)\n                 VALUES (?, ?, ?, CURRENT_TIMESTAMP)"
        },
        StarItemType::Album => {
            proof { reveal_strlit("INSERT OR IGNORE INTO starred (id, user_id, album_id, created_at)\n                 VALUES (?, ?, ?, CURRENT_TIMESTAMP)"); }
            "INSERT OR IGNORE INTO starred (id, user_id, album_id, created_at)\n                 VALUES (?, ?, ?, CURRENT_TIMESTAMP)"
        },
        StarItemType::Song => {
            proof { reveal_strlit("INSERT OR IGNORE INTO starred (id, user_id, song_id, created_at)\n                 VALUES (?, ?, ?, CURRENT_TIMESTAMP)"); }
            "INSERT OR IGNORE INTO starred (id, user_id, song_id, created_at)\n                 VALUES (?, ?, ?, CURRENT_TIMESTAMP)"
        },
    }
}

/// The statement removing a star from an item of the kind.
pub fn unstar_sql(t: StarItemType) -> (s: &'static str)
    ensures
        s@ == unstar_sql_of(t),
{
    proof {
        reveal_strlit("DELETE FROM starred WHERE user_id = ? AND ");
        reveal_strlit(" = ?");
        reveal_strlit("artist_id");
        reveal_strlit("album_id");
        reveal_strlit("song_id");
    }
    match t {
        StarItemType::Artist => {
            proof { reveal_strlit("DELETE FROM starred WHERE user_id = ? AND artist_id = ?"); }
            "DELETE FROM starred WHERE user_id = ? AND artist_id = ?"
        },
        StarItemType::Album => {
            proof { reveal_strlit("DELETE FROM starred WHERE user_id = ? AND album_id = ?"); }
            "DELETE FROM starred WHERE user_id = ? AND album_id = ?"
        },
        StarItemType::Song => {
            proof { reveal_strlit("DELETE FROM starred WHERE user_id = ? AND song_id = ?"); }
            "DELETE FROM starred WHERE user_id = ? AND song_id = ?"
        },
    }
}

/// Starring and unstarring an item of a kind address the same column, and
/// different kinds address different columns: removing a star never touches
/// the stars of another kind.
pub proof fn lemma_star_columns(t: StarItemType, u: StarItemType)
    ensures
        star_sql_of(t) == "INSERT OR IGNORE INTO starred (id, user_id, "@ + star_column(t)
            + ", created_at)\n                 VALUES (?, ?, ?, CURRENT_TIMESTAMP)"@,
        unstar_sql_of(t) == "DELETE FROM starred WHERE user_id = ? AND "@ + star_column(t) + " = ?"@,
        t != u ==> star_column(t) != star_column(u),
{
    reveal_strlit("artist_id");
    reveal_strlit("album_id");
    reveal_strlit("song_id");
    if t != u {
        assert("artist_id"@.len() != "album_id"@.len());
        assert("artist_id"@.len() != "song_id"@.len());
        assert("album_id"@[1] != "song_id"@[1]);
    }
}

/// A rating is valid from 1 to 5.
pub fn validate_rating(rating: i32) -> (r: Result<(), AppError>)
    ensures
        r is Ok <==> 1 <= rating <= 5,
        !(1 <= rating <= 5) ==> (r matches Err(AppError::ValidationError(m))
            && m@ == "Rating must be between 1 and 5"@),
{
    if !(1 <= rating && rating <= 5) {
        return Err(AppError::validation_error("Rating must be between 1 and 5"));
    }
    Ok(())
}

/// Where a scrobble stands.
#[derive(Debug, Clone, Copy, PartialEq, Eq, Structural)]
pub enum ScrobbleStage {
    /// Nothing written yet.
    Start,
    /// The play is recorded.
    Recorded,
    /// The song's play count is raised; its album is being looked up.
    SongCounted,
    /// Nothing is left to do.
    Done,
}

/// What a scrobble does next.
#[derive(Debug)]
pub enum ScrobbleAction {
    /// Record the play.
    InsertScrobble,
    /// Raise the song's play count, then look the song's album up.
    CountSongPlay,
    /// Raise the play count of this album.
    CountAlbumPlay(String),
    /// Commit.
    Finish,
}

/// The next step of a scrobble. A play is always recorded; a submission
/// also raises the song's play count and, when the song has an album (the
/// `album` found by the lookup), the album's.
pub fn scrobble_step(stage: ScrobbleStage, submission: bool, album: Option<String>) -> (r: (ScrobbleStage, ScrobbleAction))
    ensures
        stage == ScrobbleStage::Start ==> r.0 == ScrobbleStage::Recorded && r.1 is InsertScrobble,
        stage == ScrobbleStage::Recorded && submission ==> r.0 == ScrobbleStage::SongCounted && r.1 is CountSongPlay,
        stage == ScrobbleStage::Recorded && !submission ==> r.0 == ScrobbleStage::Done && r.1 is Finish,
        stage == ScrobbleStage::SongCounted ==> r.0 == ScrobbleStage::Done && (match album {
            Some(a) => r.1 == ScrobbleAction::CountAlbumPlay(a),
            None => r.1 is Finish,
        }),
        stage == ScrobbleStage::Done ==> r.0 == ScrobbleStage::Done && r.1 is Finish,
{
    match stage {
        ScrobbleStage::Start => (ScrobbleStage::Recorded, ScrobbleAction::InsertScrobble),
        ScrobbleStage::Recorded => {
            if submission {
                (ScrobbleStage::SongCounted, ScrobbleAction::CountSongPlay)
            } else {
                (ScrobbleStage::Done, ScrobbleAction::Finish)
            }
        },
        ScrobbleStage::SongCounted => match album {
            Some(a) => (ScrobbleStage::Done, ScrobbleAction::CountAlbumPlay(a)),
            None => (ScrobbleStage::Done, ScrobbleAction::Finish),
        },
        ScrobbleStage::Done => (ScrobbleStage::Done, ScrobbleAction::Finish),
    }
}

} // verus!
