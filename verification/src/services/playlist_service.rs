//! Playlist decisions: ownership, the update a change turns into, and the
//! positions new songs take.

use vstd::prelude::*;
use crate::error::AppError;
use crate::models::dto::SongDetailDto;
use crate::utils::sql_utils::{SqlValue, Statement, update_statement, update_sql_of, columns_of, values_of, count_char, all_plain, lemma_all_plain_concat, lemma_no_question_mark};
use crate::services::user_service::{col_if, val_if, text_of, bool_of, lemma_col_if_plain};

verus! {

/// A playlist without its songs.
#[derive(Debug)]
pub struct PlaylistInfo {
    pub id: String,
    pub name: String,
    pub owner_id: String,
    pub is_public: bool,
    pub song_count: i32,
    pub duration: i32,
}

/// A playlist with its songs in order.
#[derive(Debug)]
pub struct PlaylistDetailInfo {
    pub id: String,
    pub name: String,
    pub owner_id: String,
    pub is_public: bool,
    pub song_count: i32,
    pub duration: i32,
    pub songs: Vec<SongDetailDto>,
}

/// A request to create a playlist, possibly with its first songs.
#[derive(Debug)]
pub struct CreatePlaylistRequest {
    pub name: String,
    pub song_id: Option<Vec<String>>,
}

/// A request to change a playlist: its name, comment and visibility, songs
/// to append and positions to remove; absent parts stay as they are.
#[derive(Debug)]
pub struct UpdatePlaylistRequest {
    pub playlist_id: String,
    pub name: Option<String>,
    pub comment: Option<String>,
    pub public: Option<bool>,
    pub song_id_to_add: Option<Vec<String>>,
    pub song_index_to_remove: Option<Vec<i32>>,
}

/// Only a playlist's owner may change it: the outcome given the owner found
/// for the playlist (none when the playlist does not exist).
pub fn check_owner(owner: Option<String>, user_id: &str) -> (r: Result<(), AppError>)
    ensures
        r is Ok <==> (owner matches Some(o) && o@ == user_id@),
        owner is None ==> (r matches Err(AppError::NotFound(m)) && m@ == "Playlist"@),
        (owner matches Some(o) && o@ != user_id@) ==> (r matches Err(AppError::AccessDenied(m))
            && m@ == "Not playlist owner"@),
{
    match owner {
        Some(o) => {
            if o == String::from_str(user_id) {
                Ok(())
            } else {
                Err(AppError::access_denied("Not playlist owner"))
            }
        },
        None => Err(AppError::not_found("Playlist")),
    }
}

/// The columns a playlist change sets: name, comment, visibility, those
/// the request carries.
pub open spec fn playlist_update_columns(name: Option<String>, comment: Option<String>, public: Option<bool>) -> Seq<Seq<char>> {
    col_if(name is Some, "name"@) + col_if(comment is Some, "comment"@) + col_if(public is Some, "is_public"@)
}

/// The values of a playlist change, in the order of its columns.
pub open spec fn playlist_update_values(name: Option<String>, comment: Option<String>, public: Option<bool>) -> Seq<SqlValue> {
    val_if(name is Some, text_of(name)) + val_if(comment is Some, text_of(comment)) + val_if(public is Some, bool_of(public))
}

/// The names in a playlist update hold no `?`.
proof fn lemma_playlist_names_plain(name: bool, comment: bool, public: bool)
    ensures
        all_plain(col_if(name, "name"@) + col_if(comment, "comment"@) + col_if(public, "is_public"@)),
        count_char("playlists"@, '?') == 0,
        count_char("id"@, '?') == 0,
{
    reveal_strlit("name");
    reveal_strlit("comment");
    reveal_strlit("is_public");
    reveal_strlit("playlists");
    reveal_strlit("id");
    lemma_col_if_plain(name, "name"@);
    lemma_col_if_plain(comment, "comment"@);
    lemma_col_if_plain(public, "is_public"@);
    lemma_all_plain_concat(col_if(name, "name"@), col_if(comment, "comment"@));
    lemma_all_plain_concat(col_if(name, "name"@) + col_if(comment, "comment"@), col_if(public, "is_public"@));
    lemma_no_question_mark("playlists"@);
    lemma_no_question_mark("id"@);
}

/// The update of a playlist's name, comment and visibility, or `None` when
/// the request carries none of them. Its values are the carried ones, then
/// the playlist id.
pub fn playlist_update(
    playlist_id: &str,
    name: Option<String>,
    comment: Option<String>,
    public: Option<bool>,
) -> (r: Option<Statement>)
    ensures
        r is None <==> (name is None && comment is None && public is None),
        r matches Some(st) ==> st.sql@ == update_sql_of("playlists"@, playlist_update_columns(name, comment, public), "id"@)
            && st.values@.len() == playlist_update_values(name, comment, public).len() + 1
            && st.values@.take(playlist_update_values(name, comment, public).len() as int)
                == playlist_update_values(name, comment, public)
            && (st.values@.last() matches SqlValue::Text(k) && k@ == playlist_id@)
            && count_char(st.sql@, '?') == st.values.len(),
{
    let ghost (n0, c0, p0) = (name, comment, public);
    let mut fields: Vec<(&'static str, SqlValue)> = Vec::new();
    if let Some(n) = name {
        fields.push(("name", SqlValue::Text(n)));
    }
    let ghost f1 = fields@;
    assert(columns_of(f1) =~= col_if(n0 is Some, "name"@));
    assert(values_of(f1) =~= val_if(n0 is Some, text_of(n0)));
    if let Some(c) = comment {
        fields.push(("comment", SqlValue::Text(c)));
    }
    let ghost f2 = fields@;
    assert(columns_of(f2) =~= columns_of(f1) + col_if(c0 is Some, "comment"@));
    assert(values_of(f2) =~= values_of(f1) + val_if(c0 is Some, text_of(c0)));
    if let Some(p) = public {
        fields.push(("is_public", SqlValue::Bool(p)));
    }
    assert(columns_of(fields@) =~= columns_of(f2) + col_if(p0 is Some, "is_public"@));
    assert(values_of(fields@) =~= values_of(f2) + val_if(p0 is Some, bool_of(p0)));
    assert(columns_of(fields@) =~= playlist_update_columns(n0, c0, p0));
    proof {
        lemma_playlist_names_plain(n0 is Some, c0 is Some, p0 is Some);
    }
    assert(values_of(fields@) =~= playlist_update_values(n0, c0, p0));
    let r = update_statement("playlists", fields, "id", SqlValue::Text(String::from_str(playlist_id)));
    proof {
        if r is Some {
            let st = r->0;
            assert(st.values@.take(playlist_update_values(n0, c0, p0).len() as int)
                =~= playlist_update_values(n0, c0, p0));
        }
    }
    r
}

/// The positions of `n` songs appended to a playlist holding
/// `current_count`: consecutive, starting at `current_count`.
pub fn append_positions(current_count: i32, n: usize) -> (p: Vec<i32>)
    requires
        n == 0 || (n - 1 <= i32::MAX && current_count + (n - 1) <= i32::MAX),
    ensures
        p.len() == n,
        forall|k: int| 0 <= k < n ==> #[trigger] p@[k] == current_count + k,
{
    let mut p: Vec<i32> = Vec::new();
    let mut i: usize = 0;
    while i < n
        invariant
            i <= n,
            p.len() == i,
            n == 0 || (n - 1 <= i32::MAX && current_count + (n - 1) <= i32::MAX),
            forall|k: int| 0 <= k < i ==> #[trigger] p@[k] == current_count + k,
        decreases n - i,
    {
        let offset = i as i32;
        p.push(current_count + offset);
        i = i + 1;
    }
    p
}

/// Appended songs take distinct places after every place in use: no two
/// share a position, and each is at or after `current_count`.
pub proof fn lemma_append_positions_distinct(current_count: i32, p: Seq<i32>)
    requires
        forall|k: int| 0 <= k < p.len() ==> #[trigger] p[k] == current_count + k,
    ensures
        forall|j: int, k: int| 0 <= j < k < p.len() ==> p[j] < p[k],
        forall|k: int| 0 <= k < p.len() ==> current_count <= #[trigger] p[k],
{
}

/// A playlist's song count and total duration from its songs' count and
/// summed duration (none when it has no songs).
pub fn playlist_stats(count: i32, total_duration: Option<i32>) -> (r: (i32, i32))
    ensures
        r.0 == count,
        r.1 == (match total_duration { Some(d) => d, None => 0 }),
{
    let duration = match total_duration {
        Some(d) => d,
        None => 0,
    };
    (count, duration)
}

} // verus!
