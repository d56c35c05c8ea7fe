//! Songs joined with what the requesting user thinks of them.

use vstd::prelude::*;
use crate::error::AppError;
use crate::models::dto::{SongDetailDto, ComplexSongDto};
use crate::services::browsing_service::{song_suffix, suffix_of};
use crate::utils::sql_utils::{detail_sql, detail_sql_text, placeholders, placeholders_of, count_char, lemma_count_char_concat, lemma_no_question_mark, lemma_placeholders_count, lemma_detail_sql_plain};

verus! {

/// The user's rating of a song among the `(rating, song id)` rows found;
/// when a song has several, the last one counts.
pub open spec fn rating_lookup(ratings: Seq<(i32, String)>, id: Seq<char>) -> Option<i32>
    decreases ratings.len(),
{
    if ratings.len() == 0 {
        None
    } else if ratings.last().1@ == id {
        Some(ratings.last().0)
    } else {
        rating_lookup(ratings.drop_last(), id)
    }
}

/// A rating is found exactly when some row names the song, and then it is
/// the rating of the last row that names it.
pub proof fn lemma_rating_lookup_last_row(ratings: Seq<(i32, String)>, id: Seq<char>)
    ensures
        (rating_lookup(ratings, id) is None) <==> (forall|k: int| 0 <= k < ratings.len() ==> (#[trigger] ratings[k]).1@ != id),
        rating_lookup(ratings, id) is Some ==> exists|k: int|
            0 <= k < ratings.len()
            && (#[trigger] ratings[k]).1@ == id
            && rating_lookup(ratings, id) == Some(ratings[k].0)
            && forall|l: int| k < l < ratings.len() ==> (#[trigger] ratings[l]).1@ != id,
        forall|k: int| 0 <= k < ratings.len() && (#[trigger] ratings[k]).1@ == id
            && (forall|l: int| k < l < ratings.len() ==> (#[trigger] ratings[l]).1@ != id)
            ==> rating_lookup(ratings, id) == Some(ratings[k].0),
    decreases ratings.len(),
{
    if ratings.len() > 0 {
        let rest = ratings.drop_last();
        lemma_rating_lookup_last_row(rest, id);
        let n = ratings.len() - 1;
        assert(forall|k: int| 0 <= k < n ==> rest[k] == ratings[k]);
        if ratings[n].1@ == id {
            assert(ratings.last() == ratings[n]);
        } else {
            if rating_lookup(rest, id) is Some {
                let k = choose|k: int|
                    0 <= k < rest.len()
                    && (#[trigger] rest[k]).1@ == id
                    && rating_lookup(rest, id) == Some(rest[k].0)
                    && forall|l: int| k < l < rest.len() ==> (#[trigger] rest[l]).1@ != id;
                assert(ratings[k] == rest[k]);
                assert forall|l: int| k < l < ratings.len() implies (#[trigger] ratings[l]).1@ != id by {
                    if l < n {
                        assert(ratings[l] == rest[l]);
                    }
                }
            }
            assert forall|k: int| 0 <= k < ratings.len() && (#[trigger] ratings[k]).1@ == id
                && (forall|l: int| k < l < ratings.len() ==> (#[trigger] ratings[l]).1@ != id)
                implies rating_lookup(ratings, id) == Some(ratings[k].0) by {
                assert(k < n);
                assert(rest[k] == ratings[k]);
                assert forall|l: int| k < l < rest.len() implies (#[trigger] rest[l]).1@ != id by {
                    assert(rest[l] == ratings[l]);
                }
            }
        }
    }
}

/// Whether the song id is among the starred ones.
pub open spec fn starred_in(starred: Seq<String>, id: Seq<char>) -> bool {
    exists|k: int| 0 <= k < starred.len() && (#[trigger] starred[k])@ == id
}

/// A song is starred exactly when some starred id is its id; starring one
/// more id adds exactly that song.
pub proof fn lemma_starred_in_any_row(starred: Seq<String>, extra: String, id: Seq<char>)
    ensures
        starred_in(starred, id) <==> (exists|k: int| 0 <= k < starred.len() && (#[trigger] starred[k])@ == id),
        !starred_in(Seq::<String>::empty(), id),
        starred_in(starred.push(extra), id) == (starred_in(starred, id) || extra@ == id),
{
    let t = starred.push(extra);
    if starred_in(t, id) && extra@ != id {
        let k = choose|k: int| 0 <= k < t.len() && (#[trigger] t[k])@ == id;
        assert(k < starred.len());
        assert(t[k] == starred[k]);
    }
    if starred_in(starred, id) {
        let k = choose|k: int| 0 <= k < starred.len() && (#[trigger] starred[k])@ == id;
        assert(t[k] == starred[k]);
    }
    if extra@ == id {
        assert(t[starred.len() as int] == extra);
    }
}

/// `c` is `song` joined with the user's rating and star, and its suffix.
pub open spec fn enriched(song: SongDetailDto, ratings: Seq<(i32, String)>, starred: Seq<String>, c: ComplexSongDto) -> bool {
    &&& c.song == song
    &&& c.user_rating == rating_lookup(ratings, song.id@)
    &&& c.starred == (if starred_in(starred, song.id@) { Some(true) } else { None })
    &&& match c.suffix {
        Some(x) => suffix_of(song.path) == Some(x@),
        None => suffix_of(song.path) is None,
    }
}

/// The rating of a song among the rows found (see `rating_lookup`).
pub fn find_rating(ratings: &Vec<(i32, String)>, id: &String) -> (r: Option<i32>)
    ensures
        r == rating_lookup(ratings@, id@),
{
    let n = ratings.len();
    let mut found: Option<i32> = None;
    let mut i: usize = 0;
    assert(ratings@.take(0) =~= Seq::<(i32, String)>::empty());
    while i < n
        invariant
            n == ratings@.len(),
            i <= n,
            found == rating_lookup(ratings@.take(i as int), id@),
        decreases n - i,
    {
        assert(ratings@.take(i as int + 1).drop_last() =~= ratings@.take(i as int));
        if ratings[i].1 == *id {
            found = Some(ratings[i].0);
        }
        i = i + 1;
    }
    assert(ratings@.take(n as int) =~= ratings@);
    found
}

/// Whether the song id is among the starred ones.
pub fn is_starred(starred: &Vec<String>, id: &String) -> (b: bool)
    ensures
        b == starred_in(starred@, id@),
{
    let n = starred.len();
    let mut i: usize = 0;
    while i < n
        invariant
            n == starred@.len(),
            i <= n,
            forall|k: int| 0 <= k < i ==> (#[trigger] starred@[k])@ != id@,
        decreases n - i,
    {
        if starred[i] == *id {
            return true;
        }
        i = i + 1;
    }
    false
}

/// Joins each song, in order, with the user's rating (the last row for
/// it among `ratings`), its star (`Some(true)` when its id is among
/// `starred`) and its suffix.
pub fn enrich_songs(songs: Vec<SongDetailDto>, ratings: &Vec<(i32, String)>, starred: &Vec<String>) -> (r: Vec<ComplexSongDto>)
    ensures
        r.len() == songs.len(),
        forall|i: int| 0 <= i < songs.len() ==> enriched(songs@[i], ratings@, starred@, #[trigger] r@[i]),
{
    let ghost all = songs@;
    let n = songs.len();
    let mut rest = songs;
    let mut out: Vec<ComplexSongDto> = Vec::new();
    let mut i: usize = 0;
    while i < n
        invariant
            n == all.len(),
            i <= n,
            rest@ == all.skip(i as int),
            out.len() == i,
            forall|k: int| 0 <= k < i ==> enriched(all[k], ratings@, starred@, #[trigger] out@[k]),
        decreases n - i,
    {
        let song = rest.remove(0);
        assert(song == all[i as int]);
        assert(rest@ =~= all.skip(i as int + 1));
        let suffix = song_suffix(&song.path);
        let user_rating = find_rating(ratings, &song.id);
        let star = if is_starred(starred, &song.id) { Some(true) } else { None };
        out.push(ComplexSongDto { song, user_rating, starred: star, suffix });
        i = i + 1;
    }
    out
}

/// A single song joined as `enrich_songs` does, or `NotFound("Song")` when
/// no song was found.
pub fn complex_song(found: Option<SongDetailDto>, ratings: &Vec<(i32, String)>, starred: &Vec<String>) -> (r: Result<ComplexSongDto, AppError>)
    ensures
        (match found {
            Some(s) => r matches Ok(c) && enriched(s, ratings@, starred@, c),
            None => r matches Err(AppError::NotFound(m)) && m@ == "Song"@,
        }),
{
    match found {
        Some(song) => {
            let ghost s0 = song;
            let mut v = enrich_songs(vec![song], ratings, starred);
            assert(v@[0].song == s0);
            Ok(v.remove(0))
        },
        None => Err(AppError::not_found("Song")),
    }
}

/// The query for the songs with the given ids (one placeholder each).
pub open spec fn songs_by_ids_sql_of(n: nat) -> Seq<char> {
    detail_sql_text() + " WHERE s.id IN ("@ + placeholders_of(n) + ")"@
}

/// The query for the songs with `n` given ids.
pub fn songs_by_ids_sql(n: usize) -> (s: String)
    ensures
        s@ == songs_by_ids_sql_of(n as nat),
        count_char(s@, '?') == n,
{
    proof {
        reveal_strlit(" WHERE s.id IN (");
        reveal_strlit(")");
        lemma_detail_sql_plain();
        lemma_no_question_mark(" WHERE s.id IN ("@);
        lemma_no_question_mark(")"@);
        lemma_placeholders_count(n as nat);
        lemma_count_char_concat(detail_sql_text(), " WHERE s.id IN ("@, '?');
        lemma_count_char_concat(detail_sql_text() + " WHERE s.id IN ("@, placeholders_of(n as nat), '?');
        lemma_count_char_concat(detail_sql_text() + " WHERE s.id IN ("@ + placeholders_of(n as nat), ")"@, '?');
    }
    let mut q = detail_sql();
    q.append(" WHERE s.id IN (");
    let p = placeholders(n);
    q.append(p.as_str());
    q.append(")");
    q
}

/// A batch query binds the user, then one value per placeholder of its
/// list: its head holds the user's placeholder only.
proof fn lemma_batch_count(head: Seq<char>, n: nat)
    requires
        head == "SELECT rating, song_id FROM ratings WHERE user_id = ? AND song_id IN ("@
            || head == "SELECT song_id FROM starred WHERE user_id = ? AND song_id IN ("@,
    ensures
        count_char(head + placeholders_of(n) + ")"@, '?') == n + 1,
{
    reveal_strlit("SELECT rating, song_id FROM ratings WHERE user_id = ? AND song_id IN (");
    reveal_strlit("SELECT song_id FROM starred WHERE user_id = ? AND song_id IN (");
    reveal_strlit(")");
    reveal_strlit("?");
    let k = if head == "SELECT rating, song_id FROM ratings WHERE user_id = ? AND song_id IN ("@ { 52int } else { 44int };
    assert(head[k] == '?');
    let before = head.take(k);
    let after = head.skip(k + 1);
    assert(head =~= before + "?"@ + after);
    lemma_no_question_mark(before);
    lemma_no_question_mark(after);
    lemma_no_question_mark(")"@);
    assert("?"@.drop_last() =~= Seq::<char>::empty());
    assert("?"@.len() == 1 && "?"@.last() == '?');
    assert(count_char(Seq::<char>::empty(), '?') == 0);
    assert(count_char("?"@, '?') == 1);
    lemma_count_char_concat(before, "?"@, '?');
    lemma_count_char_concat(before + "?"@, after, '?');
    lemma_placeholders_count(n);
    lemma_count_char_concat(head, placeholders_of(n), '?');
    lemma_count_char_concat(head + placeholders_of(n), ")"@, '?');
    assert(count_char(head, '?') == 1);
}

/// The query for a user's ratings of `n` songs: the user, then one
/// placeholder per song.
pub open spec fn ratings_batch_sql_of(n: nat) -> Seq<char> {
    "SELECT rating, song_id FROM ratings WHERE user_id = ? AND song_id IN ("@ + placeholders_of(n) + ")"@
}

/// The query for a user's ratings of `n` songs.
pub fn ratings_batch_sql(n: usize) -> (s: String)
    ensures
        s@ == ratings_batch_sql_of(n as nat),
        count_char(s@, '?') == n + 1,
{
    proof {
        lemma_batch_count("SELECT rating, song_id FROM ratings WHERE user_id = ? AND song_id IN ("@, n as nat);
    }
    let mut q = String::from_str("SELECT rating, song_id FROM ratings WHERE user_id = ? AND song_id IN (");
    let p = placeholders(n);
    q.append(p.as_str());
    q.append(")");
    q
}

/// The query for which of `n` songs a user starred: the user, then one
/// placeholder per song.
pub open spec fn starred_batch_sql_of(n: nat) -> Seq<char> {
    "SELECT song_id FROM starred WHERE user_id = ? AND song_id IN ("@ + placeholders_of(n) + ")"@
}

/// The query for which of `n` songs a user starred.
pub fn starred_batch_sql(n: usize) -> (s: String)
    ensures
        s@ == starred_batch_sql_of(n as nat),
        count_char(s@, '?') == n + 1,
{
    proof {
        lemma_batch_count("SELECT song_id FROM starred WHERE user_id = ? AND song_id IN ("@, n as nat);
    }
    let mut q = String::from_str("SELECT song_id FROM starred WHERE user_id = ? AND song_id IN (");
    let p = placeholders(n);
    q.append(p.as_str());
    q.append(")");
    q
}

} // verus!
