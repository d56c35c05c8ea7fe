//! Browsing decisions: album list orderings, the random-song filter, what
//! an id names, and a song joined with what the user thinks of it.

use vstd::prelude::*;
use crate::error::AppError;
use crate::models::dto::{SongDetailDto, ComplexSongDto};
use crate::utils::image_utils::{lower_extension, lower_extension_of};
use crate::text::{ends_with, lemma_ends_with_right_part};
use crate::utils::sql_utils::{detail_sql, detail_sql_text, SqlValue, Statement, count_char, lemma_count_char_concat, lemma_no_question_mark, lemma_detail_sql_plain};

verus! {

/// How an album list is ordered (and, for two of them, filtered).
#[derive(Debug, Clone, Copy, PartialEq, Eq, Structural)]
pub enum AlbumListType {
    Random,
    Newest,
    Highest,
    Frequent,
    Recent,
    AlphabeticalByName,
    AlphabeticalByArtist,
    ByYear,
    ByGenre,
}

impl Default for AlbumListType {
    fn default() -> (t: Self)
        ensures
            t == AlbumListType::Newest,
    {
        AlbumListType::Newest
    }
}

/// The list type a request names; unknown names give `Newest`.
pub open spec fn album_list_type_of(s: Seq<char>) -> AlbumListType {
    if s == "random"@ {
        AlbumListType::Random
    } else if s == "newest"@ {
        AlbumListType::Newest
    } else if s == "highest"@ {
        AlbumListType::Highest
    } else if s == "frequent"@ {
        AlbumListType::Frequent
    } else if s == "recent"@ {
        AlbumListType::Recent
    } else if s == "alphabetical"@ || s == "alphabeticalByName"@ {
        AlbumListType::AlphabeticalByName
    } else if s == "alphabeticalByArtist"@ {
        AlbumListType::AlphabeticalByArtist
    } else if s == "byYear"@ {
        AlbumListType::ByYear
    } else if s == "byGenre"@ {
        AlbumListType::ByGenre
    } else {
        AlbumListType::Newest
    }
}

/// The `ORDER BY` of each list type.
pub open spec fn order_by_of(t: AlbumListType) -> Seq<char> {
    match t {
        AlbumListType::Random => "RANDOM()"@,
        AlbumListType::Newest => "a.created_at DESC"@,
        AlbumListType::Highest => "a.play_count DESC"@,
        AlbumListType::Frequent => "a.play_count DESC"@,
        AlbumListType::Recent => "a.updated_at DESC"@,
        AlbumListType::AlphabeticalByName => "a.name ASC"@,
        AlbumListType::AlphabeticalByArtist => "ar.name ASC, a.name ASC"@,
        AlbumListType::ByYear => "a.year DESC, a.name ASC"@,
        AlbumListType::ByGenre => "a.genre ASC, a.name ASC"@,
    }
}

/// The filter of the list types that need one.
pub open spec fn where_of(t: AlbumListType) -> Option<Seq<char>> {
    match t {
        AlbumListType::ByYear => Some("a.year IS NOT NULL"@),
        AlbumListType::ByGenre => Some("a.genre IS NOT NULL"@),
        _ => None,
    }
}

impl AlbumListType {
    /// The list type a name gives (see `album_list_type_of`).
    pub fn parse_name(s: &str) -> (t: Self)
        ensures
            t == album_list_type_of(s@),
    {
        let n = String::from_str(s);
        if n == String::from_str("random") {
            AlbumListType::Random
        } else if n == String::from_str("newest") {
            AlbumListType::Newest
        } else if n == String::from_str("highest") {
            AlbumListType::Highest
        } else if n == String::from_str("frequent") {
            AlbumListType::Frequent
        } else if n == String::from_str("recent") {
            AlbumListType::Recent
        } else if n == String::from_str("alphabetical") || n == String::from_str("alphabeticalByName") {
            AlbumListType::AlphabeticalByName
        } else if n == String::from_str("alphabeticalByArtist") {
            AlbumListType::AlphabeticalByArtist
        } else if n == String::from_str("byYear") {
            AlbumListType::ByYear
        } else if n == String::from_str("byGenre") {
            AlbumListType::ByGenre
        } else {
            AlbumListType::Newest
        }
    }

    /// The `ORDER BY` clause of the list.
    pub fn order_by_clause(&self) -> (s: &'static str)
        ensures
            s@ == order_by_of(*self),
    {
        match self {
            AlbumListType::Random => "RANDOM()",
            AlbumListType::Newest => "a.created_at DESC",
            AlbumListType::Highest => "a.play_count DESC",
            AlbumListType::Frequent => "a.play_count DESC",
            AlbumListType::Recent => "a.updated_at DESC",
            AlbumListType::AlphabeticalByName => "a.name ASC",
            AlbumListType::AlphabeticalByArtist => "ar.name ASC, a.name ASC",
            AlbumListType::ByYear => "a.year DESC, a.name ASC",
            AlbumListType::ByGenre => "a.genre ASC, a.name ASC",
        }
    }

    /// The filter of the list, for the types that need one.
    pub fn where_clause(&self) -> (w: Option<&'static str>)
        ensures
            match w {
                Some(c) => where_of(*self) == Some(c@),
                None => where_of(*self) is None,
            },
    {
        match self {
            AlbumListType::ByYear => Some("a.year IS NOT NULL"),
            AlbumListType::ByGenre => Some("a.genre IS NOT NULL"),
            _ => None,
        }
    }
}

impl std::str::FromStr for AlbumListType {
    type Err = String;

    /// Never fails: unknown names give `Newest` (see `parse_name`).
    fn from_str(s: &str) -> (r: Result<Self, String>)
        ensures
            r matches Ok(t) && t == album_list_type_of(s@),
    {
        Ok(AlbumListType::parse_name(s))
    }
}

/// The albums with their artist, as `AlbumDetailDto`.
pub open spec fn album_base_sql() -> Seq<char> {
    "SELECT a.id, a.name, ar.name as artist, a.artist_id, a.year, a.genre,
                    a.cover_art_path, a.song_count, a.duration, a.play_count
             FROM albums a
             JOIN artists ar ON a.artist_id = ar.id"@
}

/// The query of an album list page; it binds the page size and offset.
pub open spec fn album_list_sql_of(t: AlbumListType) -> Seq<char> {
    match where_of(t) {
        Some(w) => album_base_sql() + " WHERE "@ + w + " ORDER BY "@ + order_by_of(t) + " LIMIT ? OFFSET ?"@,
        None => album_base_sql() + " ORDER BY "@ + order_by_of(t) + " LIMIT ? OFFSET ?"@,
    }
}

/// How each album list is ordered: newest by creation time, recent by
/// last update, highest and frequent by play count, each greatest first;
/// the alphabetical lists by name ascending; by year newest year first and
/// by genre in genre order, each over the albums that have one; random in
/// random order. Every list then takes one page.
pub proof fn lemma_album_list_orderings()
    ensures
        ends_with(album_list_sql_of(AlbumListType::Random), " ORDER BY RANDOM() LIMIT ? OFFSET ?"@),
        ends_with(album_list_sql_of(AlbumListType::Newest), " ORDER BY a.created_at DESC LIMIT ? OFFSET ?"@),
        ends_with(album_list_sql_of(AlbumListType::Highest), " ORDER BY a.play_count DESC LIMIT ? OFFSET ?"@),
        ends_with(album_list_sql_of(AlbumListType::Frequent), " ORDER BY a.play_count DESC LIMIT ? OFFSET ?"@),
        ends_with(album_list_sql_of(AlbumListType::Recent), " ORDER BY a.updated_at DESC LIMIT ? OFFSET ?"@),
        ends_with(album_list_sql_of(AlbumListType::AlphabeticalByName), " ORDER BY a.name ASC LIMIT ? OFFSET ?"@),
        ends_with(album_list_sql_of(AlbumListType::AlphabeticalByArtist), " ORDER BY ar.name ASC, a.name ASC LIMIT ? OFFSET ?"@),
        ends_with(album_list_sql_of(AlbumListType::ByYear), " WHERE a.year IS NOT NULL ORDER BY a.year DESC, a.name ASC LIMIT ? OFFSET ?"@),
        ends_with(album_list_sql_of(AlbumListType::ByGenre), " WHERE a.genre IS NOT NULL ORDER BY a.genre ASC, a.name ASC LIMIT ? OFFSET ?"@),
{
    reveal_strlit(" ORDER BY ");
    reveal_strlit(" WHERE ");
    reveal_strlit(" LIMIT ? OFFSET ?");
    reveal_strlit("RANDOM()");
    reveal_strlit("a.created_at DESC");
    reveal_strlit("a.play_count DESC");
    reveal_strlit("a.updated_at DESC");
    reveal_strlit("a.name ASC");
    reveal_strlit("ar.name ASC, a.name ASC");
    reveal_strlit("a.year DESC, a.name ASC");
    reveal_strlit("a.genre ASC, a.name ASC");
    reveal_strlit("a.year IS NOT NULL");
    reveal_strlit("a.genre IS NOT NULL");
        reveal_strlit(" ORDER BY RANDOM() LIMIT ? OFFSET ?");
        reveal_strlit(" ORDER BY a.created_at DESC LIMIT ? OFFSET ?");
        reveal_strlit(" ORDER BY a.play_count DESC LIMIT ? OFFSET ?");
        reveal_strlit(" ORDER BY a.play_count DESC LIMIT ? OFFSET ?");
        reveal_strlit(" ORDER BY a.updated_at DESC LIMIT ? OFFSET ?");
        reveal_strlit(" ORDER BY a.name ASC LIMIT ? OFFSET ?");
        reveal_strlit(" ORDER BY ar.name ASC, a.name ASC LIMIT ? OFFSET ?");
        reveal_strlit(" WHERE a.year IS NOT NULL ORDER BY a.year DESC, a.name ASC LIMIT ? OFFSET ?");
        reveal_strlit(" WHERE a.genre IS NOT NULL ORDER BY a.genre ASC, a.name ASC LIMIT ? OFFSET ?");
    lemma_album_list_ends(AlbumListType::Random);
    assert(" ORDER BY "@ + "RANDOM()"@ + " LIMIT ? OFFSET ?"@ =~= " ORDER BY RANDOM() LIMIT ? OFFSET ?"@);
    lemma_album_list_ends(AlbumListType::Newest);
    assert(" ORDER BY "@ + "a.created_at DESC"@ + " LIMIT ? OFFSET ?"@ =~= " ORDER BY a.created_at DESC LIMIT ? OFFSET ?"@);
    lemma_album_list_ends(AlbumListType::Highest);
    assert(" ORDER BY "@ + "a.play_count DESC"@ + " LIMIT ? OFFSET ?"@ =~= " ORDER BY a.play_count DESC LIMIT ? OFFSET ?"@);
    lemma_album_list_ends(AlbumListType::Frequent);
    assert(" ORDER BY "@ + "a.play_count DESC"@ + " LIMIT ? OFFSET ?"@ =~= " ORDER BY a.play_count DESC LIMIT ? OFFSET ?"@);
    lemma_album_list_ends(AlbumListType::Recent);
    assert(" ORDER BY "@ + "a.updated_at DESC"@ + " LIMIT ? OFFSET ?"@ =~= " ORDER BY a.updated_at DESC LIMIT ? OFFSET ?"@);
    lemma_album_list_ends(AlbumListType::AlphabeticalByName);
    assert(" ORDER BY "@ + "a.name ASC"@ + " LIMIT ? OFFSET ?"@ =~= " ORDER BY a.name ASC LIMIT ? OFFSET ?"@);
    lemma_album_list_ends(AlbumListType::AlphabeticalByArtist);
    assert(" ORDER BY "@ + "ar.name ASC, a.name ASC"@ + " LIMIT ? OFFSET ?"@ =~= " ORDER BY ar.name ASC, a.name ASC LIMIT ? OFFSET ?"@);
    lemma_album_list_ends(AlbumListType::ByYear);
    assert(" WHERE "@ + "a.year IS NOT NULL"@ + " ORDER BY "@ + "a.year DESC, a.name ASC"@ + " LIMIT ? OFFSET ?"@ =~= " WHERE a.year IS NOT NULL ORDER BY a.year DESC, a.name ASC LIMIT ? OFFSET ?"@);
    lemma_album_list_ends(AlbumListType::ByGenre);
    assert(" WHERE "@ + "a.genre IS NOT NULL"@ + " ORDER BY "@ + "a.genre ASC, a.name ASC"@ + " LIMIT ? OFFSET ?"@ =~= " WHERE a.genre IS NOT NULL ORDER BY a.genre ASC, a.name ASC LIMIT ? OFFSET ?"@);
}

/// The tail of an album list query, after the shared select.
proof fn lemma_album_list_ends(t: AlbumListType)
    ensures
        ends_with(album_list_sql_of(t), match where_of(t) {
            Some(w) => " WHERE "@ + w + " ORDER BY "@ + order_by_of(t) + " LIMIT ? OFFSET ?"@,
            None => " ORDER BY "@ + order_by_of(t) + " LIMIT ? OFFSET ?"@,
        }),
{
    broadcast use lemma_ends_with_right_part;
    let b = album_base_sql();
    let lim = " LIMIT ? OFFSET ?"@;
    let ob = " ORDER BY "@ + order_by_of(t);
    match where_of(t) {
        Some(w) => {
            let tail = " WHERE "@ + w + " ORDER BY "@ + order_by_of(t) + lim;
            assert(album_list_sql_of(t) =~= b + tail);
        },
        None => {
            let tail = " ORDER BY "@ + order_by_of(t) + lim;
            assert(album_list_sql_of(t) =~= b + tail);
        },
    }
}

/// The list each request name asks for: `alphabetical` and
/// `alphabeticalByName` both list by album name, and a name that is not a
/// list type gives the newest albums.
pub proof fn lemma_album_list_names(s: Seq<char>)
    ensures
        album_list_type_of("random"@) == AlbumListType::Random,
        album_list_type_of("newest"@) == AlbumListType::Newest,
        album_list_type_of("highest"@) == AlbumListType::Highest,
        album_list_type_of("frequent"@) == AlbumListType::Frequent,
        album_list_type_of("recent"@) == AlbumListType::Recent,
        album_list_type_of("alphabetical"@) == AlbumListType::AlphabeticalByName,
        album_list_type_of("alphabeticalByName"@) == AlbumListType::AlphabeticalByName,
        album_list_type_of("alphabeticalByArtist"@) == AlbumListType::AlphabeticalByArtist,
        album_list_type_of("byYear"@) == AlbumListType::ByYear,
        album_list_type_of("byGenre"@) == AlbumListType::ByGenre,
        s != "random"@ && s != "highest"@ && s != "frequent"@ && s != "recent"@ && s != "alphabetical"@
            && s != "alphabeticalByName"@ && s != "alphabeticalByArtist"@ && s != "byYear"@ && s != "byGenre"@
            ==> album_list_type_of(s) == AlbumListType::Newest,
{
    reveal_strlit("random");
    reveal_strlit("newest");
    reveal_strlit("highest");
    reveal_strlit("frequent");
    reveal_strlit("recent");
    reveal_strlit("alphabetical");
    reveal_strlit("alphabeticalByName");
    reveal_strlit("alphabeticalByArtist");
    reveal_strlit("byYear");
    reveal_strlit("byGenre");
    assert("newest"@ != "random"@) by { assert("newest"@[0] != "random"@[0]); }
    assert("highest"@ != "random"@) by { assert("highest"@.len() != "random"@.len()); }
    assert("highest"@ != "newest"@) by { assert("highest"@.len() != "newest"@.len()); }
    assert("frequent"@ != "random"@) by { assert("frequent"@.len() != "random"@.len()); }
    assert("frequent"@ != "newest"@) by { assert("frequent"@.len() != "newest"@.len()); }
    assert("frequent"@ != "highest"@) by { assert("frequent"@.len() != "highest"@.len()); }
    assert("recent"@ != "random"@) by { assert("recent"@[1] != "random"@[1]); }
    assert("recent"@ != "newest"@) by { assert("recent"@[0] != "newest"@[0]); }
    assert("recent"@ != "highest"@) by { assert("recent"@.len() != "highest"@.len()); }
    assert("recent"@ != "frequent"@) by { assert("recent"@.len() != "frequent"@.len()); }
    assert("alphabetical"@ != "random"@) by { assert("alphabetical"@.len() != "random"@.len()); }
    assert("alphabetical"@ != "newest"@) by { assert("alphabetical"@.len() != "newest"@.len()); }
    assert("alphabetical"@ != "highest"@) by { assert("alphabetical"@.len() != "highest"@.len()); }
    assert("alphabetical"@ != "frequent"@) by { assert("alphabetical"@.len() != "frequent"@.len()); }
    assert("alphabetical"@ != "recent"@) by { assert("alphabetical"@.len() != "recent"@.len()); }
    assert("alphabeticalByName"@ != "random"@) by { assert("alphabeticalByName"@.len() != "random"@.len()); }
    assert("alphabeticalByName"@ != "newest"@) by { assert("alphabeticalByName"@.len() != "newest"@.len()); }
    assert("alphabeticalByName"@ != "highest"@) by { assert("alphabeticalByName"@.len() != "highest"@.len()); }
    assert("alphabeticalByName"@ != "frequent"@) by { assert("alphabeticalByName"@.len() != "frequent"@.len()); }
    assert("alphabeticalByName"@ != "recent"@) by { assert("alphabeticalByName"@.len() != "recent"@.len()); }
    assert("alphabeticalByName"@ != "alphabetical"@) by { assert("alphabeticalByName"@.len() != "alphabetical"@.len()); }
    assert("alphabeticalByArtist"@ != "random"@) by { assert("alphabeticalByArtist"@.len() != "random"@.len()); }
    assert("alphabeticalByArtist"@ != "newest"@) by { assert("alphabeticalByArtist"@.len() != "newest"@.len()); }
    assert("alphabeticalByArtist"@ != "highest"@) by { assert("alphabeticalByArtist"@.len() != "highest"@.len()); }
    assert("alphabeticalByArtist"@ != "frequent"@) by { assert("alphabeticalByArtist"@.len() != "frequent"@.len()); }
    assert("alphabeticalByArtist"@ != "recent"@) by { assert("alphabeticalByArtist"@.len() != "recent"@.len()); }
    assert("alphabeticalByArtist"@ != "alphabetical"@) by { assert("alphabeticalByArtist"@.len() != "alphabetical"@.len()); }
    assert("alphabeticalByArtist"@ != "alphabeticalByName"@) by { assert("alphabeticalByArtist"@.len() != "alphabeticalByName"@.len()); }
    assert("byYear"@ != "random"@) by { assert("byYear"@[0] != "random"@[0]); }
    assert("byYear"@ != "newest"@) by { assert("byYear"@[0] != "newest"@[0]); }
    assert("byYear"@ != "highest"@) by { assert("byYear"@.len() != "highest"@.len()); }
    assert("byYear"@ != "frequent"@) by { assert("byYear"@.len() != "frequent"@.len()); }
    assert("byYear"@ != "recent"@) by { assert("byYear"@[0] != "recent"@[0]); }
    assert("byYear"@ != "alphabetical"@) by { assert("byYear"@.len() != "alphabetical"@.len()); }
    assert("byYear"@ != "alphabeticalByName"@) by { assert("byYear"@.len() != "alphabeticalByName"@.len()); }
    assert("byYear"@ != "alphabeticalByArtist"@) by { assert("byYear"@.len() != "alphabeticalByArtist"@.len()); }
    assert("byGenre"@ != "random"@) by { assert("byGenre"@.len() != "random"@.len()); }
    assert("byGenre"@ != "newest"@) by { assert("byGenre"@.len() != "newest"@.len()); }
    assert("byGenre"@ != "highest"@) by { assert("byGenre"@[0] != "highest"@[0]); }
    assert("byGenre"@ != "frequent"@) by { assert("byGenre"@.len() != "frequent"@.len()); }
    assert("byGenre"@ != "recent"@) by { assert("byGenre"@.len() != "recent"@.len()); }
    assert("byGenre"@ != "alphabetical"@) by { assert("byGenre"@.len() != "alphabetical"@.len()); }
    assert("byGenre"@ != "alphabeticalByName"@) by { assert("byGenre"@.len() != "alphabeticalByName"@.len()); }
    assert("byGenre"@ != "alphabeticalByArtist"@) by { assert("byGenre"@.len() != "alphabeticalByArtist"@.len()); }
    assert("byGenre"@ != "byYear"@) by { assert("byGenre"@.len() != "byYear"@.len()); }
}

/// The query of an album list page of the given type.
pub fn album_list_sql(t: AlbumListType) -> (s: String)
    ensures
        s@ == album_list_sql_of(t),
{
    let mut q = String::from_str(
        "SELECT a.id, a.name, ar.name as artist, a.artist_id, a.year, a.genre,
                    a.cover_art_path, a.song_count, a.duration, a.play_count
             FROM albums a
             JOIN artists ar ON a.artist_id = ar.id",
    );
    if let Some(w) = t.where_clause() {
        q.append(" WHERE ");
        q.append(w);
    }
    q.append(" ORDER BY ");
    q.append(t.order_by_clause());
    q.append(" LIMIT ? OFFSET ?");
    q
}

/// The filter of a random-song request: always true, narrowed by the genre
/// and the year bounds the request carries, joined by `AND`. Each filter
/// value is a placeholder.
pub open spec fn random_conditions_of(genre: bool, from_year: bool, to_year: bool) -> Seq<char> {
    "1=1"@
        + (if genre { " AND al.genre = ?"@ } else { Seq::empty() })
        + (if from_year { " AND al.year >= ?"@ } else { Seq::empty() })
        + (if to_year { " AND al.year <= ?"@ } else { Seq::empty() })
}

/// The query for random songs with the given filters.
pub open spec fn random_songs_sql_of(genre: bool, from_year: bool, to_year: bool) -> Seq<char> {
    detail_sql_text() + " WHERE "@ + random_conditions_of(genre, from_year, to_year)
        + "\n             ORDER BY RANDOM()\n             LIMIT ?"@
}

/// The values a random-song query binds, in placeholder order: the genre,
/// the year bounds (those given), then the number of songs.
pub open spec fn random_songs_values_of(size: i32, genre: Option<Seq<char>>, from_year: Option<i32>, to_year: Option<i32>, v: Seq<SqlValue>) -> bool {
    let g = if genre is Some { 1int } else { 0 };
    let f = if from_year is Some { 1int } else { 0 };
    let t = if to_year is Some { 1int } else { 0 };
    &&& v.len() == g + f + t + 1
    &&& (genre matches Some(x) ==> (v[0] matches SqlValue::Text(y) && y@ == x))
    &&& (from_year matches Some(y) ==> v[g] == SqlValue::Int(y as i64))
    &&& (to_year matches Some(y) ==> v[g + f] == SqlValue::Int(y as i64))
    &&& v[g + f + t] == SqlValue::Int(size as i64)
}

/// The query for `size` random songs, filtered by genre and years when
/// given. The genre and years are bound as values, never written into the
/// query text; the statement binds exactly as many values as it has
/// placeholders.
pub fn random_songs_sql(size: i32, genre: Option<&str>, from_year: Option<i32>, to_year: Option<i32>) -> (st: Statement)
    ensures
        st.sql@ == random_songs_sql_of(genre is Some, from_year is Some, to_year is Some),
        random_songs_values_of(size, match genre { Some(g) => Some(g@), None => None }, from_year, to_year, st.values@),
        count_char(st.sql@, '?') == st.values.len(),
{
    let mut q = detail_sql();
    q.append(" WHERE ");
    let ghost head = q@;
    q.append("1=1");
    let mut values: Vec<SqlValue> = Vec::new();
    if let Some(g) = genre {
        q.append(" AND al.genre = ?");
        values.push(SqlValue::Text(String::from_str(g)));
    }
    let ghost after_genre = q@;
    assert(after_genre =~= head + "1=1"@ + (if genre is Some { " AND al.genre = ?"@ } else { Seq::empty() }));
    if let Some(y) = from_year {
        q.append(" AND al.year >= ?");
        values.push(SqlValue::Int(y as i64));
    }
    let ghost after_from = q@;
    assert(after_from =~= after_genre + (if from_year is Some { " AND al.year >= ?"@ } else { Seq::empty() }));
    if let Some(y) = to_year {
        q.append(" AND al.year <= ?");
        values.push(SqlValue::Int(y as i64));
    }
    assert(q@ =~= after_from + (if to_year is Some { " AND al.year <= ?"@ } else { Seq::empty() }));
    q.append("\n             ORDER BY RANDOM()\n             LIMIT ?");
    values.push(SqlValue::Int(size as i64));
    proof {
        lemma_random_sql_count(genre is Some, from_year is Some, to_year is Some);
        assert(q@ =~= random_songs_sql_of(genre is Some, from_year is Some, to_year is Some));
        assert(values.len() == (if genre is Some { 1int } else { 0 }) + (if from_year is Some { 1int } else { 0 })
            + (if to_year is Some { 1int } else { 0 }) + 1);
    }
    Statement { sql: q, values }
}

/// A random-song query has one placeholder per filter given, plus one for
/// the number of songs.
proof fn lemma_random_sql_count(genre: bool, from_year: bool, to_year: bool)
    ensures
        count_char(random_songs_sql_of(genre, from_year, to_year), '?')
            == (if genre { 1int } else { 0 }) + (if from_year { 1int } else { 0 }) + (if to_year { 1int } else { 0 }) + 1,
{
    reveal_strlit(" WHERE ");
    reveal_strlit("1=1");
    reveal_strlit(" AND al.genre = ?");
    reveal_strlit(" AND al.year >= ?");
    reveal_strlit(" AND al.year <= ?");
    reveal_strlit("\n             ORDER BY RANDOM()\n             LIMIT ?");
    lemma_detail_sql_plain();
    lemma_no_question_mark(" WHERE "@);
    lemma_no_question_mark("1=1"@);
    lemma_one_question_mark(" AND al.genre = ?"@);
    lemma_one_question_mark(" AND al.year >= ?"@);
    lemma_one_question_mark(" AND al.year <= ?"@);
    lemma_one_question_mark("\n             ORDER BY RANDOM()\n             LIMIT ?"@);
    let e = Seq::<char>::empty();
    assert(count_char(e, '?') == 0);
    let gs = if genre { " AND al.genre = ?"@ } else { e };
    let fs = if from_year { " AND al.year >= ?"@ } else { e };
    let ts = if to_year { " AND al.year <= ?"@ } else { e };
    lemma_count_char_concat("1=1"@, gs, '?');
    lemma_count_char_concat("1=1"@ + gs, fs, '?');
    lemma_count_char_concat("1=1"@ + gs + fs, ts, '?');
    let c = random_conditions_of(genre, from_year, to_year);
    assert(c == "1=1"@ + gs + fs + ts);
    lemma_count_char_concat(detail_sql_text(), " WHERE "@, '?');
    lemma_count_char_concat(detail_sql_text() + " WHERE "@, c, '?');
    lemma_count_char_concat(detail_sql_text() + " WHERE "@ + c, "\n             ORDER BY RANDOM()\n             LIMIT ?"@, '?');
}

/// A text whose only `?` is its last character counts one.
proof fn lemma_one_question_mark(s: Seq<char>)
    requires
        s.len() > 0,
        s.last() == '?',
        forall|i: int| 0 <= i < s.len() - 1 ==> s[i] != '?',
    ensures
        count_char(s, '?') == 1,
{
    lemma_no_question_mark(s.drop_last());
}

/// What an id names: a song, an album or an artist, looked for in that
/// order.
#[derive(Debug)]
pub enum IdType {
    Song(String),
    Album(String),
    Artist(String),
}

/// The kind of an id given which tables hold it; the first match wins, and
/// an id in none of them is not found.
pub fn classify_id(id: &str, in_songs: bool, in_albums: bool, in_artists: bool) -> (r: Result<IdType, AppError>)
    ensures
        in_songs ==> (r matches Ok(IdType::Song(s)) && s@ == id@),
        !in_songs && in_albums ==> (r matches Ok(IdType::Album(s)) && s@ == id@),
        !in_songs && !in_albums && in_artists ==> (r matches Ok(IdType::Artist(s)) && s@ == id@),
        !in_songs && !in_albums && !in_artists ==> (r matches Err(AppError::NotFound(m)) && m@ == "Song/Album/Artist"@),
{
    if in_songs {
        Ok(IdType::Song(String::from_str(id)))
    } else if in_albums {
        Ok(IdType::Album(String::from_str(id)))
    } else if in_artists {
        Ok(IdType::Artist(String::from_str(id)))
    } else {
        Err(AppError::not_found("Song/Album/Artist"))
    }
}

/// The row found, or `NotFound` naming what was looked for.
pub fn found_or<T>(found: Option<T>, what: &str) -> (r: Result<T, AppError>)
    ensures
        (match found {
            Some(x) => r matches Ok(y) && y == x,
            None => r matches Err(AppError::NotFound(m)) && m@ == what@,
        }),
{
    match found {
        Some(x) => Ok(x),
        None => Err(AppError::not_found(what)),
    }
}

/// A song's suffix: its file's lowercase extension, when it has a file.
pub open spec fn suffix_of(path: Option<String>) -> Option<Seq<char>> {
    match path {
        Some(p) => Some(lower_extension_of(p@)),
        None => None,
    }
}

/// The suffix of a song's file (see `suffix_of`).
pub fn song_suffix(path: &Option<String>) -> (r: Option<String>)
    ensures
        match r {
            Some(s) => suffix_of(*path) == Some(s@),
            None => suffix_of(*path) is None,
        },
{
    match path {
        Some(p) => Some(lower_extension(p.as_str())),
        None => None,
    }
}

/// A song with the user's rating and star: starred is `Some` exactly when
/// a star row was found, and then says whether it is this song's.
pub fn song_with_user_data(song: SongDetailDto, rating: Option<i32>, starred: Option<String>) -> (c: ComplexSongDto)
    ensures
        c.song == song,
        c.user_rating == rating,
        c.starred == (match starred { Some(s) => Some(s@ == song.id@), None => None }),
        match c.suffix {
            Some(x) => suffix_of(song.path) == Some(x@),
            None => suffix_of(song.path) is None,
        },
{
    let suffix = song_suffix(&song.path);
    let starred = match starred {
        Some(s) => Some(s == song.id),
        None => None,
    };
    ComplexSongDto { song, user_rating: rating, starred, suffix }
}

} // verus!
