//! Song responses.

use vstd::prelude::*;
use crate::models::response::common::lemma_wrapped_items;
use crate::text::{contains_seq, starts_with, ends_with, bool_text, lemma_contains_grows, lemma_contains_right_part, lemma_starts_with_grows, lemma_starts_with_self, lemma_ends_with_right_part, int_decimal, opt_str_attr, opt_int_attr, opt_bool_attr, opt_i32, opt_u32, push_i64_decimal, push_opt_str_attr, push_opt_i32_attr, push_opt_u32_attr, push_opt_bool_attr};
use crate::models::response::common::{ToXml, xml_concat, push_all};
use crate::models::dto::{SongDto, SongDetailDto, ComplexSongDto};

verus! {

/// A song as sent to clients.
#[derive(Debug, Clone)]
pub struct Song {
    pub id: String,
    pub title: String,
    pub artist: String,
    pub album: String,
    pub genre: Option<String>,
    pub year: Option<i32>,
    pub duration: i32,
    pub bit_rate: Option<i32>,
    pub content_type: String,
    pub path: Option<String>,
    pub track_number: Option<i32>,
    pub disc_number: Option<i32>,
    pub cover_art: Option<String>,
    pub album_id: Option<String>,
    pub artist_id: Option<String>,
    pub size: Option<u32>,
    pub play_count: Option<i32>,
    pub user_rating: Option<i32>,
    pub is_starred: Option<bool>,
    pub suffix: Option<String>,
}

/// The content type of a song: the stored one, or `audio/mpeg` when none
/// is stored.
pub open spec fn content_type_or_default(c: Option<String>) -> Seq<char> {
    match c {
        Some(x) => x@,
        None => "audio/mpeg"@,
    }
}

/// `r` is the client form of the short song row `d`.
pub open spec fn song_from_dto(d: SongDto, r: Song) -> bool {
    &&& r.id == d.id
    &&& r.title == d.title
    &&& r.artist == d.artist
    &&& r.album == d.album
    &&& r.genre is None
    &&& r.year is None
    &&& r.duration == d.duration
    &&& r.bit_rate is None
    &&& r.content_type@ == content_type_or_default(d.content_type)
    &&& r.path is None
    &&& r.track_number is None
    &&& r.disc_number is None
    &&& r.cover_art == d.cover_art
    &&& r.album_id is None
    &&& r.artist_id is None
    &&& r.size is None
    &&& r.play_count is None
    &&& r.user_rating is None
    &&& r.is_starred is None
    &&& r.suffix is None
}

/// The fields that a detailed song row gives its client form.
pub open spec fn song_detail_fields(d: SongDetailDto, r: Song) -> bool {
    &&& r.id == d.id
    &&& r.title == d.title
    &&& r.artist == d.artist
    &&& r.album == d.album
    &&& r.genre == d.genre
    &&& r.year == d.year
    &&& r.duration == d.duration
    &&& r.bit_rate == d.bit_rate
    &&& r.content_type@ == content_type_or_default(d.content_type)
    &&& r.path == d.path
    &&& r.track_number == d.track_number
    &&& r.disc_number == d.disc_number
    &&& r.cover_art == d.cover_art
    &&& r.album_id == Some(d.album_id)
    &&& r.artist_id == Some(d.artist_id)
}

/// `r` is the client form of the detailed song row `d`.
pub open spec fn song_from_detail_dto(d: SongDetailDto, r: Song) -> bool {
    &&& song_detail_fields(d, r)
    &&& r.size is None
    &&& r.play_count is None
    &&& r.user_rating is None
    &&& r.is_starred is None
    &&& r.suffix is None
}

/// `r` is the client form of the song `d` with the user's rating and star.
pub open spec fn song_from_complex_dto(d: ComplexSongDto, r: Song) -> bool {
    &&& song_detail_fields(d.song, r)
    &&& r.size == d.song.file_size
    &&& r.play_count == d.song.play_count
    &&& r.user_rating == d.user_rating
    &&& r.is_starred == d.starred
    &&& r.suffix == d.suffix
}

/// The stored content type, or `audio/mpeg`.
fn content_type_or_mpeg(c: Option<String>) -> (r: String)
    ensures
        r@ == content_type_or_default(c),
{
    match c {
        Some(x) => x,
        None => String::from_str("audio/mpeg"),
    }
}

impl Song {
    /// Converts a short song row.
    pub fn from_dto(dto: SongDto) -> (r: Self)
        ensures
            song_from_dto(dto, r),
    {
        Song {
            id: dto.id,
            title: dto.title,
            artist: dto.artist,
            album: dto.album,
            genre: None,
            year: None,
            duration: dto.duration,
            bit_rate: None,
            content_type: content_type_or_mpeg(dto.content_type),
            path: None,
            track_number: None,
            disc_number: None,
            cover_art: dto.cover_art,
            album_id: None,
            artist_id: None,
            size: None,
            play_count: None,
            user_rating: None,
            is_starred: None,
            suffix: None,
        }
    }

    /// Converts a detailed song row.
    pub fn from_detail_dto(dto: SongDetailDto) -> (r: Self)
        ensures
            song_from_detail_dto(dto, r),
    {
        Song {
            id: dto.id,
            title: dto.title,
            artist: dto.artist,
            album: dto.album,
            genre: dto.genre,
            year: dto.year,
            duration: dto.duration,
            bit_rate: dto.bit_rate,
            content_type: content_type_or_mpeg(dto.content_type),
            path: dto.path,
            track_number: dto.track_number,
            disc_number: dto.disc_number,
            cover_art: dto.cover_art,
            album_id: Some(dto.album_id),
            artist_id: Some(dto.artist_id),
            size: None,
            play_count: None,
            user_rating: None,
            is_starred: None,
            suffix: None,
        }
    }

    /// Converts a song with the user's rating, star and file suffix.
    pub fn from_complex_dto(dto: ComplexSongDto) -> (r: Self)
        ensures
            song_from_complex_dto(dto, r),
    {
        let ComplexSongDto { song, user_rating, starred, suffix } = dto;
        Song {
            id: song.id,
            title: song.title,
            artist: song.artist,
            album: song.album,
            genre: song.genre,
            year: song.year,
            duration: song.duration,
            bit_rate: song.bit_rate,
            content_type: content_type_or_mpeg(song.content_type),
            path: song.path,
            track_number: song.track_number,
            disc_number: song.disc_number,
            cover_art: song.cover_art,
            album_id: Some(song.album_id),
            artist_id: Some(song.artist_id),
            size: song.file_size,
            play_count: song.play_count,
            user_rating,
            is_starred: starred,
            suffix,
        }
    }

    /// Converts each short song row, in order.
    pub fn from_dtos(dtos: Vec<SongDto>) -> (r: Vec<Self>)
        ensures
            r.len() == dtos.len(),
            forall|i: int| 0 <= i < dtos.len() ==> song_from_dto(#[trigger] dtos@[i], r@[i]),
    {
        let ghost src = dtos@;
        let mut r: Vec<Self> = Vec::new();
        for d in it: dtos.into_iter()
            invariant
                it.seq() == src,
                r.len() == it.index(),
                forall|i: int| 0 <= i < r.len() ==> song_from_dto(#[trigger] src[i], r@[i]),
        {
            r.push(Self::from_dto(d));
        }
        r
    }

    /// Converts each detailed song row, in order.
    pub fn from_detail_dtos(dtos: Vec<SongDetailDto>) -> (r: Vec<Self>)
        ensures
            r.len() == dtos.len(),
            forall|i: int| 0 <= i < dtos.len() ==> song_from_detail_dto(#[trigger] dtos@[i], r@[i]),
    {
        let ghost src = dtos@;
        let mut r: Vec<Self> = Vec::new();
        for d in it: dtos.into_iter()
            invariant
                it.seq() == src,
                r.len() == it.index(),
                forall|i: int| 0 <= i < r.len() ==> song_from_detail_dto(#[trigger] src[i], r@[i]),
        {
            r.push(Self::from_detail_dto(d));
        }
        r
    }
}

impl ToXml for Song {
    open spec fn xml_spec(&self) -> Seq<char> {
        "<song id=\""@
            + self.id@
            + "\" title=\""@
            + self.title@
            + "\" artist=\""@
            + self.artist@
            + "\" album=\""@
            + self.album@
            + "\" duration=\""@
            + int_decimal(self.duration as int)
            + "\" contentType=\""@
            + self.content_type@
            + "\""@
            + opt_str_attr(" genre=\""@, self.genre)
            + opt_int_attr(" year=\""@, opt_i32(self.year))
            + opt_int_attr(" bitRate=\""@, opt_i32(self.bit_rate))
            + opt_str_attr(" path=\""@, self.path)
            + opt_int_attr(" track=\""@, opt_i32(self.track_number))
            + opt_int_attr(" discNumber=\""@, opt_i32(self.disc_number))
            + opt_str_attr(" coverArt=\""@, self.cover_art)
            + opt_str_attr(" albumId=\""@, self.album_id)
            + opt_str_attr(" artistId=\""@, self.artist_id)
            + opt_int_attr(" size=\""@, opt_u32(self.size))
            + opt_str_attr(" suffix=\""@, self.suffix)
            + opt_int_attr(" userRating=\""@, opt_i32(self.user_rating))
            + opt_bool_attr(" isStarred=\""@, self.is_starred)
            + "/>"@
    }

    fn to_xml_element(&self) -> (r: String) {
        let mut r = String::new();
        r.append("<song id=\"");
        r.append(self.id.as_str());
        r.append("\" title=\"");
        r.append(self.title.as_str());
        r.append("\" artist=\"");
        r.append(self.artist.as_str());
        r.append("\" album=\"");
        r.append(self.album.as_str());
        r.append("\" duration=\"");
        push_i64_decimal(&mut r, self.duration as i64);
        r.append("\" contentType=\"");
        r.append(self.content_type.as_str());
        r.append("\"");
        push_opt_str_attr(&mut r, " genre=\"", &self.genre);
        push_opt_i32_attr(&mut r, " year=\"", self.year);
        push_opt_i32_attr(&mut r, " bitRate=\"", self.bit_rate);
        push_opt_str_attr(&mut r, " path=\"", &self.path);
        push_opt_i32_attr(&mut r, " track=\"", self.track_number);
        push_opt_i32_attr(&mut r, " discNumber=\"", self.disc_number);
        push_opt_str_attr(&mut r, " coverArt=\"", &self.cover_art);
        push_opt_str_attr(&mut r, " albumId=\"", &self.album_id);
        push_opt_str_attr(&mut r, " artistId=\"", &self.artist_id);
        push_opt_u32_attr(&mut r, " size=\"", self.size);
        push_opt_str_attr(&mut r, " suffix=\"", &self.suffix);
        push_opt_i32_attr(&mut r, " userRating=\"", self.user_rating);
        push_opt_bool_attr(&mut r, " isStarred=\"", self.is_starred);
        r.append("/>");
        assert(r@ =~= self.xml_spec());
        r
    }
}

/// A song's XML element opens with its id, title, artist, album, duration
/// and content type, in that order, closes with `/>`, and carries every
/// optional field that is present as its Subsonic attribute.
pub proof fn lemma_song_xml_carries_fields(s: Song)
    ensures
        starts_with(s.xml_spec(), "<song id=\""@ + s.id@ + "\" title=\""@ + s.title@ + "\" artist=\""@
            + s.artist@ + "\" album=\""@ + s.album@ + "\" duration=\""@ + int_decimal(s.duration as int)
            + "\" contentType=\""@ + s.content_type@ + "\""@),
        ends_with(s.xml_spec(), "/>"@),
        s.genre matches Some(g) ==> contains_seq(s.xml_spec(), " genre=\""@ + g@ + "\""@),
        s.year matches Some(y) ==> contains_seq(s.xml_spec(), " year=\""@ + int_decimal(y as int) + "\""@),
        s.bit_rate matches Some(b) ==> contains_seq(s.xml_spec(), " bitRate=\""@ + int_decimal(b as int) + "\""@),
        s.path matches Some(p) ==> contains_seq(s.xml_spec(), " path=\""@ + p@ + "\""@),
        s.track_number matches Some(t) ==> contains_seq(s.xml_spec(), " track=\""@ + int_decimal(t as int) + "\""@),
        s.disc_number matches Some(d) ==> contains_seq(s.xml_spec(), " discNumber=\""@ + int_decimal(d as int) + "\""@),
        s.cover_art matches Some(c) ==> contains_seq(s.xml_spec(), " coverArt=\""@ + c@ + "\""@),
        s.album_id matches Some(a) ==> contains_seq(s.xml_spec(), " albumId=\""@ + a@ + "\""@),
        s.artist_id matches Some(a) ==> contains_seq(s.xml_spec(), " artistId=\""@ + a@ + "\""@),
        s.size matches Some(z) ==> contains_seq(s.xml_spec(), " size=\""@ + int_decimal(z as int) + "\""@),
        s.suffix matches Some(x) ==> contains_seq(s.xml_spec(), " suffix=\""@ + x@ + "\""@),
        s.user_rating matches Some(r) ==> contains_seq(s.xml_spec(), " userRating=\""@ + int_decimal(r as int) + "\""@),
        s.is_starred matches Some(b) ==> contains_seq(s.xml_spec(), " isStarred=\""@ + bool_text(b) + "\""@),
{
    broadcast use lemma_contains_grows, lemma_contains_right_part, lemma_starts_with_grows,
        lemma_starts_with_self, lemma_ends_with_right_part;
}

/// The `randomSongs` wrapper.
#[derive(Debug, Clone)]
pub struct RandomSongsResponse {
    pub random_songs: RandomSongs,
}

/// A random selection of songs.
#[derive(Debug, Clone)]
pub struct RandomSongs {
    pub song: Vec<Song>,
}

/// A list of songs.
#[derive(Debug, Clone)]
pub struct Songs {
    pub songs: Vec<Song>,
}

/// The `topSongs` wrapper.
#[derive(Debug, Clone)]
pub struct TopSongsResponse {
    pub top_songs: TopSongs,
}

/// An artist's most played songs.
#[derive(Debug, Clone)]
pub struct TopSongs {
    pub song: Vec<Song>,
}

/// The `songsByGenre` wrapper.
#[derive(Debug, Clone)]
pub struct SongsByGenreResponse {
    pub songs_by_genre: SongsResponse,
}

/// Songs of one genre.
#[derive(Debug, Clone)]
pub struct SongsResponse {
    pub song: Vec<Song>,
}

/// A single song.
#[derive(Debug, Clone)]
pub struct SongResponse {
    pub song: Song,
}

impl ToXml for RandomSongsResponse {
    open spec fn xml_spec(&self) -> Seq<char> {
        self.random_songs.xml_spec()
    }

    fn to_xml_element(&self) -> (r: String) {
        self.random_songs.to_xml_element()
    }
}

impl ToXml for RandomSongs {
    open spec fn xml_spec(&self) -> Seq<char> {
        "<randomSongs>"@
            + xml_concat(self.song@)
            + "</randomSongs>"@
    }

    fn to_xml_element(&self) -> (r: String) {
        let mut r = String::new();
        r.append("<randomSongs>");
        push_all(&mut r, &self.song);
        r.append("</randomSongs>");
        assert(r@ =~= self.xml_spec());
        r
    }
}

impl ToXml for TopSongsResponse {
    open spec fn xml_spec(&self) -> Seq<char> {
        self.top_songs.xml_spec()
    }

    fn to_xml_element(&self) -> (r: String) {
        self.top_songs.to_xml_element()
    }
}

impl ToXml for TopSongs {
    open spec fn xml_spec(&self) -> Seq<char> {
        "<topSongs>"@
            + xml_concat(self.song@)
            + "</topSongs>"@
    }

    fn to_xml_element(&self) -> (r: String) {
        let mut r = String::new();
        r.append("<topSongs>");
        push_all(&mut r, &self.song);
        r.append("</topSongs>");
        assert(r@ =~= self.xml_spec());
        r
    }
}

impl ToXml for SongsByGenreResponse {
    open spec fn xml_spec(&self) -> Seq<char> {
        self.songs_by_genre.xml_spec()
    }

    fn to_xml_element(&self) -> (r: String) {
        self.songs_by_genre.to_xml_element()
    }
}

impl ToXml for SongsResponse {
    open spec fn xml_spec(&self) -> Seq<char> {
        "<songsByGenre>"@
            + xml_concat(self.song@)
            + "</songsByGenre>"@
    }

    fn to_xml_element(&self) -> (r: String) {
        let mut r = String::new();
        r.append("<songsByGenre>");
        push_all(&mut r, &self.song);
        r.append("</songsByGenre>");
        assert(r@ =~= self.xml_spec());
        r
    }
}

impl ToXml for SongResponse {
    open spec fn xml_spec(&self) -> Seq<char> {
        self.song.xml_spec()
    }

    fn to_xml_element(&self) -> (r: String) {
        self.song.to_xml_element()
    }
}

/// The song lists open and close with their own tags and hold every song.
pub proof fn lemma_song_lists_xml(r: RandomSongs, t: TopSongs, g: SongsResponse)
    ensures
        starts_with(r.xml_spec(), "<randomSongs>"@),
        ends_with(r.xml_spec(), "</randomSongs>"@),
        forall|i: int| 0 <= i < r.song.len() ==> contains_seq(r.xml_spec(), #[trigger] r.song@[i].xml_spec()),
        starts_with(t.xml_spec(), "<topSongs>"@),
        ends_with(t.xml_spec(), "</topSongs>"@),
        forall|i: int| 0 <= i < t.song.len() ==> contains_seq(t.xml_spec(), #[trigger] t.song@[i].xml_spec()),
        starts_with(g.xml_spec(), "<songsByGenre>"@),
        ends_with(g.xml_spec(), "</songsByGenre>"@),
        forall|i: int| 0 <= i < g.song.len() ==> contains_seq(g.xml_spec(), #[trigger] g.song@[i].xml_spec()),
{
    lemma_wrapped_items("<randomSongs>"@, r.song@, "</randomSongs>"@);
    lemma_wrapped_items("<topSongs>"@, t.song@, "</topSongs>"@);
    lemma_wrapped_items("<songsByGenre>"@, g.song@, "</songsByGenre>"@);
}

} // verus!
