//! Album responses.

use vstd::prelude::*;
use crate::text::{contains_seq, starts_with, ends_with};
use crate::models::response::common::{lemma_wrapped_items, lemma_xml_concat_has_items};
use crate::text::{int_decimal, opt_str_attr, opt_int_attr, opt_i32, push_i64_decimal, push_opt_str_attr, push_opt_i32_attr};
use crate::models::response::common::{ToXml, xml_concat, push_all};
use crate::models::response::song::Song;
use crate::models::dto::{AlbumDto, AlbumDetailDto};

verus! {

/// An album in a list.
#[derive(Debug, Clone)]
pub struct AlbumResponse {
    pub id: String,
    pub name: String,
    pub artist: String,
    pub artist_id: Option<String>,
    pub cover_art: Option<String>,
    pub song_count: Option<i32>,
    pub created: Option<String>,
    pub duration: Option<i32>,
    pub play_count: Option<i32>,
    pub year: Option<i32>,
    pub genre: Option<String>,
}

/// `r` is the list form of the short album row `d`.
pub open spec fn album_from_dto(d: AlbumDto, r: AlbumResponse) -> bool {
    &&& r.id == d.id
    &&& r.name == d.name
    &&& r.artist == d.artist
    &&& r.artist_id is None
    &&& r.cover_art is None
    &&& r.song_count == Some(d.song_count)
    &&& r.created is None
    &&& r.duration is None
    &&& r.play_count is None
    &&& r.year == d.year
    &&& r.genre is None
}

/// `r` is the list form of the detailed album row `d`.
pub open spec fn album_from_detail_dto(d: AlbumDetailDto, r: AlbumResponse) -> bool {
    &&& r.id == d.id
    &&& r.name == d.name
    &&& r.artist == d.artist
    &&& r.artist_id == Some(d.artist_id)
    &&& r.cover_art == d.cover_art_path
    &&& r.song_count == Some(d.song_count)
    &&& r.created is None
    &&& r.duration == Some(d.duration)
    &&& r.play_count == Some(d.play_count)
    &&& r.year == d.year
    &&& r.genre == d.genre
}

impl From<AlbumDto> for AlbumResponse {
    fn from(dto: AlbumDto) -> (r: Self) {
        AlbumResponse::from_dto(dto)
    }
}

impl vstd::std_specs::convert::FromSpecImpl<AlbumDto> for AlbumResponse {
    open spec fn obeys_from_spec() -> bool {
        true
    }

    open spec fn from_spec(d: AlbumDto) -> Self {
        AlbumResponse {
            id: d.id,
            name: d.name,
            artist: d.artist,
            artist_id: None,
            cover_art: None,
            song_count: Some(d.song_count),
            created: None,
            duration: None,
            play_count: None,
            year: d.year,
            genre: None,
        }
    }
}

impl From<AlbumDetailDto> for AlbumResponse {
    fn from(dto: AlbumDetailDto) -> (r: Self) {
        AlbumResponse::from_detail_dto(dto)
    }
}

impl vstd::std_specs::convert::FromSpecImpl<AlbumDetailDto> for AlbumResponse {
    open spec fn obeys_from_spec() -> bool {
        true
    }

    open spec fn from_spec(d: AlbumDetailDto) -> Self {
        AlbumResponse {
            id: d.id,
            name: d.name,
            artist: d.artist,
            artist_id: Some(d.artist_id),
            cover_art: d.cover_art_path,
            song_count: Some(d.song_count),
            created: None,
            duration: Some(d.duration),
            play_count: Some(d.play_count),
            year: d.year,
            genre: d.genre,
        }
    }
}

impl AlbumResponse {
    /// Converts a short album row.
    pub fn from_dto(dto: AlbumDto) -> (r: Self)
        ensures
            album_from_dto(dto, r),
    {
        AlbumResponse {
            id: dto.id,
            name: dto.name,
            artist: dto.artist,
            artist_id: None,
            cover_art: None,
            song_count: Some(dto.song_count),
            created: None,
            duration: None,
            play_count: None,
            year: dto.year,
            genre: None,
        }
    }

    /// Converts a detailed album row.
    pub fn from_detail_dto(dto: AlbumDetailDto) -> (r: Self)
        ensures
            album_from_detail_dto(dto, r),
    {
        AlbumResponse {
            id: dto.id,
            name: dto.name,
            artist: dto.artist,
            artist_id: Some(dto.artist_id),
            cover_art: dto.cover_art_path,
            song_count: Some(dto.song_count),
            created: None,
            duration: Some(dto.duration),
            play_count: Some(dto.play_count),
            year: dto.year,
            genre: dto.genre,
        }
    }

    /// Converts each short album row, in order.
    pub fn from_dtos(dtos: Vec<AlbumDto>) -> (r: Vec<Self>)
        ensures
            r.len() == dtos.len(),
            forall|i: int| 0 <= i < dtos.len() ==> album_from_dto(#[trigger] dtos@[i], r@[i]),
    {
        let ghost src = dtos@;
        let mut r: Vec<Self> = Vec::new();
        for d in it: dtos.into_iter()
            invariant
                it.seq() == src,
                r.len() == it.index(),
                forall|i: int| 0 <= i < r.len() ==> album_from_dto(#[trigger] src[i], r@[i]),
        {
            r.push(Self::from_dto(d));
        }
        r
    }

    /// Converts each detailed album row, in order.
    pub fn from_dto_details(dtos: Vec<AlbumDetailDto>) -> (r: Vec<Self>)
        ensures
            r.len() == dtos.len(),
            forall|i: int| 0 <= i < dtos.len() ==> album_from_detail_dto(#[trigger] dtos@[i], r@[i]),
    {
        let ghost src = dtos@;
        let mut r: Vec<Self> = Vec::new();
        for d in it: dtos.into_iter()
            invariant
                it.seq() == src,
                r.len() == it.index(),
                forall|i: int| 0 <= i < r.len() ==> album_from_detail_dto(#[trigger] src[i], r@[i]),
        {
            r.push(Self::from_detail_dto(d));
        }
        r
    }
}

impl ToXml for AlbumResponse {
    open spec fn xml_spec(&self) -> Seq<char> {
        "<album id=\""@
            + self.id@
            + "\" name=\""@
            + self.name@
            + "\" artist=\""@
            + self.artist@
            + "\""@
            + opt_str_attr(" artistId=\""@, self.artist_id)
            + opt_str_attr(" coverArt=\""@, self.cover_art)
            + opt_int_attr(" songCount=\""@, opt_i32(self.song_count))
            + opt_int_attr(" duration=\""@, opt_i32(self.duration))
            + opt_int_attr(" playCount=\""@, opt_i32(self.play_count))
            + opt_int_attr(" year=\""@, opt_i32(self.year))
            + opt_str_attr(" genre=\""@, self.genre)
            + "/>"@
    }

    fn to_xml_element(&self) -> (r: String) {
        let mut r = String::new();
        r.append("<album id=\"");
        r.append(self.id.as_str());
        r.append("\" name=\"");
        r.append(self.name.as_str());
        r.append("\" artist=\"");
        r.append(self.artist.as_str());
        r.append("\"");
        push_opt_str_attr(&mut r, " artistId=\"", &self.artist_id);
        push_opt_str_attr(&mut r, " coverArt=\"", &self.cover_art);
        push_opt_i32_attr(&mut r, " songCount=\"", self.song_count);
        push_opt_i32_attr(&mut r, " duration=\"", self.duration);
        push_opt_i32_attr(&mut r, " playCount=\"", self.play_count);
        push_opt_i32_attr(&mut r, " year=\"", self.year);
        push_opt_str_attr(&mut r, " genre=\"", &self.genre);
        r.append("/>");
        assert(r@ =~= self.xml_spec());
        r
    }
}

/// Album details wrapper.
#[derive(Debug, Clone)]
pub struct AlbumDetailResponse {
    pub album: AlbumDetail,
}

/// An album with its songs.
#[derive(Debug, Clone)]
pub struct AlbumDetail {
    pub id: String,
    pub name: String,
    pub artist: String,
    pub artist_id: String,
    pub cover_art: Option<String>,
    pub song_count: i32,
    pub duration: i32,
    pub song: Vec<Song>,
}

/// A list of albums.
#[derive(Debug, Clone)]
pub struct AlbumList {
    pub albums: Vec<AlbumResponse>,
}

/// The `albumList2` wrapper.
#[derive(Debug, Clone)]
pub struct AlbumList2Response {
    pub album_list2: AlbumList2,
}

/// A list of albums (second form).
#[derive(Debug, Clone)]
pub struct AlbumList2 {
    pub albums: Vec<AlbumResponse>,
}

impl ToXml for AlbumDetailResponse {
    open spec fn xml_spec(&self) -> Seq<char> {
        self.album.xml_spec()
    }

    fn to_xml_element(&self) -> (r: String) {
        self.album.to_xml_element()
    }
}

impl ToXml for AlbumDetail {
    open spec fn xml_spec(&self) -> Seq<char> {
        "<album id=\""@
            + self.id@
            + "\" name=\""@
            + self.name@
            + "\" artist=\""@
            + self.artist@
            + "\" artistId=\""@
            + self.artist_id@
            + "\" songCount=\""@
            + int_decimal(self.song_count as int)
            + "\" duration=\""@
            + int_decimal(self.duration as int)
            + "\""@
            + opt_str_attr(" coverArt=\""@, self.cover_art)
            + ">"@
            + xml_concat(self.song@)
            + "</album>"@
    }

    fn to_xml_element(&self) -> (r: String) {
        let mut r = String::new();
        r.append("<album id=\"");
        r.append(self.id.as_str());
        r.append("\" name=\"");
        r.append(self.name.as_str());
        r.append("\" artist=\"");
        r.append(self.artist.as_str());
        r.append("\" artistId=\"");
        r.append(self.artist_id.as_str());
        r.append("\" songCount=\"");
        push_i64_decimal(&mut r, self.song_count as i64);
        r.append("\" duration=\"");
        push_i64_decimal(&mut r, self.duration as i64);
        r.append("\"");
        push_opt_str_attr(&mut r, " coverArt=\"", &self.cover_art);
        r.append(">");
        push_all(&mut r, &self.song);
        r.append("</album>");
        assert(r@ =~= self.xml_spec());
        r
    }
}

impl ToXml for AlbumList {
    open spec fn xml_spec(&self) -> Seq<char> {
        "<albumList>"@
            + xml_concat(self.albums@)
            + "</albumList>"@
    }

    fn to_xml_element(&self) -> (r: String) {
        let mut r = String::new();
        r.append("<albumList>");
        push_all(&mut r, &self.albums);
        r.append("</albumList>");
        assert(r@ =~= self.xml_spec());
        r
    }
}

impl ToXml for AlbumList2Response {
    open spec fn xml_spec(&self) -> Seq<char> {
        self.album_list2.xml_spec()
    }

    fn to_xml_element(&self) -> (r: String) {
        self.album_list2.to_xml_element()
    }
}

impl ToXml for AlbumList2 {
    open spec fn xml_spec(&self) -> Seq<char> {
        "<albumList2>"@
            + xml_concat(self.albums@)
            + "</albumList2>"@
    }

    fn to_xml_element(&self) -> (r: String) {
        let mut r = String::new();
        r.append("<albumList2>");
        push_all(&mut r, &self.albums);
        r.append("</albumList2>");
        assert(r@ =~= self.xml_spec());
        r
    }
}

/// An album element carries its id, name and artist and every optional
/// field that is present as its Subsonic attribute; an album with its songs
/// carries id, name, artist, artist id, song count and duration, holds every
/// song, and closes with `</album>`; album lists hold every album.
pub proof fn lemma_album_xml_carries_fields(a: AlbumResponse, d: AlbumDetail, l: AlbumList, l2: AlbumList2)
    ensures
        starts_with(a.xml_spec(), "<album id=\""@ + a.id@ + "\" name=\""@ + a.name@ + "\" artist=\""@ + a.artist@ + "\""@),
        ends_with(a.xml_spec(), "/>"@),
        a.artist_id matches Some(x) ==> contains_seq(a.xml_spec(), " artistId=\""@ + x@ + "\""@),
        a.cover_art matches Some(x) ==> contains_seq(a.xml_spec(), " coverArt=\""@ + x@ + "\""@),
        a.song_count matches Some(x) ==> contains_seq(a.xml_spec(), " songCount=\""@ + int_decimal(x as int) + "\""@),
        a.duration matches Some(x) ==> contains_seq(a.xml_spec(), " duration=\""@ + int_decimal(x as int) + "\""@),
        a.play_count matches Some(x) ==> contains_seq(a.xml_spec(), " playCount=\""@ + int_decimal(x as int) + "\""@),
        a.year matches Some(x) ==> contains_seq(a.xml_spec(), " year=\""@ + int_decimal(x as int) + "\""@),
        a.genre matches Some(x) ==> contains_seq(a.xml_spec(), " genre=\""@ + x@ + "\""@),
        starts_with(d.xml_spec(), "<album id=\""@ + d.id@ + "\" name=\""@ + d.name@ + "\" artist=\""@ + d.artist@
            + "\" artistId=\""@ + d.artist_id@ + "\" songCount=\""@ + int_decimal(d.song_count as int)
            + "\" duration=\""@ + int_decimal(d.duration as int) + "\""@),
        d.cover_art matches Some(x) ==> contains_seq(d.xml_spec(), " coverArt=\""@ + x@ + "\""@),
        ends_with(d.xml_spec(), "</album>"@),
        forall|i: int| 0 <= i < d.song.len() ==> contains_seq(d.xml_spec(), #[trigger] d.song@[i].xml_spec()),
        starts_with(l.xml_spec(), "<albumList>"@),
        ends_with(l.xml_spec(), "</albumList>"@),
        forall|i: int| 0 <= i < l.albums.len() ==> contains_seq(l.xml_spec(), #[trigger] l.albums@[i].xml_spec()),
        starts_with(l2.xml_spec(), "<albumList2>"@),
        ends_with(l2.xml_spec(), "</albumList2>"@),
        forall|i: int| 0 <= i < l2.albums.len() ==> contains_seq(l2.xml_spec(), #[trigger] l2.albums@[i].xml_spec()),
{
    broadcast use crate::text::lemma_contains_grows, crate::text::lemma_contains_grows_left,
        crate::text::lemma_contains_right_part, crate::text::lemma_starts_with_grows,
        crate::text::lemma_starts_with_self, crate::text::lemma_ends_with_right_part;
    lemma_wrapped_items("<albumList>"@, l.albums@, "</albumList>"@);
    lemma_wrapped_items("<albumList2>"@, l2.albums@, "</albumList2>"@);
    lemma_xml_concat_has_items(d.song@);
    let head = "<album id=\""@ + d.id@ + "\" name=\""@ + d.name@ + "\" artist=\""@ + d.artist@
        + "\" artistId=\""@ + d.artist_id@ + "\" songCount=\""@ + int_decimal(d.song_count as int)
        + "\" duration=\""@ + int_decimal(d.duration as int) + "\""@ + opt_str_attr(" coverArt=\""@, d.cover_art) + ">"@;
    assert forall|i: int| 0 <= i < d.song.len() implies contains_seq(d.xml_spec(), #[trigger] d.song@[i].xml_spec()) by {
        assert(contains_seq(xml_concat(d.song@), d.song@[i].xml_spec()));
        assert(contains_seq(head + xml_concat(d.song@), d.song@[i].xml_spec()));
    }
}

} // verus!
