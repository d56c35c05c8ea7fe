//! Artist responses.

use vstd::prelude::*;
use crate::text::{contains_seq, starts_with, ends_with};
use crate::models::response::common::{lemma_wrapped_items, lemma_xml_concat_has_items};
use crate::text::{int_decimal, opt_str_attr, opt_int_attr, opt_i32, push_i64_decimal, push_opt_str_attr, push_opt_i32_attr};
use crate::models::response::common::{ToXml, xml_concat, push_all};
use crate::models::response::album::AlbumResponse;
use crate::models::dto::{ArtistDto, ArtistDetailDto};
use crate::models::entities::Artist;

verus! {

/// The `artists` wrapper.
#[derive(Debug, Clone)]
pub struct ArtistsResponse {
    pub artists: Artists,
}

/// Artists grouped by index letter.
#[derive(Debug, Clone)]
pub struct Artists {
    pub index: Vec<ArtistIndex>,
}

/// The artists under one index letter.
#[derive(Debug, Clone)]
pub struct ArtistIndex {
    pub name: String,
    pub artist: Vec<ArtistResponse>,
}

/// An artist in a list.
#[derive(Debug, Clone)]
pub struct ArtistResponse {
    pub id: String,
    pub name: String,
    pub cover_art: Option<String>,
    pub album_count: Option<i32>,
}

/// Artist details wrapper.
#[derive(Debug, Clone)]
pub struct ArtistDetailResponse {
    pub artist: ArtistDetail,
}

/// An artist with its albums.
#[derive(Debug, Clone)]
pub struct ArtistDetail {
    pub id: String,
    pub name: String,
    pub cover_art: Option<String>,
    pub album_count: i32,
    pub album: Vec<AlbumResponse>,
}

/// The artist index with its modification time.
#[derive(Debug, Clone)]
pub struct Indexes {
    pub last_modified: i64,
    pub indexes: Vec<Index>,
}

/// Artists under one letter of the index.
#[derive(Debug, Clone)]
pub struct Index {
    pub name: String,
    pub artist: Vec<ArtistResponse>,
}

/// `r` is the list form of the artist table row `a`.
pub open spec fn artist_from_entity(a: Artist, r: ArtistResponse) -> bool {
    &&& r.id == a.id
    &&& r.name == a.name
    &&& r.cover_art == a.cover_art_path
    &&& r.album_count is None
}

/// `r` is the list form of the artist row `d`; its cover art id is `ar-`
/// followed by the artist id.
pub open spec fn artist_from_dto(d: ArtistDto, r: ArtistResponse) -> bool {
    &&& r.id@ == d.id@
    &&& r.name == d.name
    &&& r.cover_art matches Some(c) && c@ == "ar-"@ + d.id@
    &&& r.album_count is None
}

/// `r` is the list form of the detailed artist row `d`.
pub open spec fn artist_from_detail_dto(d: ArtistDetailDto, r: ArtistResponse) -> bool {
    &&& r.id == d.id
    &&& r.name == d.name
    &&& r.cover_art == d.cover_art_path
    &&& r.album_count is None
}

impl From<Artist> for ArtistResponse {
    fn from(a: Artist) -> (r: Self) {
        ArtistResponse::from_entity(a)
    }
}

impl vstd::std_specs::convert::FromSpecImpl<Artist> for ArtistResponse {
    open spec fn obeys_from_spec() -> bool {
        true
    }

    open spec fn from_spec(a: Artist) -> Self {
        ArtistResponse { id: a.id, name: a.name, cover_art: a.cover_art_path, album_count: None }
    }
}

impl From<ArtistDetailDto> for ArtistResponse {
    fn from(dto: ArtistDetailDto) -> (r: Self) {
        ArtistResponse::from_detail_dto(dto)
    }
}

impl vstd::std_specs::convert::FromSpecImpl<ArtistDetailDto> for ArtistResponse {
    open spec fn obeys_from_spec() -> bool {
        true
    }

    open spec fn from_spec(d: ArtistDetailDto) -> Self {
        ArtistResponse { id: d.id, name: d.name, cover_art: d.cover_art_path, album_count: None }
    }
}

impl ArtistResponse {
    /// Converts an artist table row.
    pub fn from_entity(a: Artist) -> (r: Self)
        ensures
            artist_from_entity(a, r),
    {
        ArtistResponse { id: a.id, name: a.name, cover_art: a.cover_art_path, album_count: None }
    }

    /// Converts an artist row, deriving the cover art id from the artist id.
    pub fn from_dto(dto: ArtistDto) -> (r: Self)
        ensures
            artist_from_dto(dto, r),
    {
        let mut cover = String::from_str("ar-");
        cover.append(dto.id.as_str());
        let id = dto.id.clone();
        ArtistResponse { id, name: dto.name, cover_art: Some(cover), album_count: None }
    }

    /// Converts a detailed artist row.
    pub fn from_detail_dto(dto: ArtistDetailDto) -> (r: Self)
        ensures
            artist_from_detail_dto(dto, r),
    {
        ArtistResponse { id: dto.id, name: dto.name, cover_art: dto.cover_art_path, album_count: None }
    }

    /// Converts each artist table row, in order.
    pub fn from_entities(dtos: Vec<Artist>) -> (r: Vec<Self>)
        ensures
            r.len() == dtos.len(),
            forall|i: int| 0 <= i < dtos.len() ==> artist_from_entity(#[trigger] dtos@[i], r@[i]),
    {
        let ghost src = dtos@;
        let mut r: Vec<Self> = Vec::new();
        for d in it: dtos.into_iter()
            invariant
                it.seq() == src,
                r.len() == it.index(),
                forall|i: int| 0 <= i < r.len() ==> artist_from_entity(#[trigger] src[i], r@[i]),
        {
            r.push(Self::from_entity(d));
        }
        r
    }

    /// Converts each artist row, in order.
    pub fn from_dtos(dtos: Vec<ArtistDto>) -> (r: Vec<Self>)
        ensures
            r.len() == dtos.len(),
            forall|i: int| 0 <= i < dtos.len() ==> artist_from_dto(#[trigger] dtos@[i], r@[i]),
    {
        let ghost src = dtos@;
        let mut r: Vec<Self> = Vec::new();
        for d in it: dtos.into_iter()
            invariant
                it.seq() == src,
                r.len() == it.index(),
                forall|i: int| 0 <= i < r.len() ==> artist_from_dto(#[trigger] src[i], r@[i]),
        {
            r.push(Self::from_dto(d));
        }
        r
    }

    /// Converts each detailed artist row, in order.
    pub fn from_detail_dtos(dtos: Vec<ArtistDetailDto>) -> (r: Vec<Self>)
        ensures
            r.len() == dtos.len(),
            forall|i: int| 0 <= i < dtos.len() ==> artist_from_detail_dto(#[trigger] dtos@[i], r@[i]),
    {
        let ghost src = dtos@;
        let mut r: Vec<Self> = Vec::new();
        for d in it: dtos.into_iter()
            invariant
                it.seq() == src,
                r.len() == it.index(),
                forall|i: int| 0 <= i < r.len() ==> artist_from_detail_dto(#[trigger] src[i], r@[i]),
        {
            r.push(Self::from_detail_dto(d));
        }
        r
    }
}

impl ToXml for ArtistResponse {
    open spec fn xml_spec(&self) -> Seq<char> {
        "<artist id=\""@
            + self.id@
            + "\" name=\""@
            + self.name@
            + "\""@
            + opt_str_attr(" coverArt=\""@, self.cover_art)
            + opt_int_attr(" albumCount=\""@, opt_i32(self.album_count))
            + "/>"@
    }

    fn to_xml_element(&self) -> (r: String) {
        let mut r = String::new();
        r.append("<artist id=\"");
        r.append(self.id.as_str());
        r.append("\" name=\"");
        r.append(self.name.as_str());
        r.append("\"");
        push_opt_str_attr(&mut r, " coverArt=\"", &self.cover_art);
        push_opt_i32_attr(&mut r, " albumCount=\"", self.album_count);
        r.append("/>");
        assert(r@ =~= self.xml_spec());
        r
    }
}

impl ToXml for Indexes {
    open spec fn xml_spec(&self) -> Seq<char> {
        "<indexes lastModified=\""@
            + int_decimal(self.last_modified as int)
            + "\">"@
            + xml_concat(self.indexes@)
            + "</indexes>"@
    }

    fn to_xml_element(&self) -> (r: String) {
        let mut r = String::new();
        r.append("<indexes lastModified=\"");
        push_i64_decimal(&mut r, self.last_modified as i64);
        r.append("\">");
        push_all(&mut r, &self.indexes);
        r.append("</indexes>");
        assert(r@ =~= self.xml_spec());
        r
    }
}

impl ToXml for Index {
    open spec fn xml_spec(&self) -> Seq<char> {
        "<index name=\""@
            + self.name@
            + "\">"@
            + xml_concat(self.artist@)
            + "</index>"@
    }

    fn to_xml_element(&self) -> (r: String) {
        let mut r = String::new();
        r.append("<index name=\"");
        r.append(self.name.as_str());
        r.append("\">");
        push_all(&mut r, &self.artist);
        r.append("</index>");
        assert(r@ =~= self.xml_spec());
        r
    }
}

impl ToXml for ArtistsResponse {
    open spec fn xml_spec(&self) -> Seq<char> {
        self.artists.xml_spec()
    }

    fn to_xml_element(&self) -> (r: String) {
        self.artists.to_xml_element()
    }
}

impl ToXml for Artists {
    open spec fn xml_spec(&self) -> Seq<char> {
        "<artists>"@
            + xml_concat(self.index@)
            + "</artists>"@
    }

    fn to_xml_element(&self) -> (r: String) {
        let mut r = String::new();
        r.append("<artists>");
        push_all(&mut r, &self.index);
        r.append("</artists>");
        assert(r@ =~= self.xml_spec());
        r
    }
}

impl ToXml for ArtistIndex {
    open spec fn xml_spec(&self) -> Seq<char> {
        "<index name=\""@
            + self.name@
            + "\">"@
            + xml_concat(self.artist@)
            + "</index>"@
    }

    fn to_xml_element(&self) -> (r: String) {
        let mut r = String::new();
        r.append("<index name=\"");
        r.append(self.name.as_str());
        r.append("\">");
        push_all(&mut r, &self.artist);
        r.append("</index>");
        assert(r@ =~= self.xml_spec());
        r
    }
}

impl ToXml for ArtistDetailResponse {
    open spec fn xml_spec(&self) -> Seq<char> {
        self.artist.xml_spec()
    }

    fn to_xml_element(&self) -> (r: String) {
        self.artist.to_xml_element()
    }
}

impl ToXml for ArtistDetail {
    open spec fn xml_spec(&self) -> Seq<char> {
        "<artist id=\""@
            + self.id@
            + "\" name=\""@
            + self.name@
            + "\" albumCount=\""@
            + int_decimal(self.album_count as int)
            + "\""@
            + opt_str_attr(" coverArt=\""@, self.cover_art)
            + ">"@
            + xml_concat(self.album@)
            + "</artist>"@
    }

    fn to_xml_element(&self) -> (r: String) {
        let mut r = String::new();
        r.append("<artist id=\"");
        r.append(self.id.as_str());
        r.append("\" name=\"");
        r.append(self.name.as_str());
        r.append("\" albumCount=\"");
        push_i64_decimal(&mut r, self.album_count as i64);
        r.append("\"");
        push_opt_str_attr(&mut r, " coverArt=\"", &self.cover_art);
        r.append(">");
        push_all(&mut r, &self.album);
        r.append("</artist>");
        assert(r@ =~= self.xml_spec());
        r
    }
}

/// An artist element carries its id and name and every optional field that
/// is present; an artist with albums carries id, name and album count and
/// holds every album; the index lists hold every entry.
pub proof fn lemma_artist_xml_carries_fields(a: ArtistResponse, d: ArtistDetail, ix: Index, ai: ArtistIndex, all: Artists, ixs: Indexes)
    ensures
        starts_with(a.xml_spec(), "<artist id=\""@ + a.id@ + "\" name=\""@ + a.name@ + "\""@),
        ends_with(a.xml_spec(), "/>"@),
        a.cover_art matches Some(x) ==> contains_seq(a.xml_spec(), " coverArt=\""@ + x@ + "\""@),
        a.album_count matches Some(x) ==> contains_seq(a.xml_spec(), " albumCount=\""@ + int_decimal(x as int) + "\""@),
        starts_with(d.xml_spec(), "<artist id=\""@ + d.id@ + "\" name=\""@ + d.name@ + "\" albumCount=\""@
            + int_decimal(d.album_count as int) + "\""@),
        d.cover_art matches Some(x) ==> contains_seq(d.xml_spec(), " coverArt=\""@ + x@ + "\""@),
        ends_with(d.xml_spec(), "</artist>"@),
        forall|i: int| 0 <= i < d.album.len() ==> contains_seq(d.xml_spec(), #[trigger] d.album@[i].xml_spec()),
        starts_with(ix.xml_spec(), "<index name=\""@ + ix.name@ + "\">"@),
        ends_with(ix.xml_spec(), "</index>"@),
        forall|i: int| 0 <= i < ix.artist.len() ==> contains_seq(ix.xml_spec(), #[trigger] ix.artist@[i].xml_spec()),
        starts_with(ai.xml_spec(), "<index name=\""@ + ai.name@ + "\">"@),
        ends_with(ai.xml_spec(), "</index>"@),
        forall|i: int| 0 <= i < ai.artist.len() ==> contains_seq(ai.xml_spec(), #[trigger] ai.artist@[i].xml_spec()),
        starts_with(all.xml_spec(), "<artists>"@),
        ends_with(all.xml_spec(), "</artists>"@),
        forall|i: int| 0 <= i < all.index.len() ==> contains_seq(all.xml_spec(), #[trigger] all.index@[i].xml_spec()),
        starts_with(ixs.xml_spec(), "<indexes lastModified=\""@ + int_decimal(ixs.last_modified as int) + "\">"@),
        ends_with(ixs.xml_spec(), "</indexes>"@),
        forall|i: int| 0 <= i < ixs.indexes.len() ==> contains_seq(ixs.xml_spec(), #[trigger] ixs.indexes@[i].xml_spec()),
{
    broadcast use crate::text::lemma_contains_grows, crate::text::lemma_contains_grows_left,
        crate::text::lemma_contains_right_part, crate::text::lemma_starts_with_grows,
        crate::text::lemma_starts_with_self, crate::text::lemma_ends_with_right_part;
    lemma_wrapped_items("<index name=\""@ + ix.name@ + "\">"@, ix.artist@, "</index>"@);
    lemma_wrapped_items("<index name=\""@ + ai.name@ + "\">"@, ai.artist@, "</index>"@);
    lemma_wrapped_items("<artists>"@, all.index@, "</artists>"@);
    lemma_wrapped_items("<indexes lastModified=\""@ + int_decimal(ixs.last_modified as int) + "\">"@, ixs.indexes@, "</indexes>"@);
    lemma_xml_concat_has_items(d.album@);
    let head = "<artist id=\""@ + d.id@ + "\" name=\""@ + d.name@ + "\" albumCount=\""@
        + int_decimal(d.album_count as int) + "\""@ + opt_str_attr(" coverArt=\""@, d.cover_art) + ">"@;
    assert forall|i: int| 0 <= i < d.album.len() implies contains_seq(d.xml_spec(), #[trigger] d.album@[i].xml_spec()) by {
        assert(contains_seq(xml_concat(d.album@), d.album@[i].xml_spec()));
        assert(contains_seq(head + xml_concat(d.album@), d.album@[i].xml_spec()));
    }
}

} // verus!
