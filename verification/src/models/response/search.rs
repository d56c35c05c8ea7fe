//! Search responses.

use vstd::prelude::*;

use crate::models::response::common::{ToXml, xml_concat, push_all, lemma_xml_concat_has_items};
use crate::text::{contains_seq, starts_with, ends_with, lemma_contains_grows, lemma_contains_grows_left, lemma_starts_with_grows, lemma_starts_with_self, lemma_ends_with_right_part};
use crate::models::response::album::AlbumResponse;
use crate::models::response::artist::ArtistResponse;
use crate::models::response::song::Song;

verus! {

/// The `searchResult` wrapper.
#[derive(Debug, Clone)]
pub struct SearchResultResponse {
    pub search_result: SearchResult,
}

/// Artists, albums and songs matching a search.
#[derive(Debug, Clone)]
pub struct SearchResult {
    pub artist: Vec<ArtistResponse>,
    pub album: Vec<AlbumResponse>,
    pub song: Vec<Song>,
}

/// The `searchResult2` wrapper.
#[derive(Debug, Clone)]
pub struct SearchResult2Response {
    pub search_result2: SearchResult2,
}

/// Artists, albums and songs matching a search (second form).
#[derive(Debug, Clone)]
pub struct SearchResult2 {
    pub artist: Vec<ArtistResponse>,
    pub album: Vec<AlbumResponse>,
    pub song: Vec<Song>,
}

/// The `searchResult3` wrapper.
#[derive(Debug, Clone)]
pub struct SearchResult3Response {
    pub search_result3: SearchResult3,
}

/// Artists, albums and songs matching a search (third form).
#[derive(Debug, Clone)]
pub struct SearchResult3 {
    pub artist: Vec<ArtistResponse>,
    pub album: Vec<AlbumResponse>,
    pub song: Vec<Song>,
}

impl ToXml for SearchResultResponse {
    open spec fn xml_spec(&self) -> Seq<char> {
        "<searchResult>"@
            + xml_concat(self.search_result.artist@)
            + xml_concat(self.search_result.album@)
            + xml_concat(self.search_result.song@)
            + "</searchResult>"@
    }

    fn to_xml_element(&self) -> (r: String) {
        let mut r = String::new();
        r.append("<searchResult>");
        push_all(&mut r, &self.search_result.artist);
        push_all(&mut r, &self.search_result.album);
        push_all(&mut r, &self.search_result.song);
        r.append("</searchResult>");
        assert(r@ =~= self.xml_spec());
        r
    }
}

impl ToXml for SearchResult2Response {
    open spec fn xml_spec(&self) -> Seq<char> {
        "<searchResult2>"@
            + xml_concat(self.search_result2.artist@)
            + xml_concat(self.search_result2.album@)
            + xml_concat(self.search_result2.song@)
            + "</searchResult2>"@
    }

    fn to_xml_element(&self) -> (r: String) {
        let mut r = String::new();
        r.append("<searchResult2>");
        push_all(&mut r, &self.search_result2.artist);
        push_all(&mut r, &self.search_result2.album);
        push_all(&mut r, &self.search_result2.song);
        r.append("</searchResult2>");
        assert(r@ =~= self.xml_spec());
        r
    }
}

impl ToXml for SearchResult3Response {
    open spec fn xml_spec(&self) -> Seq<char> {
        "<searchResult3>"@
            + xml_concat(self.search_result3.artist@)
            + xml_concat(self.search_result3.album@)
            + xml_concat(self.search_result3.song@)
            + "</searchResult3>"@
    }

    fn to_xml_element(&self) -> (r: String) {
        let mut r = String::new();
        r.append("<searchResult3>");
        push_all(&mut r, &self.search_result3.artist);
        push_all(&mut r, &self.search_result3.album);
        push_all(&mut r, &self.search_result3.song);
        r.append("</searchResult3>");
        assert(r@ =~= self.xml_spec());
        r
    }
}

/// Each search result opens and closes with its own tag and holds every
/// matching artist, album and song.
pub proof fn lemma_search_xml_holds_matches(r1: SearchResultResponse, r2: SearchResult2Response, r3: SearchResult3Response)
    ensures
        search_xml_holds("<searchResult>"@, r1.search_result.artist@, r1.search_result.album@, r1.search_result.song@,
            "</searchResult>"@, r1.xml_spec()),
        search_xml_holds("<searchResult2>"@, r2.search_result2.artist@, r2.search_result2.album@, r2.search_result2.song@,
            "</searchResult2>"@, r2.xml_spec()),
        search_xml_holds("<searchResult3>"@, r3.search_result3.artist@, r3.search_result3.album@, r3.search_result3.song@,
            "</searchResult3>"@, r3.xml_spec()),
{
    lemma_three_lists("<searchResult>"@, r1.search_result.artist@, r1.search_result.album@, r1.search_result.song@, "</searchResult>"@);
    lemma_three_lists("<searchResult2>"@, r2.search_result2.artist@, r2.search_result2.album@, r2.search_result2.song@, "</searchResult2>"@);
    lemma_three_lists("<searchResult3>"@, r3.search_result3.artist@, r3.search_result3.album@, r3.search_result3.song@, "</searchResult3>"@);
}

/// `x` opens with `open`, closes with `close`, and holds the XML of every
/// artist, album and song given.
pub open spec fn search_xml_holds(
    open: Seq<char>,
    ar: Seq<ArtistResponse>,
    al: Seq<AlbumResponse>,
    so: Seq<Song>,
    close: Seq<char>,
    x: Seq<char>,
) -> bool {
    &&& starts_with(x, open)
    &&& ends_with(x, close)
    &&& forall|i: int| 0 <= i < ar.len() ==> contains_seq(x, #[trigger] ar[i].xml_spec())
    &&& forall|i: int| 0 <= i < al.len() ==> contains_seq(x, #[trigger] al[i].xml_spec())
    &&& forall|i: int| 0 <= i < so.len() ==> contains_seq(x, #[trigger] so[i].xml_spec())
}

proof fn lemma_three_lists(open: Seq<char>, ar: Seq<ArtistResponse>, al: Seq<AlbumResponse>, so: Seq<Song>, close: Seq<char>)
    ensures
        search_xml_holds(open, ar, al, so, close, open + xml_concat(ar) + xml_concat(al) + xml_concat(so) + close),
{
    broadcast use lemma_contains_grows, lemma_contains_grows_left, lemma_starts_with_grows,
        lemma_starts_with_self, lemma_ends_with_right_part;
    let x = open + xml_concat(ar) + xml_concat(al) + xml_concat(so) + close;
    lemma_xml_concat_has_items(ar);
    lemma_xml_concat_has_items(al);
    lemma_xml_concat_has_items(so);
    assert forall|i: int| 0 <= i < ar.len() implies contains_seq(x, #[trigger] ar[i].xml_spec()) by {
        assert(contains_seq(xml_concat(ar), ar[i].xml_spec()));
    }
    assert forall|i: int| 0 <= i < al.len() implies contains_seq(x, #[trigger] al[i].xml_spec()) by {
        assert(contains_seq(xml_concat(al), al[i].xml_spec()));
    }
    assert forall|i: int| 0 <= i < so.len() implies contains_seq(x, #[trigger] so[i].xml_spec()) by {
        assert(contains_seq(xml_concat(so), so[i].xml_spec()));
    }
}

} // verus!
