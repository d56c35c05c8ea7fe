//! Starred items responses.

use vstd::prelude::*;

use crate::models::response::common::{ToXml, opt_xml_concat, push_opt_all, xml_concat, lemma_xml_concat_has_items};
use crate::text::{contains_seq, starts_with, ends_with, lemma_contains_grows, lemma_contains_grows_left, lemma_starts_with_grows, lemma_starts_with_self, lemma_ends_with_right_part};
use crate::models::response::album::AlbumResponse;
use crate::models::response::artist::ArtistResponse;
use crate::models::response::song::Song;

verus! {

/// The `starred` wrapper.
#[derive(Debug, Clone)]
pub struct StarredResponseWrapper {
    pub starred: StarredResponse,
}

/// The items a user starred.
#[derive(Debug, Clone)]
pub struct StarredResponse {
    pub artist: Option<Vec<ArtistResponse>>,
    pub album: Option<Vec<AlbumResponse>>,
    pub song: Option<Vec<Song>>,
}

/// The `starred2` wrapper.
#[derive(Debug, Clone)]
pub struct Starred2ResponseWrapper {
    pub starred2: Starred2Response,
}

/// The items a user starred (second form).
#[derive(Debug, Clone)]
pub struct Starred2Response {
    pub artist: Option<Vec<ArtistResponse>>,
    pub album: Option<Vec<AlbumResponse>>,
    pub song: Option<Vec<Song>>,
}

impl ToXml for StarredResponseWrapper {
    open spec fn xml_spec(&self) -> Seq<char> {
        self.starred.xml_spec()
    }

    fn to_xml_element(&self) -> (r: String) {
        self.starred.to_xml_element()
    }
}

impl ToXml for StarredResponse {
    open spec fn xml_spec(&self) -> Seq<char> {
        "<starred>"@
            + opt_xml_concat(self.artist)
            + opt_xml_concat(self.album)
            + opt_xml_concat(self.song)
            + "</starred>"@
    }

    fn to_xml_element(&self) -> (r: String) {
        let mut r = String::new();
        r.append("<starred>");
        push_opt_all(&mut r, &self.artist);
        push_opt_all(&mut r, &self.album);
        push_opt_all(&mut r, &self.song);
        r.append("</starred>");
        assert(r@ =~= self.xml_spec());
        r
    }
}

impl ToXml for Starred2ResponseWrapper {
    open spec fn xml_spec(&self) -> Seq<char> {
        self.starred2.xml_spec()
    }

    fn to_xml_element(&self) -> (r: String) {
        self.starred2.to_xml_element()
    }
}

impl ToXml for Starred2Response {
    open spec fn xml_spec(&self) -> Seq<char> {
        "<starred2>"@
            + opt_xml_concat(self.artist)
            + opt_xml_concat(self.album)
            + opt_xml_concat(self.song)
            + "</starred2>"@
    }

    fn to_xml_element(&self) -> (r: String) {
        let mut r = String::new();
        r.append("<starred2>");
        push_opt_all(&mut r, &self.artist);
        push_opt_all(&mut r, &self.album);
        push_opt_all(&mut r, &self.song);
        r.append("</starred2>");
        assert(r@ =~= self.xml_spec());
        r
    }
}

/// The starred lists open and close with their own tags and hold every
/// starred artist, album and song.
pub proof fn lemma_starred_xml_holds_items(a: StarredResponse, b: Starred2Response)
    ensures
        starts_with(a.xml_spec(), "<starred>"@),
        ends_with(a.xml_spec(), "</starred>"@),
        a.artist matches Some(v) ==> forall|i: int| 0 <= i < v.len() ==> contains_seq(a.xml_spec(), #[trigger] v@[i].xml_spec()),
        a.album matches Some(v) ==> forall|i: int| 0 <= i < v.len() ==> contains_seq(a.xml_spec(), #[trigger] v@[i].xml_spec()),
        a.song matches Some(v) ==> forall|i: int| 0 <= i < v.len() ==> contains_seq(a.xml_spec(), #[trigger] v@[i].xml_spec()),
        starts_with(b.xml_spec(), "<starred2>"@),
        ends_with(b.xml_spec(), "</starred2>"@),
        b.artist matches Some(v) ==> forall|i: int| 0 <= i < v.len() ==> contains_seq(b.xml_spec(), #[trigger] v@[i].xml_spec()),
        b.album matches Some(v) ==> forall|i: int| 0 <= i < v.len() ==> contains_seq(b.xml_spec(), #[trigger] v@[i].xml_spec()),
        b.song matches Some(v) ==> forall|i: int| 0 <= i < v.len() ==> contains_seq(b.xml_spec(), #[trigger] v@[i].xml_spec()),
{
    lemma_starred_parts("<starred>"@, a.artist, a.album, a.song, "</starred>"@);
    lemma_starred_parts("<starred2>"@, b.artist, b.album, b.song, "</starred2>"@);
}

proof fn lemma_starred_parts(
    open: Seq<char>,
    ar: Option<Vec<ArtistResponse>>,
    al: Option<Vec<AlbumResponse>>,
    so: Option<Vec<Song>>,
    close: Seq<char>,
)
    ensures
        ({
            let x = open + opt_xml_concat(ar) + opt_xml_concat(al) + opt_xml_concat(so) + close;
            &&& starts_with(x, open)
            &&& ends_with(x, close)
            &&& ar matches Some(v) ==> forall|i: int| 0 <= i < v.len() ==> contains_seq(x, #[trigger] v@[i].xml_spec())
            &&& al matches Some(v) ==> forall|i: int| 0 <= i < v.len() ==> contains_seq(x, #[trigger] v@[i].xml_spec())
            &&& so matches Some(v) ==> forall|i: int| 0 <= i < v.len() ==> contains_seq(x, #[trigger] v@[i].xml_spec())
        }),
{
    broadcast use lemma_contains_grows, lemma_contains_grows_left, lemma_starts_with_grows,
        lemma_starts_with_self, lemma_ends_with_right_part;
    let x = open + opt_xml_concat(ar) + opt_xml_concat(al) + opt_xml_concat(so) + close;
    if let Some(v) = ar {
        lemma_xml_concat_has_items(v@);
        assert forall|i: int| 0 <= i < v.len() implies contains_seq(x, #[trigger] v@[i].xml_spec()) by {
            assert(contains_seq(xml_concat(v@), v@[i].xml_spec()));
        }
    }
    if let Some(v) = al {
        lemma_xml_concat_has_items(v@);
        assert forall|i: int| 0 <= i < v.len() implies contains_seq(x, #[trigger] v@[i].xml_spec()) by {
            assert(contains_seq(xml_concat(v@), v@[i].xml_spec()));
        }
    }
    if let Some(v) = so {
        lemma_xml_concat_has_items(v@);
        assert forall|i: int| 0 <= i < v.len() implies contains_seq(x, #[trigger] v@[i].xml_spec()) by {
            assert(contains_seq(xml_concat(v@), v@[i].xml_spec()));
        }
    }
}

} // verus!
