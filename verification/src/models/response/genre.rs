//! Genre responses.

use vstd::prelude::*;
use crate::text::{contains_seq, starts_with, ends_with};
use crate::models::response::common::lemma_wrapped_items;
use crate::text::{int_decimal, push_i64_decimal};
use crate::models::response::common::{ToXml, xml_concat, push_all};

verus! {

/// A genre with its counts.
#[derive(Debug, Clone)]
pub struct Genre {
    pub value: String,
    pub song_count: i32,
    pub album_count: i32,
}

/// The `genres` wrapper.
#[derive(Debug, Clone)]
pub struct GenresResponse {
    pub genres: Genres,
}

/// A list of genres.
#[derive(Debug, Clone)]
pub struct Genres {
    pub genres: Vec<Genre>,
}

impl ToXml for Genre {
    open spec fn xml_spec(&self) -> Seq<char> {
        "<genre songCount=\""@
            + int_decimal(self.song_count as int)
            + "\" albumCount=\""@
            + int_decimal(self.album_count as int)
            + "\">"@
            + self.value@
            + "</genre>"@
    }

    fn to_xml_element(&self) -> (r: String) {
        let mut r = String::new();
        r.append("<genre songCount=\"");
        push_i64_decimal(&mut r, self.song_count as i64);
        r.append("\" albumCount=\"");
        push_i64_decimal(&mut r, self.album_count as i64);
        r.append("\">");
        r.append(self.value.as_str());
        r.append("</genre>");
        assert(r@ =~= self.xml_spec());
        r
    }
}

impl ToXml for GenresResponse {
    open spec fn xml_spec(&self) -> Seq<char> {
        self.genres.xml_spec()
    }

    fn to_xml_element(&self) -> (r: String) {
        self.genres.to_xml_element()
    }
}

impl ToXml for Genres {
    open spec fn xml_spec(&self) -> Seq<char> {
        "<genres>"@
            + xml_concat(self.genres@)
            + "</genres>"@
    }

    fn to_xml_element(&self) -> (r: String) {
        let mut r = String::new();
        r.append("<genres>");
        push_all(&mut r, &self.genres);
        r.append("</genres>");
        assert(r@ =~= self.xml_spec());
        r
    }
}

/// A genre element carries its song and album counts and its name as text;
/// the genre list holds every genre.
pub proof fn lemma_genre_xml_carries_fields(g: Genre, l: Genres)
    ensures
        g.xml_spec() == "<genre songCount=\""@ + int_decimal(g.song_count as int) + "\" albumCount=\""@
            + int_decimal(g.album_count as int) + "\">"@ + g.value@ + "</genre>"@,
        starts_with(l.xml_spec(), "<genres>"@),
        ends_with(l.xml_spec(), "</genres>"@),
        forall|i: int| 0 <= i < l.genres.len() ==> contains_seq(l.xml_spec(), #[trigger] l.genres@[i].xml_spec()),
{
    lemma_wrapped_items("<genres>"@, l.genres@, "</genres>"@);
}

} // verus!
