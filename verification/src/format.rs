//! The response format requested by a client.

use vstd::prelude::*;
use crate::text::{to_lowercase, lowercase_of, all_ascii, ascii_lower_char, ascii_upper_char};

verus! {

/// Response serialisation format.
#[derive(Debug, Clone, Copy, PartialEq, Eq, Structural)]
pub enum ResponseFormat {
    /// JSON: the default, and chosen for any name other than `xml`.
    Json,
    /// XML.
    Xml,
}

impl Default for ResponseFormat {
    fn default() -> (f: Self)
        ensures
            f == ResponseFormat::Json,
    {
        ResponseFormat::Json
    }
}

/// The MIME type sent with each format.
pub open spec fn content_type_of(f: ResponseFormat) -> Seq<char> {
    match f {
        ResponseFormat::Json => "application/json; charset=utf-8"@,
        ResponseFormat::Xml => "application/xml; charset=utf-8"@,
    }
}

/// The format an ASCII name gives: `Xml` when it reads `xml` in any case,
/// else `Json`.
pub open spec fn ascii_format_of(s: Seq<char>) -> ResponseFormat {
    if s.map_values(|c: char| ascii_lower_char(c)) == "xml"@ {
        ResponseFormat::Xml
    } else {
        ResponseFormat::Json
    }
}

/// Upper-casing the letters of an ASCII format name does not change the
/// format it gives (nor makes it non-ASCII).
pub proof fn lemma_format_ignores_ascii_case(s: Seq<char>)
    requires
        all_ascii(s),
    ensures
        all_ascii(s.map_values(|c: char| ascii_upper_char(c))),
        ascii_format_of(s.map_values(|c: char| ascii_upper_char(c))) == ascii_format_of(s),
{
    let u = s.map_values(|c: char| ascii_upper_char(c));
    assert forall|i: int| 0 <= i < s.len() implies ascii_lower_char(#[trigger] u[i]) == ascii_lower_char(s[i])
        && (u[i] as u32) < 128 by {
        let c = s[i];
        if 'a' <= c && c <= 'z' {
            assert(((c as u32) - 32) as char as u32 == (c as u32) - 32);
        }
    }
    assert(u.map_values(|c: char| ascii_lower_char(c)) =~= s.map_values(|c: char| ascii_lower_char(c)));
}

impl ResponseFormat {
    /// Parses a format name case-insensitively: `xml` gives `Xml`, anything
    /// else gives `Json`.
    pub fn from_str(s: &str) -> (f: Self)
        ensures
            f == (if lowercase_of(s@) == "xml"@ {
                ResponseFormat::Xml
            } else {
                ResponseFormat::Json
            }),
            all_ascii(s@) ==> f == ascii_format_of(s@),
    {
        let lower = to_lowercase(s);
        let xml = String::from_str("xml");
        if lower == xml {
            ResponseFormat::Xml
        } else {
            ResponseFormat::Json
        }
    }

    /// The `Content-Type` header value for this format.
    pub fn content_type(&self) -> (t: &'static str)
        ensures
            t@ == content_type_of(*self),
    {
        match self {
            ResponseFormat::Json => "application/json; charset=utf-8",
            ResponseFormat::Xml => "application/xml; charset=utf-8",
        }
    }
}

} // verus!
