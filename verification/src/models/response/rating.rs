//! Rating responses.

use vstd::prelude::*;
use crate::text::{int_decimal, push_i64_decimal};
use crate::models::response::common::ToXml;

verus! {

/// The `rating` wrapper.
#[derive(Debug, Clone)]
pub struct RatingResponseWrapper {
    pub rating: RatingResponse,
}

/// A user's rating of an item.
#[derive(Debug, Clone)]
pub struct RatingResponse {
    pub id: String,
    pub rating: i32,
}

impl ToXml for RatingResponseWrapper {
    open spec fn xml_spec(&self) -> Seq<char> {
        self.rating.xml_spec()
    }

    fn to_xml_element(&self) -> (r: String) {
        self.rating.to_xml_element()
    }
}

impl ToXml for RatingResponse {
    open spec fn xml_spec(&self) -> Seq<char> {
        "<rating id=\""@
            + self.id@
            + "\" rating=\""@
            + int_decimal(self.rating as int)
            + "\"/>"@
    }

    fn to_xml_element(&self) -> (r: String) {
        let mut r = String::new();
        r.append("<rating id=\"");
        r.append(self.id.as_str());
        r.append("\" rating=\"");
        push_i64_decimal(&mut r, self.rating as i64);
        r.append("\"/>");
        assert(r@ =~= self.xml_spec());
        r
    }
}

} // verus!
