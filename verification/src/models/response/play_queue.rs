//! Play queue responses.

use vstd::prelude::*;
use crate::text::{int_decimal, opt_str_attr, push_i64_decimal, push_opt_str_attr};
use crate::models::response::common::{ToXml, xml_concat, push_all};
use crate::models::response::song::Song;

verus! {

/// A user's saved play queue.
#[derive(Debug, Clone)]
pub struct PlayQueueResponse {
    pub current: Option<String>,
    pub position: i64,
    pub username: String,
    pub changed: String,
    pub changed_by: String,
    pub entries: Vec<Song>,
}

/// The `playQueue` wrapper.
#[derive(Debug, Clone)]
pub struct PlayQueueWrapper {
    pub play_queue: PlayQueueResponse,
}

impl ToXml for PlayQueueResponse {
    open spec fn xml_spec(&self) -> Seq<char> {
        "<playQueue"@
            + opt_str_attr(" current=\""@, self.current)
            + " position=\""@
            + int_decimal(self.position as int)
            + "\""@
            + " username=\""@
            + self.username@
            + "\""@
            + " changed=\""@
            + self.changed@
            + "\""@
            + " changedBy=\""@
            + self.changed_by@
            + "\""@
            + ">"@
            + xml_concat(self.entries@)
            + "</playQueue>"@
    }

    fn to_xml_element(&self) -> (r: String) {
        let mut r = String::new();
        r.append("<playQueue");
        push_opt_str_attr(&mut r, " current=\"", &self.current);
        r.append(" position=\"");
        push_i64_decimal(&mut r, self.position as i64);
        r.append("\"");
        r.append(" username=\"");
        r.append(self.username.as_str());
        r.append("\"");
        r.append(" changed=\"");
        r.append(self.changed.as_str());
        r.append("\"");
        r.append(" changedBy=\"");
        r.append(self.changed_by.as_str());
        r.append("\"");
        r.append(">");
        push_all(&mut r, &self.entries);
        r.append("</playQueue>");
        assert(r@ =~= self.xml_spec());
        r
    }
}

impl ToXml for PlayQueueWrapper {
    open spec fn xml_spec(&self) -> Seq<char> {
        self.play_queue.xml_spec()
    }

    fn to_xml_element(&self) -> (r: String) {
        self.play_queue.to_xml_element()
    }
}

} // verus!
