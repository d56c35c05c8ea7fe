//! The response envelope, the XML rendering trait, and the smaller response
//! bodies.

use vstd::prelude::*;
use crate::text::{contains_seq, starts_with, ends_with, lemma_contains_grows, lemma_contains_grows_left, lemma_contains_right_part, lemma_starts_with_grows, lemma_starts_with_self, lemma_ends_with_right_part, bool_text, int_decimal, escape_seq, opt_str_attr, opt_esc_attr, opt_int_attr, opt_i32, html_escape, push_bool, push_i64_decimal, push_opt_str_attr, push_opt_esc_attr, push_opt_i32_attr};
use crate::models::response::artist::ArtistResponse;

verus! {

/// Rendering of a response body as an XML element.
pub trait ToXml {
    /// The XML text of this value.
    spec fn xml_spec(&self) -> Seq<char>;

    /// Serialises this value as an XML element.
    fn to_xml_element(&self) -> (r: String)
        ensures
            r@ == self.xml_spec(),
    ;
}

impl ToXml for () {
    open spec fn xml_spec(&self) -> Seq<char> {
        Seq::empty()
    }

    fn to_xml_element(&self) -> (r: String) {
        String::new()
    }
}

/// The XML of each item of a sequence, concatenated in order.
pub open spec fn xml_concat<T: ToXml>(items: Seq<T>) -> Seq<char>
    decreases items.len(),
{
    if items.len() == 0 {
        Seq::empty()
    } else {
        xml_concat(items.drop_last()) + items.last().xml_spec()
    }
}

/// The XML of two runs of items is the XML of the first run followed by
/// that of the second: items keep their order.
pub proof fn lemma_xml_concat_append<T: ToXml>(a: Seq<T>, b: Seq<T>)
    ensures
        xml_concat(a + b) == xml_concat(a) + xml_concat(b),
    decreases b.len(),
{
    if b.len() == 0 {
        assert(a + b =~= a);
        assert(xml_concat(a) + xml_concat(b) =~= xml_concat(a));
    } else {
        lemma_xml_concat_append(a, b.drop_last());
        assert((a + b).drop_last() =~= a + b.drop_last());
        assert((a + b).last() == b.last());
        assert(xml_concat(a) + xml_concat(b.drop_last()) + b.last().xml_spec()
            =~= xml_concat(a) + (xml_concat(b.drop_last()) + b.last().xml_spec()));
    }
}

/// Every item's XML appears in the XML of the sequence.
pub proof fn lemma_xml_concat_has_items<T: ToXml>(items: Seq<T>)
    ensures
        forall|i: int| 0 <= i < items.len() ==> contains_seq(xml_concat(items), #[trigger] items[i].xml_spec()),
    decreases items.len(),
{
    broadcast use lemma_contains_grows, lemma_contains_right_part;
    if items.len() > 0 {
        let init = items.drop_last();
        lemma_xml_concat_has_items(init);
        assert forall|i: int| 0 <= i < items.len() implies contains_seq(xml_concat(items), #[trigger] items[i].xml_spec()) by {
            if i < init.len() {
                assert(items[i] == init[i]);
                assert(contains_seq(xml_concat(init), init[i].xml_spec()));
            }
        }
    }
}

/// Appends the XML of each item, in order.
pub fn push_all<T: ToXml>(out: &mut String, items: &Vec<T>)
    ensures
        final(out)@ == old(out)@ + xml_concat(items@),
{
    let ghost start = out@;
    let n = items.len();
    let mut i: usize = 0;
    while i < n
        invariant
            n == items@.len(),
            i <= n,
            out@ == start + xml_concat(items@.take(i as int)),
        decreases n - i,
    {
        let x = items[i].to_xml_element();
        out.append(x.as_str());
        assert(items@.take(i as int + 1).drop_last() =~= items@.take(i as int));
        i = i + 1;
    }
    assert(items@.take(n as int) =~= items@);
}

/// The XML of the items of an optional list; nothing when absent.
pub open spec fn opt_xml_concat<T: ToXml>(items: Option<Vec<T>>) -> Seq<char> {
    match items {
        Some(v) => xml_concat(v@),
        None => Seq::empty(),
    }
}

/// Appends the XML of each item of an optional list.
pub fn push_opt_all<T: ToXml>(out: &mut String, items: &Option<Vec<T>>)
    ensures
        final(out)@ == old(out)@ + opt_xml_concat(*items),
{
    match items {
        Some(v) => push_all(out, v),
        None => {
            assert(final(out)@ =~= old(out)@ + opt_xml_concat(*items));
        },
    }
}


/// A Subsonic error: numeric code and message.
#[derive(Debug, Clone)]
pub struct SubsonicError {
    pub code: i32,
    pub message: String,
}

/// The body of every Subsonic response.
#[derive(Debug, Clone)]
pub struct ResponseContainer<T> {
    /// `ok` or `failed`.
    pub status: String,
    /// The API version.
    pub version: String,
    /// The error, present only on failure.
    pub error: Option<SubsonicError>,
    /// The payload, present only on success.
    pub data: Option<T>,
}

/// The Subsonic response envelope.
#[derive(Debug, Clone)]
pub struct SubsonicResponse<T> {
    pub response: ResponseContainer<T>,
}

/// The API version every response reports.
pub open spec fn api_version() -> Seq<char> {
    "1.16.1"@
}

/// `r` is a successful envelope around `data`.
pub open spec fn is_ok_response<T>(r: SubsonicResponse<T>, data: Option<T>) -> bool {
    &&& r.response.status@ == "ok"@
    &&& r.response.version@ == api_version()
    &&& r.response.error is None
    &&& r.response.data == data
}

/// `r` is a failed envelope with the given code and message.
pub open spec fn is_failed_response<T>(r: SubsonicResponse<T>, code: i32, message: String) -> bool {
    &&& r.response.status@ == "failed"@
    &&& r.response.version@ == api_version()
    &&& r.response.error == Some(SubsonicError { code, message })
    &&& r.response.data is None
}

/// The JSON and XML forms of a success carry the same envelope: whatever
/// the format, status, version, error and payload agree.
pub proof fn lemma_ok_forms_agree<T>(a: SubsonicResponse<T>, b: SubsonicResponse<T>, data: Option<T>)
    requires
        is_ok_response(a, data),
        is_ok_response(b, data),
    ensures
        a.response.status@ == b.response.status@,
        a.response.version@ == b.response.version@,
        a.response.error == b.response.error,
        a.response.data == b.response.data,
{
}

/// Likewise for failures.
pub proof fn lemma_failed_forms_agree<T>(a: SubsonicResponse<T>, b: SubsonicResponse<T>, code: i32, message: String)
    requires
        is_failed_response(a, code, message),
        is_failed_response(b, code, message),
    ensures
        a.response.status@ == b.response.status@,
        a.response.version@ == b.response.version@,
        a.response.error == b.response.error,
        a.response.data == b.response.data,
{
}

/// A response is never both a success and a failure.
pub proof fn lemma_ok_not_failed<T>(r: SubsonicResponse<T>, data: Option<T>, code: i32, message: String)
    requires
        is_ok_response(r, data),
    ensures
        !is_failed_response(r, code, message),
{
    reveal_strlit("ok");
    reveal_strlit("failed");
    assert("ok"@.len() != "failed"@.len());
}

/// The XML declaration that opens every XML response, on a line of its own.
pub open spec fn xml_declaration() -> Seq<char> {
    "<?xml version=\"1.0\" encoding=\"UTF-8\"?>\n"@
}

/// The XML text of an envelope: the XML declaration, then the root element
/// with namespace, status,
/// version and server version, then the payload, or else the error, or else
/// nothing.
pub open spec fn envelope_xml<T: ToXml>(r: SubsonicResponse<T>) -> Seq<char> {
    xml_declaration() + "<subsonic-response xmlns=\"http:/\x2Fsubsonic.org/restapi\""@
        + " status=\""@ + r.response.status@ + "\""@
        + " version=\""@ + r.response.version@ + "\""@
        + " serverVersion=\"1.0.0\""@
        + match r.response.data {
            Some(d) => ">"@ + d.xml_spec() + "</subsonic-response>"@,
            None => match r.response.error {
                Some(e) => ">"@ + "<error code=\""@ + int_decimal(e.code as int) + "\" message=\""@
                    + escape_seq(e.message@) + "\"/>"@ + "</subsonic-response>"@,
                None => "></subsonic-response\n>"@,
            },
        }
}

impl<T> SubsonicResponse<T> {
    /// A successful response carrying `data` (JSON form).
    pub fn ok(data: Option<T>) -> (r: Self)
        ensures
            is_ok_response(r, data),
    {
        SubsonicResponse {
            response: ResponseContainer {
                status: String::from_str("ok"),
                version: String::from_str("1.16.1"),
                error: None,
                data,
            },
        }
    }

    /// A successful response carrying `data` (XML form; the same envelope).
    pub fn ok_xml(data: Option<T>) -> (r: Self)
        ensures
            is_ok_response(r, data),
    {
        SubsonicResponse {
            response: ResponseContainer {
                status: String::from_str("ok"),
                version: String::from_str("1.16.1"),
                error: None,
                data,
            },
        }
    }

    /// A failed response with an error code and message (JSON form).
    pub fn failed(code: i32, message: String) -> (r: Self)
        ensures
            is_failed_response(r, code, message),
    {
        SubsonicResponse {
            response: ResponseContainer {
                status: String::from_str("failed"),
                version: String::from_str("1.16.1"),
                error: Some(SubsonicError { code, message }),
                data: None,
            },
        }
    }

    /// A failed response with an error code and message (XML form; the same
    /// envelope).
    pub fn failed_xml(code: i32, message: String) -> (r: Self)
        ensures
            is_failed_response(r, code, message),
    {
        SubsonicResponse {
            response: ResponseContainer {
                status: String::from_str("failed"),
                version: String::from_str("1.16.1"),
                error: Some(SubsonicError { code, message }),
                data: None,
            },
        }
    }
}

impl<T: ToXml> SubsonicResponse<T> {
    /// Serialises the envelope as XML.
    pub fn to_xml(&self) -> (x: String)
        ensures
            x@ == envelope_xml(*self),
    {
        let response = &self.response;
        let mut xml = String::from_str("<?xml version=\"1.0\" encoding=\"UTF-8\"?>\n");
        xml.append("<subsonic-response xmlns=\"http:/\x2Fsubsonic.org/restapi\"");
        xml.append(" status=\"");
        xml.append(response.status.as_str());
        xml.append("\"");
        xml.append(" version=\"");
        xml.append(response.version.as_str());
        xml.append("\"");
        xml.append(" serverVersion=\"1.0.0\"");
        match &response.data {
            Some(data) => {
                xml.append(">");
                let e = data.to_xml_element();
                xml.append(e.as_str());
                xml.append("</subsonic-response>");
            },
            None => match &response.error {
                Some(error) => {
                    xml.append(">");
                    xml.append("<error code=\"");
                    push_i64_decimal(&mut xml, error.code as i64);
                    xml.append("\" message=\"");
                    let m = html_escape(error.message.as_str());
                    xml.append(m.as_str());
                    xml.append("\"/>");
                    xml.append("</subsonic-response>");
                },
                None => {
                    xml.append("></subsonic-response\n>");
                },
            },
        }
        assert(xml@ =~= envelope_xml(*self));
        xml
    }
}

/// System information.
#[derive(Debug, Clone)]
pub struct SystemInfo {
    pub version: String,
    pub server: String,
    pub kind: String,
}

/// License information.
#[derive(Debug, Clone)]
pub struct License {
    pub valid: bool,
    pub email: String,
    pub key: String,
}

/// Library scan status.
#[derive(Debug, Clone)]
pub struct ScanStatus {
    pub scanning: bool,
    pub count: i32,
}

/// A directory and its children.
#[derive(Debug, Clone)]
pub struct Directory {
    pub id: String,
    pub name: String,
    pub parent: Option<String>,
    pub child: Vec<Child>,
}

/// An entry of a directory.
#[derive(Debug, Clone)]
pub struct Child {
    pub id: String,
    pub title: String,
    pub artist: Option<String>,
    pub album: Option<String>,
    pub is_dir: bool,
    pub cover_art: Option<String>,
    pub duration: Option<i32>,
    pub play_count: Option<i32>,
}

/// Information about an artist.
#[derive(Debug, Clone)]
pub struct ArtistInfo {
    pub biography: Option<String>,
    pub music_brainz_id: Option<String>,
    pub last_fm_url: Option<String>,
    pub similar_artists: Option<SimilarArtists>,
}

/// Artists similar to another.
#[derive(Debug, Clone)]
pub struct SimilarArtists {
    pub artists: Vec<ArtistResponse>,
}

/// The `lyrics` wrapper.
#[derive(Debug, Clone)]
pub struct LyricsResponse {
    pub lyrics: Lyrics,
}

/// The lyrics of a song.
#[derive(Debug, Clone)]
pub struct Lyrics {
    pub artist: Option<String>,
    pub title: Option<String>,
    pub text: Option<String>,
}

/// Chat messages.
#[derive(Debug, Clone)]
pub struct ChatMessages {
    pub messages: Vec<ChatMessage>,
}

/// One chat message.
#[derive(Debug, Clone)]
pub struct ChatMessage {
    pub id: String,
    pub username: String,
    pub message: String,
    pub time: i64,
}

/// What users are playing now.
#[derive(Debug, Clone)]
pub struct NowPlaying {
    pub entries: Vec<NowPlayingEntry>,
}

/// One user's current song.
#[derive(Debug, Clone)]
pub struct NowPlayingEntry {
    pub id: String,
    pub title: String,
    pub artist: String,
    pub username: String,
    pub minutes_ago: i32,
}

/// A list of videos.
#[derive(Debug, Clone)]
pub struct Videos {
    pub videos: Vec<Video>,
}

/// One video.
#[derive(Debug, Clone)]
pub struct Video {
    pub id: String,
    pub title: String,
    pub content_type: String,
}

/// Information about a video.
#[derive(Debug, Clone)]
pub struct VideoInfo {
    pub id: String,
    pub title: String,
    pub captions: Option<Captions>,
}

/// Captions of a video.
#[derive(Debug, Clone)]
pub struct Captions {
    pub id: String,
    pub label: String,
}

/// An HLS playlist location.
#[derive(Debug, Clone)]
pub struct Hls {
    pub url: String,
}

impl ToXml for LyricsResponse {
    open spec fn xml_spec(&self) -> Seq<char> {
        self.lyrics.xml_spec()
    }

    fn to_xml_element(&self) -> (r: String) {
        self.lyrics.to_xml_element()
    }
}

impl ToXml for Lyrics {
    open spec fn xml_spec(&self) -> Seq<char> {
        "<lyrics"@
            + opt_esc_attr(" artist=\""@, self.artist)
            + opt_esc_attr(" title=\""@, self.title)
            + match self.text {
                Some(t) => ">"@ + escape_seq(t@) + "</lyrics>"@,
                None => "/>"@,
            }
    }

    fn to_xml_element(&self) -> (r: String) {
        let mut r = String::from_str("<lyrics");
        push_opt_esc_attr(&mut r, " artist=\"", &self.artist);
        push_opt_esc_attr(&mut r, " title=\"", &self.title);
        match &self.text {
            Some(t) => {
                r.append(">");
                let e = html_escape(t.as_str());
                r.append(e.as_str());
                r.append("</lyrics>");
            },
            None => {
                r.append("/>");
            },
        }
        assert(r@ =~= self.xml_spec());
        r
    }
}

impl ToXml for NowPlaying {
    open spec fn xml_spec(&self) -> Seq<char> {
        "<nowPlaying>"@
            + xml_concat(self.entries@)
            + "</nowPlaying>"@
    }

    fn to_xml_element(&self) -> (r: String) {
        let mut r = String::new();
        r.append("<nowPlaying>");
        push_all(&mut r, &self.entries);
        r.append("</nowPlaying>");
        assert(r@ =~= self.xml_spec());
        r
    }
}

impl ToXml for NowPlayingEntry {
    open spec fn xml_spec(&self) -> Seq<char> {
        "<entry id=\""@
            + escape_seq(self.id@)
            + "\" title=\""@
            + escape_seq(self.title@)
            + "\" artist=\""@
            + escape_seq(self.artist@)
            + "\" username=\""@
            + escape_seq(self.username@)
            + "\" minutesAgo=\""@
            + int_decimal(self.minutes_ago as int)
            + "\"/>"@
    }

    fn to_xml_element(&self) -> (r: String) {
        let mut r = String::new();
        r.append("<entry id=\"");
        let e = html_escape(self.id.as_str());
        r.append(e.as_str());
        r.append("\" title=\"");
        let e = html_escape(self.title.as_str());
        r.append(e.as_str());
        r.append("\" artist=\"");
        let e = html_escape(self.artist.as_str());
        r.append(e.as_str());
        r.append("\" username=\"");
        let e = html_escape(self.username.as_str());
        r.append(e.as_str());
        r.append("\" minutesAgo=\"");
        push_i64_decimal(&mut r, self.minutes_ago as i64);
        r.append("\"/>");
        assert(r@ =~= self.xml_spec());
        r
    }
}

impl ToXml for ChatMessages {
    open spec fn xml_spec(&self) -> Seq<char> {
        "<chatMessages>"@
            + xml_concat(self.messages@)
            + "</chatMessages>"@
    }

    fn to_xml_element(&self) -> (r: String) {
        let mut r = String::new();
        r.append("<chatMessages>");
        push_all(&mut r, &self.messages);
        r.append("</chatMessages>");
        assert(r@ =~= self.xml_spec());
        r
    }
}

impl ToXml for ChatMessage {
    open spec fn xml_spec(&self) -> Seq<char> {
        "<chatMessage username=\""@
            + escape_seq(self.username@)
            + "\" time=\""@
            + int_decimal(self.time as int)
            + "\" message=\""@
            + escape_seq(self.message@)
            + "\"/>"@
    }

    fn to_xml_element(&self) -> (r: String) {
        let mut r = String::new();
        r.append("<chatMessage username=\"");
        let e = html_escape(self.username.as_str());
        r.append(e.as_str());
        r.append("\" time=\"");
        push_i64_decimal(&mut r, self.time as i64);
        r.append("\" message=\"");
        let e = html_escape(self.message.as_str());
        r.append(e.as_str());
        r.append("\"/>");
        assert(r@ =~= self.xml_spec());
        r
    }
}

impl ToXml for Videos {
    open spec fn xml_spec(&self) -> Seq<char> {
        "<videos>"@
            + xml_concat(self.videos@)
            + "</videos>"@
    }

    fn to_xml_element(&self) -> (r: String) {
        let mut r = String::new();
        r.append("<videos>");
        push_all(&mut r, &self.videos);
        r.append("</videos>");
        assert(r@ =~= self.xml_spec());
        r
    }
}

impl ToXml for Video {
    open spec fn xml_spec(&self) -> Seq<char> {
        "<video id=\""@
            + escape_seq(self.id@)
            + "\" title=\""@
            + escape_seq(self.title@)
            + "\" contentType=\""@
            + escape_seq(self.content_type@)
            + "\"/>"@
    }

    fn to_xml_element(&self) -> (r: String) {
        let mut r = String::new();
        r.append("<video id=\"");
        let e = html_escape(self.id.as_str());
        r.append(e.as_str());
        r.append("\" title=\"");
        let e = html_escape(self.title.as_str());
        r.append(e.as_str());
        r.append("\" contentType=\"");
        let e = html_escape(self.content_type.as_str());
        r.append(e.as_str());
        r.append("\"/>");
        assert(r@ =~= self.xml_spec());
        r
    }
}

impl ToXml for VideoInfo {
    open spec fn xml_spec(&self) -> Seq<char> {
        "<videoInfo id=\""@ + escape_seq(self.id@) + "\" title=\""@ + escape_seq(self.title@) + "\""@
            + match self.captions {
                Some(c) => ">"@ + c.xml_spec() + "</videoInfo>"@,
                None => "/>"@,
            }
    }

    fn to_xml_element(&self) -> (r: String) {
        let mut r = String::from_str("<videoInfo id=\"");
        let id = html_escape(self.id.as_str());
        r.append(id.as_str());
        r.append("\" title=\"");
        let title = html_escape(self.title.as_str());
        r.append(title.as_str());
        r.append("\"");
        match &self.captions {
            Some(c) => {
                r.append(">");
                let e = c.to_xml_element();
                r.append(e.as_str());
                r.append("</videoInfo>");
            },
            None => {
                r.append("/>");
            },
        }
        assert(r@ =~= self.xml_spec());
        r
    }
}

impl ToXml for Captions {
    open spec fn xml_spec(&self) -> Seq<char> {
        "<captions id=\""@
            + escape_seq(self.id@)
            + "\" label=\""@
            + escape_seq(self.label@)
            + "\"/>"@
    }

    fn to_xml_element(&self) -> (r: String) {
        let mut r = String::new();
        r.append("<captions id=\"");
        let e = html_escape(self.id.as_str());
        r.append(e.as_str());
        r.append("\" label=\"");
        let e = html_escape(self.label.as_str());
        r.append(e.as_str());
        r.append("\"/>");
        assert(r@ =~= self.xml_spec());
        r
    }
}

impl ToXml for Hls {
    open spec fn xml_spec(&self) -> Seq<char> {
        "<hls url=\""@
            + escape_seq(self.url@)
            + "\"/>"@
    }

    fn to_xml_element(&self) -> (r: String) {
        let mut r = String::new();
        r.append("<hls url=\"");
        let e = html_escape(self.url.as_str());
        r.append(e.as_str());
        r.append("\"/>");
        assert(r@ =~= self.xml_spec());
        r
    }
}

impl ToXml for Directory {
    open spec fn xml_spec(&self) -> Seq<char> {
        "<directory id=\""@
            + self.id@
            + "\" name=\""@
            + self.name@
            + "\""@
            + opt_str_attr(" parent=\""@, self.parent)
            + ">"@
            + xml_concat(self.child@)
            + "</directory>"@
    }

    fn to_xml_element(&self) -> (r: String) {
        let mut r = String::new();
        r.append("<directory id=\"");
        r.append(self.id.as_str());
        r.append("\" name=\"");
        r.append(self.name.as_str());
        r.append("\"");
        push_opt_str_attr(&mut r, " parent=\"", &self.parent);
        r.append(">");
        push_all(&mut r, &self.child);
        r.append("</directory>");
        assert(r@ =~= self.xml_spec());
        r
    }
}

impl ToXml for Child {
    open spec fn xml_spec(&self) -> Seq<char> {
        "<child id=\""@
            + self.id@
            + "\" title=\""@
            + self.title@
            + "\" isDir=\""@
            + bool_text(self.is_dir)
            + "\""@
            + opt_str_attr(" artist=\""@, self.artist)
            + opt_str_attr(" album=\""@, self.album)
            + opt_str_attr(" coverArt=\""@, self.cover_art)
            + opt_int_attr(" duration=\""@, opt_i32(self.duration))
            + opt_int_attr(" playCount=\""@, opt_i32(self.play_count))
            + "/>"@
    }

    fn to_xml_element(&self) -> (r: String) {
        let mut r = String::new();
        r.append("<child id=\"");
        r.append(self.id.as_str());
        r.append("\" title=\"");
        r.append(self.title.as_str());
        r.append("\" isDir=\"");
        push_bool(&mut r, self.is_dir);
        r.append("\"");
        push_opt_str_attr(&mut r, " artist=\"", &self.artist);
        push_opt_str_attr(&mut r, " album=\"", &self.album);
        push_opt_str_attr(&mut r, " coverArt=\"", &self.cover_art);
        push_opt_i32_attr(&mut r, " duration=\"", self.duration);
        push_opt_i32_attr(&mut r, " playCount=\"", self.play_count);
        r.append("/>");
        assert(r@ =~= self.xml_spec());
        r
    }
}

impl ToXml for ArtistInfo {
    open spec fn xml_spec(&self) -> Seq<char> {
        "<artistInfo"@
            + opt_str_attr(" musicBrainzId=\""@, self.music_brainz_id)
            + opt_str_attr(" lastFmUrl=\""@, self.last_fm_url)
            + ">"@
            + match self.biography {
                Some(b) => "<biography>"@ + escape_seq(b@) + "</biography>"@,
                None => Seq::empty(),
            }
            + match self.similar_artists {
                Some(s) => s.xml_spec(),
                None => Seq::empty(),
            }
            + "</artistInfo>"@
    }

    fn to_xml_element(&self) -> (r: String) {
        let mut r = String::from_str("<artistInfo");
        push_opt_str_attr(&mut r, " musicBrainzId=\"", &self.music_brainz_id);
        push_opt_str_attr(&mut r, " lastFmUrl=\"", &self.last_fm_url);
        r.append(">");
        match &self.biography {
            Some(b) => {
                r.append("<biography>");
                let e = html_escape(b.as_str());
                r.append(e.as_str());
                r.append("</biography>");
            },
            None => {},
        }
        match &self.similar_artists {
            Some(s) => {
                let e = s.to_xml_element();
                r.append(e.as_str());
            },
            None => {},
        }
        r.append("</artistInfo>");
        assert(r@ =~= self.xml_spec());
        r
    }
}

impl ToXml for SimilarArtists {
    open spec fn xml_spec(&self) -> Seq<char> {
        "<similarArtists>"@
            + xml_concat(self.artists@)
            + "</similarArtists>"@
    }

    fn to_xml_element(&self) -> (r: String) {
        let mut r = String::new();
        r.append("<similarArtists>");
        push_all(&mut r, &self.artists);
        r.append("</similarArtists>");
        assert(r@ =~= self.xml_spec());
        r
    }
}

/// The XML envelope opens with the XML declaration and the
/// `subsonic-response` root element, which carries the response's status
/// and version; it holds the payload when there is one, closing the root
/// element after it, and otherwise the error's code and escaped message.
pub proof fn lemma_envelope_xml_shape<T: ToXml>(r: SubsonicResponse<T>)
    ensures
        starts_with(envelope_xml(r), xml_declaration() + "<subsonic-response xmlns=\"http:/\x2Fsubsonic.org/restapi\""@),
        contains_seq(envelope_xml(r), " status=\""@ + r.response.status@ + "\""@),
        contains_seq(envelope_xml(r), " version=\""@ + r.response.version@ + "\""@),
        r.response.data matches Some(d) ==> contains_seq(envelope_xml(r), ">"@ + d.xml_spec() + "</subsonic-response>"@)
            && ends_with(envelope_xml(r), "</subsonic-response>"@),
        r.response.data is None ==> (r.response.error matches Some(e) ==> contains_seq(envelope_xml(r),
            "<error code=\""@ + int_decimal(e.code as int) + "\" message=\""@ + escape_seq(e.message@) + "\"/>"@)
            && ends_with(envelope_xml(r), "</subsonic-response>"@)),
{
    broadcast use lemma_contains_grows, lemma_contains_grows_left, lemma_contains_right_part,
        lemma_starts_with_grows, lemma_starts_with_self, lemma_ends_with_right_part;
    let head = xml_declaration() + "<subsonic-response xmlns=\"http:/\x2Fsubsonic.org/restapi\""@;
    let st = " status=\""@ + r.response.status@ + "\""@;
    let ve = " version=\""@ + r.response.version@ + "\""@;
    let sv = " serverVersion=\"1.0.0\""@;
    let body = match r.response.data {
        Some(d) => ">"@ + d.xml_spec() + "</subsonic-response>"@,
        None => match r.response.error {
            Some(e) => ">"@ + "<error code=\""@ + int_decimal(e.code as int) + "\" message=\""@
                + escape_seq(e.message@) + "\"/>"@ + "</subsonic-response>"@,
            None => "></subsonic-response\n>"@,
        },
    };
    assert(envelope_xml(r) =~= head + st + ve + sv + body);
    assert(envelope_xml(r) =~= head + (st + ve + sv + body));
    assert(envelope_xml(r) =~= (head + st) + (ve + sv + body));
    assert(envelope_xml(r) =~= (head + st + ve) + (sv + body));
    assert(contains_seq(head + st, st));
    assert(contains_seq(head + st + ve, ve));
    assert(starts_with(head, head));
    match r.response.data {
        Some(d) => {
            let b = ">"@ + d.xml_spec() + "</subsonic-response>"@;
            assert(body == b);
            assert(envelope_xml(r) =~= (head + st + ve + sv) + b);
            assert(contains_seq((head + st + ve + sv) + b, b));
            assert(b =~= (">"@ + d.xml_spec()) + "</subsonic-response>"@);
            assert(envelope_xml(r) =~= ((head + st + ve + sv) + (">"@ + d.xml_spec())) + "</subsonic-response>"@);
            assert(ends_with(((head + st + ve + sv) + (">"@ + d.xml_spec())) + "</subsonic-response>"@, "</subsonic-response>"@));
        },
        None => {
            match r.response.error {
                Some(e) => {
                    let er = "<error code=\""@ + int_decimal(e.code as int) + "\" message=\""@
                        + escape_seq(e.message@) + "\"/>"@;
                    assert(body =~= (">"@ + er) + "</subsonic-response>"@);
                    assert(envelope_xml(r) =~= ((head + st + ve + sv) + (">"@ + er)) + "</subsonic-response>"@);
                    assert(contains_seq(">"@ + er, er));
                },
                None => {},
            }
        },
    }
}

/// A list element opens with its tag, closes with its closing tag, and holds
/// the XML of every item.
pub proof fn lemma_wrapped_items<T: ToXml>(open: Seq<char>, items: Seq<T>, close: Seq<char>)
    ensures
        starts_with(open + xml_concat(items) + close, open),
        ends_with(open + xml_concat(items) + close, close),
        forall|i: int| 0 <= i < items.len() ==>
            contains_seq(open + xml_concat(items) + close, #[trigger] items[i].xml_spec()),
{
    broadcast use lemma_contains_grows, lemma_contains_grows_left, lemma_starts_with_grows,
        lemma_starts_with_self, lemma_ends_with_right_part;
    lemma_xml_concat_has_items(items);
    assert forall|i: int| 0 <= i < items.len() implies
        contains_seq(open + xml_concat(items) + close, #[trigger] items[i].xml_spec()) by {
        assert(contains_seq(xml_concat(items), items[i].xml_spec()));
        assert(contains_seq(open + xml_concat(items), items[i].xml_spec()));
    }
}

/// A directory element carries its id, name and parent, holds every child,
/// and closes with `</directory>`; a child element carries its id, title,
/// whether it is a directory, and every optional field that is present.
pub proof fn lemma_directory_xml_carries_fields(d: Directory, c: Child)
    ensures
        starts_with(d.xml_spec(), "<directory id=\""@ + d.id@ + "\" name=\""@ + d.name@ + "\""@),
        d.parent matches Some(p) ==> contains_seq(d.xml_spec(), " parent=\""@ + p@ + "\""@),
        ends_with(d.xml_spec(), "</directory>"@),
        forall|i: int| 0 <= i < d.child.len() ==> contains_seq(d.xml_spec(), #[trigger] d.child@[i].xml_spec()),
        starts_with(c.xml_spec(), "<child id=\""@ + c.id@ + "\" title=\""@ + c.title@ + "\" isDir=\""@
            + bool_text(c.is_dir) + "\""@),
        ends_with(c.xml_spec(), "/>"@),
        c.artist matches Some(a) ==> contains_seq(c.xml_spec(), " artist=\""@ + a@ + "\""@),
        c.album matches Some(a) ==> contains_seq(c.xml_spec(), " album=\""@ + a@ + "\""@),
        c.cover_art matches Some(a) ==> contains_seq(c.xml_spec(), " coverArt=\""@ + a@ + "\""@),
        c.duration matches Some(x) ==> contains_seq(c.xml_spec(), " duration=\""@ + int_decimal(x as int) + "\""@),
        c.play_count matches Some(x) ==> contains_seq(c.xml_spec(), " playCount=\""@ + int_decimal(x as int) + "\""@),
{
    broadcast use lemma_contains_grows, lemma_contains_grows_left, lemma_contains_right_part,
        lemma_starts_with_grows, lemma_starts_with_self, lemma_ends_with_right_part;
    lemma_xml_concat_has_items(d.child@);
    let head = "<directory id=\""@ + d.id@ + "\" name=\""@ + d.name@ + "\""@ + opt_str_attr(" parent=\""@, d.parent) + ">"@;
    assert forall|i: int| 0 <= i < d.child.len() implies contains_seq(d.xml_spec(), #[trigger] d.child@[i].xml_spec()) by {
        assert(contains_seq(xml_concat(d.child@), d.child@[i].xml_spec()));
        assert(contains_seq(head + xml_concat(d.child@), d.child@[i].xml_spec()));
    }
}

} // verus!
