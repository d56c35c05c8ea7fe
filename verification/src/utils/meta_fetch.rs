//! Cover art lookup on the Kugou music service: the request addresses and
//! what is taken from the replies.

use vstd::prelude::*;
use crate::text::{replace_all, replace_all_of, str_contains, contains_seq, int_decimal, push_i64_decimal};

verus! {

/// The size requested for cover images.
pub const DEFAULT_SIZE: &'static str = "600";
/// Song search; `{}` stands for the keyword.
pub const KUGOU_META_URL: &'static str = "http://mobilecdn.kugou.com/api/v3/search/song?format=json&keyword={}&page=1&pagesize=20&showtype=1";
/// Album search; `{}` stands for the keyword.
pub const KUGOU_ALBUM_URL: &'static str = "http://mobilecdn.kugou.com/api/v3/search/album?keyword={}";
/// Singer search; `{}` stands for the keyword.
pub const KUGOU_ARTISTS_URL: &'static str = "http://mobilecdn.kugou.com/api/v3/search/singer?keyword={}&page=1&pagesize=20";
/// Singer details; `{}` stands for the singer id.
pub const KUGOU_ARTIST_URL: &'static str = "http://mobilecdn.kugou.com/api/v3/singer/info?singerid={}&with_res_tag=1";

/// An album found by an album search.
#[derive(Debug, Clone)]
pub struct KugouAlbum {
    pub albumname: Option<String>,
    pub imgurl: Option<String>,
}

/// A singer found by a singer search.
#[derive(Debug, Clone)]
pub struct KugouArtists {
    pub singername: Option<String>,
    pub singerid: Option<i32>,
}

/// A singer's details.
#[derive(Debug, Clone)]
pub struct KugouArtist {
    pub singername: Option<String>,
    pub singerid: Option<i32>,
    pub imgurl: Option<String>,
}

/// A request address: the template with each `{}` replaced by the value.
pub open spec fn url_of(template: Seq<char>, value: Seq<char>) -> Seq<char> {
    replace_all_of(template, "{}"@, value)
}

/// The address of an album search for the keyword.
pub fn album_search_url(keyword: &str) -> (u: String)
    ensures
        u@ == url_of(KUGOU_ALBUM_URL@, keyword@),
{
    proof { reveal_strlit("{}"); }
    replace_all(KUGOU_ALBUM_URL, "{}", keyword)
}

/// The address of a singer search for the keyword.
pub fn singer_search_url(keyword: &str) -> (u: String)
    ensures
        u@ == url_of(KUGOU_ARTISTS_URL@, keyword@),
{
    proof { reveal_strlit("{}"); }
    replace_all(KUGOU_ARTISTS_URL, "{}", keyword)
}

/// The address of a singer's details.
pub fn singer_info_url(singer_id: i32) -> (u: String)
    ensures
        u@ == url_of(KUGOU_ARTIST_URL@, int_decimal(singer_id as int)),
{
    proof { reveal_strlit("{}"); }
    let mut id = String::new();
    push_i64_decimal(&mut id, singer_id as i64);
    replace_all(KUGOU_ARTIST_URL, "{}", id.as_str())
}

/// An image address at the default size: each `{size}` replaced by `600`.
pub open spec fn sized_image_of(url: Seq<char>) -> Seq<char> {
    replace_all_of(url, "{size}"@, "600"@)
}

/// The image address at the default size.
pub fn sized_image(url: &str) -> (u: String)
    ensures
        u@ == sized_image_of(url@),
{
    proof { reveal_strlit("{size}"); }
    replace_all(url, "{size}", DEFAULT_SIZE)
}

/// A reply is usable when its status is 1 and its error code 0; otherwise
/// the message says which was wrong (the status first).
pub fn check_reply(status: i32, errcode: i32) -> (r: Result<(), String>)
    ensures
        status != 1 ==> (r matches Err(m) && m@ == "status="@ + int_decimal(status as int) + " not 1"@),
        status == 1 && errcode != 0 ==> (r matches Err(m) && m@ == "errcode="@ + int_decimal(errcode as int) + " not 0"@),
        status == 1 && errcode == 0 ==> r is Ok,
{
    if status != 1 {
        let mut m = String::from_str("status=");
        push_i64_decimal(&mut m, status as i64);
        m.append(" not 1");
        return Err(m);
    }
    if errcode != 0 {
        let mut m = String::from_str("errcode=");
        push_i64_decimal(&mut m, errcode as i64);
        m.append(" not 0");
        return Err(m);
    }
    Ok(())
}

/// A name contains the keyword.
pub open spec fn name_matches(name: Option<String>, keyword: Seq<char>) -> bool {
    name matches Some(n) && contains_seq(n@, keyword)
}

/// The index of the first entry from `i` on whose name contains the
/// keyword, or 0 when none does.
pub open spec fn first_match_from(names: Seq<Option<String>>, keyword: Seq<char>, i: int) -> int
    decreases names.len() - i,
{
    if i < 0 || i >= names.len() {
        0
    } else if name_matches(names[i], keyword) {
        i
    } else {
        first_match_from(names, keyword, i + 1)
    }
}

/// The entry chosen among search results: the first whose name contains
/// the keyword, else the first one.
pub fn pick_match(names: &Vec<Option<String>>, keyword: &str) -> (k: usize)
    ensures
        k == first_match_from(names@, keyword@, 0),
        names.len() > 0 ==> k < names.len(),
{
    let n = names.len();
    let mut i: usize = 0;
    while i < n
        invariant
            n == names@.len(),
            i <= n,
            first_match_from(names@, keyword@, 0) == first_match_from(names@, keyword@, i as int),
        decreases n - i,
    {
        let hit = match &names[i] {
            Some(name) => str_contains(name.as_str(), keyword),
            None => false,
        };
        if hit {
            return i;
        }
        i = i + 1;
    }
    0
}

/// The album names of search results.
pub open spec fn album_names(v: Seq<KugouAlbum>) -> Seq<Option<String>> {
    v.map_values(|a: KugouAlbum| a.albumname)
}

/// The singer names of search results.
pub open spec fn singer_names(v: Seq<KugouArtists>) -> Seq<Option<String>> {
    v.map_values(|a: KugouArtists| a.singername)
}

/// The message of a cover that could not be found.
pub open spec fn cover_not_found(keyword: Seq<char>) -> Seq<char> {
    "cover not found "@ + keyword
}

/// The album cover address taken from an album search: from the chosen
/// album (see `pick_match`), at the default size.
pub fn album_cover_url(infos: Option<Vec<KugouAlbum>>, keyword: &str) -> (r: Result<String, String>)
    ensures
        (match infos {
            None => r matches Err(m) && m@ == cover_not_found(keyword@),
            Some(v) => if v.len() == 0 {
                r matches Err(m) && m@ == "info is empty"@
            } else {
                match v@[first_match_from(album_names(v@), keyword@, 0)].imgurl {
                    Some(u) => r matches Ok(c) && c@ == sized_image_of(u@),
                    None => r matches Err(m) && m@ == cover_not_found(keyword@),
                }
            },
        }),
{
    let not_found = String::from_str("cover not found ").concat(keyword);
    let v = match infos {
        Some(v) => v,
        None => return Err(not_found),
    };
    if v.len() == 0 {
        return Err(String::from_str("info is empty"));
    }
    let mut names: Vec<Option<String>> = Vec::new();
    let mut i: usize = 0;
    while i < v.len()
        invariant
            i <= v.len(),
            names.len() == i,
            forall|k: int| 0 <= k < i ==> #[trigger] names@[k] == v@[k].albumname,
        decreases v.len() - i,
    {
        names.push(v[i].albumname.clone());
        i = i + 1;
    }
    assert(names@ =~= album_names(v@));
    let k = pick_match(&names, keyword);
    match &v[k].imgurl {
        Some(u) => Ok(sized_image(u.as_str())),
        None => Err(not_found),
    }
}

/// The singer id taken from a singer search: the chosen singer's (see
/// `pick_match`).
pub fn singer_id(data: Vec<KugouArtists>, keyword: &str) -> (r: Result<i32, String>)
    ensures
        data.len() == 0 ==> (r matches Err(m) && m@ == "data is empty"@),
        data.len() > 0 ==> (match data@[first_match_from(singer_names(data@), keyword@, 0)].singerid {
            Some(id) => r == Ok::<i32, String>(id),
            None => r matches Err(m) && m@ == "singer id not found "@ + keyword@,
        }),
{
    if data.len() == 0 {
        return Err(String::from_str("data is empty"));
    }
    let mut names: Vec<Option<String>> = Vec::new();
    let mut i: usize = 0;
    while i < data.len()
        invariant
            i <= data.len(),
            names.len() == i,
            forall|k: int| 0 <= k < i ==> #[trigger] names@[k] == data@[k].singername,
        decreases data.len() - i,
    {
        names.push(data[i].singername.clone());
        i = i + 1;
    }
    assert(names@ =~= singer_names(data@));
    let k = pick_match(&names, keyword);
    match data[k].singerid {
        Some(id) => Ok(id),
        None => Err(String::from_str("singer id not found ").concat(keyword)),
    }
}

/// The singer's cover address at the default size, from the singer's
/// details.
pub fn artist_cover_url(imgurl: Option<String>, keyword: &str) -> (r: Result<String, String>)
    ensures
        (match imgurl {
            Some(u) => r matches Ok(c) && c@ == sized_image_of(u@),
            None => r matches Err(m) && m@ == "artist cover not found "@ + keyword@,
        }),
{
    match imgurl {
        Some(u) => Ok(sized_image(u.as_str())),
        None => Err(String::from_str("artist cover not found ").concat(keyword)),
    }
}

} // verus!
