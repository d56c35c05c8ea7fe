//! Cover art file naming and audio metadata assembly.

use vstd::prelude::*;
use crate::text::{parse_i32, parse_i32_spec, first_field, before_first, int_decimal, push_i64_decimal, to_lowercase, lowercase_of};
use crate::utils::paths::{path_exists, path_extension, path_extension_of};

verus! {

/// Metadata read from an audio file.
#[derive(Debug)]
pub struct AudioMetadata {
    pub title: Option<String>,
    pub artist: Option<String>,
    pub album: Option<String>,
    pub album_artist: Option<String>,
    pub genre: Option<String>,
    pub year: Option<i32>,
    pub track_number: Option<i32>,
    pub disc_number: Option<i32>,
    pub duration_secs: u64,
    pub bit_rate: Option<i32>,
    pub sample_rate: Option<i32>,
    pub channels: Option<u8>,
    pub content_type: String,
    pub file_size: Option<u64>,
    /// Media type and bytes of the embedded cover picture.
    pub cover_art_raw: Option<(String, Vec<u8>)>,
    pub lyrics: Option<String>,
}

/// The standard tag keys that metadata assembly looks at.
#[derive(Debug, Clone, Copy, PartialEq, Eq, Structural)]
pub enum TagKey {
    TrackTitle,
    Artist,
    Album,
    AlbumArtist,
    Genre,
    Date,
    ReleaseDate,
    TrackNumber,
    DiscNumber,
    Lyrics,
    /// Any other tag; it is ignored.
    Other,
}

/// One tag of an audio file: its key and its value as text.
#[derive(Debug)]
pub struct MetaTag {
    pub key: TagKey,
    pub value: String,
}

/// The year a date tag gives: the whole value as an integer, or else the
/// part before the first `-` as an integer.
pub open spec fn year_of(v: Seq<char>) -> Option<i32> {
    match parse_i32_spec(v) {
        Some(y) => Some(y),
        None => parse_i32_spec(before_first(v, '-')),
    }
}

/// The number a track or disc tag gives: the part before the first `/`
/// as an integer (`3/12` gives 3).
pub open spec fn number_of(v: Seq<char>) -> Option<i32> {
    parse_i32_spec(before_first(v, '/'))
}

/// Keeps `old` when `new` is absent.
pub open spec fn or_keep(new: Option<i32>, old: Option<i32>) -> Option<i32> {
    match new {
        Some(x) => Some(x),
        None => old,
    }
}

/// The metadata after reading one more tag: a text tag replaces its field,
/// a date or number tag replaces its field when it parses, other tags
/// change nothing.
pub open spec fn apply_tag(m: AudioMetadata, t: MetaTag) -> AudioMetadata {
    match t.key {
        TagKey::TrackTitle => AudioMetadata { title: Some(t.value), ..m },
        TagKey::Artist => AudioMetadata { artist: Some(t.value), ..m },
        TagKey::Album => AudioMetadata { album: Some(t.value), ..m },
        TagKey::AlbumArtist => AudioMetadata { album_artist: Some(t.value), ..m },
        TagKey::Genre => AudioMetadata { genre: Some(t.value), ..m },
        TagKey::Date | TagKey::ReleaseDate => AudioMetadata { year: or_keep(year_of(t.value@), m.year), ..m },
        TagKey::TrackNumber => AudioMetadata { track_number: or_keep(number_of(t.value@), m.track_number), ..m },
        TagKey::DiscNumber => AudioMetadata { disc_number: or_keep(number_of(t.value@), m.disc_number), ..m },
        TagKey::Lyrics => AudioMetadata { lyrics: Some(t.value), ..m },
        TagKey::Other => m,
    }
}

/// The metadata after reading the tags in order.
pub open spec fn apply_tags(m: AudioMetadata, tags: Seq<MetaTag>) -> AudioMetadata
    decreases tags.len(),
{
    if tags.len() == 0 {
        m
    } else {
        apply_tag(apply_tags(m, tags.drop_last()), tags.last())
    }
}

/// Metadata known from the codec alone: duration, sample rate and channel
/// count; every tag field empty.
pub open spec fn codec_metadata(m: AudioMetadata, duration_secs: u64, sample_rate: Option<u32>, channel_count: Option<usize>) -> bool {
    &&& m.title is None
    &&& m.artist is None
    &&& m.album is None
    &&& m.album_artist is None
    &&& m.genre is None
    &&& m.year is None
    &&& m.track_number is None
    &&& m.disc_number is None
    &&& m.duration_secs == duration_secs
    &&& m.bit_rate is None
    &&& m.sample_rate == (match sample_rate { Some(r) => Some(r as i32), None => None::<i32> })
    &&& m.channels == (match channel_count { Some(c) => Some(c as u8), None => None::<u8> })
    &&& m.content_type@ == Seq::<char>::empty()
    &&& m.file_size is None
    &&& m.cover_art_raw is None
    &&& m.lyrics is None
}

/// The metadata with its cover art replaced.
pub open spec fn with_cover(m: AudioMetadata, cover: Option<(String, Vec<u8>)>) -> AudioMetadata {
    AudioMetadata { cover_art_raw: cover, ..m }
}

/// The last picture of a list, if any.
pub open spec fn last_visual(vs: Seq<(String, Vec<u8>)>) -> Option<(String, Vec<u8>)> {
    if vs.len() == 0 {
        None
    } else {
        Some(vs.last())
    }
}

/// Tags never touch the cover art.
proof fn lemma_tags_keep_cover(m: AudioMetadata, tags: Seq<MetaTag>)
    ensures
        apply_tags(m, tags).cover_art_raw == m.cover_art_raw,
    decreases tags.len(),
{
    if tags.len() > 0 {
        lemma_tags_keep_cover(m, tags.drop_last());
    }
}

/// The year given by a date tag value.
pub fn parse_year(v: &str) -> (r: Option<i32>)
    ensures
        r == year_of(v@),
{
    match parse_i32(v) {
        Some(y) => Some(y),
        None => {
            let head = first_field(v, '-');
            parse_i32(head.as_str())
        },
    }
}

/// The number given by a track or disc tag value.
pub fn parse_number(v: &str) -> (r: Option<i32>)
    ensures
        r == number_of(v@),
{
    let head = first_field(v, '/');
    parse_i32(head.as_str())
}

/// Applies one tag to the metadata.
pub fn apply_meta_tag(m: &mut AudioMetadata, t: MetaTag)
    ensures
        *final(m) == apply_tag(*old(m), t),
{
    match t.key {
        TagKey::TrackTitle => m.title = Some(t.value),
        TagKey::Artist => m.artist = Some(t.value),
        TagKey::Album => m.album = Some(t.value),
        TagKey::AlbumArtist => m.album_artist = Some(t.value),
        TagKey::Genre => m.genre = Some(t.value),
        TagKey::Date | TagKey::ReleaseDate => {
            if let Some(y) = parse_year(t.value.as_str()) {
                m.year = Some(y);
            }
        },
        TagKey::TrackNumber => {
            if let Some(n) = parse_number(t.value.as_str()) {
                m.track_number = Some(n);
            }
        },
        TagKey::DiscNumber => {
            if let Some(n) = parse_number(t.value.as_str()) {
                m.disc_number = Some(n);
            }
        },
        TagKey::Lyrics => m.lyrics = Some(t.value),
        TagKey::Other => {},
    }
}

/// Assembles the metadata of an audio file from what its codec reports, its
/// tags (read in order, a later tag overriding an earlier one) and its
/// embedded pictures (the last one becomes the cover art).
pub fn build_audio_metadata(
    duration_secs: u64,
    sample_rate: Option<u32>,
    channel_count: Option<usize>,
    tags: Vec<MetaTag>,
    visuals: Vec<(String, Vec<u8>)>,
) -> (m: AudioMetadata)
    ensures
        (exists|base: AudioMetadata|
            codec_metadata(base, duration_secs, sample_rate, channel_count)
            && m == with_cover(apply_tags(base, tags@), last_visual(visuals@))),
{
    let sr: Option<i32> = match sample_rate {
        Some(r) => Some(#[verifier::truncate] (r as i32)),
        None => None,
    };
    let ch: Option<u8> = match channel_count {
        Some(c) => Some(#[verifier::truncate] (c as u8)),
        None => None,
    };
    let mut m = AudioMetadata {
        title: None,
        artist: None,
        album: None,
        album_artist: None,
        genre: None,
        year: None,
        track_number: None,
        disc_number: None,
        duration_secs,
        bit_rate: None,
        sample_rate: sr,
        channels: ch,
        content_type: String::new(),
        file_size: None,
        cover_art_raw: None,
        lyrics: None,
    };
    let ghost base = m;
    let ghost src = tags@;
    for t in it: tags.into_iter()
        invariant
            it.seq() == src,
            codec_metadata(base, duration_secs, sample_rate, channel_count),
            m == apply_tags(base, src.take(it.index())),
    {
        assert(src.take(it.index() + 1).drop_last() =~= src.take(it.index()));
        apply_meta_tag(&mut m, t);
    }
    assert(src.take(src.len() as int) =~= src);
    proof {
        lemma_tags_keep_cover(base, src);
        assert(visuals@.take(0) =~= Seq::<(String, Vec<u8>)>::empty());
    }
    let ghost tagged = m;
    let ghost vs = visuals@;
    for v in vit: visuals.into_iter()
        invariant
            vit.seq() == vs,
            m == with_cover(tagged, last_visual(vs.take(vit.index()))),
    {
        m.cover_art_raw = Some(v);
    }
    assert(vs.take(vs.len() as int) =~= vs);
    m
}


/// The file extension used for an image of the given MIME type.
pub open spec fn image_format_of(mime: Seq<char>) -> Seq<char> {
    if mime == "image/png"@ {
        "png"@
    } else if mime == "image/gif"@ {
        "gif"@
    } else {
        "jpg"@
    }
}

/// The file extension for an image MIME type: `png` and `gif` for those
/// types, `jpg` for JPEG and anything else.
pub fn get_image_format(mime: &str) -> (f: &'static str)
    ensures
        f@ == image_format_of(mime@),
{
    proof {
        reveal_strlit("image/jpeg");
        reveal_strlit("image/png");
        reveal_strlit("image/gif");
        reveal_strlit("jpg");
        reveal_strlit("png");
        reveal_strlit("gif");
    }
    assert("image/jpeg"@ != "image/png"@ && "image/jpeg"@ != "image/gif"@) by {
        assert("image/jpeg"@[6] != "image/png"@[6]);
        assert("image/jpeg"@[6] != "image/gif"@[6]);
    }
    let m = String::from_str(mime);
    if m == String::from_str("image/jpeg") {
        "jpg"
    } else if m == String::from_str("image/png") {
        "png"
    } else if m == String::from_str("image/gif") {
        "gif"
    } else {
        "jpg"
    }
}

/// Where the WebP rendering of a cover at a given size is cached.
pub open spec fn webp_cache_path_of(cover_art_id: Seq<char>, size: u32) -> Seq<char> {
    "./coverArt/webp/"@ + cover_art_id + "_"@ + int_decimal(size as int) + ".webp"@
}

/// The cache path of the WebP rendering of a cover at a given size:
/// `./coverArt/webp/{id}_{size}.webp`.
pub fn get_webp_cache_path(cover_art_id: &str, size: u32) -> (p: String)
    ensures
        p@ == webp_cache_path_of(cover_art_id@, size),
{
    let mut p = String::from_str("./coverArt/webp/");
    p.append(cover_art_id);
    p.append("_");
    push_i64_decimal(&mut p, size as i64);
    p.append(".webp");
    p
}

/// The places an original cover image may be stored, in the order they are
/// tried: the current layout `./coverArt/originals/{id}.{ext}`, then the
/// older `./coverArt/{id}.{ext}`, each with `jpg`, `jpeg`, `png`, `gif`.
pub open spec fn original_candidates_of(id: Seq<char>) -> Seq<Seq<char>> {
    seq![
        "./coverArt/originals/"@ + id + ".jpg"@,
        "./coverArt/originals/"@ + id + ".jpeg"@,
        "./coverArt/originals/"@ + id + ".png"@,
        "./coverArt/originals/"@ + id + ".gif"@,
        "./coverArt/"@ + id + ".jpg"@,
        "./coverArt/"@ + id + ".jpeg"@,
        "./coverArt/"@ + id + ".png"@,
        "./coverArt/"@ + id + ".gif"@
    ]
}

fn path_in(dir: &str, id: &str, ext: &str) -> (p: String)
    ensures
        p@ == dir@ + id@ + ext@,
{
    let mut p = String::from_str(dir);
    p.append(id);
    p.append(ext);
    p
}

/// The candidate places of an original cover image, in order.
pub fn original_image_candidates(cover_art_id: &str) -> (c: Vec<String>)
    ensures
        c.len() == 8,
        forall|i: int| 0 <= i < 8 ==> #[trigger] c@[i]@ == original_candidates_of(cover_art_id@)[i],
{
    let mut c: Vec<String> = Vec::new();
    c.push(path_in("./coverArt/originals/", cover_art_id, ".jpg"));
    c.push(path_in("./coverArt/originals/", cover_art_id, ".jpeg"));
    c.push(path_in("./coverArt/originals/", cover_art_id, ".png"));
    c.push(path_in("./coverArt/originals/", cover_art_id, ".gif"));
    c.push(path_in("./coverArt/", cover_art_id, ".jpg"));
    c.push(path_in("./coverArt/", cover_art_id, ".jpeg"));
    c.push(path_in("./coverArt/", cover_art_id, ".png"));
    c.push(path_in("./coverArt/", cover_art_id, ".gif"));
    c
}

/// The first candidate reported present: `present[k]` tells whether
/// `candidates[k]` exists; candidates without a report count as absent.
pub open spec fn first_present(candidates: Seq<String>, present: Seq<bool>) -> Option<String>
    decreases candidates.len(),
{
    if candidates.len() == 0 || present.len() == 0 {
        None
    } else if present[0] {
        Some(candidates[0])
    } else {
        first_present(candidates.drop_first(), present.drop_first())
    }
}

/// Picks the first candidate reported present.
pub fn pick_first_present(candidates: &Vec<String>, present: &Vec<bool>) -> (r: Option<String>)
    ensures
        r == first_present(candidates@, present@),
{
    let ghost cs = candidates@;
    let ghost ps = present@;
    let n = present.len();
    let m = candidates.len();
    let mut i: usize = 0;
    assert(cs.skip(0) =~= cs);
    assert(ps.skip(0) =~= ps);
    while i < m && i < n
        invariant
            cs == candidates@,
            ps == present@,
            m == cs.len(),
            n == ps.len(),
            i <= m,
            i <= n,
            first_present(cs, ps) == first_present(cs.skip(i as int), ps.skip(i as int)),
        decreases m - i,
    {
        if present[i] {
            return Some(candidates[i].clone());
        }
        assert(cs.skip(i as int).drop_first() =~= cs.skip(i as int + 1));
        assert(ps.skip(i as int).drop_first() =~= ps.skip(i as int + 1));
        i = i + 1;
    }
    None
}

/// The stored original of a cover: the first candidate place (see
/// `original_candidates_of`) that exists on disk, if any. Candidates are
/// checked in order and checking stops at the first one found.
pub fn get_original_image_path(cover_art_id: &str) -> (r: Option<String>)
    ensures
        r matches Some(p) ==> exists|k: int| 0 <= k < 8 && p@ == #[trigger] original_candidates_of(cover_art_id@)[k],
{
    let candidates = original_image_candidates(cover_art_id);
    let mut present: Vec<bool> = Vec::new();
    let mut found = false;
    let mut i: usize = 0;
    while i < 8 && !found
        invariant
            candidates.len() == 8,
            present.len() == i,
            i <= 8,
        decreases 8 - i,
    {
        found = path_exists(candidates[i].as_str());
        present.push(found);
        i = i + 1;
    }
    let r = pick_first_present(&candidates, &present);
    proof {
        lemma_first_present_member(candidates@, present@);
        if r is Some {
            let p = r->0;
            let k = choose|k: int| 0 <= k < candidates@.len() && #[trigger] candidates@[k] == p;
            assert(candidates@[k]@ == original_candidates_of(cover_art_id@)[k]);
        }
    }
    r
}

/// What `first_present` picks is one of the candidates.
pub proof fn lemma_first_present_member(candidates: Seq<String>, present: Seq<bool>)
    ensures
        first_present(candidates, present) matches Some(p) ==> exists|k: int| 0 <= k < candidates.len() && #[trigger] candidates[k] == p,
    decreases candidates.len(),
{
    if candidates.len() > 0 && present.len() > 0 {
        if present[0] {
            assert(candidates[0] == candidates[0]);
        } else {
            lemma_first_present_member(candidates.drop_first(), present.drop_first());
            if let Some(p) = first_present(candidates, present) {
                let k = choose|k: int| 0 <= k < candidates.drop_first().len() && #[trigger] candidates.drop_first()[k] == p;
                assert(candidates[k + 1] == p);
            }
        }
    }
}

/// The content type served for an image file, by its lowercase extension.
pub open spec fn image_content_type_of(ext: Seq<char>) -> Seq<char> {
    if ext == "jpg"@ || ext == "jpeg"@ {
        "image/jpeg"@
    } else if ext == "png"@ {
        "image/png"@
    } else if ext == "gif"@ {
        "image/gif"@
    } else if ext == "webp"@ {
        "image/webp"@
    } else {
        "application/octet-stream"@
    }
}

/// The lowercase extension of a path, empty when it has none.
pub open spec fn lower_extension_of(path: Seq<char>) -> Seq<char> {
    match path_extension_of(path) {
        Some(e) => lowercase_of(e),
        None => Seq::empty(),
    }
}

/// The lowercase extension of a path, empty when it has none.
pub fn lower_extension(path: &str) -> (e: String)
    ensures
        e@ == lower_extension_of(path@),
{
    match path_extension(path) {
        Some(e) => {
            let l = to_lowercase(e.as_str());
            assert(path_extension_of(path@) == Some(e@));
            assert(l@ == lowercase_of(e@));
            l
        },
        None => String::new(),
    }
}

/// The content type to serve an image file with, chosen by its extension.
pub fn image_content_type(path: &str) -> (t: &'static str)
    ensures
        t@ == image_content_type_of(lower_extension_of(path@)),
{
    let e = lower_extension(path);
    if e == String::from_str("jpg") || e == String::from_str("jpeg") {
        "image/jpeg"
    } else if e == String::from_str("png") {
        "image/png"
    } else if e == String::from_str("gif") {
        "image/gif"
    } else if e == String::from_str("webp") {
        "image/webp"
    } else {
        "application/octet-stream"
    }
}

} // verus!
