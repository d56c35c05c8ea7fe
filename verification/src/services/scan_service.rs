//! Library scanning: which files to (re)scan, how parse and save outcomes
//! are tallied, and how album metadata is merged.

use vstd::prelude::*;
use vstd::utf8::{is_char_boundary, decode_utf8};
use vstd::string::StringSliceAdditionalSpecFns;

use crate::utils::paths::{parent_dir_name, grandparent_dir_name, parent_name_of, grandparent_name_of};
use crate::utils::image_utils::{AudioMetadata, lower_extension, lower_extension_of};
use crate::utils::sql_utils::{SqlValue, Statement};
use crate::models::entities::{Artist, Album, Song};

verus! {

/// How many parsed files are saved to the database together.
pub const BATCH_SIZE: usize = 100;

/// Counts reported at the end of a scan.
#[derive(Debug)]
pub struct ScanResult {
    pub artists: usize,
    pub albums: usize,
    pub songs: usize,
    pub failed: usize,
    pub deleted: usize,
}

impl ScanResult {
    /// All counts zero.
    pub fn new() -> (r: Self)
        ensures
            r.artists == 0 && r.albums == 0 && r.songs == 0 && r.failed == 0 && r.deleted == 0,
    {
        ScanResult { artists: 0, albums: 0, songs: 0, failed: 0, deleted: 0 }
    }
}

/// What to do after a file has been parsed.
#[derive(Debug, Clone, Copy, PartialEq, Eq, Structural)]
pub struct ParseStep {
    /// The current batch is full: save it now.
    pub flush: bool,
    /// Publish the number of processed files.
    pub report: bool,
    /// Also write a progress line to the log.
    pub log: bool,
}

/// The running tally of a scan over `total_files` audio files.
///
/// The ghost counters record how many files parsed, how many failed to
/// parse, how many were handed to a batch save, and how many of those were
/// in a batch whose save failed.
pub struct ScanProgress {
    pub total_files: usize,
    pub processed: usize,
    /// Parsed files waiting in the current batch.
    pub pending: usize,
    pub result: ScanResult,
    pub parsed_ok: Ghost<nat>,
    pub parse_failed: Ghost<nat>,
    pub flushed: Ghost<nat>,
    pub batch_failed: Ghost<nat>,
}

impl ScanProgress {
    /// Every processed file is either waiting in the batch, was handed to a
    /// save, or failed to parse; the failure count is the parse failures plus
    /// the files of failed batches; at most as many songs were saved as
    /// files were handed to successful saves.
    pub open spec fn wf(&self) -> bool {
        &&& self.processed == self.parsed_ok@ + self.parse_failed@
        &&& self.parsed_ok@ == self.pending + self.flushed@
        &&& self.result.failed == self.parse_failed@ + self.batch_failed@
        &&& self.result.songs + self.batch_failed@ <= self.flushed@
        &&& self.processed <= self.total_files
        &&& self.pending <= BATCH_SIZE
    }

    /// A tally for a scan over `total_files` files, nothing processed yet.
    pub fn new(total_files: usize) -> (p: Self)
        ensures
            p.wf(),
            p.total_files == total_files,
            p.processed == 0,
            p.pending == 0,
            p.result.songs == 0 && p.result.failed == 0,
            p.result.artists == 0 && p.result.albums == 0 && p.result.deleted == 0,
    {
        ScanProgress {
            total_files,
            processed: 0,
            pending: 0,
            result: ScanResult::new(),
            parsed_ok: Ghost(0),
            parse_failed: Ghost(0),
            flushed: Ghost(0),
            batch_failed: Ghost(0),
        }
    }

    /// Records that one more file was parsed (`ok`) or failed to parse, and
    /// says whether to save the batch and whether to report progress: every
    /// tenth file and at the last file, with a log line every hundredth file
    /// and at the last file.
    pub fn on_parsed(&mut self, ok: bool) -> (step: ParseStep)
        requires
            old(self).wf(),
            old(self).processed < old(self).total_files,
            old(self).pending < BATCH_SIZE,
        ensures
            final(self).wf(),
            final(self).total_files == old(self).total_files,
            final(self).processed == old(self).processed + 1,
            final(self).pending == (if ok { old(self).pending + 1 } else { old(self).pending as int }),
            final(self).result.failed == (if ok { old(self).result.failed as int } else { old(self).result.failed + 1 }),
            final(self).result.songs == old(self).result.songs,
            final(self).result.artists == old(self).result.artists,
            final(self).result.albums == old(self).result.albums,
            final(self).result.deleted == old(self).result.deleted,
            step.flush == (final(self).pending >= BATCH_SIZE),
            step.report == (final(self).processed % 10 == 0 || final(self).processed == final(self).total_files),
            step.log == (step.report && (final(self).processed % 100 == 0 || final(self).processed == final(self).total_files)),
    {
        self.processed = self.processed + 1;
        if ok {
            self.pending = self.pending + 1;
            self.parsed_ok = Ghost(self.parsed_ok@ + 1);
        } else {
            self.result.failed = self.result.failed + 1;
            self.parse_failed = Ghost(self.parse_failed@ + 1);
        }
        let report = self.processed % 10 == 0 || self.processed == self.total_files;
        let log = report && (self.processed % 100 == 0 || self.processed == self.total_files);
        ParseStep { flush: self.pending >= BATCH_SIZE, report, log }
    }

    /// Records the outcome of saving the current batch: the number of songs
    /// saved, or `None` when the whole save failed and every file of the
    /// batch counts as failed. The batch is then empty.
    pub fn on_batch_saved(&mut self, saved: Option<usize>)
        requires
            old(self).wf(),
            saved matches Some(c) ==> c <= old(self).pending,
        ensures
            final(self).wf(),
            final(self).total_files == old(self).total_files,
            final(self).processed == old(self).processed,
            final(self).pending == 0,
            final(self).result.songs == (match saved {
                Some(c) => old(self).result.songs + c,
                None => old(self).result.songs as int,
            }),
            final(self).result.failed == (match saved {
                Some(c) => old(self).result.failed as int,
                None => old(self).result.failed + old(self).pending,
            }),
            final(self).result.artists == old(self).result.artists,
            final(self).result.albums == old(self).result.albums,
            final(self).result.deleted == old(self).result.deleted,
    {
        match saved {
            Some(c) => {
                self.result.songs = self.result.songs + c;
            },
            None => {
                self.result.failed = self.result.failed + self.pending;
                self.batch_failed = Ghost((self.batch_failed@ + self.pending) as nat);
            },
        }
        self.flushed = Ghost((self.flushed@ + self.pending) as nat);
        self.pending = 0;
    }

    /// Whether files are still waiting to be saved when parsing is over.
    pub fn needs_final_flush(&self) -> (b: bool)
        ensures
            b == (self.pending > 0),
    {
        self.pending > 0
    }
}

/// Each file is counted at most once: saved songs, failures and files still
/// waiting in the batch together never exceed the files processed, which
/// never exceed the files found.
pub proof fn lemma_scan_accounting(p: &ScanProgress)
    requires
        p.wf(),
    ensures
        p.result.songs + p.result.failed + p.pending <= p.processed,
        p.processed <= p.total_files,
{
}

/// An instant: seconds since the Unix epoch and nanoseconds within the
/// second.
#[derive(Debug, Clone, Copy, PartialEq, Eq, Structural)]
pub struct Instant {
    pub secs: i64,
    pub nanos: u32,
}

/// `a` is strictly later than `b`.
pub open spec fn later_than(a: Instant, b: Instant) -> bool {
    a.secs > b.secs || (a.secs == b.secs && a.nanos > b.nanos)
}

/// What the database knows of a file from an earlier scan.
#[derive(Debug, Clone, Copy, PartialEq, Eq, Structural)]
pub enum DbRecord {
    /// The file has no row.
    Absent,
    /// The file has a row whose update time could not be read.
    Unreadable,
    /// The file's row was last updated at this instant.
    UpdatedAt(Instant),
}

/// A file needs scanning unless it has a row, its modification time is
/// known, the row's update time is readable, and the file was not modified
/// after that update time.
pub open spec fn needs_scan(db: DbRecord, file_mtime: Option<Instant>) -> bool {
    match db {
        DbRecord::Absent => true,
        _ => match file_mtime {
            None => true,
            Some(m) => match db {
                DbRecord::UpdatedAt(t) => later_than(m, t),
                _ => true,
            },
        },
    }
}

/// Whether a file must be (re)scanned.
pub fn should_scan(db: DbRecord, file_mtime: Option<Instant>) -> (b: bool)
    ensures
        b == needs_scan(db, file_mtime),
{
    match db {
        DbRecord::Absent => true,
        DbRecord::Unreadable => true,
        DbRecord::UpdatedAt(t) => match file_mtime {
            None => true,
            Some(m) => m.secs > t.secs || (m.secs == t.secs && m.nanos > t.nanos),
        },
    }
}

/// An instant as nanoseconds since the Unix epoch.
pub open spec fn epoch_nanos(a: Instant) -> int {
    a.secs * 1_000_000_000 + a.nanos
}

/// A file with a readable row time is rescanned exactly when it was
/// modified after that time, in time order; a file modified in an earlier
/// second than its row was written is always skipped.
pub proof fn lemma_rescan_iff_modified_later(t: Instant, m: Instant)
    requires
        t.nanos < 1_000_000_000,
        m.nanos < 1_000_000_000,
    ensures
        needs_scan(DbRecord::UpdatedAt(t), Some(m)) == (epoch_nanos(m) > epoch_nanos(t)),
        m.secs < t.secs ==> !needs_scan(DbRecord::UpdatedAt(t), Some(m)),
        m.secs > t.secs ==> needs_scan(DbRecord::UpdatedAt(t), Some(m)),
        m == t ==> !needs_scan(DbRecord::UpdatedAt(t), Some(m)),
{
}

/// Of two distinct instants exactly one is later than the other, and no
/// instant is later than itself: the rescan test is a strict time order.
pub proof fn lemma_later_than_strict_order(a: Instant, b: Instant, c: Instant)
    ensures
        !later_than(a, a),
        later_than(a, b) ==> !later_than(b, a),
        a != b ==> later_than(a, b) || later_than(b, a),
        later_than(a, b) && later_than(b, c) ==> later_than(a, c),
{
}

/// A file without a row, without a known modification time, or whose row
/// time cannot be read is always scanned.
pub proof fn lemma_scan_when_unknown(db: DbRecord, m: Option<Instant>)
    ensures
        db is Absent ==> needs_scan(db, m),
        db is Unreadable ==> needs_scan(db, m),
        m is None ==> needs_scan(db, m),
{
}

/// The files to scan, in their order, and how many were skipped.
pub fn plan_incremental_scan(records: &Vec<(DbRecord, Option<Instant>)>) -> (r: (Vec<usize>, usize))
    ensures
        r.0.len() + r.1 == records.len(),
        forall|k: int| 0 <= k < r.0.len() ==> 0 <= #[trigger] r.0@[k] < records.len()
            && needs_scan(records@[r.0@[k] as int].0, records@[r.0@[k] as int].1),
        forall|k: int, l: int| 0 <= k < l < r.0.len() ==> r.0@[k] < r.0@[l],
        forall|i: int| 0 <= i < records.len() && needs_scan(#[trigger] records@[i].0, records@[i].1)
            ==> r.0@.contains(i as usize),
{
    let mut picked: Vec<usize> = Vec::new();
    let mut skipped: usize = 0;
    let n = records.len();
    let mut i: usize = 0;
    while i < n
        invariant
            n == records.len(),
            i <= n,
            picked.len() + skipped == i,
            forall|k: int| 0 <= k < picked.len() ==> 0 <= #[trigger] picked@[k] < i
                && needs_scan(records@[picked@[k] as int].0, records@[picked@[k] as int].1),
            forall|k: int, l: int| 0 <= k < l < picked.len() ==> picked@[k] < picked@[l],
            forall|j: int| 0 <= j < i && needs_scan(#[trigger] records@[j].0, records@[j].1)
                ==> picked@.contains(j as usize),
        decreases n - i,
    {
        let (db, mtime) = records[i];
        if should_scan(db, mtime) {
            let ghost before = picked@;
            picked.push(i);
            proof {
                assert forall|j: int| 0 <= j < i + 1 && needs_scan(#[trigger] records@[j].0, records@[j].1)
                    implies picked@.contains(j as usize) by {
                    if j < i {
                        let k = choose|k: int| 0 <= k < before.len() && before[k] == j as usize;
                        assert(picked@[k] == j as usize);
                    } else {
                        assert(picked@[picked.len() - 1] == i);
                    }
                };
            }
        } else {
            skipped = skipped + 1;
        }
        i = i + 1;
    }
    (picked, skipped)
}

/// The album metadata to keep after meeting a song of an existing album:
/// each stored value stays, a missing one is filled from the song; `changed`
/// says whether anything was filled in.
#[derive(Debug)]
pub struct AlbumMetaUpdate {
    pub year: Option<i32>,
    pub genre: Option<String>,
    pub changed: bool,
}

/// `u` keeps the stored year and genre and fills the missing ones.
pub open spec fn merged_album_meta(
    stored_year: Option<i32>,
    stored_genre: Option<String>,
    year: Option<i32>,
    genre: Option<String>,
    u: AlbumMetaUpdate,
) -> bool {
    &&& u.year == (if stored_year is Some { stored_year } else { year })
    &&& u.genre == (if stored_genre is Some { stored_genre } else { genre })
    &&& u.changed == ((stored_year is None && year is Some) || (stored_genre is None && genre is Some))
}

/// Merging keeps each stored value and fills a missing one from the song;
/// an update is needed exactly when the merged values differ from the
/// stored ones.
pub proof fn lemma_album_meta_changed_iff_differs(
    stored_year: Option<i32>,
    stored_genre: Option<String>,
    year: Option<i32>,
    genre: Option<String>,
    u: AlbumMetaUpdate,
)
    requires
        merged_album_meta(stored_year, stored_genre, year, genre, u),
    ensures
        u.changed == (u.year != stored_year || u.genre != stored_genre),
        stored_year is Some ==> u.year == stored_year,
        stored_year is None ==> u.year == year,
        stored_genre is Some ==> u.genre == stored_genre,
        stored_genre is None ==> u.genre == genre,
{
}

/// Merges a song's year and genre into its album's stored ones.
pub fn merge_album_meta(
    stored_year: Option<i32>,
    stored_genre: Option<String>,
    year: Option<i32>,
    genre: Option<String>,
) -> (u: AlbumMetaUpdate)
    ensures
        merged_album_meta(stored_year, stored_genre, year, genre, u),
        u.changed == (u.year != stored_year || u.genre != stored_genre),
{
    let year_missing = stored_year.is_none();
    let genre_missing = stored_genre.is_none();
    let year_to_use = if year_missing { year } else { stored_year };
    let genre_to_use = if genre_missing { genre } else { stored_genre };
    let changed = (year_missing && year_to_use.is_some()) || (genre_missing && genre_to_use.is_some());
    AlbumMetaUpdate { year: year_to_use, genre: genre_to_use, changed }
}

/// Merging never replaces a stored value, and merging the same song again
/// into the result changes nothing.
pub proof fn lemma_album_meta_merge_stable(
    stored_year: Option<i32>,
    stored_genre: Option<String>,
    year: Option<i32>,
    genre: Option<String>,
    u: AlbumMetaUpdate,
    v: AlbumMetaUpdate,
)
    requires
        merged_album_meta(stored_year, stored_genre, year, genre, u),
        merged_album_meta(u.year, u.genre, year, genre, v),
    ensures
        stored_year is Some ==> u.year == stored_year,
        stored_genre is Some ==> u.genre == stored_genre,
        v.year == u.year,
        v.genre == u.genre,
        !v.changed,
{
}

/// The audio formats the scan picks up, by lowercase file extension.
pub open spec fn is_audio_extension(ext: Seq<char>) -> bool {
    ext == "mp3"@ || ext == "flac"@ || ext == "wav"@ || ext == "m4a"@ || ext == "aac"@
        || ext == "ogg"@ || ext == "opus"@
}

/// The scan picks up MP3, FLAC, WAV, M4A, AAC, Ogg and Opus files, by their
/// lowercase extension, and nothing else.
pub proof fn lemma_audio_extensions(e: Seq<char>)
    ensures
        is_audio_extension("mp3"@),
        is_audio_extension("flac"@),
        is_audio_extension("wav"@),
        is_audio_extension("m4a"@),
        is_audio_extension("aac"@),
        is_audio_extension("ogg"@),
        is_audio_extension("opus"@),
        e != "mp3"@ && e != "flac"@ && e != "wav"@ && e != "m4a"@ && e != "aac"@ && e != "ogg"@ && e != "opus"@
            ==> !is_audio_extension(e),
{
}

/// Whether the scan picks up the file: its extension, lowercased, is one of
/// the supported audio formats.
pub fn is_supported_audio_file(path: &str) -> (b: bool)
    ensures
        b == is_audio_extension(lower_extension_of(path@)),
{
    let e = lower_extension(path);
    e == String::from_str("mp3") || e == String::from_str("flac") || e == String::from_str("wav")
        || e == String::from_str("m4a") || e == String::from_str("aac") || e == String::from_str("ogg")
        || e == String::from_str("opus")
}

/// The name of the directory holding the file, or `fallback`.
pub open spec fn parent_name_or(path: Seq<char>, fallback: Seq<char>) -> Seq<char> {
    match parent_name_of(path) {
        Some(n) => n,
        None => fallback,
    }
}

/// The name of the directory two levels above the file, or `fallback`.
pub open spec fn grandparent_name_or(path: Seq<char>, fallback: Seq<char>) -> Seq<char> {
    match grandparent_name_of(path) {
        Some(n) => n,
        None => fallback,
    }
}

/// The artist name guessed from a file's place: the name of the directory
/// holding it, else `Unknown Artist`.
pub fn artist_name_from_path(path: &str) -> (r: String)
    ensures
        r@ == parent_name_or(path@, "Unknown Artist"@),
{
    match parent_dir_name(path) {
        Some(n) => n,
        None => String::from_str("Unknown Artist"),
    }
}

/// The album name guessed from a file's place: the name of the directory
/// two levels above it, else `Unknown Album`.
pub fn album_name_from_path(path: &str) -> (r: String)
    ensures
        r@ == grandparent_name_or(path@, "Unknown Album"@),
{
    match grandparent_dir_name(path) {
        Some(n) => n,
        None => String::from_str("Unknown Album"),
    }
}

/// What a scanned file contributes: the artist, album and title to file it
/// under, and its length in whole seconds.
#[derive(Debug)]
pub struct SongSource {
    pub artist_name: String,
    pub album_name: String,
    pub title: String,
    pub duration: i32,
}

/// The tag value if present, else `fallback`.
pub open spec fn tag_or(tag: Option<String>, fallback: Seq<char>) -> Seq<char> {
    match tag {
        Some(t) => t@,
        None => fallback,
    }
}

/// Where a scanned file is filed: artist and album from its tags, else from
/// its directories; title from its tags, else `Unknown`; the duration cut
/// to 32 bits as a cast does.
pub fn song_source(path: &str, m: &AudioMetadata) -> (r: SongSource)
    ensures
        r.artist_name@ == tag_or(m.artist, parent_name_or(path@, "Unknown Artist"@)),
        r.album_name@ == tag_or(m.album, grandparent_name_or(path@, "Unknown Album"@)),
        r.title@ == tag_or(m.title, "Unknown"@),
        r.duration == m.duration_secs as i32,
{
    let artist_name = match &m.artist {
        Some(a) => a.clone(),
        None => artist_name_from_path(path),
    };
    let album_name = match &m.album {
        Some(a) => a.clone(),
        None => album_name_from_path(path),
    };
    let title = match &m.title {
        Some(t) => t.clone(),
        None => String::from_str("Unknown"),
    };
    let duration = #[verifier::truncate] (m.duration_secs as i32);
    SongSource { artist_name, album_name, title, duration }
}

/// The cover art id of an album: `al-` and the first eight bytes of the
/// album id.
pub fn cover_art_id_for_album(album_id: &str) -> (r: String)
    requires
        is_char_boundary(album_id.spec_bytes(), 8),
    ensures
        r@ == "al-"@ + decode_utf8(album_id.spec_bytes().subrange(0, 8)),
{
    let (head, _) = album_id.split_at(8);
    proof {
        vstd::utf8::encode_utf8_decode_utf8(head@);
        assert(head.spec_bytes() =~= album_id.spec_bytes().subrange(0, 8));
    }
    String::from_str("al-").concat(head)
}

/// Where the original of a cover is stored: `./coverArt/originals/{id}.{ext}`.
pub fn original_cover_path(cover_art_id: &str, ext: &str) -> (p: String)
    ensures
        p@ == "./coverArt/originals/"@ + cover_art_id@ + "."@ + ext@,
{
    String::from_str("./coverArt/originals/").concat(cover_art_id).concat(".").concat(ext)
}

/// An optional integer as a bound value.
pub open spec fn opt_int_value(v: Option<i32>) -> SqlValue {
    match v {
        Some(x) => SqlValue::Int(x as i64),
        None => SqlValue::Null,
    }
}

/// An optional text as a bound value.
pub open spec fn opt_text_value(v: Option<String>) -> SqlValue {
    match v {
        Some(x) => SqlValue::Text(x),
        None => SqlValue::Null,
    }
}

fn int_value(v: Option<i32>) -> (r: SqlValue)
    ensures
        r == opt_int_value(v),
{
    match v {
        Some(x) => SqlValue::Int(x as i64),
        None => SqlValue::Null,
    }
}

fn text_value(v: &Option<String>) -> (r: SqlValue)
    ensures
        r == opt_text_value(*v),
{
    match v {
        Some(x) => SqlValue::Text(x.clone()),
        None => SqlValue::Null,
    }
}

/// Inserts a new artist row.
pub const ARTIST_INSERT_SQL: &'static str = "INSERT INTO artists (id, name, music_brainz_id, cover_art_path, created_at, updated_at)
             VALUES (?, ?, ?, ?, ?, ?)";

/// The insert of a new artist row and its values.
pub fn artist_insert(a: &Artist) -> (st: Statement)
    ensures
        st.sql@ == ARTIST_INSERT_SQL@,
        st.values@ == seq![
            SqlValue::Text(a.id),
            SqlValue::Text(a.name),
            opt_text_value(a.music_brainz_id),
            opt_text_value(a.cover_art_path),
            SqlValue::Text(a.created_at),
            SqlValue::Text(a.updated_at),
        ],
{
    let values = vec![
        SqlValue::Text(a.id.clone()),
        SqlValue::Text(a.name.clone()),
        text_value(&a.music_brainz_id),
        text_value(&a.cover_art_path),
        SqlValue::Text(a.created_at.clone()),
        SqlValue::Text(a.updated_at.clone()),
    ];
    Statement { sql: String::from_str(ARTIST_INSERT_SQL), values }
}

/// Inserts a new album row (no cover yet, no songs, no plays).
pub const ALBUM_INSERT_SQL: &'static str = "INSERT INTO albums (id, artist_id, name, year, genre, cover_art_path, cover_art_hash, path,
             song_count, duration, play_count, created_at, updated_at)
             VALUES (?, ?, ?, ?, ?, NULL, NULL, ?, 0, 0, 0, ?, ?)";

/// The insert of a new album row and its values.
pub fn album_insert(a: &Album) -> (st: Statement)
    ensures
        st.sql@ == ALBUM_INSERT_SQL@,
        st.values@ == seq![
            SqlValue::Text(a.id),
            SqlValue::Text(a.artist_id),
            SqlValue::Text(a.name),
            opt_int_value(a.year),
            opt_text_value(a.genre),
            SqlValue::Text(a.path),
            SqlValue::Text(a.created_at),
            SqlValue::Text(a.updated_at),
        ],
{
    let values = vec![
        SqlValue::Text(a.id.clone()),
        SqlValue::Text(a.artist_id.clone()),
        SqlValue::Text(a.name.clone()),
        int_value(a.year),
        text_value(&a.genre),
        SqlValue::Text(a.path.clone()),
        SqlValue::Text(a.created_at.clone()),
        SqlValue::Text(a.updated_at.clone()),
    ];
    Statement { sql: String::from_str(ALBUM_INSERT_SQL), values }
}

/// Fills in an existing album's year and genre.
pub const ALBUM_META_UPDATE_SQL: &'static str = "UPDATE albums SET year = ?, genre = ?, updated_at = CURRENT_TIMESTAMP WHERE id = ?";

/// The update writing merged album metadata, or `None` when the merge
/// changed nothing.
pub fn album_meta_update(album_id: &str, u: &AlbumMetaUpdate) -> (r: Option<Statement>)
    ensures
        r is Some <==> u.changed,
        r matches Some(st) ==> st.sql@ == ALBUM_META_UPDATE_SQL@ && st.values.len() == 3
            && st.values@[0] == opt_int_value(u.year) && st.values@[1] == opt_text_value(u.genre)
            && (st.values@[2] matches SqlValue::Text(k) && k@ == album_id@),
{
    if !u.changed {
        return None;
    }
    let values = vec![int_value(u.year), text_value(&u.genre), SqlValue::Text(String::from_str(album_id))];
    Some(Statement { sql: String::from_str(ALBUM_META_UPDATE_SQL), values })
}

/// Rewrites the row of a file scanned before.
pub const SONG_UPDATE_SQL: &'static str = "UPDATE songs
                 SET title = ?, track_number = ?, disc_number = ?, duration = ?, bit_rate = ?,
                     genre = ?, year = ?, content_type = ?, file_size = ?, lyrics = ?, updated_at = ?
                 WHERE file_path = ?";

/// Inserts the row of a file scanned for the first time.
pub const SONG_INSERT_SQL: &'static str = "INSERT INTO songs (id, album_id, artist_id, title, track_number, disc_number,
                 duration, bit_rate, genre, year, content_type, file_path, file_size, lyrics, play_count,
                 created_at, updated_at)
                 VALUES (?, ?, ?, ?, ?, ?, ?, ?, ?, ?, ?, ?, ?, ?, 0, ?, ?)";

/// An optional integer, absent as zero.
pub open spec fn int_or_zero(v: Option<i32>) -> i64 {
    match v {
        Some(x) => x as i64,
        None => 0,
    }
}

/// An optional text, absent as the empty text.
pub open spec fn text_or_empty(v: Option<String>) -> Seq<char> {
    match v {
        Some(x) => x@,
        None => Seq::empty(),
    }
}

/// The values written for a song: for a file already in the database the
/// rewrite of its row, where absent values are written as zero or the empty
/// text; for a new file the insert, where absent values stay NULL.
pub open spec fn song_write_values(existing: bool, s: Song, v: Seq<SqlValue>) -> bool {
    if existing {
        &&& v.len() == 12
        &&& v[0] == SqlValue::Text(s.title)
        &&& v[1] == SqlValue::Int(int_or_zero(s.track_number))
        &&& v[2] == SqlValue::Int(int_or_zero(s.disc_number))
        &&& v[3] == SqlValue::Int(s.duration as i64)
        &&& v[4] == SqlValue::Int(int_or_zero(s.bit_rate))
        &&& v[5] matches SqlValue::Text(g) && g@ == text_or_empty(s.genre)
        &&& v[6] == SqlValue::Int(int_or_zero(s.year))
        &&& v[7] matches SqlValue::Text(c) && c@ == text_or_empty(s.content_type)
        &&& v[8] == SqlValue::Int(match s.file_size { Some(x) => x, None => 0 })
        &&& v[9] matches SqlValue::Text(l) && l@ == text_or_empty(s.lyrics)
        &&& v[10] == SqlValue::Text(s.updated_at)
        &&& v[11] == SqlValue::Text(s.file_path)
    } else {
        v =~= seq![
            SqlValue::Text(s.id),
            SqlValue::Text(s.album_id),
            SqlValue::Text(s.artist_id),
            SqlValue::Text(s.title),
            opt_int_value(s.track_number),
            opt_int_value(s.disc_number),
            SqlValue::Int(s.duration as i64),
            opt_int_value(s.bit_rate),
            opt_text_value(s.genre),
            opt_int_value(s.year),
            opt_text_value(s.content_type),
            SqlValue::Text(s.file_path),
            (match s.file_size { Some(x) => SqlValue::Int(x), None => SqlValue::Null }),
            opt_text_value(s.lyrics),
            SqlValue::Text(s.created_at),
            SqlValue::Text(s.updated_at),
        ]
    }
}

fn int_or_zero_value(v: Option<i32>) -> (r: SqlValue)
    ensures
        r == SqlValue::Int(int_or_zero(v)),
{
    match v {
        Some(x) => SqlValue::Int(x as i64),
        None => SqlValue::Int(0),
    }
}

fn text_or_empty_value(v: &Option<String>) -> (r: SqlValue)
    ensures
        r matches SqlValue::Text(t) && t@ == text_or_empty(*v),
{
    match v {
        Some(x) => SqlValue::Text(x.clone()),
        None => SqlValue::Text(String::new()),
    }
}

/// How a scanned song is written: the rewrite of its row when the file is
/// already in the database (`existing`), else the insert of a new row.
pub fn song_write(existing: bool, s: &Song) -> (st: Statement)
    ensures
        st.sql@ == (if existing { SONG_UPDATE_SQL@ } else { SONG_INSERT_SQL@ }),
        song_write_values(existing, *s, st.values@),
{
    if existing {
        let values = vec![
            SqlValue::Text(s.title.clone()),
            int_or_zero_value(s.track_number),
            int_or_zero_value(s.disc_number),
            SqlValue::Int(s.duration as i64),
            int_or_zero_value(s.bit_rate),
            text_or_empty_value(&s.genre),
            int_or_zero_value(s.year),
            text_or_empty_value(&s.content_type),
            SqlValue::Int(match s.file_size { Some(x) => x, None => 0 }),
            text_or_empty_value(&s.lyrics),
            SqlValue::Text(s.updated_at.clone()),
            SqlValue::Text(s.file_path.clone()),
        ];
        Statement { sql: String::from_str(SONG_UPDATE_SQL), values }
    } else {
        let values = vec![
            SqlValue::Text(s.id.clone()),
            SqlValue::Text(s.album_id.clone()),
            SqlValue::Text(s.artist_id.clone()),
            SqlValue::Text(s.title.clone()),
            int_value(s.track_number),
            int_value(s.disc_number),
            SqlValue::Int(s.duration as i64),
            int_value(s.bit_rate),
            text_value(&s.genre),
            int_value(s.year),
            text_value(&s.content_type),
            SqlValue::Text(s.file_path.clone()),
            (match s.file_size { Some(x) => SqlValue::Int(x), None => SqlValue::Null }),
            text_value(&s.lyrics),
            SqlValue::Text(s.created_at.clone()),
            SqlValue::Text(s.updated_at.clone()),
        ];
        Statement { sql: String::from_str(SONG_INSERT_SQL), values }
    }
}

/// The ids of the song rows whose files are gone, in row order: row `k` is
/// gone when `present[k]` is false.
pub open spec fn gone_ids(rows: Seq<(String, String)>, present: Seq<bool>) -> Seq<String>
    decreases rows.len(),
{
    if rows.len() == 0 || present.len() < rows.len() {
        Seq::empty()
    } else if present[rows.len() - 1] {
        gone_ids(rows.drop_last(), present.take(rows.len() - 1))
    } else {
        gone_ids(rows.drop_last(), present.take(rows.len() - 1)).push(rows.last().0)
    }
}

/// The song rows (`(id, file path)`) to delete after a scan: those whose
/// file no longer exists.
pub fn deleted_song_ids(rows: &Vec<(String, String)>, present: &Vec<bool>) -> (ids: Vec<String>)
    requires
        present.len() == rows.len(),
    ensures
        ids@ == gone_ids(rows@, present@),
        ids.len() <= rows.len(),
{
    let n = rows.len();
    let mut ids: Vec<String> = Vec::new();
    let mut i: usize = 0;
    while i < n
        invariant
            n == rows.len(),
            n == present.len(),
            i <= n,
            ids@ == gone_ids(rows@.take(i as int), present@.take(i as int)),
            ids.len() <= i,
        decreases n - i,
    {
        assert(rows@.take(i as int + 1).drop_last() =~= rows@.take(i as int));
        assert(present@.take(i as int + 1).take(i as int) =~= present@.take(i as int));
        if !present[i] {
            ids.push(rows[i].0.clone());
        }
        i = i + 1;
    }
    assert(rows@.take(n as int) =~= rows@);
    assert(present@.take(n as int) =~= present@);
    ids
}

/// Exactly the rows whose file is gone are deleted: every deleted id is
/// the id of a row whose file is gone, and every such row's id is deleted.
pub proof fn lemma_gone_ids_are_the_missing_rows(rows: Seq<(String, String)>, present: Seq<bool>)
    requires
        present.len() == rows.len(),
    ensures
        forall|j: int| 0 <= j < gone_ids(rows, present).len() ==> exists|k: int|
            0 <= k < rows.len() && !present[k] && #[trigger] gone_ids(rows, present)[j] == (#[trigger] rows[k]).0,
        forall|k: int| 0 <= k < rows.len() && !present[k] ==> gone_ids(rows, present).contains(#[trigger] rows[k].0),
        gone_ids(rows, present).len() <= rows.len(),
    decreases rows.len(),
{
    if rows.len() > 0 {
        let n = rows.len() - 1;
        let r0 = rows.drop_last();
        let p0 = present.take(n);
        lemma_gone_ids_are_the_missing_rows(r0, p0);
        let g0 = gone_ids(r0, p0);
        let g = gone_ids(rows, present);
        assert forall|j: int| 0 <= j < g.len() implies exists|k: int|
            0 <= k < rows.len() && !present[k] && #[trigger] g[j] == (#[trigger] rows[k]).0 by {
            if j < g0.len() {
                assert(g[j] == g0[j]);
                let k = choose|k: int| 0 <= k < r0.len() && !p0[k] && #[trigger] g0[j] == (#[trigger] r0[k]).0;
                assert(rows[k] == r0[k]);
                assert(present[k] == p0[k]);
            } else {
                assert(!present[n]);
                assert(g[j] == rows[n].0);
            }
        }
        assert forall|k: int| 0 <= k < rows.len() && !present[k] implies g.contains(#[trigger] rows[k].0) by {
            if k < n {
                assert(rows[k] == r0[k]);
                assert(present[k] == p0[k]);
                assert(g0.contains(r0[k].0));
                let j = choose|j: int| 0 <= j < g0.len() && g0[j] == r0[k].0;
                assert(g[j] == g0[j]);
            } else {
                assert(g[g.len() - 1] == rows[n].0);
            }
        }
    }
}

} // verus!
