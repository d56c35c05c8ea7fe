use musicflow_server::error::AppError;
use musicflow_server::models::dto::{ComplexSongDto, SongDetailDto};
use musicflow_server::models::entities::{Album, Artist, PlayQueue, Song};
use musicflow_server::models::user::{CreateUserRequest, LoginRequest, UpdateUserRequest, User};
use musicflow_server::services::auth_service::{check_registration, login_outcome, registered_user};
use musicflow_server::services::browsing_service::{
    album_list_sql, classify_id, found_or, random_songs_sql, song_with_user_data, AlbumListType, IdType,
};
use musicflow_server::services::library_service::{
    scrobble_step, star_sql, unstar_sql, validate_rating, ScrobbleAction, ScrobbleStage, StarItemType,
};
use musicflow_server::services::play_queue_service::{
    queue_entries, queue_id, queue_write, saved_position, PlayQueueDetail, QueueWrite,
};
use musicflow_server::services::playlist_service::{append_positions, check_owner, playlist_stats, playlist_update};
use musicflow_server::services::scan_service::{
    album_insert, album_meta_update, album_name_from_path, artist_insert, artist_name_from_path,
    cover_art_id_for_album, is_supported_audio_file, merge_album_meta, original_cover_path,
    plan_incremental_scan, should_scan, song_source, song_write, DbRecord, Instant, ScanProgress, ScanResult,
    BATCH_SIZE,
};
use musicflow_server::services::search_service::{like_pattern, SearchParams};
use musicflow_server::services::song_service::{
    complex_song, enrich_songs, ratings_batch_sql, songs_by_ids_sql, starred_batch_sql,
};
use musicflow_server::services::user_service::{
    admin_only, check_change_password, check_create_user, check_delete_user, found_user, user_update,
};
use musicflow_server::utils::image_utils::AudioMetadata;
use musicflow_server::utils::sql_utils::SqlValue;

fn song(id: &str, title: &str, path: Option<&str>) -> SongDetailDto {
    SongDetailDto {
        id: id.to_string(),
        title: title.to_string(),
        artist: "Test Artist".to_string(),
        artist_id: "artist1".to_string(),
        album: "Test Album".to_string(),
        album_id: "album1".to_string(),
        track_number: Some(1),
        disc_number: None,
        duration: 180,
        bit_rate: None,
        genre: Some("Rock".to_string()),
        year: None,
        content_type: None,
        path: path.map(|p| p.to_string()),
        cover_art: None,
        file_size: None,
        play_count: Some(50),
    }
}

fn user(name: &str, password: &str, admin: bool) -> User {
    User::new(name.to_string(), password.to_string(), format!("{}@test.com", name), admin)
}

fn empty_update() -> UpdateUserRequest {
    UpdateUserRequest {
        email: None,
        max_bitrate: None,
        download_role: None,
        upload_role: None,
        playlist_role: None,
        cover_art_role: None,
        comment_role: None,
        podcast_role: None,
        share_role: None,
        video_conversion_role: None,
        scrobbling_enabled: None,
    }
}

#[test]
fn enrich_songs_empty_list() {
    let r = enrich_songs(vec![], &vec![], &vec![]);
    assert_eq!(r.len(), 0);
}

#[test]
fn enrich_songs_rating_and_star() {
    let songs = vec![song("song1", "Song 1", Some("/path/to/song1.mp3")), song("song2", "Song 2", Some("/path/to/song2.mp3"))];
    let ratings = vec![(5, "song1".to_string())];
    let starred = vec!["song2".to_string()];
    let c: Vec<ComplexSongDto> = enrich_songs(songs, &ratings, &starred);
    assert_eq!(c.len(), 2);
    assert_eq!(c[0].song.title, "Song 1");
    assert_eq!(c[0].user_rating, Some(5));
    assert_eq!(c[0].starred, None);
    assert_eq!(c[0].suffix.as_deref(), Some("mp3"));
    assert_eq!(c[1].song.title, "Song 2");
    assert_eq!(c[1].user_rating, None);
    assert_eq!(c[1].starred, Some(true));
    assert!(c[1].suffix.is_some());
}

#[test]
fn enrich_songs_last_rating_wins() {
    let ratings = vec![(2, "s".to_string()), (4, "s".to_string())];
    let c = enrich_songs(vec![song("s", "S", None)], &ratings, &vec![]);
    assert_eq!(c[0].user_rating, Some(4));
    assert_eq!(c[0].suffix, None);
}

#[test]
fn complex_song_found_and_missing() {
    let c = complex_song(Some(song("song1", "Song 1", Some("/a/b.flac"))), &vec![(5, "song1".into())], &vec![]).unwrap();
    assert_eq!(c.song.title, "Song 1");
    assert_eq!(c.user_rating, Some(5));
    assert_eq!(c.starred, None);
    match complex_song(None, &vec![], &vec![]) {
        Err(AppError::NotFound(m)) => assert_eq!(m, "Song"),
        _ => panic!("expected not found"),
    }
}

#[test]
fn batch_queries() {
    assert_eq!(ratings_batch_sql(2), "SELECT rating, song_id FROM ratings WHERE user_id = ? AND song_id IN (?,?)");
    assert_eq!(starred_batch_sql(1), "SELECT song_id FROM starred WHERE user_id = ? AND song_id IN (?)");
    assert!(songs_by_ids_sql(3).ends_with(" WHERE s.id IN (?,?,?)"));
}

#[test]
fn song_with_user_data_star_matches_id() {
    let c = song_with_user_data(song("song1", "Song 1", Some("/x/y.MP3")), Some(3), Some("song1".into()));
    assert_eq!(c.user_rating, Some(3));
    assert_eq!(c.starred, Some(true));
    assert_eq!(c.suffix.as_deref(), Some("mp3"));
    let c = song_with_user_data(song("song1", "Song 1", None), None, None);
    assert_eq!(c.starred, None);
    assert_eq!(c.suffix, None);
}

#[test]
fn album_list_types() {
    assert!(matches!(AlbumListType::parse_name("random"), AlbumListType::Random));
    assert!(matches!(AlbumListType::parse_name("alphabetical"), AlbumListType::AlphabeticalByName));
    assert!(matches!(AlbumListType::parse_name("alphabeticalByName"), AlbumListType::AlphabeticalByName));
    assert!(matches!(AlbumListType::parse_name("byGenre"), AlbumListType::ByGenre));
    assert!(matches!(AlbumListType::parse_name("whatever"), AlbumListType::Newest));
    assert!(matches!("highest".parse::<AlbumListType>(), Ok(AlbumListType::Highest)));
    assert!(matches!(AlbumListType::default(), AlbumListType::Newest));
    assert_eq!(AlbumListType::Frequent.order_by_clause(), "a.play_count DESC");
    assert_eq!(AlbumListType::ByYear.where_clause(), Some("a.year IS NOT NULL"));
    assert_eq!(AlbumListType::Recent.where_clause(), None);
    let q = album_list_sql(AlbumListType::ByGenre);
    assert!(q.ends_with(" WHERE a.genre IS NOT NULL ORDER BY a.genre ASC, a.name ASC LIMIT ? OFFSET ?"));
    let q = album_list_sql(AlbumListType::Newest);
    assert!(q.ends_with("JOIN artists ar ON a.artist_id = ar.id ORDER BY a.created_at DESC LIMIT ? OFFSET ?"));
}

#[test]
fn random_song_filters() {
    let st = random_songs_sql(10, Some("x' OR 'a'='a"), Some(1990), Some(-5));
    assert!(st.sql.contains(" WHERE 1=1 AND al.genre = ? AND al.year >= ? AND al.year <= ?\n"));
    assert!(!st.sql.contains("OR 'a'"));
    assert_eq!(st.values.len(), 4);
    assert!(matches!(&st.values[0], SqlValue::Text(g) if g == "x' OR 'a'='a"));
    assert!(matches!(&st.values[1], SqlValue::Int(1990)));
    assert!(matches!(&st.values[2], SqlValue::Int(-5)));
    assert!(matches!(&st.values[3], SqlValue::Int(10)));
    assert_eq!(st.sql.matches('?').count(), 4);
    let st = random_songs_sql(3, None, None, Some(2000));
    assert!(st.sql.contains(" WHERE 1=1 AND al.year <= ?\n             ORDER BY RANDOM()\n             LIMIT ?"));
    assert_eq!(st.values.len(), 2);
    assert!(matches!(&st.values[0], SqlValue::Int(2000)));
    assert!(matches!(&st.values[1], SqlValue::Int(3)));
}

#[test]
fn id_classification() {
    assert!(matches!(classify_id("song1", true, true, false), Ok(IdType::Song(s)) if s == "song1"));
    assert!(matches!(classify_id("album1", false, true, true), Ok(IdType::Album(s)) if s == "album1"));
    assert!(matches!(classify_id("artist1", false, false, true), Ok(IdType::Artist(s)) if s == "artist1"));
    match classify_id("nonexistent", false, false, false) {
        Err(AppError::NotFound(m)) => assert_eq!(m, "Song/Album/Artist"),
        _ => panic!("expected not found"),
    }
    assert_eq!(found_or(Some(3), "Album").unwrap(), 3);
    assert!(matches!(found_or::<i32>(None, "Album"), Err(AppError::NotFound(m)) if m == "Album"));
}

#[test]
fn ratings_validated() {
    assert!(validate_rating(1).is_ok());
    assert!(validate_rating(5).is_ok());
    assert!(validate_rating(0).is_err());
    match validate_rating(6) {
        Err(AppError::ValidationError(m)) => assert_eq!(m, "Rating must be between 1 and 5"),
        _ => panic!("expected validation error"),
    }
}

#[test]
fn star_statements() {
    assert!(star_sql(StarItemType::Song).starts_with("INSERT OR IGNORE INTO starred (id, user_id, song_id, created_at)"));
    assert!(star_sql(StarItemType::Artist).contains("artist_id"));
    assert_eq!(unstar_sql(StarItemType::Album), "DELETE FROM starred WHERE user_id = ? AND album_id = ?");
}

#[test]
fn scrobble_with_and_without_submission() {
    let (s, a) = scrobble_step(ScrobbleStage::Start, true, None);
    assert_eq!(s, ScrobbleStage::Recorded);
    assert!(matches!(a, ScrobbleAction::InsertScrobble));
    let (s, a) = scrobble_step(s, true, None);
    assert_eq!(s, ScrobbleStage::SongCounted);
    assert!(matches!(a, ScrobbleAction::CountSongPlay));
    let (s, a) = scrobble_step(s, true, Some("album1".into()));
    assert_eq!(s, ScrobbleStage::Done);
    assert!(matches!(a, ScrobbleAction::CountAlbumPlay(x) if x == "album1"));
    let (s, a) = scrobble_step(ScrobbleStage::Recorded, false, None);
    assert_eq!(s, ScrobbleStage::Done);
    assert!(matches!(a, ScrobbleAction::Finish));
}

#[test]
fn playlist_ownership() {
    assert!(check_owner(Some("user1".into()), "user1").is_ok());
    assert!(matches!(check_owner(Some("user1".into()), "user2"), Err(AppError::AccessDenied(m)) if m == "Not playlist owner"));
    assert!(matches!(check_owner(None, "user1"), Err(AppError::NotFound(m)) if m == "Playlist"));
}

#[test]
fn playlist_updates_and_positions() {
    assert!(playlist_update("p1", None, None, None).is_none());
    let st = playlist_update("p1", Some("Updated Playlist".into()), Some("Test comment".into()), Some(true)).unwrap();
    assert_eq!(st.sql, "UPDATE playlists SET name = ?, comment = ?, is_public = ?, updated_at = CURRENT_TIMESTAMP WHERE id = ?");
    assert_eq!(st.values.len(), 4);
    assert!(matches!(&st.values[2], SqlValue::Bool(true)));
    let st = playlist_update("p1", None, None, Some(false)).unwrap();
    assert_eq!(st.sql, "UPDATE playlists SET is_public = ?, updated_at = CURRENT_TIMESTAMP WHERE id = ?");
    assert_eq!(append_positions(2, 3), vec![2, 3, 4]);
    assert_eq!(append_positions(0, 0), Vec::<i32>::new());
    assert_eq!(playlist_stats(2, Some(380)), (2, 380));
    assert_eq!(playlist_stats(0, None), (0, 0));
}

#[test]
fn user_management_checks() {
    assert!(admin_only(true).is_ok());
    assert!(matches!(admin_only(false), Err(AppError::AccessDenied(m)) if m == "Admin only"));
    assert!(check_delete_user(true, "admin", "user").is_ok());
    assert!(matches!(check_delete_user(true, "admin", "admin"), Err(AppError::ValidationError(m)) if m == "Cannot delete yourself"));
    assert!(matches!(check_delete_user(false, "user", "admin"), Err(AppError::AccessDenied(_))));
    assert!(check_change_password(false, "bob", "bob").is_ok());
    assert!(check_change_password(true, "admin", "bob").is_ok());
    assert!(check_change_password(false, "bob", "alice").is_err());
    assert!(check_create_user(true, false).is_ok());
    assert!(matches!(check_create_user(true, true), Err(AppError::ValidationError(m)) if m == "Username already exists"));
    assert!(check_create_user(false, false).is_err());
    assert!(matches!(found_user(None), Err(AppError::NotFound(m)) if m == "User"));
    assert_eq!(found_user(Some(user("admin", "admin", true))).unwrap().username, "admin");
}

#[test]
fn user_update_statement() {
    assert!(user_update("bob", empty_update()).is_none());
    let mut r = empty_update();
    r.email = Some("b@x".into());
    r.share_role = Some(false);
    r.scrobbling_enabled = Some(true);
    let st = user_update("bob", r).unwrap();
    assert_eq!(
        st.sql,
        "UPDATE users SET email = ?, share_role = ?, scrobbling_enabled = ?, updated_at = CURRENT_TIMESTAMP WHERE username = ?"
    );
    assert_eq!(st.values.len(), 4);
    assert!(matches!(&st.values[0], SqlValue::Text(s) if s == "b@x"));
    assert!(matches!(&st.values[1], SqlValue::Bool(false)));
    assert!(matches!(&st.values[3], SqlValue::Text(s) if s == "bob"));
}

#[test]
fn registration_and_login() {
    assert!(check_registration(false).is_ok());
    assert!(matches!(check_registration(true), Err(AppError::ValidationError(m)) if m == "Username or email already exists"));
    let u = registered_user(CreateUserRequest {
        username: "bob".into(),
        password: "pw".into(),
        email: "bob@x".into(),
        is_admin: None,
    });
    assert_eq!(u.username, "bob");
    assert!(!u.admin);
    assert_eq!(u.max_bit_rate, 320);
    assert!(u.download_role && u.playlist_role && u.cover_art_role && u.share_role && u.scrobbling_enabled);
    assert!(!u.upload_role && !u.comment_role && !u.podcast_role && !u.video_conversion_role);
    let ok = login_outcome(Some(user("admin", "admin", true)), LoginRequest { username: "admin".into(), password: "admin".into() });
    assert!(ok.unwrap().admin);
    let bad = login_outcome(Some(user("admin", "admin", true)), LoginRequest { username: "admin".into(), password: "x".into() });
    assert!(matches!(bad, Err(AppError::AuthFailed(m)) if m == "Invalid username or password"));
    assert!(login_outcome(None, LoginRequest { username: "nobody".into(), password: "x".into() }).is_err());
}

#[test]
fn search_defaults_and_patterns() {
    let p = SearchParams::default();
    assert_eq!(p.query, "");
    assert_eq!((p.artist_count, p.album_count, p.song_count), (20, 20, 20));
    assert_eq!((p.artist_offset, p.album_offset, p.song_offset), (0, 0, 0));
    assert_eq!(like_pattern("Test"), "%Test%");
}

#[test]
fn play_queue_writes() {
    assert_eq!(saved_position(None), 0);
    assert_eq!(saved_position(Some(1234)), 1234);
    let w = queue_write(Some("q1".into()));
    assert!(matches!(&w, QueueWrite::Update(x) if x == "q1"));
    assert_eq!(queue_id(&w), "q1");
    let w = queue_write(None);
    assert!(matches!(&w, QueueWrite::Insert(x) if x.len() == 16));
    let e = queue_entries(&"q1".to_string(), &vec!["a".into(), "b".into(), "c".into()]);
    assert_eq!(e.len(), 3);
    assert_eq!(e[2].song_id, "c");
    assert_eq!(e[2].song_order, 2);
    assert_eq!(e[0].play_queue_id, "q1");
    let d = PlayQueueDetail::new(
        PlayQueue {
            id: "q1".into(),
            user_id: "u".into(),
            current_song_id: Some("a".into()),
            position: 5,
            changed_at: "2024-01-01T00:00:00+00:00".into(),
            changed_by: "web".into(),
        },
        "bob".into(),
        vec![],
    );
    assert_eq!(d.position, 5);
    assert_eq!(d.username, "bob");
}

fn metadata() -> AudioMetadata {
    AudioMetadata {
        title: None,
        artist: None,
        album: Some("Tagged Album".into()),
        album_artist: None,
        genre: None,
        year: None,
        track_number: None,
        disc_number: None,
        duration_secs: 245,
        bit_rate: None,
        sample_rate: None,
        channels: None,
        content_type: String::new(),
        file_size: None,
        cover_art_raw: None,
        lyrics: None,
    }
}

#[test]
fn scan_file_selection_and_sources() {
    assert!(is_supported_audio_file("/m/a/b/song.MP3"));
    assert!(is_supported_audio_file("x.opus"));
    assert!(!is_supported_audio_file("cover.jpg"));
    assert!(!is_supported_audio_file("README"));
    assert_eq!(artist_name_from_path("/music/Artist/Album/song.mp3"), "Album");
    assert_eq!(album_name_from_path("/music/Artist/Album/song.mp3"), "Artist");
    assert_eq!(artist_name_from_path("song.mp3"), "Unknown Artist");
    assert_eq!(album_name_from_path("song.mp3"), "Unknown Album");
    let s = song_source("/music/Artist/Album/song.mp3", &metadata());
    assert_eq!(s.artist_name, "Album");
    assert_eq!(s.album_name, "Tagged Album");
    assert_eq!(s.title, "Unknown");
    assert_eq!(s.duration, 245);
}

#[test]
fn scan_cover_names() {
    assert_eq!(cover_art_id_for_album("0123456789abcdef"), "al-01234567");
    assert_eq!(original_cover_path("al-01234567", "png"), "./coverArt/originals/al-01234567.png");
}

#[test]
fn scan_incremental_plan() {
    let t = Instant { secs: 100, nanos: 0 };
    assert!(should_scan(DbRecord::Absent, Some(t)));
    assert!(should_scan(DbRecord::Unreadable, Some(t)));
    assert!(should_scan(DbRecord::UpdatedAt(t), None));
    assert!(!should_scan(DbRecord::UpdatedAt(t), Some(t)));
    assert!(should_scan(DbRecord::UpdatedAt(t), Some(Instant { secs: 100, nanos: 1 })));
    let records = vec![
        (DbRecord::UpdatedAt(t), Some(t)),
        (DbRecord::Absent, None),
        (DbRecord::UpdatedAt(t), Some(Instant { secs: 101, nanos: 0 })),
    ];
    let (picked, skipped) = plan_incremental_scan(&records);
    assert_eq!(picked, vec![1, 2]);
    assert_eq!(skipped, 1);
}

#[test]
fn scan_progress_accounting() {
    let mut p = ScanProgress::new(3);
    let step = p.on_parsed(true);
    assert!(!step.flush && !step.report);
    p.on_parsed(false);
    let step = p.on_parsed(true);
    assert!(step.report && step.log);
    assert!(p.needs_final_flush());
    p.on_batch_saved(Some(1));
    assert_eq!(p.result.songs, 1);
    assert_eq!(p.result.failed, 1);
    assert!(!p.needs_final_flush());
    assert_eq!(BATCH_SIZE, 100);
    let r = ScanResult::new();
    assert_eq!((r.artists, r.albums, r.songs, r.failed, r.deleted), (0, 0, 0, 0, 0));
}

#[test]
fn scan_batch_failure_counts_every_file() {
    let mut p = ScanProgress::new(5);
    p.on_parsed(true);
    p.on_parsed(true);
    p.on_batch_saved(None);
    assert_eq!(p.result.failed, 2);
    assert_eq!(p.result.songs, 0);
}

#[test]
fn album_meta_merging() {
    let u = merge_album_meta(Some(2000), None, Some(2010), Some("Rock".into()));
    assert_eq!(u.year, Some(2000));
    assert_eq!(u.genre.as_deref(), Some("Rock"));
    assert!(u.changed);
    let st = album_meta_update("album1", &u).unwrap();
    assert_eq!(st.sql, "UPDATE albums SET year = ?, genre = ?, updated_at = CURRENT_TIMESTAMP WHERE id = ?");
    let u = merge_album_meta(Some(2000), Some("Pop".into()), Some(2010), Some("Rock".into()));
    assert!(!u.changed);
    assert!(album_meta_update("album1", &u).is_none());
}

#[test]
fn scan_row_writes() {
    let a = Artist::new("Band".into(), None, None);
    let st = artist_insert(&a);
    assert_eq!(st.values.len(), 6);
    assert!(matches!(&st.values[1], SqlValue::Text(n) if n == "Band"));
    let al = Album::new(a.id.clone(), "LP".into(), "/music".into(), Some(1999), None, None);
    let st = album_insert(&al);
    assert_eq!(st.values.len(), 8);
    assert!(matches!(&st.values[3], SqlValue::Int(1999)));
    assert!(matches!(&st.values[4], SqlValue::Null));
    let s = Song::new(
        al.id.clone(), a.id.clone(), "T".into(), 200, "/music/x.mp3".into(),
        None, Some(2), None, None, None, Some("mp3".into()), Some(1000), None,
    );
    let up = song_write(true, &s);
    assert!(up.sql.starts_with("UPDATE songs"));
    assert_eq!(up.values.len(), 12);
    assert!(matches!(&up.values[1], SqlValue::Int(0)));
    assert!(matches!(&up.values[5], SqlValue::Text(g) if g.is_empty()));
    let ins = song_write(false, &s);
    assert!(ins.sql.starts_with("INSERT INTO songs"));
    assert_eq!(ins.values.len(), 16);
    assert!(matches!(&ins.values[4], SqlValue::Null));
    assert!(matches!(&ins.values[5], SqlValue::Int(2)));
    assert_eq!(a.id.len(), 36);
}

use musicflow_server::services::scan_service::deleted_song_ids;

#[test]
fn scan_cleanup_picks_missing_files() {
    let rows = vec![
        ("s1".to_string(), "/a.mp3".to_string()),
        ("s2".to_string(), "/b.mp3".to_string()),
        ("s3".to_string(), "/c.mp3".to_string()),
    ];
    assert_eq!(deleted_song_ids(&rows, &vec![true, false, false]), vec!["s2".to_string(), "s3".to_string()]);
    assert!(deleted_song_ids(&rows, &vec![true, true, true]).is_empty());
}
