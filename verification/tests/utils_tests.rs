use musicflow_server::format::ResponseFormat;
use musicflow_server::error::AppError;
use musicflow_server::text::{html_escape, i64_to_string, parse_i32, first_field};
use musicflow_server::utils::auth_utils::{
    require_admin, require_playlist_permission, verify_password, verify_subsonic_auth,
};
use musicflow_server::utils::hash_utils::{generate_salt, generate_subsonic_token, to_hex_lower};
use musicflow_server::utils::id_builder::{gen_cover_id, generate_id, generate_id_by_len, CoverArt};
use musicflow_server::utils::pinyin_utils::{blank, converted_or_text, is_white_space, Pinyin};
use musicflow_server::utils::sql_utils::{detail_sql, placeholders, update_statement, SqlValue};
use musicflow_server::utils::image_utils::{
    get_image_format, get_webp_cache_path, image_content_type, lower_extension, original_image_candidates,
    pick_first_present,
};
use musicflow_server::utils::paths::{grandparent_dir_name, parent_dir_name};

#[test]
fn test_require_admin() {
    assert!(require_admin(true).is_ok());
    assert!(require_admin(false).is_err());
}

#[test]
fn require_admin_message() {
    match require_admin(false) {
        Err(AppError::AccessDenied(m)) => assert_eq!(m, "Admin privileges required"),
        _ => panic!("expected access denied"),
    }
}

#[test]
fn playlist_permission_cases() {
    assert!(require_playlist_permission(true, false).is_ok());
    assert!(require_playlist_permission(false, true).is_ok());
    assert!(require_playlist_permission(true, true).is_ok());
    match require_playlist_permission(false, false) {
        Err(AppError::AccessDenied(m)) => assert_eq!(m, "Playlist access denied"),
        _ => panic!("expected access denied"),
    }
}

#[test]
fn subsonic_auth_password_checked() {
    assert_eq!(verify_subsonic_auth("u", None, None, Some("secret"), "secret").unwrap(), true);
    assert_eq!(verify_subsonic_auth("u", None, None, Some("wrong"), "secret").unwrap(), false);
    assert_eq!(verify_subsonic_auth("u", Some("t"), Some("s"), Some("wrong"), "secret").unwrap(), false);
}

#[test]
fn subsonic_auth_token_and_missing() {
    // MD5("passwordsalt123")
    let token = "153ef369bd2a6ca3ecde0dd486b1aed9";
    assert_eq!(verify_subsonic_auth("u", Some(token), Some("salt123"), None, "password").unwrap(), true);
    assert_eq!(verify_subsonic_auth("u", Some(token), Some("salt124"), None, "password").unwrap(), false);
    assert_eq!(verify_subsonic_auth("u", Some("t"), Some("s"), None, "secret").unwrap(), false);
    match verify_subsonic_auth("u", Some("t"), None, None, "secret") {
        Err(AppError::AuthFailed(m)) => assert_eq!(m, "Missing authentication parameters"),
        _ => panic!("expected auth failure"),
    }
    assert!(verify_subsonic_auth("u", None, None, None, "secret").is_err());
    assert!(verify_password("a", "a"));
    assert!(!verify_password("a", "b"));
}

#[test]
fn test_subsonic_token() {
    let password = "password";
    let salt = "salt123";
    let token = generate_subsonic_token(password, salt);
    // MD5("passwordsalt123")
    assert_eq!(token.len(), 32);
}

#[test]
fn subsonic_token_value() {
    assert_eq!(generate_subsonic_token("password", "salt123"), "153ef369bd2a6ca3ecde0dd486b1aed9");
    assert_eq!(to_hex_lower(&[0u8, 15, 16, 255]), "000f10ff");
}

#[test]
fn test_generate_salt() {
    let salt1 = generate_salt();
    let salt2 = generate_salt();
    assert_eq!(salt1.len(), 32);
    assert_ne!(salt1, salt2);
}

#[test]
fn test_generate_id() {
    for l in 8..=32 {
        let id = generate_id_by_len(l);
        println!("len: {} id: {}", l, id);
        assert_eq!(id.len(), l as usize);
    }

    let id = generate_id();
    println!("default id: {}", id);
    assert_eq!(id.len(), 16);

    let al_id = gen_cover_id(CoverArt::Album);
    println!("album id: {}", al_id);
    assert_eq!(al_id.len(), 19);

    let ar_id = gen_cover_id(CoverArt::Artist);
    println!("artist id: {}", ar_id);
    assert_eq!(ar_id.len(), 19);
}

#[test]
fn ids_are_hex_and_prefixed() {
    let id = generate_id();
    assert!(id.chars().all(|c| c.is_ascii_hexdigit() && !c.is_ascii_uppercase()));
    assert_eq!(generate_id_by_len(40).len(), 32);
    assert_eq!(CoverArt::Album.get_id("abc"), "al-abc");
    assert_eq!(CoverArt::Artist.get_id("abc"), "ar-abc");
    assert!(gen_cover_id(CoverArt::Album).starts_with("al-"));
}

#[test]
fn test_pinyin_utils() {
    let pinyin_utils = Pinyin::new();
    let first = pinyin_utils.first_char("我们");
    assert_eq!("w", first.to_lowercase());
}

#[test]
fn test_pinyin_init_once() {
    let _ = Pinyin::new();
    let _ = Pinyin::new();
    let _ = Pinyin::new();
    let _ = Pinyin::new();
    let p = Pinyin::new();
    assert_eq!(p.first_char("我们").to_lowercase(), "w");
    assert_ne!(p.to_pinyin("我们"), "我们");
}

#[test]
fn pinyin_blank_and_fallback() {
    let p = Pinyin::new();
    assert_eq!(p.to_pinyin("   "), "   ");
    assert_eq!(p.to_pinyin(""), "");
    assert_eq!(p.first_char(""), "\0");
    assert!(blank(" \t\n"));
    assert!(!blank(" a "));
    assert_eq!(converted_or_text("abc", None), "abc");
    assert_eq!(converted_or_text("abc", Some("x".to_string())), "x");
}

#[test]
fn escape_and_numbers() {
    assert_eq!(html_escape("a<b>&\"c'"), "a&lt;b&gt;&amp;&quot;c&apos;");
    assert_eq!(html_escape("plain"), "plain");
    assert_eq!(i64_to_string(-42), "-42");
    assert_eq!(i64_to_string(0), "0");
    assert_eq!(parse_i32("2021"), Some(2021));
    assert_eq!(parse_i32("-7"), Some(-7));
    assert_eq!(parse_i32("12a"), None);
    assert_eq!(parse_i32("2147483648"), None);
    assert_eq!(first_field("3/12", '/'), "3");
}

#[test]
fn html_escape_undone_by_replacements() {
    for s in ["a<b>&\"c'", "&lt;", "&amp;lt;", "Tom & Jerry's \"<show>\"", "", "plain"] {
        let back = html_escape(s)
            .replace("&lt;", "<")
            .replace("&gt;", ">")
            .replace("&quot;", "\"")
            .replace("&apos;", "'")
            .replace("&amp;", "&");
        assert_eq!(back, s);
    }
    assert_eq!(html_escape("&lt;"), "&amp;lt;");
}

#[test]
fn placeholder_lists() {
    assert_eq!(placeholders(0), "");
    assert_eq!(placeholders(1), "?");
    assert_eq!(placeholders(3), "?,?,?");
    assert!(detail_sql().starts_with("SELECT s.id, s.title"));
    assert!(detail_sql().ends_with("JOIN artists ar ON s.artist_id = ar.id"));
}

#[test]
fn update_statements() {
    assert!(update_statement("users", vec![], "username", SqlValue::Text("bob".into())).is_none());
    let st = update_statement(
        "users",
        vec![("email", SqlValue::Text("a@b".into())), ("max_bitrate", SqlValue::Int(128))],
        "username",
        SqlValue::Text("bob".into()),
    )
    .unwrap();
    assert_eq!(
        st.sql,
        "UPDATE users SET email = ?, max_bitrate = ?, updated_at = CURRENT_TIMESTAMP WHERE username = ?"
    );
    assert_eq!(st.values.len(), 3);
    assert!(matches!(&st.values[1], SqlValue::Int(128)));
    assert!(matches!(&st.values[2], SqlValue::Text(s) if s == "bob"));
}

#[test]
fn image_names_and_types() {
    assert_eq!(get_image_format("image/png"), "png");
    assert_eq!(get_image_format("image/gif"), "gif");
    assert_eq!(get_image_format("image/jpeg"), "jpg");
    assert_eq!(get_image_format("image/bmp"), "jpg");
    assert_eq!(get_webp_cache_path("al-1234", 300), "./coverArt/webp/al-1234_300.webp");
    assert_eq!(image_content_type("/x/cover.JPG"), "image/jpeg");
    assert_eq!(image_content_type("/x/cover.webp"), "image/webp");
    assert_eq!(image_content_type("/x/cover"), "application/octet-stream");
    assert_eq!(lower_extension("/music/a.FLAC"), "flac");
    let c = original_image_candidates("al-1");
    assert_eq!(c.len(), 8);
    let present = vec![false, false, true, true];
    assert_eq!(pick_first_present(&c, &present), Some(c[2].clone()));
    assert_eq!(pick_first_present(&c, &vec![false; 8]), None);
}

#[test]
fn path_directory_names() {
    assert_eq!(parent_dir_name("/music/Artist/Album/song.mp3"), Some("Album".to_string()));
    assert_eq!(grandparent_dir_name("/music/Artist/Album/song.mp3"), Some("Artist".to_string()));
    assert_eq!(parent_dir_name("song.mp3"), None);
}

use musicflow_server::text::{replace_all, str_contains};
use musicflow_server::utils::meta_fetch::{
    album_cover_url, album_search_url, artist_cover_url, check_reply, singer_id, singer_info_url, singer_search_url,
    sized_image, KugouAlbum, KugouArtists,
};

#[test]
fn text_search_and_replace() {
    assert!(str_contains("Test Album", "Album"));
    assert!(str_contains("abc", ""));
    assert!(!str_contains("abc", "abcd"));
    assert!(!str_contains("Test", "test"));
    assert_eq!(replace_all("a{}b{}", "{}", "X"), "aXbX");
    assert_eq!(replace_all("aaa", "aa", "b"), "ba");
    assert_eq!(replace_all("none here", "{}", "X"), "none here");
}

#[test]
fn kugou_addresses() {
    assert_eq!(album_search_url("Fly"), "http://mobilecdn.kugou.com/api/v3/search/album?keyword=Fly");
    assert_eq!(
        singer_search_url("Jay"),
        "http://mobilecdn.kugou.com/api/v3/search/singer?keyword=Jay&page=1&pagesize=20"
    );
    assert_eq!(
        singer_info_url(3520),
        "http://mobilecdn.kugou.com/api/v3/singer/info?singerid=3520&with_res_tag=1"
    );
    assert_eq!(sized_image("http://img/{size}/a.jpg"), "http://img/600/a.jpg");
}

#[test]
fn kugou_reply_checks() {
    assert!(check_reply(1, 0).is_ok());
    assert_eq!(check_reply(0, 0).unwrap_err(), "status=0 not 1");
    assert_eq!(check_reply(1, -2).unwrap_err(), "errcode=-2 not 0");
}

#[test]
fn kugou_album_choice() {
    let infos = vec![
        KugouAlbum { albumname: Some("Other".into()), imgurl: Some("u0/{size}".into()) },
        KugouAlbum { albumname: Some("My Fly Album".into()), imgurl: Some("u1/{size}".into()) },
    ];
    assert_eq!(album_cover_url(Some(infos.clone()), "Fly").unwrap(), "u1/600");
    assert_eq!(album_cover_url(Some(infos), "Nothing").unwrap(), "u0/600");
    assert_eq!(album_cover_url(Some(vec![]), "x").unwrap_err(), "info is empty");
    assert_eq!(album_cover_url(None, "x").unwrap_err(), "cover not found x");
    let no_img = vec![KugouAlbum { albumname: None, imgurl: None }];
    assert_eq!(album_cover_url(Some(no_img), "x").unwrap_err(), "cover not found x");
}

#[test]
fn kugou_singer_choice() {
    let data = vec![
        KugouArtists { singername: Some("A".into()), singerid: Some(1) },
        KugouArtists { singername: Some("Jay Chou".into()), singerid: Some(2) },
    ];
    assert_eq!(singer_id(data, "Jay").unwrap(), 2);
    assert_eq!(singer_id(vec![], "Jay").unwrap_err(), "data is empty");
    let none = vec![KugouArtists { singername: Some("Jay".into()), singerid: None }];
    assert_eq!(singer_id(none, "Jay").unwrap_err(), "singer id not found Jay");
    assert_eq!(artist_cover_url(Some("p/{size}.jpg".into()), "Jay").unwrap(), "p/600.jpg");
    assert_eq!(artist_cover_url(None, "Jay").unwrap_err(), "artist cover not found Jay");
}

#[test]
fn white_space_matches_std() {
    for u in 0u32..0x3100 {
        if let Some(c) = char::from_u32(u) {
            assert_eq!(is_white_space(c), c.is_whitespace(), "U+{:04X}", u);
        }
    }
    assert!(blank("\u{3000}\u{a0}\u{85}"));
}

#[test]
fn unknown_format_names_fall_back_to_json() {
    assert_eq!(ResponseFormat::from_str("xMl"), ResponseFormat::Xml);
    assert_eq!(ResponseFormat::from_str("XML "), ResponseFormat::Json);
}
