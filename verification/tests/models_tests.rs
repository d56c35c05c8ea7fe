use musicflow_server::models::response::common::{SubsonicResponse, ToXml};
use musicflow_server::models::response::genre::{Genre, Genres};
use musicflow_server::models::response::song::Song;

fn genres() -> Genres {
    Genres { genres: vec![Genre { value: "Rock".into(), song_count: 2, album_count: 1 }] }
}

#[test]
fn empty_envelope_xml() {
    let r = SubsonicResponse::<Genres>::ok(None);
    assert_eq!(
        r.to_xml(),
        "<?xml version=\"1.0\" encoding=\"UTF-8\"?>\n<subsonic-response xmlns=\"http://subsonic.org/restapi\" status=\"ok\" version=\"1.16.1\" serverVersion=\"1.0.0\"></subsonic-response\n>"
    );
}

#[test]
fn error_envelope_xml_escapes_message() {
    let r = SubsonicResponse::<Genres>::failed_xml(40, "a<b".to_string());
    assert_eq!(
        r.to_xml(),
        "<?xml version=\"1.0\" encoding=\"UTF-8\"?>\n<subsonic-response xmlns=\"http://subsonic.org/restapi\" status=\"failed\" version=\"1.16.1\" serverVersion=\"1.0.0\"><error code=\"40\" message=\"a&lt;b\"/></subsonic-response>"
    );
}

#[test]
fn data_envelope_xml() {
    let r = SubsonicResponse::ok_xml(Some(genres()));
    assert_eq!(
        r.to_xml(),
        "<?xml version=\"1.0\" encoding=\"UTF-8\"?>\n<subsonic-response xmlns=\"http://subsonic.org/restapi\" status=\"ok\" version=\"1.16.1\" serverVersion=\"1.0.0\"><genres><genre songCount=\"2\" albumCount=\"1\">Rock</genre></genres></subsonic-response>"
    );
}

#[test]
fn song_xml_attributes_in_order() {
    let s = Song {
        id: "s1".into(),
        title: "T".into(),
        artist: "A".into(),
        album: "B".into(),
        genre: Some("Rock".into()),
        year: None,
        duration: 180,
        bit_rate: Some(320),
        content_type: "audio/mpeg".into(),
        path: None,
        track_number: Some(1),
        disc_number: None,
        cover_art: None,
        album_id: Some("al".into()),
        artist_id: None,
        size: None,
        play_count: Some(5),
        user_rating: Some(4),
        is_starred: Some(true),
        suffix: Some("mp3".into()),
    };
    assert_eq!(
        s.to_xml_element(),
        "<song id=\"s1\" title=\"T\" artist=\"A\" album=\"B\" duration=\"180\" contentType=\"audio/mpeg\" genre=\"Rock\" bitRate=\"320\" track=\"1\" albumId=\"al\" suffix=\"mp3\" userRating=\"4\" isStarred=\"true\"/>"
    );
}

use musicflow_server::models::dto::{AlbumDetailDto, AlbumDto, ArtistDto, PlaylistDto};
use musicflow_server::models::response::album::AlbumResponse;
use musicflow_server::models::response::artist::ArtistResponse;
use musicflow_server::models::response::playlist::PlaylistResponse;

#[test]
fn conversions_from_rows() {
    let a = AlbumResponse::from(AlbumDto {
        id: "al1".into(),
        name: "LP".into(),
        artist: "Band".into(),
        year: Some(1999),
        song_count: 10,
    });
    assert_eq!(a.song_count, Some(10));
    assert_eq!(a.artist_id, None);
    let d: AlbumResponse = AlbumDetailDto {
        id: "al2".into(),
        name: "EP".into(),
        artist: "Band".into(),
        artist_id: "ar1".into(),
        year: None,
        genre: Some("Pop".into()),
        cover_art_path: Some("al-12345678".into()),
        song_count: 4,
        duration: 900,
        play_count: 7,
    }
    .into();
    assert_eq!(d.artist_id.as_deref(), Some("ar1"));
    assert_eq!(d.duration, Some(900));
    let r = ArtistResponse::from_dto(ArtistDto { id: "x1".into(), name: "X".into() });
    assert_eq!(r.cover_art.as_deref(), Some("ar-x1"));
    let p = PlaylistResponse::from(PlaylistDto {
        id: "p".into(),
        name: "Mix".into(),
        owner: "bob".into(),
        is_public: true,
        song_count: 2,
        duration: 380,
    });
    assert_eq!(p.duration, Some(380));
    assert!(p.public);
}
