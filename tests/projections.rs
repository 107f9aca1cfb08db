use ncm_glue::glue::{
    comments_info, created_playlist_id, logged_in, playlist_summary, playlists_info,
    response_ok, song_info, songs_info, PlaylistSummary, SongInfo,
};
use ncm_glue::json::Json;

fn doc(text: &str) -> Json {
    Json::parse(text.as_bytes()).unwrap()
}

#[test]
fn song_info_takes_first_artist() {
    let j = doc(r#"{"id":5,"name":"S","ar":[{"name":"First"},{"name":"Second"}],"al":{"id":1}}"#);
    assert_eq!(
        song_info(&j),
        Some(SongInfo { id: 5, name: "S".to_string(), artist: "First".to_string() })
    );
    assert_eq!(song_info(&doc(r#"{"id":5,"name":"S","ar":[{"name":null}]}"#)), None);
}

#[test]
fn songs_info_all_or_nothing() {
    let good = vec![doc(r#"{"id":1,"name":"a","ar":[{"name":"x"}]}"#)];
    assert_eq!(songs_info(&good).map(|v| v.len()), Some(1));
    let bad = vec![doc(r#"{"id":1,"name":"a","ar":[{"name":"x"}]}"#), doc(r#"{"id":2}"#)];
    assert_eq!(songs_info(&bad), None);
    assert_eq!(songs_info(&vec![]), Some(vec![]));
}

#[test]
fn playlists_info_reads_each() {
    let items = vec![doc(r#"{"id":1,"name":"a"}"#), doc(r#"{"id":2,"name":"b","trackCount":3}"#)];
    assert_eq!(
        playlists_info(&items),
        Some(vec![
            PlaylistSummary { id: 1, name: "a".to_string() },
            PlaylistSummary { id: 2, name: "b".to_string() },
        ])
    );
    assert_eq!(playlist_summary(&doc(r#"{"id":"1","name":"a"}"#)), None);
}

#[test]
fn comments_info_needs_user() {
    let items = vec![doc(r#"{"commentId":1,"content":"c"}"#)];
    assert_eq!(comments_info(&items), None);
}

#[test]
fn status_checks_on_documents() {
    assert!(response_ok(&doc(r#"{"code":200}"#)));
    assert!(!response_ok(&doc(r#"{"code":200.0}"#)));
    assert!(logged_in(&doc(r#"{"account":{}}"#)));
    assert!(!logged_in(&doc(r#"{"account":null}"#)));
    assert_eq!(created_playlist_id(&doc(r#"{"code":200,"id":-3}"#)), Some(-3));
}
