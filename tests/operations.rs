use ncm_glue::glue::{
    comment_request, create_playlist, get_comment, get_lyrics, login, loginp, logout,
    recommend_playlists, recommend_songs, request_succeeded, search, search_playlist,
    search_request, search_song, song_url, track_op, user_playlist, CommentInfo,
    CommentRequest, LogoutOutcome, LoginInfo, Lyrics, PlaylistSummary, SearchHits, SearchKind,
    SearchRequest, SongInfo,
};

fn song(id: i64, name: &str, artist: &str) -> SongInfo {
    SongInfo { id, name: name.to_string(), artist: artist.to_string() }
}

fn playlist(id: i64, name: &str) -> PlaylistSummary {
    PlaylistSummary { id, name: name.to_string() }
}

#[test]
fn login_reads_account_and_profile() {
    let data = br#"{"code":200,"account":{"id":42},"profile":{"nickname":"nick","avatarUrl":"http://a/b.jpg"}}"#;
    assert_eq!(
        login(data),
        Some(LoginInfo {
            user_id: 42,
            nickname: "nick".to_string(),
            avatar_url: "http://a/b.jpg".to_string(),
        })
    );
}

#[test]
fn login_failure_code_gives_none() {
    let data = br#"{"code":502,"msg":"wrong password"}"#;
    assert_eq!(login(data), None);
}

#[test]
fn login_missing_avatar_gives_none() {
    let data = br#"{"code":200,"account":{"id":42},"profile":{"nickname":"nick"}}"#;
    assert_eq!(login(data), None);
}

#[test]
fn login_unparsable_gives_none() {
    assert_eq!(login(b"not json"), None);
    assert_eq!(login(b""), None);
}

#[test]
fn loginp_needs_non_null_account() {
    assert!(loginp(br#"{"code":200,"account":{"id":1}}"#));
    assert!(!loginp(br#"{"code":200,"account":null}"#));
    assert!(!loginp(br#"{"code":200}"#));
    assert!(!loginp(b"[1,2]"));
}

#[test]
fn logout_outcomes() {
    assert_eq!(logout(None), LogoutOutcome::NotLoggedIn);
    assert_eq!(logout(Some(&br#"{"code":200}"#[..])), LogoutOutcome::LoggedOut);
    assert_eq!(logout(Some(&br#"{"code":301}"#[..])), LogoutOutcome::Failed);
    assert_eq!(logout(Some(&b"oops"[..])), LogoutOutcome::Failed);
}

#[test]
fn request_succeeded_only_on_code_200() {
    assert!(request_succeeded(br#"{"code":200}"#));
    assert!(!request_succeeded(br#"{"code":"200"}"#));
    assert!(!request_succeeded(br#"{"code":404}"#));
    assert!(!request_succeeded(br#"{}"#));
    assert!(!request_succeeded(b"200"));
}

#[test]
fn create_playlist_reads_id() {
    assert_eq!(create_playlist(br#"{"code":200,"id":7001}"#), Some(7001));
    assert_eq!(create_playlist(br#"{"code":200}"#), Some(0));
    assert_eq!(create_playlist(br#"{"code":200,"id":"x"}"#), None);
    assert_eq!(create_playlist(br#"{"code":400,"id":7001}"#), None);
}

#[test]
fn recommend_songs_reads_daily_songs() {
    let data = br#"{"code":200,"data":{"dailySongs":[
        {"id":1,"name":"One","ar":[{"id":9,"name":"A"},{"id":8,"name":"B"}]},
        {"id":2,"name":"Two","ar":[{"id":7,"name":"C"}]}]}}"#;
    assert_eq!(recommend_songs(data), Some(vec![song(1, "One", "A"), song(2, "Two", "C")]));
}

#[test]
fn recommend_songs_song_without_artist_gives_none() {
    let data = br#"{"code":200,"data":{"dailySongs":[{"id":1,"name":"One","ar":[]}]}}"#;
    assert_eq!(recommend_songs(data), None);
}

#[test]
fn recommend_songs_failure_code_gives_none() {
    assert_eq!(recommend_songs(br#"{"code":301,"data":{"dailySongs":[]}}"#), None);
}

#[test]
fn recommend_playlists_reads_recommend() {
    let data = br#"{"code":200,"recommend":[{"id":5,"name":"Five"},{"id":6,"name":"Six"}]}"#;
    assert_eq!(recommend_playlists(data), Some(vec![playlist(5, "Five"), playlist(6, "Six")]));
    assert_eq!(recommend_playlists(br#"{"code":200,"recommend":[]}"#), Some(vec![]));
}

#[test]
fn search_song_reads_songs() {
    let data = br#"{"code":200,"result":{"songCount":1,"songs":[{"id":3,"name":"Lemon","ar":[{"name":"Yonezu"}]}]}}"#;
    assert_eq!(search_song(data), Some(vec![song(3, "Lemon", "Yonezu")]));
}

#[test]
fn search_song_zero_count_gives_empty() {
    let data = br#"{"code":200,"result":{"songCount":0}}"#;
    assert_eq!(search_song(data), Some(vec![]));
}

#[test]
fn search_song_missing_count_gives_none() {
    let data = br#"{"code":200,"result":{"songs":[]}}"#;
    assert_eq!(search_song(data), None);
}

#[test]
fn search_playlist_reads_playlists() {
    let data = br#"{"code":200,"result":{"playlists":[{"id":10,"name":"Ten"}]}}"#;
    assert_eq!(search_playlist(data), Some(vec![playlist(10, "Ten")]));
    assert_eq!(search_playlist(br#"{"code":200,"result":{"playlists":[]}}"#), Some(vec![]));
    assert_eq!(search_playlist(br#"{"code":500}"#), None);
}

#[test]
fn search_dispatches_on_kind() {
    let songs = br#"{"code":200,"result":{"songCount":1,"songs":[{"id":3,"name":"Lemon","ar":[{"name":"Y"}]}]}}"#;
    let lists = br#"{"code":200,"result":{"playlists":[{"id":10,"name":"Ten"}]}}"#;
    assert_eq!(search(SearchKind::Song, songs), Some(SearchHits::Songs(vec![song(3, "Lemon", "Y")])));
    assert_eq!(search(SearchKind::Playlist, lists), Some(SearchHits::Playlists(vec![playlist(10, "Ten")])));
    assert_eq!(search(SearchKind::Playlist, songs), None);
}

#[test]
fn search_request_parameters() {
    assert_eq!(
        search_request(SearchKind::Song, 20, 3),
        SearchRequest { limit: 20, offset: 2, search_type: 1 }
    );
    assert_eq!(
        search_request(SearchKind::Playlist, 10, 1),
        SearchRequest { limit: 10, offset: 0, search_type: 1000 }
    );
}

#[test]
fn user_playlist_reads_playlist_member() {
    let data = br#"{"more":false,"playlist":[{"id":1,"name":"Liked"},{"id":2,"name":"Road"}],"code":200}"#;
    assert_eq!(user_playlist(data), Some(vec![playlist(1, "Liked"), playlist(2, "Road")]));
    assert_eq!(user_playlist(br#"{"code":200,"playlist":[]}"#), Some(vec![]));
    assert_eq!(user_playlist(br#"{"playlist":[]}"#), None);
    assert_eq!(user_playlist(br#"{"code":200}"#), None);
}

#[test]
fn get_lyrics_reads_both_texts() {
    let data = br#"{"code":200,"lrc":{"version":3,"lyric":"[00:01]la"},"tlyric":{"lyric":"[00:01]ra"}}"#;
    assert_eq!(
        get_lyrics(data),
        Some(Lyrics { lyric: "[00:01]la".to_string(), tlyric: "[00:01]ra".to_string() })
    );
}

#[test]
fn get_lyrics_null_lrc_gives_none() {
    assert_eq!(get_lyrics(br#"{"code":200,"lrc":null,"tlyric":{"lyric":""}}"#), None);
    assert_eq!(get_lyrics(br#"{"code":200,"nolyric":true}"#), None);
}

#[test]
fn get_comment_reads_comments() {
    let data = br#"{"code":200,"data":{"comments":[
        {"commentId":77,"content":"nice","user":{"nickname":"u1","avatarUrl":"http://x"}}]}}"#;
    assert_eq!(
        get_comment(data),
        Some(vec![CommentInfo {
            id: 77,
            content: "nice".to_string(),
            nickname: "u1".to_string(),
            avatar_url: "http://x".to_string(),
        }])
    );
    assert_eq!(get_comment(br#"{"code":200,"data":{"comments":[]}}"#), Some(vec![]));
    assert_eq!(get_comment(br#"{"code":200,"data":{"comments":[{"commentId":1}]}}"#), None);
}

#[test]
fn song_url_reads_first_url() {
    let data = br#"{"code":200,"data":[{"id":1,"url":"http://m/1.mp3","br":128000},{"id":2,"url":"http://m/2.mp3"}]}"#;
    assert_eq!(song_url(data), Some("http://m/1.mp3".to_string()));
}

#[test]
fn song_url_null_or_failure_gives_none() {
    assert_eq!(song_url(br#"{"code":200,"data":[{"id":1,"url":null}]}"#), None);
    assert_eq!(song_url(br#"{"code":200,"data":[]}"#), None);
    assert_eq!(song_url(br#"{"code":404,"data":[{"url":"http://m"}]}"#), None);
}

#[test]
fn comment_request_replies_to_positive_id() {
    assert_eq!(comment_request(123), CommentRequest::Reply(123));
    assert_eq!(comment_request(0), CommentRequest::New);
    assert_eq!(comment_request(-5), CommentRequest::New);
}

#[test]
fn track_op_numbers() {
    assert_eq!(track_op(true), 1);
    assert_eq!(track_op(false), 0);
}

#[test]
fn user_playlist_failure_code_gives_none() {
    let data = br#"{"code":301,"playlist":[{"id":1,"name":"Liked"}]}"#;
    assert_eq!(user_playlist(data), None);
}

#[test]
fn get_lyrics_failure_code_gives_none() {
    let data = br#"{"code":404,"lrc":{"lyric":"[00:01]la"},"tlyric":{"lyric":""}}"#;
    assert_eq!(get_lyrics(data), None);
}

#[test]
fn get_comment_failure_code_gives_none() {
    let data = br#"{"code":503,"data":{"comments":[
        {"commentId":77,"content":"nice","user":{"nickname":"u1","avatarUrl":"http://x"}}]}}"#;
    assert_eq!(get_comment(data), None);
    assert_eq!(get_comment(br#"{"data":{"comments":[]}}"#), None);
}
