use ncm_glue::json::Json;
use ncm_glue::types::{
    Album, Artist, ArtistSublistResp, Comment, FromJson, HotCommentsResp, Id, Lyric, LyricResp,
    Playlist, Podcast, RecommendedPlaylistsResp, ResourceComments, ResourceCommentsResp,
    SearchAlbumResp, SearchArtistResp, SearchPlaylistResp, SearchPodcastResp, SearchResultAlbum,
    SearchResultArtist, SearchResultPlaylist, SongUrl, SongUrlResp, UserAccountResp,
    UserPlaylistResp, UserPodcastsResp, UserProfile,
};

fn doc(text: &str) -> Json {
    Json::parse(text.as_bytes()).unwrap()
}

fn profile(id: u64, nick: &str) -> UserProfile {
    UserProfile { user_id: id, nickname: nick.to_string() }
}

#[test]
fn artist_name_is_optional() {
    assert_eq!(Artist::from_json(&doc(r#"{"id":1,"name":"A"}"#)), Some(Artist { id: 1, name: Some("A".to_string()) }));
    assert_eq!(Artist::from_json(&doc(r#"{"id":1,"name":null}"#)), Some(Artist { id: 1, name: None }));
    assert_eq!(Artist::from_json(&doc(r#"{"id":1}"#)), Some(Artist { id: 1, name: None }));
    assert_eq!(Artist::from_json(&doc(r#"{"name":"A"}"#)), None);
    assert_eq!(Artist::from_json(&doc(r#"{"id":-1}"#)), None);
    assert_eq!(Artist::from_json(&doc(r#"[1]"#)), None);
}

#[test]
fn album_defaults_pic_url() {
    assert_eq!(
        Album::from_json(&doc(r#"{"id":2,"name":"B","pic":9}"#)),
        Some(Album { id: 2, name: Some("B".to_string()), pic_url: String::new(), pic: 9 })
    );
    assert_eq!(
        Album::from_json(&doc(r#"{"id":2,"picUrl":"http://p","pic":9}"#)),
        Some(Album { id: 2, name: None, pic_url: "http://p".to_string(), pic: 9 })
    );
    assert_eq!(Album::from_json(&doc(r#"{"id":2}"#)), None);
}

#[test]
fn user_account_profile() {
    assert_eq!(
        UserAccountResp::from_json(&doc(r#"{"code":200,"profile":{"userId":5,"nickname":"n"}}"#)),
        Some(UserAccountResp { code: 200, profile: Some(profile(5, "n")) })
    );
    assert_eq!(
        UserAccountResp::from_json(&doc(r#"{"code":200,"profile":null}"#)),
        Some(UserAccountResp { code: 200, profile: None })
    );
    assert_eq!(UserAccountResp::from_json(&doc(r#"{"code":200,"profile":{"userId":5}}"#)), None);
}

#[test]
fn user_playlist_list_default() {
    assert_eq!(
        UserPlaylistResp::from_json(&doc(r#"{"code":200,"playlist":[{"id":1,"name":"L","description":"d"}]}"#)),
        Some(UserPlaylistResp {
            code: 200,
            playlist: vec![Playlist { id: 1, name: "L".to_string(), description: Some("d".to_string()) }],
        })
    );
    assert_eq!(
        UserPlaylistResp::from_json(&doc(r#"{"code":200}"#)),
        Some(UserPlaylistResp { code: 200, playlist: vec![] })
    );
    assert_eq!(UserPlaylistResp::from_json(&doc(r#"{"code":200,"playlist":[{"id":1}]}"#)), None);
}

#[test]
fn song_urls() {
    assert_eq!(
        SongUrlResp::from_json(&doc(r#"{"code":200,"data":[{"id":1,"url":"u","br":320000}]}"#)),
        Some(SongUrlResp { code: 200, data: vec![SongUrl { id: 1, url: "u".to_string(), br: 320000 }] })
    );
    assert_eq!(SongUrlResp::from_json(&doc(r#"{"code":200,"data":{}}"#)), None);
}

#[test]
fn comments_page() {
    let text = r#"{"code":200,"data":{"comments":[{"user":{"userId":3,"nickname":"c"},"time":1650000000000,"likedCount":4,"liked":false}],"totalCount":1,"hasMore":false}}"#;
    assert_eq!(
        ResourceCommentsResp::from_json(&doc(text)),
        Some(ResourceCommentsResp {
            code: 200,
            data: ResourceComments {
                comments: vec![Comment {
                    user: profile(3, "c"),
                    content: String::new(),
                    time: 1650000000000,
                    liked_count: 4,
                    liked: false,
                }],
                total_count: 1,
                has_more: false,
            },
        })
    );
    assert_eq!(ResourceCommentsResp::from_json(&doc(r#"{"code":200}"#)), None);
}

#[test]
fn hot_comments_need_flags() {
    assert_eq!(
        HotCommentsResp::from_json(&doc(r#"{"code":200,"hasMore":true,"total":0}"#)),
        Some(HotCommentsResp { code: 200, hot_comments: vec![], has_more: true, total: 0 })
    );
    assert_eq!(HotCommentsResp::from_json(&doc(r#"{"code":200,"total":0}"#)), None);
}

#[test]
fn lyric_response() {
    let text = r#"{"code":200,"sgc":false,"sfy":false,"qfy":true,"lrc":{"version":2,"lyric":"x"},"tlyric":{}}"#;
    assert_eq!(
        LyricResp::from_json(&doc(text)),
        Some(LyricResp {
            code: 200,
            sgc: false,
            sfy: false,
            qfy: true,
            lrc: Some(Lyric { version: 2, lyric: "x".to_string() }),
            klyric: None,
            tlyric: Some(Lyric { version: 0, lyric: String::new() }),
        })
    );
    assert_eq!(LyricResp::from_json(&doc(r#"{"code":200,"sgc":false,"sfy":false}"#)), None);
}

#[test]
fn recommended_playlists_and_artists() {
    assert_eq!(
        RecommendedPlaylistsResp::from_json(&doc(r#"{"code":200,"recommend":[{"id":4,"name":"R"}]}"#)),
        Some(RecommendedPlaylistsResp {
            code: 200,
            recommend: vec![Playlist { id: 4, name: "R".to_string(), description: None }],
        })
    );
    assert_eq!(
        ArtistSublistResp::from_json(&doc(r#"{"code":200,"data":[{"id":8}]}"#)),
        Some(ArtistSublistResp { code: 200, data: vec![Artist { id: 8, name: None }], has_more: false })
    );
}

#[test]
fn podcasts() {
    let text = r#"{"code":200,"djRadios":[{"id":1,"name":"P","desc":"d","subCount":3,"category":"c","dj":{"userId":2,"nickname":"h"}}],"hasMore":true}"#;
    assert_eq!(
        UserPodcastsResp::from_json(&doc(text)),
        Some(UserPodcastsResp {
            code: 200,
            dj_radios: vec![Podcast {
                id: 1,
                name: "P".to_string(),
                desc: "d".to_string(),
                sub_count: 3,
                category: "c".to_string(),
                dj: profile(2, "h"),
            }],
            has_more: true,
        })
    );
    assert_eq!(SearchPodcastResp::from_json(&doc(r#"{"code":200,"result":{"djRadios":[{"id":1}]}}"#)), None);
}

#[test]
fn search_envelopes() {
    assert_eq!(
        SearchArtistResp::from_json(&doc(r#"{"code":200,"result":{"artists":[{"id":1,"name":"A"}]}}"#)),
        Some(SearchArtistResp {
            code: 200,
            result: Some(SearchResultArtist { artists: vec![Artist { id: 1, name: Some("A".to_string()) }] }),
        })
    );
    assert_eq!(
        SearchPlaylistResp::from_json(&doc(r#"{"code":200,"result":{}}"#)),
        Some(SearchPlaylistResp { code: 200, result: Some(SearchResultPlaylist { playlists: vec![] }) })
    );
    assert_eq!(
        SearchAlbumResp::from_json(&doc(r#"{"code":400}"#)),
        Some(SearchAlbumResp { code: 400, result: None })
    );
    assert_eq!(SearchResultAlbum::from_json(&doc(r#"{"albums":3}"#)), None);
}

#[test]
fn bare_id() {
    assert_eq!(Id::from_json(&doc(r#"{"id":12,"v":0}"#)), Some(Id { id: 12 }));
    assert_eq!(Id::from_json(&doc(r#"{"id":1.5}"#)), None);
}
