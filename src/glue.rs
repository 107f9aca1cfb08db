//! What each exposed operation takes from the service's response: the
//! status check and the projection of a few members into plain records.
//!
//! Every projection comes in two forms: one on a parsed document, with an
//! exact contract, and one on the response bytes, which parses them first.
//! A response that is not what the operation expects gives the operation's
//! empty answer (`None` or `false`), never a panic.

use vstd::prelude::*;
use crate::json::{Json, field, int_of, int_field, str_field, array_field, parsed};

verus! {

/// The account that a successful login reports.
#[derive(Debug, Clone, PartialEq, Eq)]
pub struct LoginInfo {
    pub user_id: i64,
    pub nickname: String,
    pub avatar_url: String,
}

/// A song as a caller sees it: id, title, and the name of its first artist.
#[derive(Debug, Clone, PartialEq, Eq)]
pub struct SongInfo {
    pub id: i64,
    pub name: String,
    pub artist: String,
}

/// A playlist as a caller sees it: id and name.
#[derive(Debug, Clone, PartialEq, Eq)]
pub struct PlaylistSummary {
    pub id: i64,
    pub name: String,
}

/// A comment on a song: its id, text, and its author's nickname and avatar.
#[derive(Debug, Clone, PartialEq, Eq)]
pub struct CommentInfo {
    pub id: i64,
    pub content: String,
    pub nickname: String,
    pub avatar_url: String,
}

/// The lyric of a song, and the same lyric in a second language.
#[derive(Debug, Clone, PartialEq, Eq)]
pub struct Lyrics {
    pub lyric: String,
    pub tlyric: String,
}

/// The value of an optional list, as a sequence.
pub open spec fn opt_seq<T>(r: Option<Vec<T>>) -> Option<Seq<T>> {
    match r {
        Some(v) => Some(v@),
        None => None,
    }
}

/// A response succeeded when its `code` member is the integer 200.
pub open spec fn is_ok_response(j: Json) -> bool {
    int_field(j, "code"@) == Some(200i64)
}

pub open spec fn song_info_of(j: Json) -> Option<SongInfo> {
    match (int_field(j, "id"@), str_field(j, "name"@), array_field(j, "ar"@)) {
        (Some(id), Some(name), Some(artists)) => if artists.len() > 0 {
            match str_field(artists[0], "name"@) {
                Some(artist) => Some(SongInfo { id, name, artist }),
                None => None,
            }
        } else {
            None
        },
        _ => None,
    }
}

/// Every item read as a song, or `None` when one of them is not one.
pub open spec fn songs_info_of(items: Seq<Json>) -> Option<Seq<SongInfo>> {
    if forall|i: int| 0 <= i < items.len() ==> (#[trigger] song_info_of(items[i])) is Some {
        Some(Seq::new(items.len(), |i: int| song_info_of(items[i])->0))
    } else {
        None
    }
}

pub open spec fn playlist_summary_of(j: Json) -> Option<PlaylistSummary> {
    match (int_field(j, "id"@), str_field(j, "name"@)) {
        (Some(id), Some(name)) => Some(PlaylistSummary { id, name }),
        _ => None,
    }
}

/// Every item read as a playlist, or `None` when one of them is not one.
pub open spec fn playlists_info_of(items: Seq<Json>) -> Option<Seq<PlaylistSummary>> {
    if forall|i: int| 0 <= i < items.len() ==> (#[trigger] playlist_summary_of(items[i])) is Some {
        Some(Seq::new(items.len(), |i: int| playlist_summary_of(items[i])->0))
    } else {
        None
    }
}

pub open spec fn comment_info_of(j: Json) -> Option<CommentInfo> {
    match (int_field(j, "commentId"@), str_field(j, "content"@), field(j, "user"@)) {
        (Some(id), Some(content), Some(user)) => match (
            str_field(user, "nickname"@),
            str_field(user, "avatarUrl"@),
        ) {
            (Some(nickname), Some(avatar_url)) => Some(CommentInfo { id, content, nickname, avatar_url }),
            _ => None,
        },
        _ => None,
    }
}

/// Every item read as a comment, or `None` when one of them is not one.
pub open spec fn comments_info_of(items: Seq<Json>) -> Option<Seq<CommentInfo>> {
    if forall|i: int| 0 <= i < items.len() ==> (#[trigger] comment_info_of(items[i])) is Some {
        Some(Seq::new(items.len(), |i: int| comment_info_of(items[i])->0))
    } else {
        None
    }
}

/// Whether the response reports success.
pub fn response_ok(j: &Json) -> (r: bool)
    ensures
        r == is_ok_response(*j),
{
    match j.get_i64("code") {
        Some(c) => c == 200,
        None => false,
    }
}

/// Reads a song: its `id`, its `name`, and the `name` of the first entry
/// of its `ar` (artists) list.
pub fn song_info(j: &Json) -> (r: Option<SongInfo>)
    ensures
        r == song_info_of(*j),
{
    let id = j.get_i64("id")?;
    let name = j.get_string("name")?;
    let artists = j.get_array("ar")?;
    if artists.len() == 0 {
        return None;
    }
    let artist = artists[0].get_string("name")?;
    Some(SongInfo { id, name, artist })
}

/// Reads every item of a list as a song.
pub fn songs_info(items: &Vec<Json>) -> (r: Option<Vec<SongInfo>>)
    ensures
        opt_seq(r) == songs_info_of(items@),
{
    let mut out: Vec<SongInfo> = Vec::new();
    let mut i: usize = 0;
    while i < items.len()
        invariant
            i <= items@.len(),
            out@.len() == i,
            forall|k: int| 0 <= k < i ==> song_info_of(items@[k]) == Some(out@[k]),
        decreases items@.len() - i,
    {
        match song_info(&items[i]) {
            Some(s) => out.push(s),
            None => return None,
        }
        i = i + 1;
    }
    assert(out@ =~= Seq::new(items@.len(), |k: int| song_info_of(items@[k])->0));
    Some(out)
}

/// Reads a playlist: its `id` and `name`.
pub fn playlist_summary(j: &Json) -> (r: Option<PlaylistSummary>)
    ensures
        r == playlist_summary_of(*j),
{
    let id = j.get_i64("id")?;
    let name = j.get_string("name")?;
    Some(PlaylistSummary { id, name })
}

/// Reads every item of a list as a playlist.
pub fn playlists_info(items: &Vec<Json>) -> (r: Option<Vec<PlaylistSummary>>)
    ensures
        opt_seq(r) == playlists_info_of(items@),
{
    let mut out: Vec<PlaylistSummary> = Vec::new();
    let mut i: usize = 0;
    while i < items.len()
        invariant
            i <= items@.len(),
            out@.len() == i,
            forall|k: int| 0 <= k < i ==> playlist_summary_of(items@[k]) == Some(out@[k]),
        decreases items@.len() - i,
    {
        match playlist_summary(&items[i]) {
            Some(p) => out.push(p),
            None => return None,
        }
        i = i + 1;
    }
    assert(out@ =~= Seq::new(items@.len(), |k: int| playlist_summary_of(items@[k])->0));
    Some(out)
}

/// Reads a comment: its `commentId` and `content`, and the `nickname` and
/// `avatarUrl` of its `user`.
pub fn comment_info(j: &Json) -> (r: Option<CommentInfo>)
    ensures
        r == comment_info_of(*j),
{
    let id = j.get_i64("commentId")?;
    let content = j.get_string("content")?;
    let user = j.get("user")?;
    let nickname = user.get_string("nickname")?;
    let avatar_url = user.get_string("avatarUrl")?;
    Some(CommentInfo { id, content, nickname, avatar_url })
}

/// Reads every item of a list as a comment.
pub fn comments_info(items: &Vec<Json>) -> (r: Option<Vec<CommentInfo>>)
    ensures
        opt_seq(r) == comments_info_of(items@),
{
    let mut out: Vec<CommentInfo> = Vec::new();
    let mut i: usize = 0;
    while i < items.len()
        invariant
            i <= items@.len(),
            out@.len() == i,
            forall|k: int| 0 <= k < i ==> comment_info_of(items@[k]) == Some(out@[k]),
        decreases items@.len() - i,
    {
        match comment_info(&items[i]) {
            Some(c) => out.push(c),
            None => return None,
        }
        i = i + 1;
    }
    assert(out@ =~= Seq::new(items@.len(), |k: int| comment_info_of(items@[k])->0));
    Some(out)
}

/// What a login response reports: on success, the account's `id` and the
/// profile's `nickname` and `avatarUrl`.
pub open spec fn login_info_of(j: Json) -> Option<LoginInfo> {
    if !is_ok_response(j) {
        None
    } else {
        match (field(j, "account"@), field(j, "profile"@)) {
            (Some(account), Some(profile)) => match (
                int_field(account, "id"@),
                str_field(profile, "nickname"@),
                str_field(profile, "avatarUrl"@),
            ) {
                (Some(user_id), Some(nickname), Some(avatar_url)) => Some(
                    LoginInfo { user_id, nickname, avatar_url },
                ),
                _ => None,
            },
            _ => None,
        }
    }
}

/// A login-status response shows a session when its `account` member is
/// present and not null.
pub open spec fn logged_in_of(j: Json) -> bool {
    match field(j, "account"@) {
        Some(account) => !(account is Null),
        None => false,
    }
}

/// The id of a newly created playlist: the `id` member of a successful
/// response, 0 where it is absent.
pub open spec fn created_playlist_id_of(j: Json) -> Option<i64> {
    if !is_ok_response(j) {
        None
    } else {
        match field(j, "id"@) {
            None => Some(0i64),
            Some(v) => int_of(v),
        }
    }
}

/// The songs of `data.dailySongs` in a successful response.
pub open spec fn daily_songs_of(j: Json) -> Option<Seq<SongInfo>> {
    if !is_ok_response(j) {
        None
    } else {
        match field(j, "data"@) {
            Some(data) => match array_field(data, "dailySongs"@) {
                Some(items) => songs_info_of(items),
                None => None,
            },
            None => None,
        }
    }
}

/// The playlists of `recommend` in a successful response.
pub open spec fn recommended_playlists_of(j: Json) -> Option<Seq<PlaylistSummary>> {
    if !is_ok_response(j) {
        None
    } else {
        match array_field(j, "recommend"@) {
            Some(items) => playlists_info_of(items),
            None => None,
        }
    }
}

/// The songs that a successful song search found: none where
/// `result.songCount` is 0, else those of `result.songs`.
pub open spec fn song_search_of(j: Json) -> Option<Seq<SongInfo>> {
    if !is_ok_response(j) {
        None
    } else {
        match field(j, "result"@) {
            Some(result) => match field(result, "songCount"@) {
                Some(count) => if count == Json::Int(0) {
                    Some(Seq::empty())
                } else {
                    match array_field(result, "songs"@) {
                        Some(items) => songs_info_of(items),
                        None => None,
                    }
                },
                None => None,
            },
            None => None,
        }
    }
}

/// The playlists of `result.playlists` in a successful playlist search.
pub open spec fn playlist_search_of(j: Json) -> Option<Seq<PlaylistSummary>> {
    if !is_ok_response(j) {
        None
    } else {
        match field(j, "result"@) {
            Some(result) => match array_field(result, "playlists"@) {
                Some(items) => playlists_info_of(items),
                None => None,
            },
            None => None,
        }
    }
}

/// The playlists of the `playlist` member of a successful listing of a
/// user's playlists.
pub open spec fn user_playlists_of(j: Json) -> Option<Seq<PlaylistSummary>> {
    if !is_ok_response(j) {
        None
    } else {
        match array_field(j, "playlist"@) {
            Some(items) => playlists_info_of(items),
            None => None,
        }
    }
}

/// The lyric `lrc.lyric` and its second-language version `tlyric.lyric`
/// in a successful response; `None` where `lrc` is absent or null.
pub open spec fn lyrics_of(j: Json) -> Option<Lyrics> {
    if !is_ok_response(j) {
        None
    } else {
        match (field(j, "lrc"@), field(j, "tlyric"@)) {
            (Some(lrc), Some(tlyric)) => if lrc is Null {
                None
            } else {
                match (str_field(lrc, "lyric"@), str_field(tlyric, "lyric"@)) {
                    (Some(lyric), Some(tlyric)) => Some(Lyrics { lyric, tlyric }),
                    _ => None,
                }
            },
            _ => None,
        }
    }
}

/// The comments of `data.comments` in a successful response.
pub open spec fn comments_of(j: Json) -> Option<Seq<CommentInfo>> {
    if !is_ok_response(j) {
        None
    } else {
        match field(j, "data"@) {
            Some(data) => match array_field(data, "comments"@) {
                Some(items) => comments_info_of(items),
                None => None,
            },
            None => None,
        }
    }
}

/// The `url` of the first entry of `data` in a successful response, where
/// it is a string.
pub open spec fn song_url_of(j: Json) -> Option<String> {
    if !is_ok_response(j) {
        None
    } else {
        match array_field(j, "data"@) {
            Some(items) => if items.len() > 0 {
                str_field(items[0], "url"@)
            } else {
                None
            },
            None => None,
        }
    }
}

/// Reads a login response.
pub fn login_info(j: &Json) -> (r: Option<LoginInfo>)
    ensures
        r == login_info_of(*j),
{
    if !response_ok(j) {
        return None;
    }
    let account = j.get("account")?;
    let profile = j.get("profile")?;
    let user_id = account.get_i64("id")?;
    let nickname = profile.get_string("nickname")?;
    let avatar_url = profile.get_string("avatarUrl")?;
    Some(LoginInfo { user_id, nickname, avatar_url })
}

/// Reads a login-status response.
pub fn logged_in(j: &Json) -> (r: bool)
    ensures
        r == logged_in_of(*j),
{
    match j.get("account") {
        Some(account) => !account.is_null(),
        None => false,
    }
}

/// Reads the response to a playlist creation.
pub fn created_playlist_id(j: &Json) -> (r: Option<i64>)
    ensures
        r == created_playlist_id_of(*j),
{
    if !response_ok(j) {
        return None;
    }
    match j.get("id") {
        None => Some(0),
        Some(v) => v.as_i64(),
    }
}

/// Reads the daily recommended songs.
pub fn daily_songs(j: &Json) -> (r: Option<Vec<SongInfo>>)
    ensures
        opt_seq(r) == daily_songs_of(*j),
{
    if !response_ok(j) {
        return None;
    }
    let data = j.get("data")?;
    let items = data.get_array("dailySongs")?;
    songs_info(items)
}

/// Reads the recommended playlists.
pub fn recommended_playlists(j: &Json) -> (r: Option<Vec<PlaylistSummary>>)
    ensures
        opt_seq(r) == recommended_playlists_of(*j),
{
    if !response_ok(j) {
        return None;
    }
    let items = j.get_array("recommend")?;
    playlists_info(items)
}

/// Reads the result of a song search.
pub fn song_search(j: &Json) -> (r: Option<Vec<SongInfo>>)
    ensures
        opt_seq(r) == song_search_of(*j),
{
    if !response_ok(j) {
        return None;
    }
    let result = j.get("result")?;
    let count = result.get("songCount")?;
    if count.as_i64() == Some(0i64) {
        assert(*count == Json::Int(0));
        let none: Vec<SongInfo> = Vec::new();
        assert(none@ =~= Seq::<SongInfo>::empty());
        return Some(none);
    }
    let items = result.get_array("songs")?;
    songs_info(items)
}

/// Reads the result of a playlist search.
pub fn playlist_search(j: &Json) -> (r: Option<Vec<PlaylistSummary>>)
    ensures
        opt_seq(r) == playlist_search_of(*j),
{
    if !response_ok(j) {
        return None;
    }
    let result = j.get("result")?;
    let items = result.get_array("playlists")?;
    playlists_info(items)
}

/// Reads a user's playlist listing.
pub fn user_playlists(j: &Json) -> (r: Option<Vec<PlaylistSummary>>)
    ensures
        opt_seq(r) == user_playlists_of(*j),
{
    if !response_ok(j) {
        return None;
    }
    let items = j.get_array("playlist")?;
    playlists_info(items)
}

/// Reads a lyric response.
pub fn lyrics(j: &Json) -> (r: Option<Lyrics>)
    ensures
        r == lyrics_of(*j),
{
    if !response_ok(j) {
        return None;
    }
    let lrc = j.get("lrc")?;
    let tlyric = j.get("tlyric")?;
    if lrc.is_null() {
        return None;
    }
    let lyric = lrc.get_string("lyric")?;
    let tlyric = tlyric.get_string("lyric")?;
    Some(Lyrics { lyric, tlyric })
}

/// Reads a page of comments.
pub fn comments(j: &Json) -> (r: Option<Vec<CommentInfo>>)
    ensures
        opt_seq(r) == comments_of(*j),
{
    if !response_ok(j) {
        return None;
    }
    let data = j.get("data")?;
    let items = data.get_array("comments")?;
    comments_info(items)
}

/// Reads the response to a song-url request.
pub fn first_song_url(j: &Json) -> (r: Option<String>)
    ensures
        r == song_url_of(*j),
{
    if !response_ok(j) {
        return None;
    }
    let items = j.get_array("data")?;
    if items.len() == 0 {
        return None;
    }
    items[0].get_string("url")
}

/// Which kind of item a search looks for.
#[derive(Debug, Clone, Copy, PartialEq, Eq)]
pub enum SearchKind {
    Song,
    Playlist,
}

/// The parameters of one search request: page size, offset of the page,
/// and the service's number for the kind of item.
#[derive(Debug, Clone, Copy, PartialEq, Eq)]
pub struct SearchRequest {
    pub limit: i64,
    pub offset: i64,
    pub search_type: u16,
}

/// The service's number for a kind of search: 1 for songs, 1000 for
/// playlists.
pub open spec fn search_type_of(kind: SearchKind) -> u16 {
    match kind {
        SearchKind::Song => 1,
        SearchKind::Playlist => 1000,
    }
}

/// Builds the parameters for page `page` (counted from 1) of `limit` items.
pub fn search_request(kind: SearchKind, limit: i64, page: i64) -> (r: SearchRequest)
    requires
        page > i64::MIN,
    ensures
        r.limit == limit,
        r.offset == page - 1,
        r.search_type == search_type_of(kind),
{
    let search_type: u16 = match kind {
        SearchKind::Song => 1,
        SearchKind::Playlist => 1000,
    };
    SearchRequest { limit, offset: page - 1, search_type }
}

/// What a search found.
#[derive(Debug, Clone, PartialEq, Eq)]
pub enum SearchHits {
    Songs(Vec<SongInfo>),
    Playlists(Vec<PlaylistSummary>),
}

/// `r` is what a search of `kind` reads from `j`.
pub open spec fn search_hits_of(kind: SearchKind, j: Json, r: Option<SearchHits>) -> bool {
    match kind {
        SearchKind::Song => match r {
            Some(SearchHits::Songs(v)) => song_search_of(j) == Some(v@),
            None => song_search_of(j) is None,
            _ => false,
        },
        SearchKind::Playlist => match r {
            Some(SearchHits::Playlists(v)) => playlist_search_of(j) == Some(v@),
            None => playlist_search_of(j) is None,
            _ => false,
        },
    }
}

/// Reads a search response as the kind of search asks.
pub fn search_hits(kind: SearchKind, j: &Json) -> (r: Option<SearchHits>)
    ensures
        search_hits_of(kind, *j, r),
{
    match kind {
        SearchKind::Song => match song_search(j) {
            Some(v) => Some(SearchHits::Songs(v)),
            None => None,
        },
        SearchKind::Playlist => match playlist_search(j) {
            Some(v) => Some(SearchHits::Playlists(v)),
            None => None,
        },
    }
}

/// How a comment is posted: as a new comment on the song, or as a reply to
/// the comment with the given id.
#[derive(Debug, Clone, Copy, PartialEq, Eq)]
pub enum CommentRequest {
    New,
    Reply(u64),
}

/// A positive comment id asks for a reply to that comment; any other value
/// for a new comment.
pub fn comment_request(cid: i64) -> (r: CommentRequest)
    ensures
        cid > 0 ==> r == CommentRequest::Reply(cid as u64),
        cid <= 0 ==> r == CommentRequest::New,
{
    if cid > 0 {
        CommentRequest::Reply(cid as u64)
    } else {
        CommentRequest::New
    }
}

/// The service's operation number for a track edit: 1 adds, 0 removes.
pub fn track_op(add: bool) -> (r: u8)
    ensures
        r == (if add { 1u8 } else { 0u8 }),
{
    if add {
        1
    } else {
        0
    }
}

/// How a logout ended.
#[derive(Debug, Clone, Copy, PartialEq, Eq)]
pub enum LogoutOutcome {
    LoggedOut,
    Failed,
    NotLoggedIn,
}

/// The outcome of a logout, given the response to the logout request, or
/// `None` where no session was open and so no request was sent.
pub fn logout(response: Option<&[u8]>) -> (r: LogoutOutcome)
    ensures
        response is None ==> r == LogoutOutcome::NotLoggedIn,
        response matches Some(b) ==> r == (if request_ok(b@) {
            LogoutOutcome::LoggedOut
        } else {
            LogoutOutcome::Failed
        }),
{
    match response {
        None => LogoutOutcome::NotLoggedIn,
        Some(b) => if request_succeeded(b) {
            LogoutOutcome::LoggedOut
        } else {
            LogoutOutcome::Failed
        },
    }
}

/// The response bytes are a document that reports success.
pub open spec fn request_ok(data: Seq<u8>) -> bool {
    match parsed(data) {
        Some(j) => is_ok_response(j),
        None => false,
    }
}

/// Whether a response reports success; what playlist edits, track edits
/// and comment posts answer.
pub fn request_succeeded(data: &[u8]) -> (r: bool)
    ensures
        r == request_ok(data@),
{
    match Json::parse(data) {
        Some(j) => response_ok(&j),
        None => false,
    }
}

/// The account that a login response reports.
pub fn login(data: &[u8]) -> (r: Option<LoginInfo>)
    ensures
        r == match parsed(data@) {
            Some(j) => login_info_of(j),
            None => None,
        },
{
    match Json::parse(data) {
        Some(j) => login_info(&j),
        None => None,
    }
}

/// Whether a login-status response shows an open session.
pub fn loginp(data: &[u8]) -> (r: bool)
    ensures
        r == match parsed(data@) {
            Some(j) => logged_in_of(j),
            None => false,
        },
{
    match Json::parse(data) {
        Some(j) => logged_in(&j),
        None => false,
    }
}

/// The id of the playlist that a creation response reports.
pub fn create_playlist(data: &[u8]) -> (r: Option<i64>)
    ensures
        r == match parsed(data@) {
            Some(j) => created_playlist_id_of(j),
            None => None,
        },
{
    match Json::parse(data) {
        Some(j) => created_playlist_id(&j),
        None => None,
    }
}

/// The daily recommended songs.
pub fn recommend_songs(data: &[u8]) -> (r: Option<Vec<SongInfo>>)
    ensures
        opt_seq(r) == match parsed(data@) {
            Some(j) => daily_songs_of(j),
            None => None,
        },
{
    match Json::parse(data) {
        Some(j) => daily_songs(&j),
        None => None,
    }
}

/// The recommended playlists.
pub fn recommend_playlists(data: &[u8]) -> (r: Option<Vec<PlaylistSummary>>)
    ensures
        opt_seq(r) == match parsed(data@) {
            Some(j) => recommended_playlists_of(j),
            None => None,
        },
{
    match Json::parse(data) {
        Some(j) => recommended_playlists(&j),
        None => None,
    }
}

/// The songs that a song search found.
pub fn search_song(data: &[u8]) -> (r: Option<Vec<SongInfo>>)
    ensures
        opt_seq(r) == match parsed(data@) {
            Some(j) => song_search_of(j),
            None => None,
        },
{
    match Json::parse(data) {
        Some(j) => song_search(&j),
        None => None,
    }
}

/// The playlists that a playlist search found.
pub fn search_playlist(data: &[u8]) -> (r: Option<Vec<PlaylistSummary>>)
    ensures
        opt_seq(r) == match parsed(data@) {
            Some(j) => playlist_search_of(j),
            None => None,
        },
{
    match Json::parse(data) {
        Some(j) => playlist_search(&j),
        None => None,
    }
}

/// What a search of `kind` found.
pub fn search(kind: SearchKind, data: &[u8]) -> (r: Option<SearchHits>)
    ensures
        match parsed(data@) {
            Some(j) => search_hits_of(kind, j, r),
            None => r is None,
        },
{
    match Json::parse(data) {
        Some(j) => search_hits(kind, &j),
        None => None,
    }
}

/// The playlists of a user.
pub fn user_playlist(data: &[u8]) -> (r: Option<Vec<PlaylistSummary>>)
    ensures
        opt_seq(r) == match parsed(data@) {
            Some(j) => user_playlists_of(j),
            None => None,
        },
{
    match Json::parse(data) {
        Some(j) => user_playlists(&j),
        None => None,
    }
}

/// The lyric of a song, and the same lyric in a second language.
pub fn get_lyrics(data: &[u8]) -> (r: Option<Lyrics>)
    ensures
        r == match parsed(data@) {
            Some(j) => lyrics_of(j),
            None => None,
        },
{
    match Json::parse(data) {
        Some(j) => lyrics(&j),
        None => None,
    }
}

/// A page of comments on a song.
pub fn get_comment(data: &[u8]) -> (r: Option<Vec<CommentInfo>>)
    ensures
        opt_seq(r) == match parsed(data@) {
            Some(j) => comments_of(j),
            None => None,
        },
{
    match Json::parse(data) {
        Some(j) => comments(&j),
        None => None,
    }
}

/// The address from which a song can be played.
pub fn song_url(data: &[u8]) -> (r: Option<String>)
    ensures
        r == match parsed(data@) {
            Some(j) => song_url_of(j),
            None => None,
        },
{
    match Json::parse(data) {
        Some(j) => first_song_url(&j),
        None => None,
    }
}

} // verus!
