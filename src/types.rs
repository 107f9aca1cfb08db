//! The service's response shapes, and how each is read from a document.
//!
//! A shape is read from an object; members it does not name are ignored.
//! A member listed as required must be present; one with a default may be
//! absent and then takes it (0, `false`, empty); an optional one may be
//! absent or null. Counts and ids are integers from 0 up to `i64::MAX`.

use vstd::prelude::*;
use crate::json::{Json, JsonView, deep, field, parsed};

verus! {

pub type SearchArtistResp = ResultResp<SearchResultArtist>;

pub type SearchPodcastResp = ResultResp<SearchResultPodcast>;

pub type SearchPlaylistResp = ResultResp<SearchResultPlaylist>;

pub type SearchAlbumResp = ResultResp<SearchResultAlbum>;

/// A type read from a JSON document.
pub trait FromJson: Sized {
    /// `j` has the shape this type reads.
    spec fn accepts(j: Json) -> bool;

    /// `v` is what this type reads from `j`.
    spec fn decodes(j: Json, v: Self) -> bool;

    /// Reads a value of this type from `j`, or `None` where `j` does not
    /// have its shape.
    fn from_json(j: &Json) -> (r: Option<Self>)
        ensures
            r is Some <==> Self::accepts(*j),
            r matches Some(v) ==> Self::decodes(*j, v),
    ;

    /// Parses `data` as one document and reads a value of this type from it.
    fn from_data(data: &[u8]) -> (r: Option<Self>)
        ensures
            match parsed(data@) {
                Some(j) => (r is Some <==> Self::accepts(j)) && (r matches Some(v) ==> Self::decodes(j, v)),
                None => r is None,
            },
    {
        match Json::parse(data) {
            Some(j) => Self::from_json(&j),
            None => None,
        }
    }
}

/// A required count: a non-negative integer.
pub open spec fn count_at(j: Json, key: Seq<char>) -> Option<u64> {
    match field(j, key) {
        Some(Json::Int(i)) => if i >= 0 {
            Some(i as u64)
        } else {
            None
        },
        _ => None,
    }
}

/// A count that is 0 where absent.
pub open spec fn count_or_zero(j: Json, key: Seq<char>) -> Option<u64> {
    match field(j, key) {
        None => Some(0u64),
        Some(_) => count_at(j, key),
    }
}

/// A required flag.
pub open spec fn bool_at(j: Json, key: Seq<char>) -> Option<bool> {
    match field(j, key) {
        Some(Json::Bool(b)) => Some(b),
        _ => None,
    }
}

/// A flag that is `false` where absent.
pub open spec fn bool_or_false(j: Json, key: Seq<char>) -> Option<bool> {
    match field(j, key) {
        None => Some(false),
        Some(_) => bool_at(j, key),
    }
}

/// A required text.
pub open spec fn text_at(j: Json, key: Seq<char>) -> Option<Seq<char>> {
    match field(j, key) {
        Some(Json::Str(s)) => Some(s@),
        _ => None,
    }
}

/// A text that is empty where absent.
pub open spec fn text_or_empty(j: Json, key: Seq<char>) -> Option<Seq<char>> {
    match field(j, key) {
        None => Some(Seq::empty()),
        Some(_) => text_at(j, key),
    }
}

/// An optional text: `Some(None)` where absent or null.
pub open spec fn opt_text_at(j: Json, key: Seq<char>) -> Option<Option<Seq<char>>> {
    match field(j, key) {
        None => Some(None),
        Some(Json::Null) => Some(None),
        Some(Json::Str(s)) => Some(Some(s@)),
        _ => None,
    }
}

pub open spec fn opt_view(o: Option<String>) -> Option<Seq<char>> {
    match o {
        Some(s) => Some(s@),
        None => None,
    }
}

/// A required member of shape `T`.
pub open spec fn req_accepts<T: FromJson>(j: Json, key: Seq<char>) -> bool {
    match field(j, key) {
        Some(x) => T::accepts(x),
        None => false,
    }
}

pub open spec fn req_decodes<T: FromJson>(j: Json, key: Seq<char>, v: T) -> bool {
    match field(j, key) {
        Some(x) => T::decodes(x, v),
        None => false,
    }
}

/// An optional member of shape `T`: none where absent or null.
pub open spec fn opt_accepts<T: FromJson>(j: Json, key: Seq<char>) -> bool {
    match field(j, key) {
        None => true,
        Some(x) => x is Null || T::accepts(x),
    }
}

pub open spec fn opt_decodes<T: FromJson>(j: Json, key: Seq<char>, v: Option<T>) -> bool {
    match field(j, key) {
        None => v is None,
        Some(x) => if x is Null {
            v is None
        } else {
            match v {
                Some(y) => T::decodes(x, y),
                None => false,
            }
        },
    }
}

/// Every item has shape `T`.
pub open spec fn items_accept<T: FromJson>(items: Seq<Json>) -> bool {
    forall|i: int| 0 <= i < items.len() ==> #[trigger] T::accepts(items[i])
}

/// `v` holds what each item reads as.
pub open spec fn items_decode<T: FromJson>(items: Seq<Json>, v: Seq<T>) -> bool {
    &&& v.len() == items.len()
    &&& forall|i: int| 0 <= i < items.len() ==> #[trigger] T::decodes(items[i], v[i])
}

/// A list of shape `T`, empty where absent.
pub open spec fn list_accepts<T: FromJson>(j: Json, key: Seq<char>) -> bool {
    match field(j, key) {
        None => true,
        Some(Json::Array(items)) => items_accept::<T>(items@),
        _ => false,
    }
}

pub open spec fn list_decodes<T: FromJson>(j: Json, key: Seq<char>, v: Seq<T>) -> bool {
    match field(j, key) {
        None => v.len() == 0,
        Some(Json::Array(items)) => items_decode::<T>(items@, v),
        _ => false,
    }
}

/// An integer that is 0 where absent.
pub open spec fn int_or_zero(j: Json, key: Seq<char>) -> Option<i64> {
    match field(j, key) {
        None => Some(0i64),
        Some(Json::Int(i)) => Some(i),
        Some(_) => None,
    }
}

/// `v` holds the member `key` of `j`, or null where it is absent.
pub open spec fn json_or_null(j: Json, key: Seq<char>, v: Json) -> bool {
    match field(j, key) {
        None => deep(v) == JsonView::Null,
        Some(x) => deep(v) == deep(x),
    }
}

pub fn read_int_or_zero(j: &Json, key: &str) -> (r: Option<i64>)
    ensures
        r == int_or_zero(*j, key@),
{
    match j.get(key) {
        None => Some(0),
        Some(x) => x.as_i64(),
    }
}

/// A copy of the member `key`, or null where it is absent.
pub fn read_json(j: &Json, key: &str) -> (r: Json)
    ensures
        json_or_null(*j, key@, r),
{
    match j.get(key) {
        None => Json::Null,
        Some(x) => x.copy(),
    }
}

pub fn read_count(j: &Json, key: &str) -> (r: Option<u64>)
    ensures
        r == count_at(*j, key@),
{
    match j.get_i64(key) {
        Some(i) => if i >= 0 {
            Some(i as u64)
        } else {
            None
        },
        None => None,
    }
}

pub fn read_count_or_zero(j: &Json, key: &str) -> (r: Option<u64>)
    ensures
        r == count_or_zero(*j, key@),
{
    match j.get(key) {
        None => Some(0),
        Some(_) => read_count(j, key),
    }
}

pub fn read_bool(j: &Json, key: &str) -> (r: Option<bool>)
    ensures
        r == bool_at(*j, key@),
{
    match j.get(key) {
        Some(Json::Bool(b)) => Some(*b),
        _ => None,
    }
}

pub fn read_bool_or_false(j: &Json, key: &str) -> (r: Option<bool>)
    ensures
        r == bool_or_false(*j, key@),
{
    match j.get(key) {
        None => Some(false),
        Some(_) => read_bool(j, key),
    }
}

pub fn read_text(j: &Json, key: &str) -> (r: Option<String>)
    ensures
        opt_view(r) == text_at(*j, key@),
{
    match j.get(key) {
        Some(Json::Str(s)) => Some(s.clone()),
        _ => None,
    }
}

pub fn read_text_or_empty(j: &Json, key: &str) -> (r: Option<String>)
    ensures
        opt_view(r) == text_or_empty(*j, key@),
{
    match j.get(key) {
        None => Some(String::new()),
        Some(_) => read_text(j, key),
    }
}

pub fn read_opt_text(j: &Json, key: &str) -> (r: Option<Option<String>>)
    ensures
        match r {
            Some(o) => opt_text_at(*j, key@) == Some(opt_view(o)),
            None => opt_text_at(*j, key@) is None,
        },
{
    match j.get(key) {
        None => Some(None),
        Some(Json::Null) => Some(None),
        Some(Json::Str(s)) => Some(Some(s.clone())),
        _ => None,
    }
}

pub fn read_req<T: FromJson>(j: &Json, key: &str) -> (r: Option<T>)
    ensures
        r is Some <==> req_accepts::<T>(*j, key@),
        r matches Some(v) ==> req_decodes::<T>(*j, key@, v),
{
    match j.get(key) {
        Some(x) => T::from_json(x),
        None => None,
    }
}

pub fn read_opt<T: FromJson>(j: &Json, key: &str) -> (r: Option<Option<T>>)
    ensures
        r is Some <==> opt_accepts::<T>(*j, key@),
        r matches Some(v) ==> opt_decodes::<T>(*j, key@, v),
{
    match j.get(key) {
        None => Some(None),
        Some(x) => if x.is_null() {
            Some(None)
        } else {
            match T::from_json(x) {
                Some(y) => Some(Some(y)),
                None => None,
            }
        },
    }
}

/// Reads every item as a `T`.
pub fn read_items<T: FromJson>(items: &Vec<Json>) -> (r: Option<Vec<T>>)
    ensures
        r is Some <==> items_accept::<T>(items@),
        r matches Some(v) ==> items_decode::<T>(items@, v@),
{
    let mut out: Vec<T> = Vec::new();
    let mut i: usize = 0;
    while i < items.len()
        invariant
            i <= items@.len(),
            out@.len() == i,
            forall|k: int| 0 <= k < i ==> #[trigger] T::accepts(items@[k]),
            forall|k: int| 0 <= k < i ==> #[trigger] T::decodes(items@[k], out@[k]),
        decreases items@.len() - i,
    {
        match T::from_json(&items[i]) {
            Some(v) => out.push(v),
            None => return None,
        }
        i = i + 1;
    }
    Some(out)
}

pub fn read_list<T: FromJson>(j: &Json, key: &str) -> (r: Option<Vec<T>>)
    ensures
        r is Some <==> list_accepts::<T>(*j, key@),
        r matches Some(v) ==> list_decodes::<T>(*j, key@, v@),
{
    match j.get(key) {
        None => Some(Vec::new()),
        Some(x) => match x.as_array() {
            Some(items) => read_items(items),
            None => None,
        },
    }
}

/// The envelope of a search response: a status code and, where the search ran, its result.
#[derive(Debug, Clone, PartialEq, Eq, Default)]
pub struct ResultResp<T> {
    pub code: u64,
    pub result: Option<T>,
}

impl<T: FromJson> FromJson for ResultResp<T> {
    open spec fn accepts(j: Json) -> bool {
        &&& j is Object
        &&& count_at(j, "code"@) is Some
        &&& opt_accepts::<T>(j, "result"@)
    }

    open spec fn decodes(j: Json, v: Self) -> bool {
        &&& count_at(j, "code"@) == Some(v.code)
        &&& opt_decodes::<T>(j, "result"@, v.result)
    }

    fn from_json(j: &Json) -> (r: Option<Self>) {
        if !j.is_object() {
            return None;
        }
        let code = read_count(j, "code")?;
        let result = read_opt::<T>(j, "result")?;
        Some(ResultResp { code, result })
    }
}

/// An artist: id and, where known, name.
#[derive(Debug, Clone, PartialEq, Eq, Default)]
pub struct Artist {
    pub id: u64,
    pub name: Option<String>,
}

impl FromJson for Artist {
    open spec fn accepts(j: Json) -> bool {
        &&& j is Object
        &&& count_at(j, "id"@) is Some
        &&& opt_text_at(j, "name"@) is Some
    }

    open spec fn decodes(j: Json, v: Self) -> bool {
        &&& count_at(j, "id"@) == Some(v.id)
        &&& opt_text_at(j, "name"@) == Some(opt_view(v.name))
    }

    fn from_json(j: &Json) -> (r: Option<Self>) {
        if !j.is_object() {
            return None;
        }
        let id = read_count(j, "id")?;
        let name = read_opt_text(j, "name")?;
        Some(Artist { id, name })
    }
}

/// An album: id, name where known, cover address and cover id.
#[derive(Debug, Clone, PartialEq, Eq, Default)]
pub struct Album {
    pub id: u64,
    pub name: Option<String>,
    pub pic_url: String,
    pub pic: u64,
}

impl FromJson for Album {
    open spec fn accepts(j: Json) -> bool {
        &&& j is Object
        &&& count_at(j, "id"@) is Some
        &&& opt_text_at(j, "name"@) is Some
        &&& text_or_empty(j, "picUrl"@) is Some
        &&& count_at(j, "pic"@) is Some
    }

    open spec fn decodes(j: Json, v: Self) -> bool {
        &&& count_at(j, "id"@) == Some(v.id)
        &&& opt_text_at(j, "name"@) == Some(opt_view(v.name))
        &&& text_or_empty(j, "picUrl"@) == Some(v.pic_url@)
        &&& count_at(j, "pic"@) == Some(v.pic)
    }

    fn from_json(j: &Json) -> (r: Option<Self>) {
        if !j.is_object() {
            return None;
        }
        let id = read_count(j, "id")?;
        let name = read_opt_text(j, "name")?;
        let pic_url = read_text_or_empty(j, "picUrl")?;
        let pic = read_count(j, "pic")?;
        Some(Album { id, name, pic_url, pic })
    }
}

/// A user: id and nickname.
#[derive(Debug, Clone, PartialEq, Eq, Default)]
pub struct UserProfile {
    pub user_id: u64,
    pub nickname: String,
}

impl FromJson for UserProfile {
    open spec fn accepts(j: Json) -> bool {
        &&& j is Object
        &&& count_at(j, "userId"@) is Some
        &&& text_at(j, "nickname"@) is Some
    }

    open spec fn decodes(j: Json, v: Self) -> bool {
        &&& count_at(j, "userId"@) == Some(v.user_id)
        &&& text_at(j, "nickname"@) == Some(v.nickname@)
    }

    fn from_json(j: &Json) -> (r: Option<Self>) {
        if !j.is_object() {
            return None;
        }
        let user_id = read_count(j, "userId")?;
        let nickname = read_text(j, "nickname")?;
        Some(UserProfile { user_id, nickname })
    }
}

/// A podcast (radio) channel.
#[derive(Debug, Clone, PartialEq, Eq, Default)]
pub struct Podcast {
    pub id: u64,
    pub name: String,
    pub desc: String,
    pub sub_count: u64,
    pub category: String,
    pub dj: UserProfile,
}

impl FromJson for Podcast {
    open spec fn accepts(j: Json) -> bool {
        &&& j is Object
        &&& count_at(j, "id"@) is Some
        &&& text_at(j, "name"@) is Some
        &&& text_at(j, "desc"@) is Some
        &&& count_at(j, "subCount"@) is Some
        &&& text_at(j, "category"@) is Some
        &&& req_accepts::<UserProfile>(j, "dj"@)
    }

    open spec fn decodes(j: Json, v: Self) -> bool {
        &&& count_at(j, "id"@) == Some(v.id)
        &&& text_at(j, "name"@) == Some(v.name@)
        &&& text_at(j, "desc"@) == Some(v.desc@)
        &&& count_at(j, "subCount"@) == Some(v.sub_count)
        &&& text_at(j, "category"@) == Some(v.category@)
        &&& req_decodes::<UserProfile>(j, "dj"@, v.dj)
    }

    fn from_json(j: &Json) -> (r: Option<Self>) {
        if !j.is_object() {
            return None;
        }
        let id = read_count(j, "id")?;
        let name = read_text(j, "name")?;
        let desc = read_text(j, "desc")?;
        let sub_count = read_count(j, "subCount")?;
        let category = read_text(j, "category")?;
        let dj = read_req::<UserProfile>(j, "dj")?;
        Some(Podcast { id, name, desc, sub_count, category, dj })
    }
}

/// The podcasts that a user created.
#[derive(Debug, Clone, PartialEq, Eq, Default)]
pub struct UserPodcastsResp {
    pub code: u64,
    pub dj_radios: Vec<Podcast>,
    pub has_more: bool,
}

impl FromJson for UserPodcastsResp {
    open spec fn accepts(j: Json) -> bool {
        &&& j is Object
        &&& count_at(j, "code"@) is Some
        &&& list_accepts::<Podcast>(j, "djRadios"@)
        &&& bool_or_false(j, "hasMore"@) is Some
    }

    open spec fn decodes(j: Json, v: Self) -> bool {
        &&& count_at(j, "code"@) == Some(v.code)
        &&& list_decodes::<Podcast>(j, "djRadios"@, v.dj_radios@)
        &&& bool_or_false(j, "hasMore"@) == Some(v.has_more)
    }

    fn from_json(j: &Json) -> (r: Option<Self>) {
        if !j.is_object() {
            return None;
        }
        let code = read_count(j, "code")?;
        let dj_radios = read_list::<Podcast>(j, "djRadios")?;
        let has_more = read_bool_or_false(j, "hasMore")?;
        Some(UserPodcastsResp { code, dj_radios, has_more })
    }
}

/// The account of the logged-in user.
#[derive(Debug, Clone, PartialEq, Eq, Default)]
pub struct UserAccountResp {
    pub code: u64,
    pub profile: Option<UserProfile>,
}

impl FromJson for UserAccountResp {
    open spec fn accepts(j: Json) -> bool {
        &&& j is Object
        &&& count_at(j, "code"@) is Some
        &&& opt_accepts::<UserProfile>(j, "profile"@)
    }

    open spec fn decodes(j: Json, v: Self) -> bool {
        &&& count_at(j, "code"@) == Some(v.code)
        &&& opt_decodes::<UserProfile>(j, "profile"@, v.profile)
    }

    fn from_json(j: &Json) -> (r: Option<Self>) {
        if !j.is_object() {
            return None;
        }
        let code = read_count(j, "code")?;
        let profile = read_opt::<UserProfile>(j, "profile")?;
        Some(UserAccountResp { code, profile })
    }
}

/// A playlist: id, name and description where there is one.
#[derive(Debug, Clone, PartialEq, Eq, Default)]
pub struct Playlist {
    pub id: u64,
    pub name: String,
    pub description: Option<String>,
}

impl FromJson for Playlist {
    open spec fn accepts(j: Json) -> bool {
        &&& j is Object
        &&& count_at(j, "id"@) is Some
        &&& text_at(j, "name"@) is Some
        &&& opt_text_at(j, "description"@) is Some
    }

    open spec fn decodes(j: Json, v: Self) -> bool {
        &&& count_at(j, "id"@) == Some(v.id)
        &&& text_at(j, "name"@) == Some(v.name@)
        &&& opt_text_at(j, "description"@) == Some(opt_view(v.description))
    }

    fn from_json(j: &Json) -> (r: Option<Self>) {
        if !j.is_object() {
            return None;
        }
        let id = read_count(j, "id")?;
        let name = read_text(j, "name")?;
        let description = read_opt_text(j, "description")?;
        Some(Playlist { id, name, description })
    }
}

/// The playlists of a user.
#[derive(Debug, Clone, PartialEq, Eq, Default)]
pub struct UserPlaylistResp {
    pub code: u64,
    pub playlist: Vec<Playlist>,
}

impl FromJson for UserPlaylistResp {
    open spec fn accepts(j: Json) -> bool {
        &&& j is Object
        &&& count_at(j, "code"@) is Some
        &&& list_accepts::<Playlist>(j, "playlist"@)
    }

    open spec fn decodes(j: Json, v: Self) -> bool {
        &&& count_at(j, "code"@) == Some(v.code)
        &&& list_decodes::<Playlist>(j, "playlist"@, v.playlist@)
    }

    fn from_json(j: &Json) -> (r: Option<Self>) {
        if !j.is_object() {
            return None;
        }
        let code = read_count(j, "code")?;
        let playlist = read_list::<Playlist>(j, "playlist")?;
        Some(UserPlaylistResp { code, playlist })
    }
}

/// A bare id.
#[derive(Debug, Clone, PartialEq, Eq, Default)]
pub struct Id {
    pub id: u64,
}

impl FromJson for Id {
    open spec fn accepts(j: Json) -> bool {
        &&& j is Object
        &&& count_at(j, "id"@) is Some
    }

    open spec fn decodes(j: Json, v: Self) -> bool {
        &&& count_at(j, "id"@) == Some(v.id)
    }

    fn from_json(j: &Json) -> (r: Option<Self>) {
        if !j.is_object() {
            return None;
        }
        let id = read_count(j, "id")?;
        Some(Id { id })
    }
}

/// Where a song can be played from, and at what bit rate.
#[derive(Debug, Clone, PartialEq, Eq, Default)]
pub struct SongUrl {
    pub id: u64,
    pub url: String,
    pub br: u64,
}

impl FromJson for SongUrl {
    open spec fn accepts(j: Json) -> bool {
        &&& j is Object
        &&& count_at(j, "id"@) is Some
        &&& text_at(j, "url"@) is Some
        &&& count_at(j, "br"@) is Some
    }

    open spec fn decodes(j: Json, v: Self) -> bool {
        &&& count_at(j, "id"@) == Some(v.id)
        &&& text_at(j, "url"@) == Some(v.url@)
        &&& count_at(j, "br"@) == Some(v.br)
    }

    fn from_json(j: &Json) -> (r: Option<Self>) {
        if !j.is_object() {
            return None;
        }
        let id = read_count(j, "id")?;
        let url = read_text(j, "url")?;
        let br = read_count(j, "br")?;
        Some(SongUrl { id, url, br })
    }
}

/// The addresses of some songs.
#[derive(Debug, Clone, PartialEq, Eq, Default)]
pub struct SongUrlResp {
    pub code: u64,
    pub data: Vec<SongUrl>,
}

impl FromJson for SongUrlResp {
    open spec fn accepts(j: Json) -> bool {
        &&& j is Object
        &&& count_at(j, "code"@) is Some
        &&& list_accepts::<SongUrl>(j, "data"@)
    }

    open spec fn decodes(j: Json, v: Self) -> bool {
        &&& count_at(j, "code"@) == Some(v.code)
        &&& list_decodes::<SongUrl>(j, "data"@, v.data@)
    }

    fn from_json(j: &Json) -> (r: Option<Self>) {
        if !j.is_object() {
            return None;
        }
        let code = read_count(j, "code")?;
        let data = read_list::<SongUrl>(j, "data")?;
        Some(SongUrlResp { code, data })
    }
}

/// A comment: author, text, time, and likes.
#[derive(Debug, Clone, PartialEq, Eq, Default)]
pub struct Comment {
    pub user: UserProfile,
    pub content: String,
    pub time: u64,
    pub liked_count: u64,
    pub liked: bool,
}

impl FromJson for Comment {
    open spec fn accepts(j: Json) -> bool {
        &&& j is Object
        &&& req_accepts::<UserProfile>(j, "user"@)
        &&& text_or_empty(j, "content"@) is Some
        &&& count_at(j, "time"@) is Some
        &&& count_at(j, "likedCount"@) is Some
        &&& bool_at(j, "liked"@) is Some
    }

    open spec fn decodes(j: Json, v: Self) -> bool {
        &&& req_decodes::<UserProfile>(j, "user"@, v.user)
        &&& text_or_empty(j, "content"@) == Some(v.content@)
        &&& count_at(j, "time"@) == Some(v.time)
        &&& count_at(j, "likedCount"@) == Some(v.liked_count)
        &&& bool_at(j, "liked"@) == Some(v.liked)
    }

    fn from_json(j: &Json) -> (r: Option<Self>) {
        if !j.is_object() {
            return None;
        }
        let user = read_req::<UserProfile>(j, "user")?;
        let content = read_text_or_empty(j, "content")?;
        let time = read_count(j, "time")?;
        let liked_count = read_count(j, "likedCount")?;
        let liked = read_bool(j, "liked")?;
        Some(Comment { user, content, time, liked_count, liked })
    }
}

/// A page of comments on a resource.
#[derive(Debug, Clone, PartialEq, Eq, Default)]
pub struct ResourceComments {
    pub comments: Vec<Comment>,
    pub total_count: u64,
    pub has_more: bool,
}

impl FromJson for ResourceComments {
    open spec fn accepts(j: Json) -> bool {
        &&& j is Object
        &&& list_accepts::<Comment>(j, "comments"@)
        &&& count_at(j, "totalCount"@) is Some
        &&& bool_at(j, "hasMore"@) is Some
    }

    open spec fn decodes(j: Json, v: Self) -> bool {
        &&& list_decodes::<Comment>(j, "comments"@, v.comments@)
        &&& count_at(j, "totalCount"@) == Some(v.total_count)
        &&& bool_at(j, "hasMore"@) == Some(v.has_more)
    }

    fn from_json(j: &Json) -> (r: Option<Self>) {
        if !j.is_object() {
            return None;
        }
        let comments = read_list::<Comment>(j, "comments")?;
        let total_count = read_count(j, "totalCount")?;
        let has_more = read_bool(j, "hasMore")?;
        Some(ResourceComments { comments, total_count, has_more })
    }
}

/// The comments on a resource.
#[derive(Debug, Clone, PartialEq, Eq, Default)]
pub struct ResourceCommentsResp {
    pub code: u64,
    pub data: ResourceComments,
}

impl FromJson for ResourceCommentsResp {
    open spec fn accepts(j: Json) -> bool {
        &&& j is Object
        &&& count_at(j, "code"@) is Some
        &&& req_accepts::<ResourceComments>(j, "data"@)
    }

    open spec fn decodes(j: Json, v: Self) -> bool {
        &&& count_at(j, "code"@) == Some(v.code)
        &&& req_decodes::<ResourceComments>(j, "data"@, v.data)
    }

    fn from_json(j: &Json) -> (r: Option<Self>) {
        if !j.is_object() {
            return None;
        }
        let code = read_count(j, "code")?;
        let data = read_req::<ResourceComments>(j, "data")?;
        Some(ResourceCommentsResp { code, data })
    }
}

/// The most liked comments on a resource.
#[derive(Debug, Clone, PartialEq, Eq, Default)]
pub struct HotCommentsResp {
    pub code: u64,
    pub hot_comments: Vec<Comment>,
    pub has_more: bool,
    pub total: u64,
}

impl FromJson for HotCommentsResp {
    open spec fn accepts(j: Json) -> bool {
        &&& j is Object
        &&& count_at(j, "code"@) is Some
        &&& list_accepts::<Comment>(j, "hotComments"@)
        &&& bool_at(j, "hasMore"@) is Some
        &&& count_at(j, "total"@) is Some
    }

    open spec fn decodes(j: Json, v: Self) -> bool {
        &&& count_at(j, "code"@) == Some(v.code)
        &&& list_decodes::<Comment>(j, "hotComments"@, v.hot_comments@)
        &&& bool_at(j, "hasMore"@) == Some(v.has_more)
        &&& count_at(j, "total"@) == Some(v.total)
    }

    fn from_json(j: &Json) -> (r: Option<Self>) {
        if !j.is_object() {
            return None;
        }
        let code = read_count(j, "code")?;
        let hot_comments = read_list::<Comment>(j, "hotComments")?;
        let has_more = read_bool(j, "hasMore")?;
        let total = read_count(j, "total")?;
        Some(HotCommentsResp { code, hot_comments, has_more, total })
    }
}

/// A lyric text and its version.
#[derive(Debug, Clone, PartialEq, Eq, Default)]
pub struct Lyric {
    pub version: u64,
    pub lyric: String,
}

impl FromJson for Lyric {
    open spec fn accepts(j: Json) -> bool {
        &&& j is Object
        &&& count_or_zero(j, "version"@) is Some
        &&& text_or_empty(j, "lyric"@) is Some
    }

    open spec fn decodes(j: Json, v: Self) -> bool {
        &&& count_or_zero(j, "version"@) == Some(v.version)
        &&& text_or_empty(j, "lyric"@) == Some(v.lyric@)
    }

    fn from_json(j: &Json) -> (r: Option<Self>) {
        if !j.is_object() {
            return None;
        }
        let version = read_count_or_zero(j, "version")?;
        let lyric = read_text_or_empty(j, "lyric")?;
        Some(Lyric { version, lyric })
    }
}

/// The lyrics of a song: plain, word-timed, and in a second language.
#[derive(Debug, Clone, PartialEq, Eq, Default)]
pub struct LyricResp {
    pub code: u64,
    pub sgc: bool,
    pub sfy: bool,
    pub qfy: bool,
    pub lrc: Option<Lyric>,
    pub klyric: Option<Lyric>,
    pub tlyric: Option<Lyric>,
}

impl FromJson for LyricResp {
    open spec fn accepts(j: Json) -> bool {
        &&& j is Object
        &&& count_at(j, "code"@) is Some
        &&& bool_at(j, "sgc"@) is Some
        &&& bool_at(j, "sfy"@) is Some
        &&& bool_at(j, "qfy"@) is Some
        &&& opt_accepts::<Lyric>(j, "lrc"@)
        &&& opt_accepts::<Lyric>(j, "klyric"@)
        &&& opt_accepts::<Lyric>(j, "tlyric"@)
    }

    open spec fn decodes(j: Json, v: Self) -> bool {
        &&& count_at(j, "code"@) == Some(v.code)
        &&& bool_at(j, "sgc"@) == Some(v.sgc)
        &&& bool_at(j, "sfy"@) == Some(v.sfy)
        &&& bool_at(j, "qfy"@) == Some(v.qfy)
        &&& opt_decodes::<Lyric>(j, "lrc"@, v.lrc)
        &&& opt_decodes::<Lyric>(j, "klyric"@, v.klyric)
        &&& opt_decodes::<Lyric>(j, "tlyric"@, v.tlyric)
    }

    fn from_json(j: &Json) -> (r: Option<Self>) {
        if !j.is_object() {
            return None;
        }
        let code = read_count(j, "code")?;
        let sgc = read_bool(j, "sgc")?;
        let sfy = read_bool(j, "sfy")?;
        let qfy = read_bool(j, "qfy")?;
        let lrc = read_opt::<Lyric>(j, "lrc")?;
        let klyric = read_opt::<Lyric>(j, "klyric")?;
        let tlyric = read_opt::<Lyric>(j, "tlyric")?;
        Some(LyricResp { code, sgc, sfy, qfy, lrc, klyric, tlyric })
    }
}

/// The playlists recommended to the user.
#[derive(Debug, Clone, PartialEq, Eq, Default)]
pub struct RecommendedPlaylistsResp {
    pub code: u64,
    pub recommend: Vec<Playlist>,
}

impl FromJson for RecommendedPlaylistsResp {
    open spec fn accepts(j: Json) -> bool {
        &&& j is Object
        &&& count_at(j, "code"@) is Some
        &&& list_accepts::<Playlist>(j, "recommend"@)
    }

    open spec fn decodes(j: Json, v: Self) -> bool {
        &&& count_at(j, "code"@) == Some(v.code)
        &&& list_decodes::<Playlist>(j, "recommend"@, v.recommend@)
    }

    fn from_json(j: &Json) -> (r: Option<Self>) {
        if !j.is_object() {
            return None;
        }
        let code = read_count(j, "code")?;
        let recommend = read_list::<Playlist>(j, "recommend")?;
        Some(RecommendedPlaylistsResp { code, recommend })
    }
}

/// The artists that the user follows.
#[derive(Debug, Clone, PartialEq, Eq, Default)]
pub struct ArtistSublistResp {
    pub code: u64,
    pub data: Vec<Artist>,
    pub has_more: bool,
}

impl FromJson for ArtistSublistResp {
    open spec fn accepts(j: Json) -> bool {
        &&& j is Object
        &&& count_at(j, "code"@) is Some
        &&& list_accepts::<Artist>(j, "data"@)
        &&& bool_or_false(j, "hasMore"@) is Some
    }

    open spec fn decodes(j: Json, v: Self) -> bool {
        &&& count_at(j, "code"@) == Some(v.code)
        &&& list_decodes::<Artist>(j, "data"@, v.data@)
        &&& bool_or_false(j, "hasMore"@) == Some(v.has_more)
    }

    fn from_json(j: &Json) -> (r: Option<Self>) {
        if !j.is_object() {
            return None;
        }
        let code = read_count(j, "code")?;
        let data = read_list::<Artist>(j, "data")?;
        let has_more = read_bool_or_false(j, "hasMore")?;
        Some(ArtistSublistResp { code, data, has_more })
    }
}

/// The artists that a search found.
#[derive(Debug, Clone, PartialEq, Eq, Default)]
pub struct SearchResultArtist {
    pub artists: Vec<Artist>,
}

impl FromJson for SearchResultArtist {
    open spec fn accepts(j: Json) -> bool {
        &&& j is Object
        &&& list_accepts::<Artist>(j, "artists"@)
    }

    open spec fn decodes(j: Json, v: Self) -> bool {
        &&& list_decodes::<Artist>(j, "artists"@, v.artists@)
    }

    fn from_json(j: &Json) -> (r: Option<Self>) {
        if !j.is_object() {
            return None;
        }
        let artists = read_list::<Artist>(j, "artists")?;
        Some(SearchResultArtist { artists })
    }
}

/// The podcasts that a search found.
#[derive(Debug, Clone, PartialEq, Eq, Default)]
pub struct SearchResultPodcast {
    pub dj_radios: Vec<Podcast>,
}

impl FromJson for SearchResultPodcast {
    open spec fn accepts(j: Json) -> bool {
        &&& j is Object
        &&& list_accepts::<Podcast>(j, "djRadios"@)
    }

    open spec fn decodes(j: Json, v: Self) -> bool {
        &&& list_decodes::<Podcast>(j, "djRadios"@, v.dj_radios@)
    }

    fn from_json(j: &Json) -> (r: Option<Self>) {
        if !j.is_object() {
            return None;
        }
        let dj_radios = read_list::<Podcast>(j, "djRadios")?;
        Some(SearchResultPodcast { dj_radios })
    }
}

/// The playlists that a search found.
#[derive(Debug, Clone, PartialEq, Eq, Default)]
pub struct SearchResultPlaylist {
    pub playlists: Vec<Playlist>,
}

impl FromJson for SearchResultPlaylist {
    open spec fn accepts(j: Json) -> bool {
        &&& j is Object
        &&& list_accepts::<Playlist>(j, "playlists"@)
    }

    open spec fn decodes(j: Json, v: Self) -> bool {
        &&& list_decodes::<Playlist>(j, "playlists"@, v.playlists@)
    }

    fn from_json(j: &Json) -> (r: Option<Self>) {
        if !j.is_object() {
            return None;
        }
        let playlists = read_list::<Playlist>(j, "playlists")?;
        Some(SearchResultPlaylist { playlists })
    }
}

/// The albums that a search found.
#[derive(Debug, Clone, PartialEq, Eq, Default)]
pub struct SearchResultAlbum {
    pub albums: Vec<Album>,
}

impl FromJson for SearchResultAlbum {
    open spec fn accepts(j: Json) -> bool {
        &&& j is Object
        &&& list_accepts::<Album>(j, "albums"@)
    }

    open spec fn decodes(j: Json, v: Self) -> bool {
        &&& list_decodes::<Album>(j, "albums"@, v.albums@)
    }

    fn from_json(j: &Json) -> (r: Option<Self>) {
        if !j.is_object() {
            return None;
        }
        let albums = read_list::<Album>(j, "albums")?;
        Some(SearchResultAlbum { albums })
    }
}

/// What login, login-status and logout responses hold. Every member may be absent.
#[derive(Debug, PartialEq)]
pub struct UserInfo {
    pub code: u64,
    pub account: Json,
    pub profile: Json,
    pub msg: Json,
}

impl FromJson for UserInfo {
    open spec fn accepts(j: Json) -> bool {
        &&& j is Object
        &&& count_or_zero(j, "code"@) is Some
    }

    open spec fn decodes(j: Json, v: Self) -> bool {
        &&& count_or_zero(j, "code"@) == Some(v.code)
        &&& json_or_null(j, "account"@, v.account)
        &&& json_or_null(j, "profile"@, v.profile)
        &&& json_or_null(j, "msg"@, v.msg)
    }

    fn from_json(j: &Json) -> (r: Option<Self>) {
        if !j.is_object() {
            return None;
        }
        let code = read_count_or_zero(j, "code")?;
        let account = read_json(j, "account");
        let profile = read_json(j, "profile");
        let msg = read_json(j, "msg");
        Some(UserInfo { code, account, profile, msg })
    }
}

/// A listing of a user's playlists. Every member may be absent.
#[derive(Debug, PartialEq)]
pub struct PlaylistsInfo {
    pub more: Json,
    pub playlist: Json,
    pub code: u64,
}

impl FromJson for PlaylistsInfo {
    open spec fn accepts(j: Json) -> bool {
        &&& j is Object
        &&& count_or_zero(j, "code"@) is Some
    }

    open spec fn decodes(j: Json, v: Self) -> bool {
        &&& json_or_null(j, "more"@, v.more)
        &&& json_or_null(j, "playlist"@, v.playlist)
        &&& count_or_zero(j, "code"@) == Some(v.code)
    }

    fn from_json(j: &Json) -> (r: Option<Self>) {
        if !j.is_object() {
            return None;
        }
        let more = read_json(j, "more");
        let playlist = read_json(j, "playlist");
        let code = read_count_or_zero(j, "code")?;
        Some(PlaylistsInfo { more, playlist, code })
    }
}

/// The lyrics of a song, as members to read further. Every member may be absent.
#[derive(Debug, PartialEq)]
pub struct LyricsInfo {
    pub lrc: Json,
    pub tlyric: Json,
    pub code: u64,
}

impl FromJson for LyricsInfo {
    open spec fn accepts(j: Json) -> bool {
        &&& j is Object
        &&& count_or_zero(j, "code"@) is Some
    }

    open spec fn decodes(j: Json, v: Self) -> bool {
        &&& json_or_null(j, "lrc"@, v.lrc)
        &&& json_or_null(j, "tlyric"@, v.tlyric)
        &&& count_or_zero(j, "code"@) == Some(v.code)
    }

    fn from_json(j: &Json) -> (r: Option<Self>) {
        if !j.is_object() {
            return None;
        }
        let lrc = read_json(j, "lrc");
        let tlyric = read_json(j, "tlyric");
        let code = read_count_or_zero(j, "code")?;
        Some(LyricsInfo { lrc, tlyric, code })
    }
}

/// The response to creating a playlist. Every member may be absent.
#[derive(Debug, PartialEq)]
pub struct PlaylistInfo {
    pub code: u64,
    pub id: i64,
    pub msg: Json,
}

impl FromJson for PlaylistInfo {
    open spec fn accepts(j: Json) -> bool {
        &&& j is Object
        &&& count_or_zero(j, "code"@) is Some
        &&& int_or_zero(j, "id"@) is Some
    }

    open spec fn decodes(j: Json, v: Self) -> bool {
        &&& count_or_zero(j, "code"@) == Some(v.code)
        &&& int_or_zero(j, "id"@) == Some(v.id)
        &&& json_or_null(j, "msg"@, v.msg)
    }

    fn from_json(j: &Json) -> (r: Option<Self>) {
        if !j.is_object() {
            return None;
        }
        let code = read_count_or_zero(j, "code")?;
        let id = read_int_or_zero(j, "id")?;
        let msg = read_json(j, "msg");
        Some(PlaylistInfo { code, id, msg })
    }
}

/// The recommended playlists, as a member to read further. Every member may be absent.
#[derive(Debug, PartialEq)]
pub struct RecommendPlaylists {
    pub code: u64,
    pub recommend: Json,
}

impl FromJson for RecommendPlaylists {
    open spec fn accepts(j: Json) -> bool {
        &&& j is Object
        &&& count_or_zero(j, "code"@) is Some
    }

    open spec fn decodes(j: Json, v: Self) -> bool {
        &&& count_or_zero(j, "code"@) == Some(v.code)
        &&& json_or_null(j, "recommend"@, v.recommend)
    }

    fn from_json(j: &Json) -> (r: Option<Self>) {
        if !j.is_object() {
            return None;
        }
        let code = read_count_or_zero(j, "code")?;
        let recommend = read_json(j, "recommend");
        Some(RecommendPlaylists { code, recommend })
    }
}

} // verus!
