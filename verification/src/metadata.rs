//! What the fetcher reports about a video or a playlist, read from its
//! JSON output.

use crate::naming::{watch_url, watch_url_of};
use crate::text::{text_model, texts};
use vstd::prelude::*;

verus! {

// ---------------------------------------------------------------------------
// JSON values
// ---------------------------------------------------------------------------

/// `serde_json::Value`, any JSON value, as an opaque type: a value of it
/// is carried from one call into `serde_json` to the next.
#[verifier::external_type_specification]
#[verifier::external_body]
pub struct ExJsonValue(serde_json::Value);

/// `serde_json::Number`, a JSON number, as an opaque type.
#[verifier::external_type_specification]
#[verifier::external_body]
pub struct ExJsonNumber(serde_json::Number);

/// The JSON value that `bytes` spell; `None` where they are not exactly
/// one JSON text.
pub uninterp spec fn json_of(bytes: Seq<u8>) -> Option<serde_json::Value>;

/// The member `key` of a JSON object; `None` where `v` is no object or has
/// no such member.
pub uninterp spec fn json_member(v: serde_json::Value, key: Seq<char>) -> Option<
    serde_json::Value,
>;

/// The characters of a JSON string; `None` where `v` is no string.
pub uninterp spec fn json_string(v: serde_json::Value) -> Option<Seq<char>>;

/// The number that a JSON value is; `None` where `v` is no number.
pub uninterp spec fn json_number(v: serde_json::Value) -> Option<serde_json::Number>;

/// A JSON number written out in decimal.
pub uninterp spec fn number_text(n: serde_json::Number) -> Seq<char>;

/// `serde_json::from_slice` with a `Value` as its target: the value that
/// the bytes spell, or nothing where they do not parse. The result depends
/// on the bytes alone.
#[verifier::external_body]
fn parse_json(bytes: &[u8]) -> (r: Option<serde_json::Value>)
    ensures
        r == json_of(bytes@),
{
    serde_json::from_slice::<serde_json::Value>(bytes).ok()
}

/// `Value::get` with a string key: the member of that name, where `v` is
/// an object that has one.
#[verifier::external_body]
fn member<'a>(v: &'a serde_json::Value, key: &str) -> (r: Option<&'a serde_json::Value>)
    ensures
        match r {
            Some(m) => json_member(*v, key@) == Some(*m),
            None => json_member(*v, key@) is None,
        },
{
    v.get(key)
}

/// `Value::as_str`: the text of `v`, where `v` is a string.
#[verifier::external_body]
fn string_value(v: &serde_json::Value) -> (r: Option<String>)
    ensures
        text_model(r) == json_string(*v),
{
    match v.as_str() {
        Some(s) => Some(s.to_string()),
        None => None,
    }
}

/// `Value::as_number`: the number that `v` is, where `v` is a number.
#[verifier::external_body]
fn number_value<'a>(v: &'a serde_json::Value) -> (r: Option<&'a serde_json::Number>)
    ensures
        match r {
            Some(n) => json_number(*v) == Some(*n),
            None => json_number(*v) is None,
        },
{
    v.as_number()
}

/// `Number`'s `Display`: the number written out in decimal.
#[verifier::external_body]
fn number_string(n: &serde_json::Number) -> (r: String)
    ensures
        r@ == number_text(*n),
{
    n.to_string()
}

// ---------------------------------------------------------------------------
// Video information
// ---------------------------------------------------------------------------

/// What the fetcher reports about one video. Each member is absent where
/// the report has none of that name and type.
#[derive(Clone, Debug, PartialEq, Eq)]
pub struct VideoInfo {
    pub id: Option<String>,
    pub title: Option<String>,
    pub url: Option<String>,
    /// The duration in seconds, as the decimal number that was reported.
    pub duration: Option<String>,
}

/// A video's information as mathematical values.
pub struct InfoModel {
    pub id: Option<Seq<char>>,
    pub title: Option<Seq<char>>,
    pub url: Option<Seq<char>>,
    pub duration: Option<Seq<char>>,
}

impl View for VideoInfo {
    type V = InfoModel;

    open spec fn view(&self) -> InfoModel {
        InfoModel {
            id: text_model(self.id),
            title: text_model(self.title),
            url: text_model(self.url),
            duration: text_model(self.duration),
        }
    }
}

/// The text of the string member `key` of `v`.
pub open spec fn text_member(v: serde_json::Value, key: Seq<char>) -> Option<Seq<char>> {
    match json_member(v, key) {
        Some(m) => json_string(m),
        None => None,
    }
}

/// The decimal text of the number member `key` of `v`.
pub open spec fn number_member(v: serde_json::Value, key: Seq<char>) -> Option<Seq<char>> {
    match json_member(v, key) {
        Some(m) => match json_number(m) {
            Some(n) => Some(number_text(n)),
            None => None,
        },
        None => None,
    }
}

/// The video information that a JSON value holds.
pub open spec fn info_of(v: serde_json::Value) -> InfoModel {
    InfoModel {
        id: text_member(v, "id"@),
        title: text_member(v, "title"@),
        url: text_member(v, "url"@),
        duration: number_member(v, "duration"@),
    }
}

/// The video information that `bytes` spell; `None` where they are not
/// JSON.
pub open spec fn info_in(bytes: Seq<u8>) -> Option<InfoModel> {
    match json_of(bytes) {
        Some(v) => Some(info_of(v)),
        None => None,
    }
}

/// The model of optional video information.
pub open spec fn info_model(info: Option<VideoInfo>) -> Option<InfoModel> {
    match info {
        Some(i) => Some(i@),
        None => None,
    }
}

fn text_member_of(v: &serde_json::Value, key: &str) -> (r: Option<String>)
    ensures
        text_model(r) == text_member(*v, key@),
{
    match member(v, key) {
        Some(m) => string_value(m),
        None => None,
    }
}

fn number_member_of(v: &serde_json::Value, key: &str) -> (r: Option<String>)
    ensures
        text_model(r) == number_member(*v, key@),
{
    match member(v, key) {
        Some(m) => match number_value(m) {
            Some(n) => Some(number_string(n)),
            None => None,
        },
        None => None,
    }
}

/// Reads the fetcher's report on one video. Output that is not JSON gives
/// `None`; a member that is missing or of another type is absent.
pub fn parse_video_info(output: &[u8]) -> (r: Option<VideoInfo>)
    ensures
        info_model(r) == info_in(output@),
{
    match parse_json(output) {
        None => None,
        Some(v) => Some(
            VideoInfo {
                id: text_member_of(&v, "id"),
                title: text_member_of(&v, "title"),
                url: text_member_of(&v, "url"),
                duration: number_member_of(&v, "duration"),
            },
        ),
    }
}

// ---------------------------------------------------------------------------
// Playlist listings
// ---------------------------------------------------------------------------

/// The lines of `bytes`: the runs between line feeds. Text without a line
/// feed is one line.
pub open spec fn lines_of(bytes: Seq<u8>) -> Seq<Seq<u8>>
    decreases bytes.len(),
{
    if bytes.len() == 0 {
        seq![Seq::<u8>::empty()]
    } else {
        let before = lines_of(bytes.drop_last());
        if bytes.last() == 10u8 {
            before.push(Seq::<u8>::empty())
        } else {
            before.update(before.len() - 1, before.last().push(bytes.last()))
        }
    }
}

/// The rows of a vector of byte vectors.
pub open spec fn rows(v: Seq<Vec<u8>>) -> Seq<Seq<u8>> {
    Seq::new(v.len(), |i: int| v[i]@)
}

/// The lines of `bytes`.
pub fn split_lines(bytes: &[u8]) -> (r: Vec<Vec<u8>>)
    ensures
        rows(r@) == lines_of(bytes@),
{
    let mut done: Vec<Vec<u8>> = Vec::new();
    let mut current: Vec<u8> = Vec::new();
    let mut i: usize = 0;
    assert(bytes@.subrange(0, 0) =~= Seq::<u8>::empty());
    assert(rows(done@).push(current@) =~= lines_of(bytes@.subrange(0, 0)));
    while i < bytes.len()
        invariant
            i <= bytes.len(),
            rows(done@).push(current@) == lines_of(bytes@.subrange(0, i as int)),
        decreases bytes.len() - i,
    {
        let b = bytes[i];
        let ghost before = bytes@.subrange(0, i as int);
        let ghost next = bytes@.subrange(0, i + 1);
        let ghost old_rows = rows(done@);
        let ghost old_current = current@;
        proof {
            assert(next.drop_last() =~= before);
            assert(next.last() == b);
        }
        if b == 10u8 {
            done.push(current);
            current = Vec::new();
            proof {
                assert(rows(done@) =~= old_rows.push(old_current));
                assert(rows(done@).push(current@) =~= lines_of(before).push(Seq::<u8>::empty()));
            }
        } else {
            current.push(b);
            proof {
                let l = lines_of(before);
                assert(l.last() == old_current);
                assert(rows(done@).push(current@) =~= l.update(
                    l.len() - 1,
                    l.last().push(b),
                ));
            }
        }
        i = i + 1;
    }
    assert(bytes@.subrange(0, bytes@.len() as int) =~= bytes@);
    let ghost old_rows = rows(done@);
    let ghost last = current@;
    done.push(current);
    assert(rows(done@) =~= old_rows.push(last));
    done
}

/// The URL under which to fetch a listed video: its watch page where the
/// listing gives an identifier, else the URL that the listing gives.
pub open spec fn entry_url(info: InfoModel) -> Option<Seq<char>> {
    match info.id {
        Some(id) => Some(watch_url(id)),
        None => info.url,
    }
}

/// The number of lines that are JSON: the playlist's true item count.
pub open spec fn listed_total(lines: Seq<Seq<u8>>) -> nat
    decreases lines.len(),
{
    if lines.len() == 0 {
        0
    } else {
        listed_total(lines.drop_last()) + if info_in(lines.last()) is Some {
            1nat
        } else {
            0nat
        }
    }
}

/// The URLs of the listed videos, in the order of the listing. A line that
/// is not JSON, or gives neither identifier nor URL, adds none.
pub open spec fn listed_urls(lines: Seq<Seq<u8>>) -> Seq<Seq<char>>
    decreases lines.len(),
{
    if lines.len() == 0 {
        Seq::<Seq<char>>::empty()
    } else {
        let before = listed_urls(lines.drop_last());
        match info_in(lines.last()) {
            Some(info) => match entry_url(info) {
                Some(u) => before.push(u),
                None => before,
            },
            None => before,
        }
    }
}

/// There are at most as many URLs as listed items.
pub proof fn lemma_listed_urls_bounded(lines: Seq<Seq<u8>>)
    ensures
        listed_urls(lines).len() <= listed_total(lines) <= lines.len(),
    decreases lines.len(),
{
    if lines.len() > 0 {
        lemma_listed_urls_bounded(lines.drop_last());
    }
}

/// The URL under which to fetch a listed video.
pub fn entry_url_of(info: VideoInfo) -> (r: Option<String>)
    ensures
        text_model(r) == entry_url(info@),
{
    match info.id {
        Some(id) => Some(watch_url_of(id.as_str())),
        None => info.url,
    }
}

/// A playlist as the fetcher lists it.
#[derive(Clone, Debug, PartialEq, Eq)]
pub struct PlaylistListing {
    /// The number of items of the playlist.
    pub total: usize,
    /// The URLs of the items that can be fetched, in order.
    pub urls: Vec<String>,
}

/// Reads the fetcher's flat listing of a playlist: one JSON object per
/// line.
pub fn parse_playlist(output: &[u8]) -> (r: PlaylistListing)
    ensures
        r.total == listed_total(lines_of(output@)),
        texts(r.urls@) == listed_urls(lines_of(output@)),
{
    let lines = split_lines(output);
    let mut total: usize = 0;
    let mut urls: Vec<String> = Vec::new();
    let mut i: usize = 0;
    assert(rows(lines@).subrange(0, 0) =~= Seq::<Seq<u8>>::empty());
    assert(texts(urls@) =~= Seq::<Seq<char>>::empty());
    while i < lines.len()
        invariant
            i <= lines.len(),
            total == listed_total(rows(lines@).subrange(0, i as int)),
            total <= i,
            texts(urls@) == listed_urls(rows(lines@).subrange(0, i as int)),
        decreases lines.len() - i,
    {
        let ghost before = rows(lines@).subrange(0, i as int);
        let ghost next = rows(lines@).subrange(0, i + 1);
        let ghost old_urls = texts(urls@);
        proof {
            assert(next.drop_last() =~= before);
            assert(next.last() == lines@[i as int]@);
        }
        match parse_video_info(lines[i].as_slice()) {
            None => {},
            Some(info) => {
                total = total + 1;
                match entry_url_of(info) {
                    Some(u) => {
                        urls.push(u);
                        assert(texts(urls@) =~= old_urls.push(u@));
                    },
                    None => {},
                }
            },
        }
        i = i + 1;
    }
    assert(rows(lines@).subrange(0, lines@.len() as int) =~= rows(lines@));
    PlaylistListing { total, urls }
}

} // verus!
