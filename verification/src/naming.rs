//! Rules on the text of a request: which URLs are accepted, which of them
//! name a playlist, and how artifacts are named.

use crate::text::{
    append_chars, append_str, begins_with, char_is_control, chars_of, contains, decimal,
    decimal_of, ends_with, find, find_char, finishes_with, first_char, first_match, has,
    is_control, lemma_first_match_from, lowered, slice_of, starts_with, string_of,
    strip_end_char, to_lowered, trim, trim_end_char, trimmed,
};
use vstd::prelude::*;

verus! {

/// What a URL asks for.
#[derive(Clone, Copy, Debug, PartialEq, Eq, Structural)]
pub enum UrlKind {
    /// One video.
    Single,
    /// Every video of a playlist.
    Playlist,
}

// ---------------------------------------------------------------------------
// URL shapes
// ---------------------------------------------------------------------------

/// The URL, with ASCII capitals read as small letters, has one of the
/// accepted shapes of the source site.
pub open spec fn youtube_shape(url: Seq<char>) -> bool {
    let u = lowered(url);
    ||| contains(u, "youtube.com/watch"@)
    ||| contains(u, "youtu.be/"@)
    ||| contains(u, "youtube.com/embed/"@)
    ||| contains(u, "youtube.com/v/"@)
    ||| contains(u, "youtube.com/shorts/"@)
    ||| contains(u, "m.youtube.com/watch"@)
    ||| contains(u, "www.youtube.com/watch"@)
    ||| starts_with(u, "https://youtube.com/"@)
    ||| starts_with(u, "http://youtube.com/"@)
    ||| starts_with(u, "https://youtu.be/"@)
    ||| starts_with(u, "http://youtu.be/"@)
    ||| contains(u, "youtube.com/playlist"@)
}

/// The URL, with ASCII capitals read as small letters, carries a list
/// parameter on a watch or playlist page.
pub open spec fn playlist_shape(url: Seq<char>) -> bool {
    let u = lowered(url);
    contains(u, "list="@) && (contains(u, "youtube.com/watch"@) || contains(
        u,
        "youtube.com/playlist"@,
    ))
}

/// The kind of an accepted URL; `None` for a URL that is not accepted.
pub open spec fn url_kind(url: Seq<char>) -> Option<UrlKind> {
    if !youtube_shape(url) {
        None
    } else if playlist_shape(url) {
        Some(UrlKind::Playlist)
    } else {
        Some(UrlKind::Single)
    }
}

/// Whether `url` has one of the accepted shapes of the source site.
pub fn is_youtube_url(url: &str) -> (b: bool)
    ensures
        b == youtube_shape(url@),
{
    let v = chars_of(url);
    let u = to_lowered(&v);
    has(&u, "youtube.com/watch") || has(&u, "youtu.be/") || has(&u, "youtube.com/embed/") || has(
        &u,
        "youtube.com/v/",
    ) || has(&u, "youtube.com/shorts/") || has(&u, "m.youtube.com/watch") || has(
        &u,
        "www.youtube.com/watch",
    ) || begins_with(&u, "https://youtube.com/") || begins_with(&u, "http://youtube.com/")
        || begins_with(&u, "https://youtu.be/") || begins_with(&u, "http://youtu.be/") || has(
        &u,
        "youtube.com/playlist",
    )
}

/// Whether `url` names a playlist.
pub fn is_playlist_url(url: &str) -> (b: bool)
    ensures
        b == playlist_shape(url@),
{
    let v = chars_of(url);
    let u = to_lowered(&v);
    has(&u, "list=") && (has(&u, "youtube.com/watch") || has(&u, "youtube.com/playlist"))
}

/// Classifies `url` once, for the whole request.
pub fn classify_url(url: &str) -> (r: Option<UrlKind>)
    ensures
        r == url_kind(url@),
{
    if !is_youtube_url(url) {
        None
    } else if is_playlist_url(url) {
        Some(UrlKind::Playlist)
    } else {
        Some(UrlKind::Single)
    }
}

/// The watch page of the video with identifier `id`.
pub open spec fn watch_url(id: Seq<char>) -> Seq<char> {
    "https://www.youtube.com/watch?v="@ + id
}

/// The watch page of the video with identifier `id`.
pub fn watch_url_of(id: &str) -> (r: String)
    ensures
        r@ == watch_url(id@),
{
    let mut v = chars_of("https://www.youtube.com/watch?v=");
    append_str(&mut v, id);
    string_of(&v)
}

/// The video identifier that a URL carries: what follows the first `v=`,
/// up to the next `v=` or `&`.
pub open spec fn url_video_id(url: Seq<char>) -> Option<Seq<char>> {
    match first_match(url, "v="@) {
        None => None,
        Some(i) => {
            let rest = url.subrange(i + 2, url.len() as int);
            let segment = match first_match(rest, "v="@) {
                Some(j) => rest.subrange(0, j),
                None => rest,
            };
            Some(
                match first_char(segment, '&') {
                    Some(k) => segment.subrange(0, k),
                    None => segment,
                },
            )
        },
    }
}

/// The video identifier that a URL carries, if any.
pub fn video_id_of(url: &Vec<char>) -> (r: Option<Vec<char>>)
    ensures
        match r {
            Some(id) => url_video_id(url@) == Some(id@),
            None => url_video_id(url@) is None,
        },
{
    match find(url, "v=") {
        None => None,
        Some(i) => {
            proof {
                reveal_strlit("v=");
                lemma_first_match_from(url@, "v="@, 0);
                assert("v="@.len() == 2);
            }
            let n: usize = url.len();
            let rest = slice_of(url, i + 2, n);
            let segment = match find(&rest, "v=") {
                Some(j) => {
                    proof {
                        lemma_first_match_from(rest@, "v="@, 0);
                    }
                    slice_of(&rest, 0, j)
                },
                None => rest,
            };
            match find_char(&segment, '&') {
                Some(k) => {
                    proof {
                        lemma_first_match_from(segment@, seq!['&'], 0);
                    }
                    Some(slice_of(&segment, 0, k))
                },
                None => Some(segment),
            }
        },
    }
}

// ---------------------------------------------------------------------------
// File names
// ---------------------------------------------------------------------------

/// A character that no file name may hold on some system.
pub open spec fn is_unsafe_char(c: char) -> bool {
    ||| c == '<'
    ||| c == '>'
    ||| c == ':'
    ||| c == '"'
    ||| c == '/'
    ||| c == '\\'
    ||| c == '|'
    ||| c == '?'
    ||| c == '*'
    ||| is_control(c)
}

/// `name` with every unsafe character replaced by an underscore.
pub open spec fn with_safe_chars(name: Seq<char>) -> Seq<char> {
    Seq::new(
        name.len(),
        |i: int|
            if is_unsafe_char(name[i]) {
                '_'
            } else {
                name[i]
            },
    )
}

/// A file name that every system accepts: unsafe characters are replaced
/// by underscores, then surrounding white space is removed, then trailing
/// dots, then trailing spaces.
pub open spec fn sanitized(name: Seq<char>) -> Seq<char> {
    strip_end_char(strip_end_char(trimmed(with_safe_chars(name)), '.'), ' ')
}

/// `name` made safe as a file name, as characters.
pub fn sanitize_chars(name: &Vec<char>) -> (r: Vec<char>)
    ensures
        r@ == sanitized(name@),
{
    let mut safe: Vec<char> = Vec::new();
    let mut i: usize = 0;
    while i < name.len()
        invariant
            i <= name.len(),
            safe@.len() == i,
            forall|j: int|
                0 <= j < i ==> safe@[j] == if is_unsafe_char(name@[j]) {
                    '_'
                } else {
                    name@[j]
                },
        decreases name.len() - i,
    {
        let c = name[i];
        let bad = c == '<' || c == '>' || c == ':' || c == '"' || c == '/' || c == '\\' || c
            == '|' || c == '?' || c == '*' || char_is_control(c);
        safe.push(
            if bad {
                '_'
            } else {
                c
            },
        );
        i = i + 1;
    }
    assert(safe@ =~= with_safe_chars(name@));
    let t = trim(&safe);
    let d = trim_end_char(&t, '.');
    trim_end_char(&d, ' ')
}

/// `filename` made safe as a file name.
pub fn sanitize_filename(filename: &str) -> (r: String)
    ensures
        r@ == sanitized(filename@),
{
    let v = chars_of(filename);
    let r = sanitize_chars(&v);
    string_of(&r)
}

/// The file name of the artifact with base name `base`.
pub open spec fn artifact_name(base: Seq<char>) -> Seq<char> {
    base + ".mp3"@
}

/// The base name of an artifact: the title where there is one, else the
/// identifier, else `video`, followed by an underscore and the item's
/// position where `position` gives one.
pub open spec fn base_name(
    title: Option<Seq<char>>,
    id: Option<Seq<char>>,
    position: Option<nat>,
) -> Seq<char> {
    match title {
        Some(t) => t,
        None => match id {
            Some(i) => i,
            None => match position {
                Some(p) => "video_"@ + decimal(p),
                None => "video"@,
            },
        },
    }
}

/// `dir` and `name` joined by a slash; only `name` where `dir` is empty,
/// and no second slash where `dir` ends in one.
pub open spec fn joined(dir: Seq<char>, name: Seq<char>) -> Seq<char> {
    if dir.len() == 0 {
        name
    } else if dir.last() == '/' {
        dir + name
    } else {
        dir + seq!['/'] + name
    }
}

/// The path of the artifact for an item, in the directory `dir`.
pub open spec fn artifact_path(
    dir: Seq<char>,
    title: Option<Seq<char>>,
    id: Option<Seq<char>>,
    position: Option<nat>,
) -> Seq<char> {
    joined(dir, artifact_name(base_name(title, id, position)))
}

/// What ends a name ends the name joined to a directory.
pub proof fn lemma_joined_ends_with(dir: Seq<char>, name: Seq<char>, tail: Seq<char>)
    requires
        ends_with(name, tail),
    ensures
        ends_with(joined(dir, name), tail),
{
    let j = joined(dir, name);
    assert(j.subrange(j.len() - name.len(), j.len() as int) =~= name);
    assert(j.subrange(j.len() - tail.len(), j.len() as int) =~= name.subrange(
        name.len() - tail.len(),
        name.len() as int,
    ));
}

/// The path of an artifact ends in `.mp3`, wherever it lies and whatever
/// it is named by.
pub proof fn lemma_artifact_path_is_mp3(
    dir: Seq<char>,
    title: Option<Seq<char>>,
    id: Option<Seq<char>>,
    position: Option<nat>,
)
    ensures
        ends_with(artifact_path(dir, title, id, position), ".mp3"@),
{
    let base = base_name(title, id, position);
    let name = artifact_name(base);
    assert(name.subrange(name.len() - ".mp3"@.len(), name.len() as int) =~= ".mp3"@);
    lemma_joined_ends_with(dir, name, ".mp3"@);
}

/// `dir` and `name` joined by a slash.
pub fn join_path(dir: &Vec<char>, name: &Vec<char>) -> (r: Vec<char>)
    ensures
        r@ == joined(dir@, name@),
{
    let mut r: Vec<char> = Vec::new();
    append_chars(&mut r, dir);
    assert(r@ =~= dir@);
    if dir.len() > 0 && dir[dir.len() - 1] != '/' {
        r.push('/');
    }
    append_chars(&mut r, name);
    r
}

/// The path of the artifact for an item, in the directory `dir`.
pub fn artifact_path_of(
    dir: &str,
    title: &Option<String>,
    id: &Option<Vec<char>>,
    position: Option<usize>,
) -> (r: String)
    ensures
        r@ == artifact_path(
            dir@,
            match *title {
                Some(t) => Some(t@),
                None => None,
            },
            match *id {
                Some(i) => Some(i@),
                None => None,
            },
            match position {
                Some(p) => Some(p as nat),
                None => None,
            },
        ),
{
    let mut name: Vec<char> = Vec::new();
    match title {
        Some(t) => {
            append_str(&mut name, t.as_str());
        },
        None => match id {
            Some(i) => {
                append_chars(&mut name, i);
            },
            None => match position {
                Some(p) => {
                    append_str(&mut name, "video_");
                    let digits = decimal_of(p as u64);
                    append_chars(&mut name, &digits);
                },
                None => {
                    append_str(&mut name, "video");
                },
            },
        },
    }
    assert(name@ =~= base_name(
        match *title {
            Some(t) => Some(t@),
            None => None,
        },
        match *id {
            Some(i) => Some(i@),
            None => None,
        },
        match position {
            Some(p) => Some(p as nat),
            None => None,
        },
    ));
    append_str(&mut name, ".mp3");
    let d = chars_of(dir);
    let p = join_path(&d, &name);
    string_of(&p)
}

/// A character that separates the parts of a path.
pub open spec fn is_separator(c: char) -> bool {
    c == '/' || c == '\\'
}

/// The predicate that holds of every character but the separators.
pub open spec fn not_separator() -> spec_fn(char) -> bool {
    |c: char| !is_separator(c)
}

/// The last part of a path: what follows its last separator.
pub open spec fn file_name(path: Seq<char>) -> Seq<char> {
    path.subrange(
        path.len() - crate::text::trailing_run(path, not_separator()),
        path.len() as int,
    )
}

/// The directory that a path lies in: what stands before its last part,
/// without the separator between them, unless that separator is all there
/// is.
pub open spec fn parent_dir(path: Seq<char>) -> Seq<char> {
    let cut = path.len() - file_name(path).len();
    if cut <= 1 {
        path.subrange(0, cut)
    } else {
        path.subrange(0, cut - 1)
    }
}

/// The path names an artifact: its last part ends in `.mp3` and has
/// something before that.
pub open spec fn is_artifact(path: Seq<char>) -> bool {
    file_name(path).len() > 4 && ends_with(file_name(path), ".mp3"@)
}

/// The last part of a path without its last four characters, the
/// extension of an artifact.
pub open spec fn file_stem(path: Seq<char>) -> Seq<char> {
    file_name(path).subrange(0, file_name(path).len() - 4)
}

/// A path that names an artifact ends in `.mp3`.
pub proof fn lemma_artifact_is_mp3(path: Seq<char>)
    requires
        is_artifact(path),
    ensures
        ends_with(path, ".mp3"@),
{
    crate::text::lemma_trailing_run_bound(path, not_separator());
    let name = file_name(path);
    let tail = ".mp3"@;
    assert(path.subrange(path.len() - tail.len(), path.len() as int) =~= name.subrange(
        name.len() - tail.len(),
        name.len() as int,
    ));
}

/// The last part of a path.
pub fn file_name_of(path: &Vec<char>) -> (r: Vec<char>)
    ensures
        r@ == file_name(path@),
{
    let mut start: usize = path.len();
    while start > 0 && path[start - 1] != '/' && path[start - 1] != '\\'
        invariant
            start <= path.len(),
            forall|i: int| start <= i < path.len() ==> !is_separator(#[trigger] path@[i]),
        decreases start,
    {
        start = start - 1;
    }
    proof {
        let p = not_separator();
        assert forall|i: int| start <= i < path.len() implies p(#[trigger] path@[i]) by {}
        crate::text::lemma_trailing_run_unique(path@, p, start as int);
    }
    slice_of(path, start, path.len())
}

/// The directory that a path lies in.
pub fn parent_dir_of(path: &Vec<char>) -> (r: Vec<char>)
    ensures
        r@ == parent_dir(path@),
{
    let name = file_name_of(path);
    proof {
        crate::text::lemma_trailing_run_bound(path@, not_separator());
    }
    let cut: usize = path.len() - name.len();
    if cut <= 1 {
        slice_of(path, 0, cut)
    } else {
        slice_of(path, 0, cut - 1)
    }
}

/// Whether the path names an artifact.
pub fn names_artifact(path: &Vec<char>) -> (b: bool)
    ensures
        b == is_artifact(path@),
{
    let name = file_name_of(path);
    name.len() > 4 && finishes_with(&name, ".mp3")
}

/// The last part of an artifact's path without its extension.
pub(crate) fn file_stem_of(path: &Vec<char>) -> (r: Vec<char>)
    requires
        is_artifact(path@),
    ensures
        r@ == file_stem(path@),
{
    let name = file_name_of(path);
    slice_of(&name, 0, name.len() - 4)
}

} // verus!
