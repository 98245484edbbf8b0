//! Static mounts: choosing the most specific mount for a URL, mapping the URL to a
//! path under the mount's directory, and deciding what to send once the path has been
//! looked up on disk.
//!
//! The URL is not canonicalised before it is mapped: `..` segments reach the file
//! system path unchanged. A server facing untrusted clients should check that the
//! resolved path stays inside the mounted directory before reading it.
use vstd::prelude::*;
use vstd::string::*;

use crate::header::{header_name, Header};
use crate::mime::{extension_of, guess_mime, mime_for};
use crate::response::{is_not_found_page, length_headers, Response};
use crate::text::{join2, str_eq};

verus! {

/// The `/`-separated segments of a text (one more than the number of `/`).
pub open spec fn segments(s: Seq<char>) -> Seq<Seq<char>>
    decreases s.len(),
{
    if s.len() == 0 {
        seq![Seq::empty()]
    } else if s.last() == '/' {
        segments(s.drop_last()).push(Seq::empty())
    } else {
        let p = segments(s.drop_last());
        p.update(p.len() - 1, p.last().push(s.last()))
    }
}

/// The number of equal segments at the start of both lists, from position `i` on.
pub open spec fn common_from(a: Seq<Seq<char>>, b: Seq<Seq<char>>, i: int) -> nat
    decreases a.len() - i,
{
    if 0 <= i < a.len() && i < b.len() && a[i] == b[i] {
        1 + common_from(a, b, i + 1)
    } else {
        0
    }
}

/// The number of leading path segments that `url` and `key` share.
pub open spec fn similarity_of(url: Seq<char>, key: Seq<char>) -> nat {
    common_from(segments(url), segments(key), 0)
}

/// `key` is the root mount, or a segment-wise prefix of `url`: `url` is `key`, or
/// `key` followed by `/` and more.
pub open spec fn mount_matches(url: Seq<char>, key: Seq<char>) -> bool {
    key == seq!['/'] || (key.len() <= url.len() && url.subrange(0, key.len() as int) == key && (
    url.len() == key.len() || url[key.len() as int] == '/'))
}

/// A text with every trailing `/` removed.
pub open spec fn trim_end_slashes(s: Seq<char>) -> Seq<char>
    decreases s.len(),
{
    if s.len() > 0 && s.last() == '/' {
        trim_end_slashes(s.drop_last())
    } else {
        s
    }
}

/// The key a mount prefix is stored under: no trailing `/`, one leading `/`
/// (so every form of the root becomes `/`).
pub open spec fn mount_key(url: Seq<char>) -> Seq<char> {
    let t = trim_end_slashes(url);
    if t.len() > 0 && t[0] == '/' {
        t
    } else {
        seq!['/'] + t
    }
}

/// The index of the mount chosen for `url`: among the matching mounts, one with the most
/// shared leading segments, the first registered among equals.
pub open spec fn is_best_mount(mounts: Seq<(Seq<char>, Seq<char>)>, url: Seq<char>, b: int) -> bool {
    &&& 0 <= b < mounts.len()
    &&& mount_matches(url, mounts[b].0)
    &&& forall|j: int|
        0 <= j < mounts.len() && mount_matches(url, #[trigger] mounts[j].0) ==> similarity_of(
            url,
            mounts[j].0,
        ) <= similarity_of(url, mounts[b].0)
    &&& forall|j: int|
        0 <= j < b && mount_matches(url, #[trigger] mounts[j].0) ==> similarity_of(
            url,
            mounts[j].0,
        ) < similarity_of(url, mounts[b].0)
}

/// The path a URL maps to under a mount: the URL with the mount prefix replaced by the
/// directory (the root mount keeps the whole URL after the directory).
pub open spec fn resolved_path(url: Seq<char>, key: Seq<char>, dest: Seq<char>) -> Seq<char> {
    if key == seq!['/'] {
        dest + url
    } else {
        dest + url.subrange(key.len() as int, url.len() as int)
    }
}

/// Splits a text at every `/`.
fn split_segments(s: &str) -> (r: Vec<String>)
    ensures
        r@.map_values(|x: String| x@) == segments(s@),
{
    let n = s.unicode_len();
    let mut done: Vec<String> = Vec::new();
    let mut start: usize = 0;
    let mut i: usize = 0;
    assert(s@.subrange(0, 0) =~= Seq::<char>::empty());
    assert(done@.map_values(|x: String| x@).push(s@.subrange(0, 0)) =~= segments(
        s@.subrange(0, 0),
    ));
    while i < n
        invariant
            n == s@.len(),
            start <= i <= n,
            done@.map_values(|x: String| x@).push(s@.subrange(start as int, i as int)) == segments(
                s@.subrange(0, i as int),
            ),
        decreases n - i,
    {
        let ghost before = done@.map_values(|x: String| x@);
        let ghost pre = s@.subrange(0, i as int);
        assert(s@.subrange(0, i + 1).drop_last() =~= pre);
        if s.get_char(i) == '/' {
            let piece = s.substring_char(start, i).to_owned();
            let ghost old_start = start;
            done.push(piece);
            start = i + 1;
            assert(done@.map_values(|x: String| x@) =~= before.push(
                s@.subrange(old_start as int, i as int),
            ));
            assert(s@.subrange(start as int, i + 1) =~= Seq::<char>::empty());
            assert(done@.map_values(|x: String| x@).push(s@.subrange(start as int, i + 1))
                =~= segments(s@.subrange(0, i + 1)));
        } else {
            assert(done@.map_values(|x: String| x@) =~= before);
            assert(s@.subrange(start as int, i + 1) =~= s@.subrange(start as int, i as int).push(
                s@[i as int],
            ));
            assert(done@.map_values(|x: String| x@).push(s@.subrange(start as int, i + 1))
                =~= segments(s@.subrange(0, i + 1)));
        }
        i = i + 1;
    }
    let last = s.substring_char(start, n).to_owned();
    let ghost before = done@.map_values(|x: String| x@);
    done.push(last);
    assert(s@.subrange(0, n as int) =~= s@);
    assert(done@.map_values(|x: String| x@) =~= before.push(s@.subrange(start as int, n as int)));
    done
}

/// The number of leading path segments that `url` and `key` share.
pub fn similarity(url: &str, key: &str) -> (r: usize)
    ensures
        r == similarity_of(url@, key@),
{
    let a = split_segments(url);
    let b = split_segments(key);
    let ghost sa = a@.map_values(|x: String| x@);
    let ghost sb = b@.map_values(|x: String| x@);
    let mut i: usize = 0;
    while i < a.len() && i < b.len() && str_eq(a[i].as_str(), b[i].as_str())
        invariant
            sa == a@.map_values(|x: String| x@),
            sb == b@.map_values(|x: String| x@),
            i <= a@.len(),
            common_from(sa, sb, 0) == i + common_from(sa, sb, i as int),
        decreases a@.len() - i,
    {
        i = i + 1;
    }
    i
}

/// Whether `key` is the root mount or a segment-wise prefix of `url`.
pub fn url_starts_with(url: &str, key: &str) -> (r: bool)
    ensures
        r == mount_matches(url@, key@),
{
    let root = str_eq(key, "/");
    proof {
        reveal_strlit("/");
        assert("/"@ =~= seq!['/']);
    }
    if root {
        return true;
    }
    let n = url.unicode_len();
    let k = key.unicode_len();
    if k > n {
        return false;
    }
    let head = url.substring_char(0, k);
    if !str_eq(head, key) {
        return false;
    }
    k == n || url.get_char(k) == '/'
}

/// The stored key for a mount prefix: trailing `/` removed, a leading `/` added if missing.
pub fn normalize_mount(url: &str) -> (r: String)
    ensures
        r@ == mount_key(url@),
{
    let mut j: usize = url.unicode_len();
    assert(url@.subrange(0, j as int) =~= url@);
    while j > 0 && url.get_char(j - 1) == '/'
        invariant
            j <= url@.len(),
            trim_end_slashes(url@) == trim_end_slashes(url@.subrange(0, j as int)),
        decreases j,
    {
        assert(url@.subrange(0, j as int).drop_last() =~= url@.subrange(0, j - 1));
        j = j - 1;
    }
    let t = url.substring_char(0, j);
    assert(trim_end_slashes(url@) == t@);
    if j > 0 && t.get_char(0) == '/' {
        t.to_owned()
    } else {
        proof {
            reveal_strlit("/");
        }
        let r = join2("/", t);
        assert(r@ =~= seq!['/'] + t@);
        r
    }
}

/// Chooses the mount for `url`: among the matching mounts, the one with the most shared
/// leading segments; the first registered among equals.
pub fn select_mount(mounts: &Vec<(String, String)>, url: &str) -> (r: Option<usize>)
    ensures
        match r {
            Some(b) => is_best_mount(mounts@.map_values(|m: (String, String)| (m.0@, m.1@)), url@, b as int),
            None => forall|j: int|
                0 <= j < mounts@.len() ==> !mount_matches(url@, #[trigger] mounts@[j].0@),
        },
{
    let ghost ms = mounts@.map_values(|m: (String, String)| (m.0@, m.1@));
    let mut best: Option<usize> = None;
    let mut best_sim: usize = 0;
    let mut i: usize = 0;
    while i < mounts.len()
        invariant
            i <= mounts@.len(),
            ms == mounts@.map_values(|m: (String, String)| (m.0@, m.1@)),
            match best {
                Some(b) => {
                    &&& b < i
                    &&& mount_matches(url@, ms[b as int].0)
                    &&& best_sim == similarity_of(url@, ms[b as int].0)
                    &&& forall|j: int|
                        0 <= j < i && mount_matches(url@, #[trigger] ms[j].0) ==> similarity_of(
                            url@,
                            ms[j].0,
                        ) <= best_sim
                    &&& forall|j: int|
                        0 <= j < b && mount_matches(url@, #[trigger] ms[j].0) ==> similarity_of(
                            url@,
                            ms[j].0,
                        ) < best_sim
                },
                None => forall|j: int| 0 <= j < i ==> !mount_matches(url@, #[trigger] ms[j].0),
            },
        decreases mounts@.len() - i,
    {
        let key = mounts[i].0.as_str();
        assert(ms[i as int].0 == key@);
        if url_starts_with(url, key) {
            let sim = similarity(url, key);
            match best {
                Some(_) => {
                    if sim > best_sim {
                        best = Some(i);
                        best_sim = sim;
                    }
                },
                None => {
                    best = Some(i);
                    best_sim = sim;
                },
            }
        }
        i = i + 1;
    }
    proof {
        if best is None {
            assert forall|j: int| 0 <= j < mounts@.len() implies !mount_matches(
                url@,
                #[trigger] mounts@[j].0@,
            ) by {
                assert(ms[j].0 == mounts@[j].0@);
            }
        }
    }
    best
}

/// A static lookup in progress: the request URL and the path it maps to on disk.
#[derive(Debug)]
pub struct StaticLookup {
    pub url: String,
    pub path: String,
}

/// What a path turned out to be on disk.
#[derive(PartialEq, Eq, Structural, Clone, Copy, Debug)]
pub enum EntryKind {
    Missing,
    File,
    Dir,
    Other,
}

/// The next thing to do for a static lookup.
#[derive(Debug)]
pub enum StaticAction {
    /// Read this file and serve it.
    Read(String),
    /// Look up this path (a directory's index file) on disk.
    Probe(String),
    /// Send this response.
    Respond(Response),
}

impl StaticLookup {
    /// Decides what to do once the mapped path has been looked up: serve a file, redirect a
    /// directory URL that lacks its trailing `/`, look for the index file of a directory,
    /// or answer 404 when nothing is there.
    pub fn on_entry(&self, kind: EntryKind) -> (r: StaticAction)
        ensures
            kind == EntryKind::File ==> (r matches StaticAction::Read(p) && p@ == self.path@),
            kind == EntryKind::Dir && (self.url@.len() == 0 || self.url@.last() != '/') ==> (r matches StaticAction::Respond(resp) && resp.status == 307 && resp.headers@
                == map![header_name(Header::Location) => self.url@ + seq!['/']] && resp.content@.len() == 0),
            kind == EntryKind::Dir && self.url@.len() > 0 && self.url@.last() == '/' ==> (r matches StaticAction::Probe(p) && p@ == self.path@ + "index.html"@),
            (kind == EntryKind::Missing || kind == EntryKind::Other) ==> (r matches StaticAction::Respond(resp) && is_not_found_page(&resp)),
    {
        match kind {
            EntryKind::File => StaticAction::Read(self.path.clone()),
            EntryKind::Dir => {
                let n = self.url.as_str().unicode_len();
                if n > 0 && self.url.as_str().get_char(n - 1) == '/' {
                    StaticAction::Probe(join2(self.path.as_str(), "index.html"))
                } else {
                    proof {
                        reveal_strlit("/");
                    }
                    let target = join2(self.url.as_str(), "/");
                    assert(target@ =~= self.url@ + seq!['/']);
                    StaticAction::Respond(Response::redirect(target.as_str()))
                }
            },
            _ => StaticAction::Respond(Response::not_found()),
        }
    }
}

/// Decides what to do once a directory's index file has been looked up: serve it if it
/// is a file, else answer 404.
pub fn on_index_entry(index_path: &str, kind: EntryKind) -> (r: StaticAction)
    ensures
        kind == EntryKind::File ==> (r matches StaticAction::Read(p) && p@ == index_path@),
        kind != EntryKind::File ==> (r matches StaticAction::Respond(resp) && is_not_found_page(&resp)),
{
    if kind == EntryKind::File {
        StaticAction::Read(index_path.to_owned())
    } else {
        StaticAction::Respond(Response::not_found())
    }
}

/// The response for a static file: its bytes with Content-Length and, when the extension
/// is known, Content-Type; 404 when the file could not be read.
pub fn serve_file(path: &str, read: Option<Vec<u8>>) -> (r: Response)
    ensures
        match read {
            Some(bytes) => {
                &&& r.status == 200
                &&& r.content@ == bytes@
                &&& r.headers@ == if mime_for(extension_of(path@)).len() == 0 {
                    length_headers(bytes@.len())
                } else {
                    length_headers(bytes@.len()).insert(
                        header_name(Header::ContentType),
                        mime_for(extension_of(path@)),
                    )
                }
            },
            None => is_not_found_page(&r),
        },
{
    match read {
        Some(bytes) => {
            let mut res = Response::from_content_bytevec(bytes);
            match guess_mime(path) {
                Some(t) => res.set_header(Header::ContentType.as_str(), t.as_str()),
                None => {},
            }
            res
        },
        None => Response::not_found(),
    }
}

} // verus!
