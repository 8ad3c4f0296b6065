//! Media references, the requests that fetch them, and placeholder icons.

use vstd::prelude::*;
use crate::error::Error;
use crate::text::{chars_of, decimal, decimal_text, join2, string_of};
use crate::web::{resolve, texts, url_chain};

verus! {

/// The scheme with which a media reference begins.
pub open spec fn scheme() -> Seq<char> {
    seq!['m', 'x', 'c', ':', '/', '/']
}

/// Whether `s` holds `pattern` at position `at`.
pub open spec fn holds_at(s: Seq<char>, at: int, pattern: Seq<char>) -> bool {
    &&& 0 <= at
    &&& at + pattern.len() <= s.len()
    &&& s.subrange(at, at + pattern.len()) == pattern
}

/// The first position from `from` on that holds `stop`, or the length of
/// `s` where none does.
pub open spec fn run_end(s: Seq<char>, from: int, stop: char) -> int
    decreases s.len() - from,
{
    if from < 0 || from >= s.len() {
        s.len() as int
    } else if s[from] == stop {
        from
    } else {
        run_end(s, from + 1, stop)
    }
}

/// The server and the media id of the reference that begins at `at`: the
/// scheme, a server name without `/`, a `/`, and a media id that runs to
/// the end of the line; neither part is empty.
pub open spec fn reference_at(s: Seq<char>, at: int) -> Option<(Seq<char>, Seq<char>)> {
    let server_from = at + 6;
    let server_to = run_end(s, server_from, '/');
    let media_to = run_end(s, server_to + 1, '\n');
    if holds_at(s, at, scheme()) && server_from < server_to < s.len() && server_to + 1
        < media_to {
        Some((s.subrange(server_from, server_to), s.subrange(server_to + 1, media_to)))
    } else {
        None
    }
}

/// The first reference in `s` that begins at `from` or later.
pub open spec fn reference_from(s: Seq<char>, from: int) -> Option<(Seq<char>, Seq<char>)>
    decreases s.len() - from,
{
    if from < 0 || from >= s.len() {
        None
    } else if reference_at(s, from) is Some {
        reference_at(s, from)
    } else {
        reference_from(s, from + 1)
    }
}

/// The server and the media id of the first media reference in `s`.
pub open spec fn media_reference(s: Seq<char>) -> Option<(Seq<char>, Seq<char>)> {
    reference_from(s, 0)
}

/// A parsed media reference `mxc://server/media`.
#[derive(Debug)]
pub struct MediaRef {
    pub server: String,
    pub media: String,
}

fn find_run_end(s: &Vec<char>, from: usize, stop: char) -> (end: usize)
    requires
        from <= s@.len(),
    ensures
        end == run_end(s@, from as int, stop),
        from <= end <= s@.len(),
{
    let mut i: usize = from;
    while i < s.len() && s[i] != stop
        invariant
            from <= i <= s@.len(),
            run_end(s@, from as int, stop) == run_end(s@, i as int, stop),
        decreases s@.len() - i,
    {
        i = i + 1;
    }
    i
}

fn has_scheme(s: &Vec<char>, at: usize) -> (yes: bool)
    requires
        at <= s@.len(),
    ensures
        yes == holds_at(s@, at as int, scheme()),
{
    if s.len() - at < 6 {
        return false;
    }
    let yes = s[at] == 'm' && s[at + 1] == 'x' && s[at + 2] == 'c' && s[at + 3] == ':' && s[at
        + 4] == '/' && s[at + 5] == '/';
    proof {
        let part = s@.subrange(at as int, at + 6);
        if yes {
            assert(part =~= scheme());
        } else {
            assert(part[0] == s@[at as int]);
            assert(part[1] == s@[at + 1]);
            assert(part[2] == s@[at + 2]);
            assert(part[3] == s@[at + 3]);
            assert(part[4] == s@[at + 4]);
            assert(part[5] == s@[at + 5]);
        }
    }
    yes
}

/// Finds the first media reference in `text`.
pub fn parse_reference(text: &str) -> (r: Result<MediaRef, Error>)
    ensures
        match r {
            Ok(m) => media_reference(text@) == Some((m.server@, m.media@)),
            Err(e) => e == Error::MediaReferenceInvalid && media_reference(text@) is None,
        },
{
    let s = chars_of(text);
    let mut at: usize = 0;
    while at < s.len()
        invariant
            at <= s@.len(),
            s@ == text@,
            media_reference(text@) == reference_from(s@, at as int),
        decreases s@.len() - at,
    {
        if has_scheme(&s, at) {
            let server_from = at + 6;
            let server_to = find_run_end(&s, server_from, '/');
            if server_from < server_to && server_to < s.len() {
                let media_to = find_run_end(&s, server_to + 1, '\n');
                if server_to + 1 < media_to {
                    let server = string_of(&s, server_from, server_to);
                    let media = string_of(&s, server_to + 1, media_to);
                    return Ok(MediaRef { server, media });
                }
            }
        }
        at = at + 1;
    }
    Err(Error::MediaReferenceInvalid)
}

/// Where a fetched file is kept.
#[derive(Debug)]
pub enum CacheFile {
    /// Under this name in the cache directory.
    Cached(String),
    /// At this path.
    Path(String),
}

/// One download: the URL to get, and the file that holds the bytes.  A
/// file that is already there is used as it is, without a request.
#[derive(Debug)]
pub struct MediaFetch {
    pub url: String,
    pub file: CacheFile,
}

/// What is to be done about a download.
#[derive(Clone, Copy, Debug, PartialEq, Eq, Structural)]
pub enum FetchStep {
    /// The file is there: use it, and ask the server for nothing.
    Reuse,
    /// The file is missing: get the URL and write the file.
    Download,
}

impl MediaFetch {
    /// What is to be done, given whether the file is there already.  The
    /// cache is never refreshed: a file that is there is used as it is.
    pub fn step(&self, present: bool) -> (step: FetchStep)
        ensures
            step == (if present {
                FetchStep::Reuse
            } else {
                FetchStep::Download
            }),
    {
        if present {
            FetchStep::Reuse
        } else {
            FetchStep::Download
        }
    }
}

/// The value of a [`MediaFetch`].
pub struct MediaFetchV {
    pub url: Seq<char>,
    pub file: CacheFileV,
}

impl View for MediaFetch {
    type V = MediaFetchV;

    open spec fn view(&self) -> MediaFetchV {
        MediaFetchV { url: self.url@, file: self.file@ }
    }
}

impl Clone for CacheFile {
    fn clone(&self) -> (copy: CacheFile)
        ensures
            copy@ == self@,
    {
        match self {
            CacheFile::Cached(name) => CacheFile::Cached(name.clone()),
            CacheFile::Path(path) => CacheFile::Path(path.clone()),
        }
    }
}

impl Clone for MediaFetch {
    fn clone(&self) -> (copy: MediaFetch)
        ensures
            copy@ == self@,
    {
        MediaFetch { url: self.url.clone(), file: self.file.clone() }
    }
}

/// The query that asks for a scaled thumbnail of `w` by `h`.
pub open spec fn thumbnail_query(w: int, h: int) -> Seq<char> {
    "?width="@ + decimal_text(w) + "&height="@ + decimal_text(h) + "&method=scale"@
}

/// The parts that lead from the server's URL to a piece of media.
pub open spec fn media_parts(
    server: Seq<char>,
    media: Seq<char>,
    thumb: bool,
    w: int,
    h: int,
) -> Seq<Seq<char>> {
    if thumb {
        seq!["/_matrix/media/r0/thumbnail/"@, server + "/"@, media + thumbnail_query(w, h)]
    } else {
        seq!["/_matrix/media/r0/download/"@, server + "/"@, media]
    }
}

/// The file that keeps the media `media`: `dest` followed by the id, or
/// the id as a name in the cache directory.
pub open spec fn media_file(media: Seq<char>, dest: Option<Seq<char>>) -> CacheFileV {
    match dest {
        Some(d) => CacheFileV::Path(d + media),
        None => CacheFileV::Cached(media),
    }
}

/// The value of a [`CacheFile`].
pub enum CacheFileV {
    Cached(Seq<char>),
    Path(Seq<char>),
}

impl View for CacheFile {
    type V = CacheFileV;

    open spec fn view(&self) -> CacheFileV {
        match self {
            CacheFile::Cached(name) => CacheFileV::Cached(name@),
            CacheFile::Path(path) => CacheFileV::Path(path@),
        }
    }
}

/// The download that resolves the reference `url` on the server at
/// `base`, or the error with which resolving it fails.
pub open spec fn media_fetch(
    base: Seq<char>,
    url: Seq<char>,
    thumb: bool,
    dest: Option<Seq<char>>,
    w: int,
    h: int,
) -> Result<MediaFetchV, Error> {
    match media_reference(url) {
        None => Err(Error::MediaReferenceInvalid),
        Some((server, media)) => match url_chain(
            base,
            media_parts(server, media, thumb, w, h),
        ) {
            None => Err(Error::BackendError),
            Some(u) => Ok(MediaFetchV { url: u, file: media_file(media, dest) }),
        },
    }
}

/// Plans the download of the media that `url` refers to: the thumbnail
/// of `w` by `h` where `thumb` is set, the whole file otherwise.
pub fn dw_media(base: &str, url: &str, thumb: bool, dest: Option<&str>, w: i32, h: i32) -> (r:
    Result<MediaFetch, Error>)
    ensures
        match r {
            Ok(f) => media_fetch(
                base@,
                url@,
                thumb,
                match dest {
                    Some(d) => Some(d@),
                    None => None,
                },
                w as int,
                h as int,
            ) == Ok::<MediaFetchV, Error>(f@),
            Err(e) => media_fetch(
                base@,
                url@,
                thumb,
                match dest {
                    Some(d) => Some(d@),
                    None => None,
                },
                w as int,
                h as int,
            ) == Err::<MediaFetchV, Error>(e),
        },
{
    let m = match parse_reference(url) {
        Ok(m) => m,
        Err(e) => {
            return Err(e);
        },
    };
    let mut parts: Vec<String> = Vec::new();
    if thumb {
        let mut last = m.media.clone();
        last.append("?width=");
        last.append(decimal(w as i64).as_str());
        last.append("&height=");
        last.append(decimal(h as i64).as_str());
        last.append("&method=scale");
        assert(last@ =~= m.media@ + thumbnail_query(w as int, h as int));
        parts.push("/_matrix/media/r0/thumbnail/".to_owned());
        parts.push(join2(m.server.as_str(), "/"));
        parts.push(last);
    } else {
        parts.push("/_matrix/media/r0/download/".to_owned());
        parts.push(join2(m.server.as_str(), "/"));
        parts.push(m.media.clone());
    }
    assert(texts(parts@).len() == 3);
    assert(texts(parts@)[0] == parts@[0]@);
    assert(texts(parts@)[1] == parts@[1]@);
    assert(texts(parts@)[2] == parts@[2]@);
    assert(texts(parts@) =~= media_parts(m.server@, m.media@, thumb, w as int, h as int));
    let target = match resolve(base, &parts) {
        Ok(u) => u,
        Err(e) => {
            return Err(e);
        },
    };
    let file = match dest {
        Some(d) => CacheFile::Path(join2(d, m.media.as_str())),
        None => CacheFile::Cached(m.media),
    };
    Ok(MediaFetch { url: target, file })
}

/// Resolving a reference is repeatable: the same reference on the same
/// server always names the same URL and the same file, the file of the
/// reference's media id.
pub proof fn lemma_resolve_is_repeatable(
    base: Seq<char>,
    url: Seq<char>,
    thumb: bool,
    dest: Option<Seq<char>>,
    w: int,
    h: int,
    first: MediaFetch,
    second: MediaFetch,
)
    requires
        media_fetch(base, url, thumb, dest, w, h) == Ok::<MediaFetchV, Error>(first@),
        media_fetch(base, url, thumb, dest, w, h) == Ok::<MediaFetchV, Error>(second@),
    ensures
        first@.file == second@.file,
        first@.url == second@.url,
        media_reference(url) matches Some((server, media)) && first@.file == media_file(
            media,
            dest,
        ),
{
}

} // verus!
