//! Choosing a local file name for a download: from the Content-Disposition
//! header, else from the URL's last path segment, else a fixed default;
//! always made safe for the filesystem.
use vstd::prelude::*;

verus! {

/// `pat` occurs in `s` starting at index `i`.
pub open spec fn occurs_at(s: Seq<char>, pat: Seq<char>, i: int) -> bool {
    0 <= i && i + pat.len() <= s.len() && s.subrange(i, i + pat.len()) == pat
}

/// Index of the first occurrence of `pat` in `s` at or after `from`, or -1.
pub open spec fn find_from(s: Seq<char>, pat: Seq<char>, from: int) -> int
    decreases s.len() - from,
{
    if from < 0 || from + pat.len() > s.len() {
        -1
    } else if occurs_at(s, pat, from) {
        from
    } else if from >= s.len() {
        -1
    } else {
        find_from(s, pat, from + 1)
    }
}

/// Index of the last occurrence of `c` in `s`, or -1.
pub open spec fn last_index_of(s: Seq<char>, c: char) -> int
    decreases s.len(),
{
    if s.len() == 0 {
        -1
    } else if s.last() == c {
        s.len() - 1
    } else {
        last_index_of(s.drop_last(), c)
    }
}

/// Unicode White_Space, the set that `str::trim` removes.
pub open spec fn is_white_space(c: char) -> bool {
    let u = c as u32;
    ||| 0x09 <= u <= 0x0d
    ||| u == 0x20
    ||| u == 0x85
    ||| u == 0xa0
    ||| u == 0x1680
    ||| 0x2000 <= u <= 0x200a
    ||| u == 0x2028
    ||| u == 0x2029
    ||| u == 0x202f
    ||| u == 0x205f
    ||| u == 0x3000
}

/// The characters trimmed from the ends of a name.
#[derive(Debug, Clone, Copy, PartialEq, Eq, Structural)]
pub enum TrimSet {
    WhiteSpace,
    Exactly(char),
}

pub open spec fn in_trim_set(t: TrimSet, c: char) -> bool {
    match t {
        TrimSet::WhiteSpace => is_white_space(c),
        TrimSet::Exactly(x) => c == x,
    }
}

pub open spec fn trim_start_set(s: Seq<char>, t: TrimSet) -> Seq<char>
    decreases s.len(),
{
    if s.len() > 0 && in_trim_set(t, s[0]) {
        trim_start_set(s.drop_first(), t)
    } else {
        s
    }
}

pub open spec fn trim_end_set(s: Seq<char>, t: TrimSet) -> Seq<char>
    decreases s.len(),
{
    if s.len() > 0 && in_trim_set(t, s.last()) {
        trim_end_set(s.drop_last(), t)
    } else {
        s
    }
}

/// `s` without the characters of `t` at either end.
pub open spec fn trim_set_spec(s: Seq<char>, t: TrimSet) -> Seq<char> {
    trim_end_set(trim_start_set(s, t), t)
}

pub open spec fn filename_key() -> Seq<char> {
    "filename="@
}

/// The name a Content-Disposition value gives: the text after the first
/// `filename=` up to the next `filename=` (or the end), with whitespace, then
/// double quotes, then single quotes trimmed from both ends. `None` when the
/// value has no `filename=`.
pub open spec fn disposition_name(d: Seq<char>) -> Option<Seq<char>> {
    let p = find_from(d, filename_key(), 0);
    if p < 0 {
        None
    } else {
        let b = p + filename_key().len();
        let q = find_from(d, filename_key(), b);
        let e = if q < 0 {
            d.len() as int
        } else {
            q
        };
        Some(
            trim_set_spec(
                trim_set_spec(
                    trim_set_spec(d.subrange(b, e), TrimSet::WhiteSpace),
                    TrimSet::Exactly('"'),
                ),
                TrimSet::Exactly('\''),
            ),
        )
    }
}

pub open spec fn default_name() -> Seq<char> {
    "download.dat"@
}

/// The name before sanitizing: the header's name if it gives one, else a
/// non-empty last URL path segment, else the default.
pub open spec fn candidate_name(
    disposition: Option<Seq<char>>,
    url_segment: Option<Seq<char>>,
) -> Seq<char> {
    match disposition {
        Some(d) if disposition_name(d) is Some => disposition_name(d)->0,
        _ => match url_segment {
            Some(seg) if seg.len() > 0 => seg,
            _ => default_name(),
        },
    }
}

pub open spec fn opt_view(o: Option<&str>) -> Option<Seq<char>> {
    match o {
        Some(s) => Some(s@),
        None => None,
    }
}

/// Characters that the sanitizer never leaves in a name: path separators and
/// other characters that filesystems reject, and control characters.
pub open spec fn unsafe_name_char(c: char) -> bool {
    let u = c as u32;
    ||| c == '/'
    ||| c == '?'
    ||| c == '<'
    ||| c == '>'
    ||| c == '\\'
    ||| c == ':'
    ||| c == '*'
    ||| c == '|'
    ||| c == '"'
    ||| u <= 0x1f
    ||| 0x80 <= u <= 0x9f
}

/// A name that is safe to create in the download directory.
pub open spec fn safe_file_name(s: Seq<char>) -> bool {
    &&& s.len() <= 255
    &&& forall|i: int| 0 <= i < s.len() ==> !unsafe_name_char(#[trigger] s[i])
}

/// Characters of a plain file name: ASCII letters, digits, `-`, `_`, `.`.
pub open spec fn plain_name_char(c: char) -> bool {
    ||| ('a' <= c && c <= 'z')
    ||| ('A' <= c && c <= 'Z')
    ||| ('0' <= c && c <= '9')
    ||| c == '-'
    ||| c == '_'
    ||| c == '.'
}

pub open spec fn ascii_lower(c: char) -> char {
    if 'A' <= c && c <= 'Z' {
        ((c as u32) + 32) as char
    } else {
        c
    }
}

/// The part of a name before its first `.` (the whole name if it has none).
pub open spec fn name_stem(s: Seq<char>) -> Seq<char> {
    let p = find_from(s, seq!['.'], 0);
    if p < 0 {
        s
    } else {
        s.subrange(0, p)
    }
}

/// A Windows device name, in any case: con, prn, aux, nul, com0-9, lpt0-9.
pub open spec fn is_device_name(stem: Seq<char>) -> bool {
    let l = stem.map_values(|c: char| ascii_lower(c));
    ||| l == seq!['c', 'o', 'n']
    ||| l == seq!['p', 'r', 'n']
    ||| l == seq!['a', 'u', 'x']
    ||| l == seq!['n', 'u', 'l']
    ||| (l.len() == 4 && (l.subrange(0, 3) == seq!['c', 'o', 'm'] || l.subrange(0, 3) == seq![
        'l',
        'p',
        't',
    ]) && '0' <= l[3] && l[3] <= '9')
}

/// A name that the sanitizer leaves as it is on every platform: non-empty,
/// at most 255 plain characters, not ending in `.` (so not all dots), and
/// whose stem is not a Windows device name.
pub open spec fn plain_file_name(s: Seq<char>) -> bool {
    &&& 0 < s.len() <= 255
    &&& forall|i: int| 0 <= i < s.len() ==> plain_name_char(#[trigger] s[i])
    &&& s.last() != '.'
    &&& !(forall|i: int| 0 <= i < s.len() ==> #[trigger] s[i] == '.')
    &&& !is_device_name(name_stem(s))
}

/// What `url::Url::parse` followed by `path_segments().last()` yields for a
/// URL: `None` when the URL does not parse or has no hierarchical path.
pub uninterp spec fn url_last_segment(url: Seq<char>) -> Option<Seq<char>>;

/// Relies on url::Url::parse and Url::path_segments: the last segment of the
/// parsed URL's path, which depends on the URL text alone.
#[verifier::external_body]
fn last_path_segment(url: &str) -> (r: Option<String>)
    ensures
        match r {
            Some(s) => url_last_segment(url@) == Some(s@),
            None => url_last_segment(url@) is None,
        },
{
    let parsed = url::Url::parse(url).ok()?;
    let last = parsed.path_segments()?.last()?;
    Some(last.to_string())
}

/// Relies on sanitize_filename::sanitize with its default options, which only
/// deletes characters (those of `unsafe_name_char`, names made only of dots,
/// and on Windows device names and trailing dots and spaces) and truncates to
/// 255 bytes. None of its patterns matches a plain name, which therefore comes
/// back unchanged on every platform. Which other deletions apply depends on the
/// platform, so the result is not named.
#[verifier::external_body]
fn sanitize(name: &str) -> (r: String)
    ensures
        safe_file_name(r@),
        plain_file_name(name@) ==> r@ == name@,
{
    sanitize_filename::sanitize(name)
}

/// Whether `pat` occurs in `s` at index `i`.
fn occurs_at_exec(s: &str, n: usize, pat: &str, m: usize, i: usize) -> (r: bool)
    requires
        n == s@.len(),
        m == pat@.len(),
        i + m <= n,
    ensures
        r == occurs_at(s@, pat@, i as int),
{
    let mut j: usize = 0;
    while j < m
        invariant
            0 <= j <= m,
            n == s@.len(),
            m == pat@.len(),
            i + m <= n,
            forall|k: int| 0 <= k < j ==> s@[i + k] == pat@[k],
        decreases m - j,
    {
        if s.get_char(i + j) != pat.get_char(j) {
            assert(s@.subrange(i as int, i + m)[j as int] != pat@[j as int]);
            return false;
        }
        j = j + 1;
    }
    assert(s@.subrange(i as int, i + m) =~= pat@);
    true
}

/// The first occurrence of `pat` in `s` at or after `from`.
fn find_from_exec(s: &str, n: usize, pat: &str, m: usize, from: usize) -> (r: Option<usize>)
    requires
        n == s@.len(),
        m == pat@.len(),
        from <= n,
    ensures
        match r {
            Some(i) => find_from(s@, pat@, from as int) == i as int,
            None => find_from(s@, pat@, from as int) == -1,
        },
{
    let mut i: usize = from;
    while i <= n && m <= n - i
        invariant
            from <= i <= n + 1,
            n == s@.len(),
            m == pat@.len(),
            find_from(s@, pat@, from as int) == find_from(s@, pat@, i as int),
        decreases n + 1 - i,
    {
        if occurs_at_exec(s, n, pat, m, i) {
            return Some(i);
        }
        if i >= n {
            return None;
        }
        i = i + 1;
    }
    None
}

/// `s` without the characters of `t` at either end.
pub fn trim_set(s: &str, t: TrimSet) -> (r: &str)
    ensures
        r@ == trim_set_spec(s@, t),
{
    let n = s.unicode_len();
    let mut i: usize = 0;
    assert(s@.subrange(0, n as int) =~= s@);
    while i < n && in_trim_set_exec(t, s.get_char(i))
        invariant
            0 <= i <= n,
            n == s@.len(),
            trim_start_set(s@, t) == trim_start_set(s@.subrange(i as int, n as int), t),
        decreases n - i,
    {
        assert(s@.subrange(i as int, n as int).drop_first() =~= s@.subrange(i + 1, n as int));
        i = i + 1;
    }
    let mut j: usize = n;
    while j > i && in_trim_set_exec(t, s.get_char(j - 1))
        invariant
            i <= j <= n,
            n == s@.len(),
            trim_end_set(s@.subrange(i as int, n as int), t) == trim_end_set(
                s@.subrange(i as int, j as int),
                t,
            ),
        decreases j - i,
    {
        assert(s@.subrange(i as int, j as int).drop_last() =~= s@.subrange(i as int, j - 1));
        j = j - 1;
    }
    s.substring_char(i, j)
}

fn in_trim_set_exec(t: TrimSet, c: char) -> (r: bool)
    ensures
        r == in_trim_set(t, c),
{
    match t {
        TrimSet::WhiteSpace => {
            let u = c as u32;
            (0x09 <= u && u <= 0x0d) || u == 0x20 || u == 0x85 || u == 0xa0 || u == 0x1680 || (
            0x2000 <= u && u <= 0x200a) || u == 0x2028 || u == 0x2029 || u == 0x202f || u
                == 0x205f || u == 0x3000
        },
        TrimSet::Exactly(x) => c == x,
    }
}

/// The file name that a Content-Disposition value gives, if it has a
/// `filename=` part.
pub fn disposition_filename(value: &str) -> (r: Option<String>)
    ensures
        match r {
            Some(s) => disposition_name(value@) == Some(s@),
            None => disposition_name(value@) is None,
        },
{
    let key = "filename=";
    proof {
        reveal_strlit("filename=");
    }
    let n = value.unicode_len();
    let m = key.unicode_len();
    match find_from_exec(value, n, key, m, 0) {
        None => None,
        Some(p) => {
            proof {
                lemma_find_from_bounds(value@, key@, 0);
            }
            let b = p + m;
            proof {
                lemma_find_from_bounds(value@, key@, b as int);
            }
            let e = match find_from_exec(value, n, key, m, b) {
                Some(q) => {
                    assert(b <= q && q <= n);
                    q
                },
                None => n,
            };
            let raw = value.substring_char(b, e);
            let a = trim_set(raw, TrimSet::WhiteSpace);
            let c = trim_set(a, TrimSet::Exactly('"'));
            let d = trim_set(c, TrimSet::Exactly('\''));
            Some(String::from_str(d))
        },
    }
}

proof fn lemma_find_from_bounds(s: Seq<char>, pat: Seq<char>, from: int)
    ensures
        find_from(s, pat, from) == -1 || (from <= find_from(s, pat, from) && find_from(
            s,
            pat,
            from,
        ) + pat.len() <= s.len()),
    decreases s.len() - from,
{
    if !(from < 0 || from + pat.len() > s.len()) && !occurs_at(s, pat, from) && from < s.len() {
        lemma_find_from_bounds(s, pat, from + 1);
    }
}

/// The name before sanitizing, from the header's value and the URL's last
/// path segment as already extracted.
pub fn choose_filename(disposition: Option<&str>, url_segment: Option<&str>) -> (r: String)
    ensures
        r@ == candidate_name(opt_view(disposition), opt_view(url_segment)),
{
    if let Some(d) = disposition {
        if let Some(name) = disposition_filename(d) {
            return name;
        }
    }
    match url_segment {
        Some(seg) => {
            if seg.unicode_len() > 0 {
                return String::from_str(seg);
            }
        },
        None => {},
    }
    String::from_str("download.dat")
}

/// A name made safe for the filesystem; a plain name is kept as it is.
pub fn safe_filename(name: &str) -> (r: String)
    ensures
        safe_file_name(r@),
        plain_file_name(name@) ==> r@ == name@,
{
    sanitize(name)
}

/// The local file name for a download, from the Content-Disposition value
/// (when the header was present and readable) and the URL. The name is
/// always sanitized; a plain candidate name is kept as it is.
pub fn extract_filename(content_disposition: Option<&str>, url: &str) -> (r: String)
    ensures
        safe_file_name(r@),
        plain_file_name(candidate_name(opt_view(content_disposition), url_last_segment(url@)))
            ==> r@ == candidate_name(opt_view(content_disposition), url_last_segment(url@)),
{
    if let Some(d) = content_disposition {
        if let Some(name) = disposition_filename(d) {
            return sanitize(name.as_str());
        }
    }
    let segment = last_path_segment(url);
    let candidate = match &segment {
        Some(s) => choose_filename(None, Some(s.as_str())),
        None => choose_filename(None, None),
    };
    sanitize(candidate.as_str())
}

/// A name guessed from the URL text alone: what follows the last `/`, cut at
/// the first `?`.
pub open spec fn guessed_name(url: Seq<char>) -> Seq<char> {
    let tail = url.subrange(last_index_of(url, '/') + 1, url.len() as int);
    let q = find_from(tail, seq!['?'], 0);
    if q < 0 {
        tail
    } else {
        tail.subrange(0, q)
    }
}

proof fn lemma_last_index_bounds(s: Seq<char>, c: char)
    ensures
        -1 <= last_index_of(s, c) < s.len(),
    decreases s.len(),
{
    if s.len() > 0 && s.last() != c {
        lemma_last_index_bounds(s.drop_last(), c);
    }
}

/// The file name guessed from a URL when no details could be fetched.
pub fn guess_filename_from_url(url: &str) -> (r: String)
    ensures
        r@ == guessed_name(url@),
{
    let n = url.unicode_len();
    let mut j: usize = n;
    assert(url@.subrange(0, n as int) =~= url@);
    while j > 0 && url.get_char(j - 1) != '/'
        invariant
            j <= n,
            n == url@.len(),
            last_index_of(url@, '/') == last_index_of(url@.subrange(0, j as int), '/'),
        decreases j,
    {
        assert(url@.subrange(0, j as int).drop_last() =~= url@.subrange(0, j - 1));
        j = j - 1;
    }
    proof {
        if j == 0 {
            assert(url@.subrange(0, 0).len() == 0);
        }
    }
    let tail = url.substring_char(j, n);
    let question = "?";
    proof {
        reveal_strlit("?");
        assert(question@ =~= seq!['?']);
    }
    let tn = tail.unicode_len();
    match find_from_exec(tail, tn, question, 1, 0) {
        Some(q) => {
            proof {
                lemma_find_from_bounds(tail@, question@, 0);
            }
            String::from_str(tail.substring_char(0, q))
        },
        None => String::from_str(tail),
    }
}

} // verus!
