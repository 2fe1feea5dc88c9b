//! HTTP side of the web gateway: recognising the WebSocket upgrade on `/ws`,
//! finding the requested path, mapping it into the static directory, choosing
//! the content type and the response, and relaying WebSocket frames upstream.
use crate::text::{
    chars_of, digits_value, same_text, string_from_chars, eq_ignore_ascii_case, find_last, find_next, has_prefix, is_unicode_whitespace,
    is_whitespace_char, last_index_of, lemma_last_index_of, lemma_next_index_of, next_index_of,
    range_eq, range_eq_ignore_ascii_case, contains_char, decimal, decimal_string,
};
use vstd::string::{StrSliceExecFns, StringExecFns, StringSliceAdditionalSpecFns};
use vstd::prelude::*;
use vstd::utf8::*;

verus! {

broadcast use vstd::string::group_string_axioms;

// ---------------------------------------------------------------------------
// Lines of a request head, as `str::lines` yields them.
// ---------------------------------------------------------------------------
/// End of the line that starts at `start`: the next `'\n'` (or the end of the
/// text), less a `'\r'` that directly precedes that `'\n'`.
pub open spec fn line_end(s: Seq<char>, start: int) -> int {
    let nl = next_index_of(s, start, '\n');
    if nl < s.len() && nl > start && s[nl - 1] == '\r' {
        nl - 1
    } else {
        nl
    }
}

/// The lines of `s[start..]`: split after each `'\n'`, each line without its
/// `"\n"` or `"\r\n"` ending, and no empty line after a final `'\n'`.
pub open spec fn lines_from(s: Seq<char>, start: int) -> Seq<Seq<char>>
    decreases s.len() - start,
{
    if start < 0 || start >= s.len() {
        Seq::empty()
    } else {
        let nl = next_index_of(s, start, '\n');
        let line = s.subrange(start, line_end(s, start));
        if start <= nl < s.len() {
            seq![line] + lines_from(s, nl + 1)
        } else {
            seq![line]
        }
    }
}

/// `str::lines`.
pub open spec fn text_lines(s: Seq<char>) -> Seq<Seq<char>> {
    lines_from(s, 0)
}

/// The first line, or the empty text when there is none.
pub open spec fn first_line(s: Seq<char>) -> Seq<char> {
    if s.len() == 0 {
        Seq::empty()
    } else {
        s.take(line_end(s, 0))
    }
}

proof fn lemma_line_end(s: Seq<char>, start: int)
    requires
        0 <= start <= s.len(),
    ensures
        start <= line_end(s, start) <= next_index_of(s, start, '\n') <= s.len(),
{
    lemma_next_index_of(s, start, '\n');
}

fn next_line_break(cs: &Vec<char>, start: usize) -> (r: usize)
    requires
        start <= cs.len(),
    ensures
        r == next_index_of(cs@, start as int, '\n'),
        start <= r <= cs.len(),
{
    assert(cs@.take(cs.len() as int) =~= cs@);
    find_next(cs, start, cs.len(), '\n')
}

fn line_end_at(cs: &Vec<char>, start: usize) -> (r: usize)
    requires
        start <= cs.len(),
    ensures
        r == line_end(cs@, start as int),
        start <= r <= cs.len(),
{
    let nl = next_line_break(cs, start);
    if nl < cs.len() && nl > start && cs[nl - 1] == '\r' {
        nl - 1
    } else {
        nl
    }
}

// ---------------------------------------------------------------------------
// WebSocket upgrade
// ---------------------------------------------------------------------------
/// One of the lines of a request head is `"upgrade: websocket"`, ignoring ASCII
/// case.
pub open spec fn has_upgrade_line(s: Seq<char>) -> bool {
    exists|i: int|
        0 <= i < text_lines(s).len() && eq_ignore_ascii_case(
            #[trigger] text_lines(s)[i],
            "upgrade: websocket"@,
        )
}

/// A request head asks for the WebSocket relay when its first line starts with
/// `"GET /ws "` and one of its lines is `"upgrade: websocket"`, ignoring ASCII case.
pub open spec fn websocket_request(s: Seq<char>) -> bool {
    &&& has_prefix(first_line(s), "GET /ws "@)
    &&& has_upgrade_line(s)
}

/// Whether one of the lines of `cs` is the WebSocket upgrade header.
fn upgrade_header_present(cs: &Vec<char>) -> (r: bool)
    ensures
        r == has_upgrade_line(cs@),
{
    let ghost s = cs@;
    let target = chars_of("upgrade: websocket");
    let mut pos: usize = 0;
    let ghost mut done: Seq<Seq<char>> = Seq::empty();
    while pos < cs.len()
        invariant
            s == cs@,
            target@ == "upgrade: websocket"@,
            pos <= cs.len(),
            text_lines(s) == done + lines_from(s, pos as int),
            forall|i: int|
                0 <= i < done.len() ==> !eq_ignore_ascii_case(#[trigger] done[i], target@),
        decreases cs.len() - pos,
    {
        let nl = next_line_break(cs, pos);
        let end = line_end_at(cs, pos);
        proof {
            lemma_line_end(s, pos as int);
        }
        let ghost line = s.subrange(pos as int, end as int);
        let ghost rest = if nl < cs.len() {
            lines_from(s, nl + 1)
        } else {
            Seq::empty()
        };
        assert(lines_from(s, pos as int) =~= seq![line] + rest);
        assert(done + (seq![line] + rest) =~= done.push(line) + rest);
        if range_eq_ignore_ascii_case(cs, pos, end, &target) {
            assert(0 <= done.len() < text_lines(s).len());
            assert(text_lines(s)[done.len() as int] == line);
            assert(eq_ignore_ascii_case(text_lines(s)[done.len() as int], "upgrade: websocket"@));
            return true;
        }
        proof {
            done = done.push(line);
        }
        if nl == cs.len() {
            assert(lines_from(s, nl as int) =~= rest);
            pos = nl;
        } else {
            pos = nl + 1;
        }
    }
    assert(lines_from(s, pos as int) =~= Seq::<Seq<char>>::empty());
    assert(text_lines(s) =~= done);
    false
}

/// Whether the request head asks for the WebSocket relay on `/ws`.
pub fn is_websocket_request(request_head: &str) -> (r: bool)
    ensures
        r == websocket_request(request_head@),
{
    let cs = chars_of(request_head);
    let ghost s = cs@;
    let prefix = chars_of("GET /ws ");
    let first_end: usize = if cs.len() == 0 {
        0
    } else {
        line_end_at(&cs, 0)
    };
    proof {
        if cs.len() > 0 {
            lemma_line_end(s, 0);
        }
        assert(first_line(s) =~= s.take(first_end as int));
    }
    if prefix.len() > first_end {
        return false;
    }
    if !range_eq(&cs, 0, prefix.len(), &prefix) {
        assert(first_line(s).subrange(0, prefix@.len() as int) =~= s.subrange(
            0,
            prefix@.len() as int,
        ));
        return false;
    }
    assert(first_line(s).subrange(0, prefix@.len() as int) =~= s.subrange(
        0,
        prefix@.len() as int,
    ));
    assert(has_prefix(first_line(s), "GET /ws "@));
    upgrade_header_present(&cs)
}

/// Names what `String::from_utf8_lossy` makes of a byte sequence: the decoded
/// characters, with each invalid sequence replaced by U+FFFD.
pub uninterp spec fn utf8_lossy(bytes: Seq<u8>) -> Seq<char>;

/// `String::from_utf8_lossy`. The contract names the result; its documentation
/// also says that valid UTF-8 comes back unchanged, which the second clause states.
#[verifier::external_body]
fn decode_lossy(bytes: &[u8]) -> (s: String)
    ensures
        s@ == utf8_lossy(bytes@),
        valid_utf8(bytes@) ==> s@ == decode_utf8(bytes@),
{
    String::from_utf8_lossy(bytes).into_owned()
}

/// Whether the first bytes of a connection, read as text with invalid UTF-8
/// replaced, ask for the WebSocket relay.
pub fn is_websocket_handshake(peek: &[u8]) -> (r: bool)
    ensures
        r == websocket_request(utf8_lossy(peek@)),
{
    let head = decode_lossy(peek);
    is_websocket_request(head.as_str())
}

// ---------------------------------------------------------------------------
// Request line
// ---------------------------------------------------------------------------
/// The first index at or after `i` that is not whitespace (or the end).
pub open spec fn skip_spaces(l: Seq<char>, i: int) -> int
    decreases l.len() - i,
{
    if i >= l.len() {
        l.len() as int
    } else if is_unicode_whitespace(l[i]) {
        skip_spaces(l, i + 1)
    } else {
        i
    }
}

/// The first index at or after `i` that is whitespace (or the end).
pub open spec fn word_end(l: Seq<char>, i: int) -> int
    decreases l.len() - i,
{
    if i >= l.len() {
        l.len() as int
    } else if !is_unicode_whitespace(l[i]) {
        word_end(l, i + 1)
    } else {
        i
    }
}

/// The path that a request asks for: the second whitespace-separated word of the
/// first line, up to its first `'?'`, when the first word is `GET` or `HEAD`.
pub open spec fn request_path_of(s: Seq<char>) -> Option<Seq<char>> {
    let line = first_line(s);
    let a1 = skip_spaces(line, 0);
    let b1 = word_end(line, a1);
    let a2 = skip_spaces(line, b1);
    let b2 = word_end(line, a2);
    if s.len() == 0 || a1 >= line.len() || a2 >= line.len() {
        None
    } else if line.subrange(a1, b1) != "GET"@ && line.subrange(a1, b1) != "HEAD"@ {
        None
    } else {
        Some(line.subrange(a2, next_index_of(line.take(b2), a2, '?')))
    }
}

fn skip_spaces_at(cs: &Vec<char>, i: usize, end: usize) -> (r: usize)
    requires
        i <= end <= cs.len(),
    ensures
        r == skip_spaces(cs@.take(end as int), i as int),
        i <= r <= end,
{
    let ghost l = cs@.take(end as int);
    let mut j = i;
    while j < end
        invariant
            i <= j <= end <= cs.len(),
            l == cs@.take(end as int),
            skip_spaces(l, i as int) == skip_spaces(l, j as int),
        decreases end - j,
    {
        if !is_whitespace_char(cs[j]) {
            return j;
        }
        j = j + 1;
    }
    j
}

fn word_end_at(cs: &Vec<char>, i: usize, end: usize) -> (r: usize)
    requires
        i <= end <= cs.len(),
    ensures
        r == word_end(cs@.take(end as int), i as int),
        i <= r <= end,
{
    let ghost l = cs@.take(end as int);
    let mut j = i;
    while j < end
        invariant
            i <= j <= end <= cs.len(),
            l == cs@.take(end as int),
            word_end(l, i as int) == word_end(l, j as int),
        decreases end - j,
    {
        if is_whitespace_char(cs[j]) {
            return j;
        }
        j = j + 1;
    }
    j
}

/// The path that a `GET` or `HEAD` request asks for, without its query; `None` for
/// another method or a request line with fewer than two words.
pub fn request_path(request: &str) -> (r: Option<&str>)
    ensures
        match r {
            None => request_path_of(request@) is None,
            Some(p) => request_path_of(request@) == Some(p@),
        },
{
    let cs = chars_of(request);
    let ghost s = cs@;
    if cs.len() == 0 {
        return None;
    }
    let e = line_end_at(&cs, 0);
    let ghost line = first_line(s);
    assert(line =~= s.take(e as int));
    let a1 = skip_spaces_at(&cs, 0, e);
    let b1 = word_end_at(&cs, a1, e);
    let a2 = skip_spaces_at(&cs, b1, e);
    let b2 = word_end_at(&cs, a2, e);
    if a1 >= e || a2 >= e {
        return None;
    }
    assert(line.subrange(a1 as int, b1 as int) =~= s.subrange(a1 as int, b1 as int));
    let get = chars_of("GET");
    let head = chars_of("HEAD");
    if !range_eq(&cs, a1, b1, &get) && !range_eq(&cs, a1, b1, &head) {
        return None;
    }
    let q = find_next(&cs, a2, b2, '?');
    assert(line.take(b2 as int) =~= s.take(b2 as int));
    assert(line.subrange(a2 as int, q as int) =~= s.subrange(a2 as int, q as int));
    Some(request.substring_char(a2, q))
}

// ---------------------------------------------------------------------------
// Static files
// ---------------------------------------------------------------------------
/// Whether `p` holds `".."` anywhere.
pub open spec fn has_dot_dot(p: Seq<char>) -> bool {
    exists|i: int| 0 <= i && i + 1 < p.len() && #[trigger] p[i] == '.' && p[i + 1] == '.'
}

/// `p` without its leading `'/'` characters.
pub open spec fn strip_leading_slashes(p: Seq<char>) -> Seq<char>
    decreases p.len(),
{
    if p.len() > 0 && p[0] == '/' {
        strip_leading_slashes(p.drop_first())
    } else {
        p
    }
}

/// `PathBuf::join` with `'/'` separators, for a relative `rel`: a separator is
/// put between the two unless `dir` is empty or already ends with one.
pub open spec fn join_path(dir: Seq<char>, rel: Seq<char>) -> Seq<char> {
    if dir.len() == 0 || dir.last() == '/' {
        dir + rel
    } else {
        dir + "/"@ + rel
    }
}

/// The file that a request path maps to under `dir`: refused when the path holds
/// `".."` or a backslash; the path without leading slashes, or `index.html` when
/// nothing is left, joined to `dir`.
pub open spec fn static_file_path_of(dir: Seq<char>, request_path: Seq<char>) -> Option<
    Seq<char>,
> {
    if has_dot_dot(request_path) || request_path.contains('\\') {
        None
    } else {
        let rel = strip_leading_slashes(request_path);
        Some(join_path(dir, if rel.len() == 0 { "index.html"@ } else { rel }))
    }
}

proof fn lemma_strip_skip(p: Seq<char>, k: int)
    requires
        0 <= k <= p.len(),
        forall|j: int| 0 <= j < k ==> p[j] == '/',
    ensures
        strip_leading_slashes(p) == strip_leading_slashes(p.skip(k)),
    decreases k,
{
    if k == 0 {
        assert(p.skip(0) =~= p);
    } else {
        assert(p[0] == '/');
        assert(p.drop_first().skip(k - 1) =~= p.skip(k));
        assert forall|j: int| 0 <= j < k - 1 implies p.drop_first()[j] == '/' by {
            assert(p[j + 1] == '/');
        }
        lemma_strip_skip(p.drop_first(), k - 1);
    }
}

/// The file under `static_dir` that a request path asks for, or `None` when the path
/// tries to leave the directory (`".."`) or holds a backslash.
pub fn static_file_path(static_dir: &str, request_path: &str) -> (r: Option<String>)
    ensures
        match r {
            None => static_file_path_of(static_dir@, request_path@) is None,
            Some(f) => static_file_path_of(static_dir@, request_path@) == Some(f@),
        },
{
    let cs = chars_of(request_path);
    let ghost p = cs@;
    let mut i: usize = 0;
    while cs.len() > 0 && i < cs.len() - 1
        invariant
            p == cs@,
            p == request_path@,
            forall|j: int| 0 <= j < i && j + 1 < p.len() ==> !(#[trigger] p[j] == '.' && p[j + 1]
                == '.'),
        decreases cs.len() - i,
    {
        if cs[i] == '.' && cs[i + 1] == '.' {
            assert(p[i as int] == '.' && p[i + 1] == '.');
            assert(has_dot_dot(p));
            return None;
        }
        i = i + 1;
    }
    if contains_char(&cs, '\\') {
        return None;
    }
    let mut k: usize = 0;
    while k < cs.len() && cs[k] == '/'
        invariant
            p == cs@,
            k <= cs.len(),
            forall|j: int| 0 <= j < k ==> p[j] == '/',
        decreases cs.len() - k,
    {
        k = k + 1;
    }
    proof {
        lemma_strip_skip(p, k as int);
    }
    let ghost rel = strip_leading_slashes(p);
    assert(rel == p.skip(k as int)) by {
        if k < p.len() {
            assert(p.skip(k as int)[0] == p[k as int]);
        }
    }
    let dir_chars = chars_of(static_dir);
    let mut joined = String::from_str(static_dir);
    if dir_chars.len() > 0 && dir_chars[dir_chars.len() - 1] != '/' {
        joined.append("/");
    }
    if k == cs.len() {
        joined.append("index.html");
    } else {
        joined.append(request_path.substring_char(k, cs.len()));
    }
    Some(joined)
}

/// The last component of a path, as `Path::file_name` finds it: empty and `"."`
/// components are skipped from the end; none is left, or a `".."`, gives `None`.
pub open spec fn file_name(p: Seq<char>) -> Option<Seq<char>>
    decreases p.len(),
{
    if p.len() == 0 {
        None
    } else if p.last() == '/' {
        file_name(p.drop_last())
    } else {
        let k = last_index_of(p, '/');
        proof {
            lemma_last_index_of(p, '/');
        }
        let seg = p.subrange(k + 1, p.len() as int);
        if seg == seq!['.'] {
            file_name(p.take(k + 1))
        } else if seg == seq!['.', '.'] {
            None
        } else {
            Some(seg)
        }
    }
}

/// `Path::extension`: the part of the file name after its last `'.'`, unless that
/// dot is the name's first character or there is none.
pub open spec fn extension(p: Seq<char>) -> Option<Seq<char>> {
    match file_name(p) {
        None => None,
        Some(name) => {
            let j = last_index_of(name, '.');
            if j <= 0 {
                None
            } else {
                Some(name.subrange(j + 1, name.len() as int))
            }
        },
    }
}

/// The `content-type` that the gateway sends for a file extension.
pub open spec fn content_type_for(ext: Option<Seq<char>>) -> Seq<char> {
    match ext {
        Some(e) => if e == "css"@ {
            "text/css; charset=utf-8"@
        } else if e == "html"@ {
            "text/html; charset=utf-8"@
        } else if e == "js"@ {
            "text/javascript; charset=utf-8"@
        } else if e == "wasm"@ {
            "application/wasm"@
        } else if e == "png"@ {
            "image/png"@
        } else if e == "svg"@ {
            "image/svg+xml"@
        } else if e == "json"@ {
            "application/json; charset=utf-8"@
        } else {
            "application/octet-stream"@
        },
        None => "application/octet-stream"@,
    }
}

/// The range of the file name in `cs`.
fn file_name_range(cs: &Vec<char>) -> (r: Option<(usize, usize)>)
    ensures
        match r {
            None => file_name(cs@) is None,
            Some((a, b)) => a <= b <= cs.len() && file_name(cs@) == Some(cs@.subrange(
                a as int,
                b as int,
            )),
        },
{
    let ghost p = cs@;
    let mut end = cs.len();
    assert(p.take(end as int) =~= p);
    loop
        invariant
            p == cs@,
            end <= cs.len(),
            file_name(p) == file_name(p.take(end as int)),
        decreases end,
    {
        if end == 0 {
            return None;
        }
        let ghost t = p.take(end as int);
        if cs[end - 1] == '/' {
            assert(t.drop_last() =~= p.take(end - 1));
            end = end - 1;
        } else {
            let start: usize = match find_last(cs, end, '/') {
                None => 0,
                Some(k) => k + 1,
            };
            proof {
                lemma_last_index_of(t, '/');
            }
            assert(t.subrange(start as int, end as int) =~= p.subrange(start as int, end as int));
            if end - start == 1 && cs[start] == '.' {
                assert(p.subrange(start as int, end as int) =~= seq!['.']);
                assert(t.take(start as int) =~= p.take(start as int));
                end = start;
            } else if end - start == 2 && cs[start] == '.' && cs[start + 1] == '.' {
                assert(p.subrange(start as int, end as int) =~= seq!['.', '.']);
                return None;
            } else {
                assert(p.subrange(start as int, end as int) != seq!['.']) by {
                    if end - start == 1 {
                        assert(p.subrange(start as int, end as int)[0] == p[start as int]);
                    }
                }
                assert(p.subrange(start as int, end as int) != seq!['.', '.']) by {
                    if end - start == 2 {
                        assert(p.subrange(start as int, end as int)[0] == p[start as int]);
                        assert(p.subrange(start as int, end as int)[1] == p[start + 1]);
                    }
                }
                return Some((start, end));
            }
        }
    }
}

fn range_is(cs: &Vec<char>, a: usize, b: usize, lit: &str) -> (r: bool)
    requires
        a <= b <= cs.len(),
    ensures
        r == (cs@.subrange(a as int, b as int) == lit@),
{
    let l = chars_of(lit);
    range_eq(cs, a, b, &l)
}

/// The `content-type` for a file, chosen by its extension.
pub fn content_type(path: &str) -> (r: &'static str)
    ensures
        r@ == content_type_for(extension(path@)),
{
    let cs = chars_of(path);
    let (a, b) = match file_name_range(&cs) {
        None => {
            return "application/octet-stream";
        },
        Some(range) => range,
    };
    let ghost name = cs@.subrange(a as int, b as int);
    let j = find_last(&cs, b, '.');
    let d: usize = match j {
        None => {
            proof {
                assert(last_index_of(name, '.') == -1) by {
                    lemma_last_index_of(name, '.');
                    lemma_last_index_of(cs@.take(b as int), '.');
                    if last_index_of(name, '.') >= 0 {
                        assert(cs@.take(b as int)[a + last_index_of(name, '.')] == '.');
                    }
                }
            }
            return "application/octet-stream";
        },
        Some(d) => d,
    };
    proof {
        lemma_last_index_of(name, '.');
        lemma_last_index_of(cs@.take(b as int), '.');
    }
    if d <= a {
        assert(last_index_of(name, '.') <= 0) by {
            if last_index_of(name, '.') > 0 {
                assert(cs@.take(b as int)[a + last_index_of(name, '.')] == '.');
            }
        }
        return "application/octet-stream";
    }
    assert(last_index_of(name, '.') == d - a) by {
        assert(name[d - a] == '.');
        if last_index_of(name, '.') > d - a {
            assert(cs@.take(b as int)[a + last_index_of(name, '.')] == '.');
        }
    }
    assert(name.subrange(d - a + 1, name.len() as int) =~= cs@.subrange(d + 1, b as int));
    let e = d + 1;
    if range_is(&cs, e, b, "css") {
        "text/css; charset=utf-8"
    } else if range_is(&cs, e, b, "html") {
        "text/html; charset=utf-8"
    } else if range_is(&cs, e, b, "js") {
        "text/javascript; charset=utf-8"
    } else if range_is(&cs, e, b, "wasm") {
        "application/wasm"
    } else if range_is(&cs, e, b, "png") {
        "image/png"
    } else if range_is(&cs, e, b, "svg") {
        "image/svg+xml"
    } else if range_is(&cs, e, b, "json") {
        "application/json; charset=utf-8"
    } else {
        "application/octet-stream"
    }
}

// ---------------------------------------------------------------------------
// Routing and responses of the static server
// ---------------------------------------------------------------------------
/// What the static server does with a request head.
pub enum StaticRoute {
    /// The request line names no `GET`/`HEAD` path: answer 400.
    BadRequest,
    /// The path would leave the static directory: answer 403.
    Forbidden,
    /// Read and serve this file.
    File(String),
}

/// The route for a request head (as text) under `static_dir`.
pub open spec fn static_route_matches(r: StaticRoute, request: Seq<char>, dir: Seq<char>) -> bool {
    match r {
        StaticRoute::BadRequest => request_path_of(request) is None,
        StaticRoute::Forbidden => request_path_of(request) matches Some(p)
            && static_file_path_of(dir, p) is None,
        StaticRoute::File(f) => request_path_of(request) matches Some(p) && static_file_path_of(
            dir,
            p,
        ) == Some(f@),
    }
}

/// Routes a request head, given as text.
pub fn static_route(request: &str, static_dir: &str) -> (r: StaticRoute)
    ensures
        static_route_matches(r, request@, static_dir@),
{
    match request_path(request) {
        None => StaticRoute::BadRequest,
        Some(path) => match static_file_path(static_dir, path) {
            None => StaticRoute::Forbidden,
            Some(file) => StaticRoute::File(file),
        },
    }
}

/// Routes a request head as it was read, with invalid UTF-8 replaced.
pub fn route_request_bytes(request: &[u8], static_dir: &str) -> (r: StaticRoute)
    ensures
        static_route_matches(r, utf8_lossy(request@), static_dir@),
{
    let text = decode_lossy(request);
    static_route(text.as_str(), static_dir)
}

/// Whether enough of a request has been read: it holds the blank line that ends
/// the head, or more than 8192 bytes arrived.
pub open spec fn request_head_done(request: Seq<u8>) -> bool {
    ||| exists|i: int|
        0 <= i && i + 4 <= request.len() && #[trigger] request[i] == 13 && request[i + 1] == 10
            && request[i + 2] == 13 && request[i + 3] == 10
    ||| request.len() > 8192
}

pub fn request_head_complete(request: &[u8]) -> (r: bool)
    ensures
        r == request_head_done(request@),
{
    let n = request.len();
    if n > 8192 {
        return true;
    }
    let mut i: usize = 0;
    while i + 4 <= n
        invariant
            n == request@.len(),
            n <= 8192,
            i <= n,
            forall|j: int|
                0 <= j < i && j + 4 <= n ==> !(#[trigger] request@[j] == 13 && request@[j + 1]
                    == 10 && request@[j + 2] == 13 && request@[j + 3] == 10),
        decreases n - i,
    {
        if request[i] == 13 && request[i + 1] == 10 && request[i + 2] == 13 && request[i + 3] == 10 {
            return true;
        }
        i = i + 1;
    }
    false
}

/// A response of the static server.
pub struct StaticResponse {
    pub status: &'static str,
    pub content_type: &'static str,
    pub body: Vec<u8>,
}

/// The outcome of reading the routed file.
pub enum FileRead {
    Found(Vec<u8>),
    NotFound,
    /// Any other I/O error, which ends the connection with that error.
    Failed,
}

fn text_bytes(s: &str) -> (b: Vec<u8>)
    ensures
        b@ == s.spec_bytes(),
{
    s.as_bytes_vec()
}

/// The answer for a route that is refused; `None` for a file route.
pub fn rejection_response(route: &StaticRoute) -> (r: Option<StaticResponse>)
    ensures
        match route {
            StaticRoute::BadRequest => r matches Some(resp) && resp.status@ == "400 Bad Request"@
                && resp.content_type@ == "text/plain; charset=utf-8"@ && resp.body@
                == "Bad Request".spec_bytes(),
            StaticRoute::Forbidden => r matches Some(resp) && resp.status@ == "403 Forbidden"@
                && resp.content_type@ == "text/plain; charset=utf-8"@ && resp.body@
                == "Forbidden".spec_bytes(),
            StaticRoute::File(_) => r is None,
        },
{
    match route {
        StaticRoute::BadRequest => Some(
            StaticResponse {
                status: "400 Bad Request",
                content_type: "text/plain; charset=utf-8",
                body: text_bytes("Bad Request"),
            },
        ),
        StaticRoute::Forbidden => Some(
            StaticResponse {
                status: "403 Forbidden",
                content_type: "text/plain; charset=utf-8",
                body: text_bytes("Forbidden"),
            },
        ),
        StaticRoute::File(_) => None,
    }
}

/// The answer once the routed file was read: the file with the content type of
/// its extension, 404 when it does not exist, and `None` for another error.
pub fn file_response(file_path: &str, read: FileRead) -> (r: Option<StaticResponse>)
    ensures
        match read {
            FileRead::Found(bytes) => r matches Some(resp) && resp.status@ == "200 OK"@
                && resp.content_type@ == content_type_for(extension(file_path@)) && resp.body@
                == bytes@,
            FileRead::NotFound => r matches Some(resp) && resp.status@ == "404 Not Found"@
                && resp.content_type@ == "text/plain; charset=utf-8"@ && resp.body@
                == "Not Found".spec_bytes(),
            FileRead::Failed => r is None,
        },
{
    match read {
        FileRead::Found(bytes) => Some(
            StaticResponse { status: "200 OK", content_type: content_type(file_path), body: bytes },
        ),
        FileRead::NotFound => Some(
            StaticResponse {
                status: "404 Not Found",
                content_type: "text/plain; charset=utf-8",
                body: text_bytes("Not Found"),
            },
        ),
        FileRead::Failed => None,
    }
}

/// The head of every response: status line, content type and length, a public
/// cache lifetime of 60 seconds, and `connection: close`.
pub open spec fn response_head_of(status: Seq<char>, content_type: Seq<char>, body_len: nat) -> Seq<
    char,
> {
    "HTTP/1.1 "@ + status + "\r\ncontent-type: "@ + content_type + "\r\ncontent-length: "@
        + decimal(body_len) + "\r\ncache-control: public, max-age=60\r\nconnection: close\r\n\r\n"@
}

pub fn response_head(status: &str, content_type: &str, body_len: usize) -> (head: String)
    ensures
        head@ == response_head_of(status@, content_type@, body_len as nat),
{
    let mut head = String::from_str("HTTP/1.1 ");
    head.append(status);
    head.append("\r\ncontent-type: ");
    head.append(content_type);
    head.append("\r\ncontent-length: ");
    let len = decimal_string(body_len as u64);
    head.append(len.as_str());
    head.append("\r\ncache-control: public, max-age=60\r\nconnection: close\r\n\r\n");
    head
}

// ---------------------------------------------------------------------------
// WebSocket relay
// ---------------------------------------------------------------------------
/// A message that the browser sent over the WebSocket.
pub enum RelayMessage {
    Binary(Vec<u8>),
    Text(String),
    Close,
    Ping,
    Pong,
    Frame,
}

/// What the relay does with one browser message.
pub enum RelayStep {
    /// Write these bytes to the upstream TCP connection.
    Forward(Vec<u8>),
    /// The browser closed: stop relaying and shut the upstream write side.
    Stop,
    /// Control frames are not forwarded.
    Skip,
}

/// Binary messages go upstream as they are, text messages as their UTF-8 bytes;
/// a close ends the relay; pings, pongs and raw frames are dropped.
pub fn relay_step(message: RelayMessage) -> (r: RelayStep)
    ensures
        match message {
            RelayMessage::Binary(b) => r matches RelayStep::Forward(f) && f@ == b@,
            RelayMessage::Text(t) => r matches RelayStep::Forward(f) && f@ == encode_utf8(t@),
            RelayMessage::Close => r is Stop,
            _ => r is Skip,
        },
{
    match message {
        RelayMessage::Binary(bytes) => RelayStep::Forward(bytes),
        RelayMessage::Text(text) => RelayStep::Forward(text_bytes(text.as_str())),
        RelayMessage::Close => RelayStep::Stop,
        RelayMessage::Ping | RelayMessage::Pong | RelayMessage::Frame => RelayStep::Skip,
    }
}

// ---------------------------------------------------------------------------
// Play sessions and the gateway's own endpoints
// ---------------------------------------------------------------------------
/// A request head asks for a play session when its first line starts with
/// `"GET /play "` or `"GET /play?"` and one of its lines is the WebSocket upgrade
/// header.
pub open spec fn play_request(s: Seq<char>) -> bool {
    &&& (has_prefix(first_line(s), "GET /play "@) || has_prefix(first_line(s), "GET /play?"@))
    &&& has_upgrade_line(s)
}

/// The value of the first `name=` parameter of the query `l[start..end]`, whose
/// parameters are separated by `'&'`; taken as it stands in the query.
pub open spec fn param_from(l: Seq<char>, start: int, end: int) -> Option<Seq<char>>
    decreases end - start,
{
    if start < 0 || start > end || end > l.len() {
        None
    } else {
        let e = next_index_of(l.take(end), start, '&');
        proof {
            lemma_next_index_of(l.take(end), start, '&');
        }
        let seg = l.subrange(start, e);
        if has_prefix(seg, "name="@) {
            Some(seg.skip(5))
        } else if e < end {
            param_from(l, e + 1, end)
        } else {
            None
        }
    }
}

/// The `name` parameter of a play request's target (the second word of the first
/// line, from its fifth character), if its target has a query with one.
pub open spec fn play_name_param(s: Seq<char>) -> Option<Seq<char>> {
    let line = first_line(s);
    let end = word_end(line, 4);
    let q = next_index_of(line.take(end), 4, '?');
    if line.len() < 4 || q >= end {
        None
    } else {
        param_from(line, q + 1, end)
    }
}

/// The user name of a play session: the `name` parameter of the request, or
/// `guest` when it is missing or empty.
pub open spec fn play_name_of(s: Seq<char>) -> Seq<char> {
    match play_name_param(s) {
        Some(v) => if v.len() > 0 {
            v
        } else {
            "guest"@
        },
        None => "guest"@,
    }
}

fn line_starts_with(cs: &Vec<char>, e: usize, prefix: &Vec<char>) -> (r: bool)
    requires
        e <= cs.len(),
    ensures
        r == has_prefix(cs@.take(e as int), prefix@),
{
    if prefix.len() > e {
        return false;
    }
    assert(cs@.take(e as int).subrange(0, prefix@.len() as int) =~= cs@.subrange(
        0,
        prefix@.len() as int,
    ));
    range_eq(cs, 0, prefix.len(), prefix)
}

/// Whether the request head asks for a play session.
pub fn is_play_request(request_head: &str) -> (r: bool)
    ensures
        r == play_request(request_head@),
{
    let cs = chars_of(request_head);
    let first_end: usize = if cs.len() == 0 {
        0
    } else {
        line_end_at(&cs, 0)
    };
    proof {
        if cs.len() > 0 {
            lemma_line_end(cs@, 0);
        }
        assert(first_line(cs@) =~= cs@.take(first_end as int));
    }
    let plain = chars_of("GET /play ");
    let query = chars_of("GET /play?");
    if !line_starts_with(&cs, first_end, &plain) && !line_starts_with(&cs, first_end, &query) {
        return false;
    }
    upgrade_header_present(&cs)
}

proof fn lemma_param_from_prefix(l: Seq<char>, k: int, start: int, end: int)
    requires
        end <= k <= l.len(),
    ensures
        param_from(l.take(k), start, end) == param_from(l, start, end),
    decreases end - start,
{
    if 0 <= start <= end {
        assert(l.take(k).take(end) =~= l.take(end));
        let e = next_index_of(l.take(end), start, '&');
        lemma_next_index_of(l.take(end), start, '&');
        assert(l.take(k).subrange(start, e) =~= l.subrange(start, e));
        if e < end {
            lemma_param_from_prefix(l, k, e + 1, end);
        }
    }
}

fn copy_range(cs: &Vec<char>, a: usize, b: usize) -> (r: Vec<char>)
    requires
        a <= b <= cs.len(),
    ensures
        r@ == cs@.subrange(a as int, b as int),
{
    let mut out: Vec<char> = Vec::new();
    let mut i = a;
    while i < b
        invariant
            a <= i <= b <= cs.len(),
            out@ == cs@.subrange(a as int, i as int),
        decreases b - i,
    {
        out.push(cs[i]);
        assert(cs@.subrange(a as int, i + 1) =~= cs@.subrange(a as int, i as int).push(cs@[i as int]));
        i = i + 1;
    }
    out
}

fn param_value(cs: &Vec<char>, first: usize, end: usize) -> (r: Option<Vec<char>>)
    requires
        first <= end <= cs.len(),
    ensures
        match r {
            None => param_from(cs@, first as int, end as int) is None,
            Some(v) => param_from(cs@, first as int, end as int) == Some(v@),
        },
{
    let name = chars_of("name=");
    proof {
        reveal_strlit("name=");
    }
    let mut start = first;
    loop
        invariant
            start <= end <= cs.len(),
            name@ == "name="@,
            name@.len() == 5,
            param_from(cs@, first as int, end as int) == param_from(cs@, start as int, end as int),
        decreases end - start,
    {
        let e = find_next(cs, start, end, '&');
        let ghost seg = cs@.subrange(start as int, e as int);
        if e - start >= 5 {
            assert(seg.subrange(0, 5) =~= cs@.subrange(start as int, start + 5));
            if range_eq(cs, start, start + 5, &name) {
                let v = copy_range(cs, start + 5, e);
                assert(seg.skip(5) =~= v@);
                return Some(v);
            }
        }
        if e < end {
            start = e + 1;
        } else {
            return None;
        }
    }
}

/// The user name that a play request asks for.
pub fn play_user_name(request_head: &str) -> (r: String)
    ensures
        r@ == play_name_of(request_head@),
{
    let cs = chars_of(request_head);
    let ghost s = cs@;
    if cs.len() == 0 {
        return String::from_str("guest");
    }
    let e = line_end_at(&cs, 0);
    let ghost line = first_line(s);
    assert(line =~= s.take(e as int));
    if e < 4 {
        return String::from_str("guest");
    }
    let end = word_end_at(&cs, 4, e);
    let q = find_next(&cs, 4, end, '?');
    assert(line.take(end as int) =~= s.take(end as int));
    if q >= end {
        return String::from_str("guest");
    }
    proof {
        lemma_param_from_prefix(s, e as int, q + 1, end as int);
    }
    match param_value(&cs, q + 1, end) {
        Some(v) => {
            if v.len() > 0 {
                string_from_chars(v.as_slice())
            } else {
                String::from_str("guest")
            }
        },
        None => String::from_str("guest"),
    }
}

/// What a connection asks for, judged from its first bytes.
pub enum UpgradeRoute {
    /// The raw WebSocket relay on `/ws`.
    Relay,
    /// A play session for this user name.
    Play(String),
    /// A plain HTTP request.
    Http,
}

pub open spec fn upgrade_route_matches(r: UpgradeRoute, s: Seq<char>) -> bool {
    if websocket_request(s) {
        r is Relay
    } else if play_request(s) {
        r matches UpgradeRoute::Play(name) && name@ == play_name_of(s)
    } else {
        r is Http
    }
}

/// Routes a connection by its request head: the relay on `/ws`, a play session on
/// `/play`, plain HTTP otherwise.
pub fn upgrade_route(request_head: &str) -> (r: UpgradeRoute)
    ensures
        upgrade_route_matches(r, request_head@),
{
    if is_websocket_request(request_head) {
        UpgradeRoute::Relay
    } else if is_play_request(request_head) {
        UpgradeRoute::Play(play_user_name(request_head))
    } else {
        UpgradeRoute::Http
    }
}

/// Routes a connection by its first bytes, read as text with invalid UTF-8
/// replaced.
pub fn upgrade_route_bytes(peek: &[u8]) -> (r: UpgradeRoute)
    ensures
        upgrade_route_matches(r, utf8_lossy(peek@)),
{
    let head = decode_lossy(peek);
    upgrade_route(head.as_str())
}

/// What the gateway does with a plain HTTP request.
pub enum HttpRoute {
    /// `/api/health`: whether the native game server is reachable.
    Health,
    /// `/api/status`: reachability, players online and play sessions.
    Status,
    /// Any other path: the static server.
    Static(StaticRoute),
}

pub open spec fn http_route_matches(r: HttpRoute, s: Seq<char>, dir: Seq<char>) -> bool {
    if request_path_of(s) == Some("/api/health"@) {
        r is Health
    } else if request_path_of(s) == Some("/api/status"@) {
        r is Status
    } else {
        r matches HttpRoute::Static(sr) && static_route_matches(sr, s, dir)
    }
}

/// Routes a request head: the gateway answers `/api/health` and `/api/status`
/// itself and serves every other path from `static_dir`.
pub fn http_route(request: &str, static_dir: &str) -> (r: HttpRoute)
    ensures
        http_route_matches(r, request@, static_dir@),
{
    match request_path(request) {
        Some(path) => {
            if same_text(path, "/api/health") {
                return HttpRoute::Health;
            }
            if same_text(path, "/api/status") {
                return HttpRoute::Status;
            }
        },
        None => {},
    }
    HttpRoute::Static(static_route(request, static_dir))
}

/// Routes a request head as it was read, with invalid UTF-8 replaced.
pub fn http_route_bytes(request: &[u8], static_dir: &str) -> (r: HttpRoute)
    ensures
        http_route_matches(r, utf8_lossy(request@), static_dir@),
{
    let text = decode_lossy(request);
    http_route(text.as_str(), static_dir)
}

/// `/api/health`: healthy (200, `ok`) only when the native game server is
/// reachable, 503 (`unreachable`) otherwise.
pub fn health_response(reachable: bool) -> (r: StaticResponse)
    ensures
        r.content_type@ == "text/plain; charset=utf-8"@,
        reachable ==> r.status@ == "200 OK"@ && r.body@ == "ok".spec_bytes(),
        !reachable ==> r.status@ == "503 Service Unavailable"@ && r.body@
            == "unreachable".spec_bytes(),
{
    if reachable {
        StaticResponse {
            status: "200 OK",
            content_type: "text/plain; charset=utf-8",
            body: text_bytes("ok"),
        }
    } else {
        StaticResponse {
            status: "503 Service Unavailable",
            content_type: "text/plain; charset=utf-8",
            body: text_bytes("unreachable"),
        }
    }
}

/// The JSON document of `/api/status`:
/// `{"reachable":<bool>,"players_online":<n or null>,"active_sessions":<n>,"session_limit":<n>}`.
pub open spec fn status_json_of(
    reachable: bool,
    players_online: Option<usize>,
    active_sessions: usize,
    session_limit: usize,
) -> Seq<char> {
    "{\"reachable\":"@ + (if reachable {
        "true"@
    } else {
        "false"@
    }) + ",\"players_online\":"@ + (match players_online {
        Some(n) => decimal(n as nat),
        None => "null"@,
    }) + ",\"active_sessions\":"@ + decimal(active_sessions as nat) + ",\"session_limit\":"@
        + decimal(session_limit as nat) + "}"@
}

/// `/api/status`: whether the native server is reachable, how many players are
/// online (`null` when not known), and the active play sessions against their
/// limit.
pub fn status_response(
    reachable: bool,
    players_online: Option<usize>,
    active_sessions: usize,
    session_limit: usize,
) -> (r: StaticResponse)
    ensures
        r.status@ == "200 OK"@,
        r.content_type@ == "application/json; charset=utf-8"@,
        r.body@ == encode_utf8(
            status_json_of(reachable, players_online, active_sessions, session_limit),
        ),
{
    let mut text = String::from_str("{\"reachable\":");
    if reachable {
        text.append("true");
    } else {
        text.append("false");
    }
    text.append(",\"players_online\":");
    match players_online {
        Some(n) => {
            let digits = decimal_string(n as u64);
            text.append(digits.as_str());
        },
        None => text.append("null"),
    }
    text.append(",\"active_sessions\":");
    let active = decimal_string(active_sessions as u64);
    text.append(active.as_str());
    text.append(",\"session_limit\":");
    let limit = decimal_string(session_limit as u64);
    text.append(limit.as_str());
    text.append("}");
    StaticResponse {
        status: "200 OK",
        content_type: "application/json; charset=utf-8",
        body: text_bytes(text.as_str()),
    }
}

/// The server's default player cap, which is also the play-session limit when
/// neither is configured.
pub const DEFAULT_WEB_SESSION_LIMIT: usize = 100;

/// Whether a text is all decimal digits.
pub open spec fn all_digits(t: Seq<char>) -> bool {
    forall|i: int| 0 <= i < t.len() ==> 48 <= #[trigger] t[i] as u32 <= 57
}

/// The digits of an unsigned number in text: after an optional leading `'+'`.
pub open spec fn unsigned_digits(t: Seq<char>) -> Seq<char> {
    if t.len() > 0 && t[0] == '+' {
        t.drop_first()
    } else {
        t
    }
}

/// The `usize` that a text denotes, as `usize::from_str` reads it: an optional
/// `'+'` and at least one digit, with a value that fits.
pub open spec fn unsigned_value_of(t: Seq<char>) -> Option<usize> {
    let d = unsigned_digits(t);
    if d.len() > 0 && all_digits(d) && digits_value(d) <= usize::MAX {
        Some(digits_value(d) as usize)
    } else {
        None
    }
}

/// The number that an optional setting holds, if it is set to a number.
pub open spec fn setting_value_of(setting: Option<Seq<char>>) -> Option<usize> {
    match setting {
        Some(t) => unsigned_value_of(t),
        None => None,
    }
}

/// The active play-session limit: the configured session limit (from
/// `VOXWORLD_WEB_MAX_SESSIONS`) when it is a number; else the server's player cap
/// (from `VOXWORLD_MAX_PLAYERS`) when that is a number; else the default player
/// cap of 100.
pub open spec fn session_limit_of(configured: Option<Seq<char>>, player_cap: Option<Seq<char>>) -> usize {
    match setting_value_of(configured) {
        Some(v) => v,
        None => match setting_value_of(player_cap) {
            Some(v) => v,
            None => DEFAULT_WEB_SESSION_LIMIT,
        },
    }
}

proof fn lemma_digits_value_grows(d: Seq<char>, k: int)
    requires
        all_digits(d),
        0 <= k <= d.len(),
    ensures
        0 <= digits_value(d.take(k)) <= digits_value(d),
    decreases d.len(),
{
    if d.len() > 0 {
        let rest = d.drop_last();
        assert(all_digits(rest)) by {
            assert forall|i: int| 0 <= i < rest.len() implies 48 <= #[trigger] rest[i] as u32 <= 57 by {
                assert(rest[i] == d[i]);
            }
        }
        let last = d.last();
        assert(48 <= last as u32 <= 57);
        assert(last as u32 - 48 >= 0);
        if k == d.len() {
            assert(d.take(k) =~= d);
            lemma_digits_value_grows(rest, rest.len() as int);
            assert(rest.take(rest.len() as int) =~= rest);
        } else {
            assert(rest.take(k) =~= d.take(k));
            lemma_digits_value_grows(rest, k);
            lemma_digits_value_grows(rest, rest.len() as int);
            assert(rest.take(rest.len() as int) =~= rest);
        }
    } else {
        assert(d.take(k) =~= d);
    }
}

/// Reads an unsigned number as `usize::from_str` does.
fn parse_unsigned(t: &str) -> (r: Option<usize>)
    ensures
        r == unsigned_value_of(t@),
{
    let cs = chars_of(t);
    let start: usize = if cs.len() > 0 && cs[0] == '+' {
        1
    } else {
        0
    };
    let ghost d = unsigned_digits(cs@);
    assert(d =~= cs@.subrange(start as int, cs.len() as int));
    if start == cs.len() {
        return None;
    }
    let mut v: usize = 0;
    let mut i = start;
    while i < cs.len()
        invariant
            start <= i <= cs.len(),
            d == cs@.subrange(start as int, cs.len() as int),
            d == unsigned_digits(t@),
            all_digits(d.take(i - start)),
            v as int == digits_value(d.take(i - start)),
        decreases cs.len() - i,
    {
        let c = cs[i];
        let u = c as u32;
        assert(d[i - start] == c);
        if u < 48 || u > 57 {
            assert(!all_digits(d));
            return None;
        }
        let next: u128 = (v as u128) * 10 + ((u - 48) as u128);
        assert(d.take(i + 1 - start).drop_last() =~= d.take(i - start));
        assert(d.take(i + 1 - start).last() == c);
        assert(all_digits(d.take(i + 1 - start))) by {
            assert forall|j: int| 0 <= j < d.take(i + 1 - start).len() implies 48 <= #[trigger] d.take(
                i + 1 - start,
            )[j] as u32 <= 57 by {
                if j < i - start {
                    assert(d.take(i + 1 - start)[j] == d.take(i - start)[j]);
                }
            }
        }
        if next > usize::MAX as u128 {
            proof {
                if all_digits(d) {
                    lemma_digits_value_grows(d, i + 1 - start);
                }
            }
            return None;
        }
        v = next as usize;
        i = i + 1;
    }
    assert(d.take(cs.len() - start) =~= d);
    Some(v)
}

fn setting_value(setting: Option<&str>) -> (r: Option<usize>)
    ensures
        r == setting_value_of(
            match setting {
                Some(t) => Some(t@),
                None => None,
            },
        ),
{
    match setting {
        Some(t) => parse_unsigned(t),
        None => None,
    }
}

/// The active play-session limit from the session-limit and player-cap settings,
/// as far as they are set.
pub fn web_session_limit(configured: Option<&str>, player_cap: Option<&str>) -> (r: usize)
    ensures
        r == session_limit_of(
            match configured {
                Some(t) => Some(t@),
                None => None,
            },
            match player_cap {
                Some(t) => Some(t@),
                None => None,
            },
        ),
{
    match setting_value(configured) {
        Some(v) => v,
        None => match setting_value(player_cap) {
            Some(v) => v,
            None => DEFAULT_WEB_SESSION_LIMIT,
        },
    }
}

/// A new play session is admitted only while fewer than `limit` are active.
pub fn admit_play_session(active_sessions: usize, limit: usize) -> (r: bool)
    ensures
        r == (active_sessions < limit),
{
    active_sessions < limit
}

/// The answer to a play request refused at the session limit.
pub fn play_refused_response() -> (r: StaticResponse)
    ensures
        r.status@ == "503 Service Unavailable"@,
        r.content_type@ == "text/plain; charset=utf-8"@,
        r.body@ == "web session limit reached".spec_bytes(),
{
    StaticResponse {
        status: "503 Service Unavailable",
        content_type: "text/plain; charset=utf-8",
        body: text_bytes("web session limit reached"),
    }
}

// ---------------------------------------------------------------------------
// Laws of the static server
// ---------------------------------------------------------------------------
proof fn lemma_strip_is_suffix(p: Seq<char>) -> (k: int)
    ensures
        0 <= k <= p.len(),
        strip_leading_slashes(p) == p.skip(k),
    decreases p.len(),
{
    if p.len() > 0 && p[0] == '/' {
        let k = lemma_strip_is_suffix(p.drop_first());
        assert(p.drop_first().skip(k) =~= p.skip(k + 1));
        k + 1
    } else {
        assert(p.skip(0) =~= p);
        0
    }
}

/// A file that the static server maps a request path to lies under the static
/// directory: its path starts with the directory, and what follows holds neither
/// `".."` nor a backslash.
pub proof fn law_static_path_stays_in_dir(dir: Seq<char>, request_path: Seq<char>)
    ensures
        static_file_path_of(dir, request_path) matches Some(f) ==> {
            &&& has_prefix(f, dir)
            &&& !has_dot_dot(f.skip(dir.len() as int))
            &&& !f.skip(dir.len() as int).contains('\\')
        },
{
    if let Some(f) = static_file_path_of(dir, request_path) {
        reveal_strlit("index.html");
        reveal_strlit("/");
        let k = lemma_strip_is_suffix(request_path);
        let stripped = strip_leading_slashes(request_path);
        let rel = if stripped.len() == 0 {
            "index.html"@
        } else {
            stripped
        };
        assert(!has_dot_dot(rel)) by {
            if stripped.len() > 0 && has_dot_dot(rel) {
                let i = choose|i: int|
                    0 <= i && i + 1 < rel.len() && #[trigger] rel[i] == '.' && rel[i + 1] == '.';
                assert(request_path[k + i] == '.');
                assert(request_path[k + i + 1] == '.');
            }
        }
        assert(!rel.contains('\\')) by {
            if stripped.len() > 0 && rel.contains('\\') {
                let i = choose|i: int| 0 <= i < rel.len() && rel[i] == '\\';
                assert(request_path[k + i] == '\\');
            }
        }
        let tail = f.skip(dir.len() as int);
        assert(f.subrange(0, dir.len() as int) =~= dir);
        if dir.len() == 0 || dir.last() == '/' {
            assert(tail =~= rel);
        } else {
            assert(tail =~= "/"@ + rel);
            assert(!has_dot_dot(tail)) by {
                if has_dot_dot(tail) {
                    let i = choose|i: int|
                        0 <= i && i + 1 < tail.len() && #[trigger] tail[i] == '.' && tail[i + 1] == '.';
                    if i > 0 {
                        assert(rel[i - 1] == '.' && rel[i] == '.');
                    }
                }
            }
            assert(!tail.contains('\\')) by {
                if tail.contains('\\') {
                    let i = choose|i: int| 0 <= i < tail.len() && tail[i] == '\\';
                    if i > 0 {
                        assert(rel[i - 1] == '\\');
                    }
                }
            }
        }
    }
}

/// A request that asks for the WebSocket relay is a `GET` for the path `/ws`.
pub proof fn law_websocket_request_is_get_ws(s: Seq<char>)
    requires
        websocket_request(s),
    ensures
        request_path_of(s) == Some("/ws"@),
{
    reveal_strlit("GET /ws ");
    reveal_strlit("GET");
    reveal_strlit("/ws");
    let p = "GET /ws "@;
    let line = first_line(s);
    assert(line.subrange(0, 8) == p);
    assert(s.len() > 0);
    assert forall|i: int| 0 <= i < 8 implies line[i] == #[trigger] p[i] by {
        assert(line.subrange(0, 8)[i] == line[i]);
    }
    assert(p[0] == 'G' && p[1] == 'E' && p[2] == 'T' && p[3] == ' ');
    assert(p[4] == '/' && p[5] == 'w' && p[6] == 's' && p[7] == ' ');
    assert(line[0] == 'G' && line[1] == 'E' && line[2] == 'T' && line[3] == ' ');
    assert(line[4] == '/' && line[5] == 'w' && line[6] == 's' && line[7] == ' ');
    assert(!is_unicode_whitespace(line[0]));
    assert(skip_spaces(line, 0) == 0);
    assert(is_unicode_whitespace(line[3]));
    assert(word_end(line, 3) == 3);
    assert(word_end(line, 2) == 3);
    assert(word_end(line, 1) == 3);
    assert(word_end(line, 0) == 3);
    assert(skip_spaces(line, 4) == 4);
    assert(skip_spaces(line, 3) == 4);
    assert(word_end(line, 7) == 7);
    assert(word_end(line, 6) == 7);
    assert(word_end(line, 5) == 7);
    assert(word_end(line, 4) == 7);
    assert(line.subrange(0, 3) =~= "GET"@);
    let t = line.take(7);
    assert(next_index_of(t, 7, '?') == 7);
    assert(next_index_of(t, 6, '?') == 7);
    assert(next_index_of(t, 5, '?') == 7);
    assert(next_index_of(t, 4, '?') == 7);
    assert(line.subrange(4, 7) =~= "/ws"@);
}

/// A `/play` upgrade is never taken for the raw relay, so it always starts a play
/// session (`upgrade_route` answers `Play` for it).
pub proof fn law_play_request_starts_session(s: Seq<char>)
    requires
        play_request(s),
    ensures
        !websocket_request(s),
{
    reveal_strlit("GET /ws ");
    reveal_strlit("GET /play ");
    reveal_strlit("GET /play?");
    let line = first_line(s);
    if websocket_request(s) {
        assert(line.subrange(0, 8)[5] == "GET /ws "@[5]);
        assert(line.subrange(0, 10)[5] == line[5]);
        assert(line.subrange(0, 8)[5] == line[5]);
        if has_prefix(line, "GET /play "@) {
            assert(line.subrange(0, 10)[5] == "GET /play "@[5]);
        } else {
            assert(line.subrange(0, 10)[5] == "GET /play?"@[5]);
        }
    }
}

/// The content type of each extension the browser client uses: stylesheets,
/// pages and scripts as UTF-8 text, WebAssembly, PNG and SVG images and JSON;
/// any other extension, or none, is sent as raw bytes.
pub proof fn law_content_types(ext: Option<Seq<char>>)
    ensures
        ext == Some("css"@) ==> content_type_for(ext) == "text/css; charset=utf-8"@,
        ext == Some("html"@) ==> content_type_for(ext) == "text/html; charset=utf-8"@,
        ext == Some("js"@) ==> content_type_for(ext) == "text/javascript; charset=utf-8"@,
        ext == Some("wasm"@) ==> content_type_for(ext) == "application/wasm"@,
        ext == Some("png"@) ==> content_type_for(ext) == "image/png"@,
        ext == Some("svg"@) ==> content_type_for(ext) == "image/svg+xml"@,
        ext == Some("json"@) ==> content_type_for(ext) == "application/json; charset=utf-8"@,
        !(ext == Some("css"@) || ext == Some("html"@) || ext == Some("js"@) || ext == Some(
            "wasm"@,
        ) || ext == Some("png"@) || ext == Some("svg"@) || ext == Some("json"@)) ==> content_type_for(
            ext,
        ) == "application/octet-stream"@,
{
    reveal_strlit("css");
    assert("css"@.len() == 3 && "css"@[0] == 'c');
    reveal_strlit("html");
    assert("html"@.len() == 4 && "html"@[0] == 'h');
    reveal_strlit("js");
    assert("js"@.len() == 2 && "js"@[0] == 'j');
    reveal_strlit("wasm");
    assert("wasm"@.len() == 4 && "wasm"@[0] == 'w');
    reveal_strlit("png");
    assert("png"@.len() == 3 && "png"@[0] == 'p');
    reveal_strlit("svg");
    assert("svg"@.len() == 3 && "svg"@[0] == 's');
    reveal_strlit("json");
    assert("json"@.len() == 4 && "json"@[0] == 'j');
}

} // verus!
