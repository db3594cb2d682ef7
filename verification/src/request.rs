//! The request descriptor and what is derived from it before it is sent: the
//! absolute URL, the method and the header map.

use vstd::prelude::*;
use reqwest::header::{HeaderMap, HeaderName, HeaderValue};
use crate::error::ExecError;
use crate::mapping::{opt_view, Scenario};
use crate::strmap::StringMap;
use crate::text::{
    chars_of, find_from, has_at, push_chars, push_text, spec_ascii_lower, spec_find_from,
    spec_starts_with, spec_trim, spec_trim_end_matches, text_eq, trim_end_len, trimmed,
    unicode_upper, views,
};

verus! {

/// A concrete request: every template is resolved.
#[derive(Debug, Clone)]
pub struct RawRequestSpec {
    pub base_url: Option<String>,
    pub method: String,
    pub endpoint: String,
    /// Header lines of the form `Key: Value`.
    pub headers: Vec<String>,
    pub body: Option<String>,
    pub multipart: bool,
    /// Paths of the files to upload, by form field.
    pub file_fields: StringMap,
    /// Column hints for rendering list responses.
    pub table_view: Option<Vec<String>>,
}

/// What is to be executed: one request, a scenario, or a custom handler.
#[derive(Debug, Clone)]
pub enum RequestSpec {
    Simple(RawRequestSpec),
    Scenario(ScenarioSpec),
    CustomHandler { handler_name: String, vars: StringMap },
}

/// A scenario with the bindings it starts from.
#[derive(Debug, Clone)]
pub struct ScenarioSpec {
    pub base_url: Option<String>,
    pub scenario: Scenario,
    pub vars: StringMap,
}

/// The seven HTTP methods that can be sent.
#[derive(Debug, Clone, Copy, PartialEq, Eq, Structural)]
pub enum HttpMethod {
    Get,
    Post,
    Put,
    Patch,
    Delete,
    Head,
    Options,
}

/// Whether an endpoint is an absolute URL.
pub open spec fn spec_is_absolute(endpoint: Seq<char>) -> bool {
    spec_starts_with(endpoint, "http://"@) || spec_starts_with(endpoint, "https://"@)
}

/// The URL of `endpoint` under `base`. An absolute endpoint is the URL.
/// Without a base a relative endpoint has no URL. Otherwise the URL is the
/// base without its trailing `/`s, followed by the endpoint, with one `/`
/// put between them where the endpoint does not begin with one: the base
/// and the endpoint always meet at a `/`.
pub open spec fn spec_build_url(base: Option<Seq<char>>, endpoint: Seq<char>) -> Option<Seq<char>> {
    if spec_is_absolute(endpoint) {
        Some(endpoint)
    } else {
        match base {
            None => None,
            Some(b) => if endpoint.len() > 0 && endpoint[0] == '/' {
                Some(spec_trim_end_matches(b, '/') + endpoint)
            } else if b.len() > 0 && b.last() == '/' {
                Some(spec_trim_end_matches(b, '/') + seq!['/'] + endpoint)
            } else {
                Some(b + seq!['/'] + endpoint)
            },
        }
    }
}

/// Resolves `endpoint` to an absolute URL. Fails with `MissingBaseUrl` exactly
/// when the endpoint is relative and `base_url` is absent.
pub fn build_url(base_url: &Option<String>, endpoint: &str) -> (r: Result<String, ExecError>)
    ensures
        match spec_build_url(opt_view(*base_url), endpoint@) {
            Some(url) => r is Ok && r->Ok_0@ == url,
            None => r == Err::<String, ExecError>(ExecError::MissingBaseUrl),
        },
{
    let e = chars_of(endpoint);
    let http = chars_of("http://");
    let https = chars_of("https://");
    if has_at(&e, 0, &http) || has_at(&e, 0, &https) {
        return Ok(endpoint.to_owned());
    }
    match base_url {
        None => Err(ExecError::MissingBaseUrl),
        Some(b) => {
            let bv = chars_of(b.as_str());
            let base_ends_with_slash = bv.len() > 0 && bv[bv.len() - 1] == '/';
            let endpoint_begins_with_slash = e.len() > 0 && e[0] == '/';
            let mut out = String::new();
            if endpoint_begins_with_slash || base_ends_with_slash {
                let n = trim_end_len(&bv, bv.len(), '/');
                proof {
                    assert(bv@.take(bv.len() as int) == bv@);
                    assert(bv@.subrange(0, n as int) == bv@.take(n as int));
                }
                push_chars(&mut out, &bv, 0, n);
                if !endpoint_begins_with_slash {
                    out.push('/');
                }
                push_text(&mut out, endpoint);
                proof {
                    if endpoint_begins_with_slash {
                        assert(out@ =~= spec_trim_end_matches(b@, '/') + endpoint@);
                    } else {
                        assert(out@ =~= spec_trim_end_matches(b@, '/') + seq!['/'] + endpoint@);
                    }
                }
            } else {
                push_text(&mut out, b.as_str());
                out.push('/');
                push_text(&mut out, endpoint);
                proof {
                    assert(out@ =~= b@ + seq!['/'] + endpoint@);
                }
            }
            Ok(out)
        },
    }
}

/// The method that an upper-case name stands for.
pub open spec fn spec_method_named(name: Seq<char>) -> Option<HttpMethod> {
    if name == "GET"@ {
        Some(HttpMethod::Get)
    } else if name == "POST"@ {
        Some(HttpMethod::Post)
    } else if name == "PUT"@ {
        Some(HttpMethod::Put)
    } else if name == "PATCH"@ {
        Some(HttpMethod::Patch)
    } else if name == "DELETE"@ {
        Some(HttpMethod::Delete)
    } else if name == "HEAD"@ {
        Some(HttpMethod::Head)
    } else if name == "OPTIONS"@ {
        Some(HttpMethod::Options)
    } else {
        None
    }
}

/// The method that `name` stands for, letter for letter.
pub fn method_named(name: &str) -> (r: Option<HttpMethod>)
    ensures
        r == spec_method_named(name@),
{
    if text_eq(name, "GET") {
        Some(HttpMethod::Get)
    } else if text_eq(name, "POST") {
        Some(HttpMethod::Post)
    } else if text_eq(name, "PUT") {
        Some(HttpMethod::Put)
    } else if text_eq(name, "PATCH") {
        Some(HttpMethod::Patch)
    } else if text_eq(name, "DELETE") {
        Some(HttpMethod::Delete)
    } else if text_eq(name, "HEAD") {
        Some(HttpMethod::Head)
    } else if text_eq(name, "OPTIONS") {
        Some(HttpMethod::Options)
    } else {
        None
    }
}

impl HttpMethod {
    /// The name of the method, in upper case.
    pub fn name(&self) -> (s: &'static str)
        ensures
            spec_method_named(s@) == Some(*self),
    {
        proof {
            reveal_strlit("GET");
            reveal_strlit("POST");
            reveal_strlit("PUT");
            reveal_strlit("PATCH");
            reveal_strlit("DELETE");
            reveal_strlit("HEAD");
            reveal_strlit("OPTIONS");
            assert("POST"@[0] == 'P' && "GET"@[0] == 'G');
            assert("PUT"@.len() == 3 && "POST"@.len() == 4);
            assert("PATCH"@.len() == 5 && "DELETE"@.len() == 6);
            assert("HEAD"@[0] == 'H' && "OPTIONS"@.len() == 7);
        }
        match self {
            HttpMethod::Get => "GET",
            HttpMethod::Post => "POST",
            HttpMethod::Put => "PUT",
            HttpMethod::Patch => "PATCH",
            HttpMethod::Delete => "DELETE",
            HttpMethod::Head => "HEAD",
            HttpMethod::Options => "OPTIONS",
        }
    }
}

/// Reads a method without regard to case: the name is put in upper case and
/// must then be one of the seven. Otherwise the failure holds the upper-case
/// name.
pub fn parse_method(method: &str) -> (r: Result<HttpMethod, ExecError>)
    ensures
        match spec_method_named(unicode_upper(method@)) {
            Some(m) => r == Ok::<HttpMethod, ExecError>(m),
            None => r is Err && r->Err_0 is UnsupportedMethod && r->Err_0->UnsupportedMethod_0@
                == unicode_upper(method@),
        },
{
    let upper = method.to_uppercase();
    match method_named(upper.as_str()) {
        Some(m) => Ok(m),
        None => Err(ExecError::UnsupportedMethod(upper)),
    }
}

/// The header map of the transport, `reqwest::header::HeaderMap`. What it
/// holds is spoken of through `header_entries`.
#[verifier::external_type_specification]
#[verifier::external_body]
#[verifier::reject_recursive_types(T)]
pub struct ExHeaderMap<T>(reqwest::header::HeaderMap<T>);

/// The value of a header, `reqwest::header::HeaderValue`: what a header map
/// holds under its names.
#[verifier::external_type_specification]
#[verifier::external_body]
pub struct ExHeaderValue(reqwest::header::HeaderValue);

/// What a header map holds: for each header name in it, in lower case, the
/// text of the first value under that name.
pub uninterp spec fn header_entries(map: HeaderMap) -> Map<Seq<char>, Seq<char>>;

/// A character that a header name may hold: an ASCII letter or digit, or
/// one of ``!#$%&'*+-.^_`|~``.
pub open spec fn is_header_name_char(c: char) -> bool {
    ||| ('a' <= c && c <= 'z')
    ||| ('A' <= c && c <= 'Z')
    ||| ('0' <= c && c <= '9')
    ||| c == '!'
    ||| c == '#'
    ||| c == '$'
    ||| c == '%'
    ||| c == '&'
    ||| c == '\''
    ||| c == '*'
    ||| c == '+'
    ||| c == '-'
    ||| c == '.'
    ||| c == '^'
    ||| c == '_'
    ||| c == '`'
    ||| c == '|'
    ||| c == '~'
}

/// The form under which a header map files a name, as `HeaderName::from_bytes`
/// gives it: the name with its ASCII letters in lower case, where it holds
/// from 1 to 65535 characters that a header name may hold; `None` for every
/// other name.
pub open spec fn header_name_key(name: Seq<char>) -> Option<Seq<char>> {
    if 1 <= name.len() <= 65535 && (forall|i: int|
        0 <= i < name.len() ==> is_header_name_char(#[trigger] name[i])) {
        Some(Seq::new(name.len(), |i: int| spec_ascii_lower(name[i])))
    } else {
        None
    }
}

/// The number of names from which on a header map may refuse a further
/// header. The map refuses only where its table of slots would have to grow
/// beyond its limit of 32768 slots: that takes a table of more than 16384
/// slots, and names in more than a fifth of them.
pub const HEADER_MAP_ROOM: usize = 3277;

/// The texts that `HeaderValue::from_str` accepts: those whose every
/// character is the tab, or comes no earlier than the space and is not the
/// delete character.
pub open spec fn spec_header_value_ok(value: Seq<char>) -> bool {
    forall|i: int|
        0 <= i < value.len() ==> (#[trigger] value[i]) == '\t' || (' ' <= value[i] && value[i]
            != '\x7f')
}

/// What came of adding one header to a map.
pub enum HeaderInsert {
    /// The header is in the map.
    Done,
    /// The name is not a header name.
    BadName,
    /// The value is not a header value; holds the name in lower case.
    BadValue(String),
    /// The map took no further entry.
    Full,
}

/// `HeaderMap::new` makes a map without entries.
#[verifier::external_body]
fn header_map_new() -> (map: HeaderMap)
    ensures
        (header_entries(map) == Map::<Seq<char>, Seq<char>>::empty()),
{
    HeaderMap::new()
}

/// Makes a name with `HeaderName::from_bytes` and a value with
/// `HeaderValue::from_str`, and puts them in the map with
/// `HeaderMap::try_insert`. The map changes only when all three accept, and
/// then the value stands alone under the name. The map refuses a header
/// only where it holds `HEADER_MAP_ROOM` names or more.
#[verifier::external_body]
fn header_map_insert(map: &mut HeaderMap, name: &str, value: &str) -> (r: HeaderInsert)
    ensures
        match r {
            HeaderInsert::Done => header_name_key(name@) is Some && spec_header_value_ok(value@)
                && header_entries(*final(map)) == header_entries(*old(map)).insert(
                header_name_key(name@)->0,
                value@,
            ),
            HeaderInsert::BadName => header_name_key(name@) is None && header_entries(
                *final(map),
            ) == header_entries(*old(map)),
            HeaderInsert::BadValue(key) => header_name_key(name@) == Some(key@)
                && !spec_header_value_ok(value@) && header_entries(*final(map))
                == header_entries(*old(map)),
            HeaderInsert::Full => header_name_key(name@) is Some && spec_header_value_ok(value@)
                && header_entries(*final(map)) == header_entries(*old(map)) && header_entries(
                *old(map),
            ).dom().len() >= HEADER_MAP_ROOM,
        },
{
    let key = match HeaderName::from_bytes(name.as_bytes()) {
        Ok(key) => key,
        Err(_) => return HeaderInsert::BadName,
    };
    let val = match HeaderValue::from_str(value) {
        Ok(val) => val,
        Err(_) => return HeaderInsert::BadValue(key.as_str().to_string()),
    };
    match map.try_insert(key, val) {
        Ok(_) => HeaderInsert::Done,
        Err(_) => HeaderInsert::Full,
    }
}

/// `HeaderMap::remove` takes out every value under the name, where the map
/// holds the name.
#[verifier::external_body]
fn header_map_remove(map: &mut HeaderMap, name: &str)
    ensures
        header_name_key(name@) is Some ==> header_entries(*final(map)) == header_entries(
            *old(map),
        ).remove(header_name_key(name@)->0),
        header_name_key(name@) is None ==> header_entries(*final(map)) == header_entries(*old(map)),
{
    map.remove(name);
}

/// `HeaderMap::is_empty` tells whether the map holds no name.
#[verifier::external_body]
fn header_map_is_empty(map: &HeaderMap) -> (b: bool)
    ensures
        b == (header_entries(*map) == Map::<Seq<char>, Seq<char>>::empty()),
{
    map.is_empty()
}

/// What one header line says.
pub enum HeaderLine {
    /// A name, as the map files it, and a value.
    Entry(Seq<char>, Seq<char>),
    /// The line has no colon.
    NoColon,
    /// The name before the colon is not a header name.
    BadName(Seq<char>),
    /// The value after the colon is not a header value.
    BadValue(Seq<char>),
}

/// The name of a header line: what stands before the first colon, without
/// surrounding white space.
pub open spec fn spec_header_name(line: Seq<char>) -> Seq<char> {
    spec_trim(line.take(spec_find_from(line, ':', 0)))
}

/// The value of a header line: what stands after the first colon, without
/// surrounding white space.
pub open spec fn spec_header_value(line: Seq<char>) -> Seq<char> {
    spec_trim(line.skip(spec_find_from(line, ':', 0) + 1))
}

/// Reads one header line of the form `Key: Value`.
pub open spec fn spec_header_line(line: Seq<char>) -> HeaderLine {
    if spec_find_from(line, ':', 0) >= line.len() {
        HeaderLine::NoColon
    } else {
        match header_name_key(spec_header_name(line)) {
            None => HeaderLine::BadName(spec_header_name(line)),
            Some(key) => if spec_header_value_ok(spec_header_value(line)) {
                HeaderLine::Entry(key, spec_header_value(line))
            } else {
                HeaderLine::BadValue(key)
            },
        }
    }
}

/// The entries that the first `n` header lines leave in a map, each line
/// replacing what an earlier one put under the same name.
pub open spec fn spec_headers_upto(lines: Seq<Seq<char>>, n: int) -> Map<Seq<char>, Seq<char>>
    decreases n,
{
    if n <= 0 || n > lines.len() {
        Map::empty()
    } else {
        match spec_header_line(lines[n - 1]) {
            HeaderLine::Entry(key, value) => spec_headers_upto(lines, n - 1).insert(key, value),
            _ => spec_headers_upto(lines, n - 1),
        }
    }
}

/// Whether each of the first `n` lines is a well-formed header.
pub open spec fn spec_headers_ok_upto(lines: Seq<Seq<char>>, n: int) -> bool {
    forall|i: int| 0 <= i < n && i < lines.len() ==> (#[trigger] spec_header_line(lines[i])) is Entry
}

/// The failure that a malformed header line stands for.
pub open spec fn spec_line_failure(line: Seq<char>, e: ExecError) -> bool {
    match spec_header_line(line) {
        HeaderLine::Entry(_, _) => false,
        HeaderLine::NoColon => e is InvalidHeaderFormat && e->InvalidHeaderFormat_0@ == line,
        HeaderLine::BadName(name) => e is InvalidHeaderName && e->InvalidHeaderName_0@ == name,
        HeaderLine::BadValue(key) => e is InvalidHeaderValue && e->InvalidHeaderValue_0@ == key,
    }
}

/// What the attempt to add the header of one well-split line means for the
/// parse: `None` to go on, or the failure to stop with.
pub fn header_failure(outcome: HeaderInsert, name: String) -> (r: Option<ExecError>)
    ensures
        match outcome {
            HeaderInsert::Done => r is None,
            HeaderInsert::BadName => r is Some && r->0 is InvalidHeaderName
                && r->0->InvalidHeaderName_0@ == name@,
            HeaderInsert::BadValue(key) => r is Some && r->0 is InvalidHeaderValue
                && r->0->InvalidHeaderValue_0@ == key@,
            HeaderInsert::Full => r == Some(ExecError::TooManyHeaders),
        },
{
    match outcome {
        HeaderInsert::Done => None,
        HeaderInsert::BadName => Some(ExecError::InvalidHeaderName(name)),
        HeaderInsert::BadValue(key) => Some(ExecError::InvalidHeaderValue(key)),
        HeaderInsert::Full => Some(ExecError::TooManyHeaders),
    }
}

/// The entries of the first `n` header lines are finitely many, and no more
/// than `n`.
proof fn lemma_headers_upto_count(lines: Seq<Seq<char>>, n: int)
    requires
        0 <= n <= lines.len(),
    ensures
        spec_headers_upto(lines, n).dom().finite(),
        spec_headers_upto(lines, n).dom().len() <= n,
    decreases n,
{
    if n > 0 {
        lemma_headers_upto_count(lines, n - 1);
    }
}

/// Reads header lines of the form `Key: Value` into a header map. The lines
/// are read in order and the first malformed one ends the parse with its
/// failure. A later line replaces an earlier one of the same name. The parse
/// fails with `TooManyHeaders` only where the map itself refuses a
/// well-formed header, which it does not do to any of the first
/// `HEADER_MAP_ROOM` lines: a list of well-formed lines that is no longer
/// than that is read with success.
pub fn parse_headers(raw_headers: &Vec<String>) -> (r: Result<HeaderMap, ExecError>)
    ensures
        match r {
            Ok(map) => spec_headers_ok_upto(views(raw_headers@), raw_headers@.len() as int)
                && header_entries(map) == spec_headers_upto(
                views(raw_headers@),
                raw_headers@.len() as int,
            ),
            Err(e) => exists|i: int|
                0 <= i < raw_headers@.len() && spec_headers_ok_upto(views(raw_headers@), i) && (if e
                    == ExecError::TooManyHeaders {
                    spec_header_line(#[trigger] views(raw_headers@)[i]) is Entry && i
                        >= HEADER_MAP_ROOM
                } else {
                    spec_line_failure(views(raw_headers@)[i], e)
                }),
        },
        spec_headers_ok_upto(views(raw_headers@), raw_headers@.len() as int) && raw_headers@.len()
            <= HEADER_MAP_ROOM ==> r is Ok,
{
    let mut map = header_map_new();
    let mut i: usize = 0;
    let ghost lines = views(raw_headers@);
    while i < raw_headers.len()
        invariant
            i <= raw_headers.len(),
            lines == views(raw_headers@),
            spec_headers_ok_upto(lines, i as int),
            header_entries(map) == spec_headers_upto(lines, i as int),
        decreases raw_headers.len() - i,
    {
        proof {
            lemma_headers_upto_count(lines, i as int);
        }
        let line = chars_of(raw_headers[i].as_str());
        proof {
            assert(lines[i as int] == raw_headers@[i as int]@);
        }
        let colon = find_from(&line, ':', 0);
        if colon >= line.len() {
            proof {
                assert(spec_header_line(lines[i as int]) is NoColon);
            }
            return Err(ExecError::InvalidHeaderFormat(raw_headers[i].clone()));
        }
        let before = chars_sub(&line, 0, colon);
        let after = chars_sub(&line, colon + 1, line.len());
        let name = trimmed(&before);
        let value = trimmed(&after);
        proof {
            assert(before@ == line@.take(colon as int));
            assert(after@ == line@.skip(colon + 1));
            assert(name@ == spec_header_name(lines[i as int]));
            assert(value@ == spec_header_value(lines[i as int]));
        }
        let outcome = header_map_insert(&mut map, name.as_str(), value.as_str());
        match header_failure(outcome, name) {
            Some(e) => {
                return Err(e);
            },
            None => {},
        }
        i += 1;
    }
    Ok(map)
}

/// What a request carries as its body.
#[derive(Debug)]
pub enum RequestBody {
    /// Nothing.
    Empty,
    /// A text, sent as it is.
    Raw(String),
    /// A multipart form: the paths of the files to send, by form field.
    Multipart(StringMap),
}

/// A request that is ready for the transport.
#[derive(Debug)]
pub struct PreparedRequest {
    pub method: HttpMethod,
    pub url: String,
    pub headers: HeaderMap,
    pub body: RequestBody,
}

/// `entries` without the header `name`.
pub open spec fn spec_without_header(
    entries: Map<Seq<char>, Seq<char>>,
    name: Seq<char>,
) -> Map<Seq<char>, Seq<char>> {
    match header_name_key(name) {
        Some(key) => entries.remove(key),
        None => entries,
    }
}

/// The headers that a descriptor sends: those of its header lines, and for a
/// multipart request without the content type, which the transport sets.
pub open spec fn spec_sent_headers(spec: RawRequestSpec) -> Map<Seq<char>, Seq<char>> {
    let parsed = spec_headers_upto(views(spec.headers@), spec.headers@.len() as int);
    if spec.multipart {
        spec_without_header(spec_without_header(parsed, "content-type"@), "Content-Type"@)
    } else {
        parsed
    }
}

/// Whether `body` is the body that a descriptor sends: the files of a
/// multipart descriptor that names any, else its body text, else nothing.
pub open spec fn spec_is_body_of(body: RequestBody, spec: RawRequestSpec) -> bool {
    if spec.multipart && spec.file_fields.pairs().len() > 0 {
        body is Multipart && body->Multipart_0.pairs() == spec.file_fields.pairs()
    } else {
        match spec.body {
            Some(text) => body is Raw && body->Raw_0@ == text@,
            None => body is Empty,
        }
    }
}

/// Whether `e` is the failure of preparing `spec`: that of the URL, else that
/// of the method, else that of the headers.
pub open spec fn spec_is_prepare_failure(spec: RawRequestSpec, e: ExecError) -> bool {
    if spec_build_url(opt_view(spec.base_url), spec.endpoint@) is None {
        e == ExecError::MissingBaseUrl
    } else if spec_method_named(unicode_upper(spec.method@)) is None {
        e is UnsupportedMethod && e->UnsupportedMethod_0@ == unicode_upper(spec.method@)
    } else {
        exists|i: int|
            0 <= i < spec.headers@.len() && spec_headers_ok_upto(views(spec.headers@), i) && (if e
                == ExecError::TooManyHeaders {
                spec_header_line(#[trigger] views(spec.headers@)[i]) is Entry && i
                    >= HEADER_MAP_ROOM
            } else {
                spec_line_failure(views(spec.headers@)[i], e)
            })
    }
}

/// Whether `p` is the descriptor `spec` made ready: its URL resolved, its
/// method read, its header lines in a map, and its body chosen.
pub open spec fn spec_is_prepared(p: PreparedRequest, spec: RawRequestSpec) -> bool {
    &&& spec_build_url(opt_view(spec.base_url), spec.endpoint@) == Some(p.url@)
    &&& spec_method_named(unicode_upper(spec.method@)) == Some(p.method)
    &&& spec_headers_ok_upto(views(spec.headers@), spec.headers@.len() as int)
    &&& header_entries(p.headers) == spec_sent_headers(spec)
    &&& spec_is_body_of(p.body, spec)
}

/// Derives from a descriptor what the transport needs: the absolute URL, the
/// method, the header map and the body. The URL is resolved first, then the
/// method is read, then the headers; the first of them to fail gives the
/// failure.
pub fn prepare_request(spec: &RawRequestSpec) -> (r: Result<PreparedRequest, ExecError>)
    ensures
        match r {
            Ok(p) => spec_is_prepared(p, *spec),
            Err(e) => spec_is_prepare_failure(*spec, e),
        },
{
    let url = match build_url(&spec.base_url, spec.endpoint.as_str()) {
        Ok(url) => url,
        Err(e) => {
            return Err(e);
        },
    };
    let method = match parse_method(spec.method.as_str()) {
        Ok(method) => method,
        Err(e) => {
            return Err(e);
        },
    };
    let mut headers = match parse_headers(&spec.headers) {
        Ok(headers) => headers,
        Err(e) => {
            return Err(e);
        },
    };
    if spec.multipart {
        header_map_remove(&mut headers, "content-type");
        header_map_remove(&mut headers, "Content-Type");
    }
    let body = if spec.multipart && !spec.file_fields.is_empty() {
        RequestBody::Multipart(spec.file_fields.clone())
    } else {
        match &spec.body {
            Some(text) => RequestBody::Raw(text.clone()),
            None => RequestBody::Empty,
        }
    };
    Ok(PreparedRequest { method, url, headers, body })
}

/// Whether a map holds no header.
pub fn has_no_headers(headers: &HeaderMap) -> (b: bool)
    ensures
        b == (header_entries(*headers) == Map::<Seq<char>, Seq<char>>::empty()),
{
    header_map_is_empty(headers)
}

/// The characters `v[from..to]`.
fn chars_sub(v: &Vec<char>, from: usize, to: usize) -> (r: Vec<char>)
    requires
        from <= to <= v.len(),
    ensures
        r@ == v@.subrange(from as int, to as int),
{
    let mut r: Vec<char> = Vec::new();
    let mut i: usize = from;
    while i < to
        invariant
            from <= i <= to <= v.len(),
            r@ == v@.subrange(from as int, i as int),
        decreases to - i,
    {
        r.push(v[i]);
        i += 1;
        proof {
            assert(v@.subrange(from as int, i as int) == v@.subrange(from as int, i - 1).push(
                v@[i - 1],
            ));
        }
    }
    r
}

} // verus!
