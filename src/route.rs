//! Dispatch of requests under `/v2/`, and the decisions of the manifest read
//! and write paths.

use vstd::prelude::*;
use crate::json::{json_quoted, push_str};
use crate::oci::{envelope_json, error_entry_json, Response};
use crate::policy::{admission, admitted, reason_text, AdmitError};
use crate::snyk::organization_projects_post;
use crate::snyk::organization_projects_post::first_project;
use crate::snyk::organization_integration_import_post;
use crate::snyk::ApiError;

verus! {

#[verifier::external_type_specification]
#[verifier::external_body]
pub struct ExRegexError(regex::Error);

/// The two named groups that `pattern` captures in `haystack`, when it
/// matches and both groups take part in the match.
pub uninterp spec fn regex_named_pair(
    pattern: Seq<char>,
    haystack: Seq<char>,
    first: Seq<char>,
    second: Seq<char>,
) -> Option<(Seq<char>, Seq<char>)>;

/// The views of an optional pair of strings.
pub open spec fn pair_view(p: Option<(String, String)>) -> Option<(Seq<char>, Seq<char>)> {
    match p {
        Some((a, b)) => Some((a@, b@)),
        None => None,
    }
}

/// Whether `w` occurs in `h` at index `i`.
pub open spec fn occurs_at(h: Seq<char>, w: Seq<char>, i: int) -> bool {
    0 <= i && i + w.len() <= h.len() && h.subrange(i, i + w.len()) == w
}

/// Whether a manifest match can start at `i` and put its `/manifests/` at `j`.
pub open spec fn manifest_match_at(h: Seq<char>, i: int, j: int) -> bool {
    occurs_at(h, "/v2/"@, i) && i + 4 <= j && occurs_at(h, "/manifests/"@, j)
}

/// What the manifest pattern captures in a line `h` (no newline in it): the
/// leftmost match, its `name` reaching to the last `/manifests/`, its
/// `reference` the rest of `h`; nothing where no `/v2/` is followed by a
/// `/manifests/`.
pub open spec fn manifest_captures(h: Seq<char>, c: Option<(Seq<char>, Seq<char>)>) -> bool {
    match c {
        None => forall|i: int, j: int| !#[trigger] manifest_match_at(h, i, j),
        Some((n, rf)) => exists|i: int, j: int|
            #![trigger manifest_match_at(h, i, j)]
            {
                &&& manifest_match_at(h, i, j)
                &&& forall|i2: int, j2: int| i2 < i ==> !#[trigger] manifest_match_at(h, i2, j2)
                &&& forall|j2: int| j2 > j ==> !#[trigger] occurs_at(h, "/manifests/"@, j2)
                &&& n == h.subrange(i + 4, j)
                &&& rf == h.subrange(j + 11, h.len() as int)
            },
    }
}

/// Relies on `regex::Regex::new`, `Regex::captures` and `Captures::name`: the
/// groups named `first` and `second` of the leftmost-first match of `pattern`
/// in `haystack`, which depend on these four strings alone. `Regex::new` fails
/// only on a pattern that is invalid or over the size limit, which the
/// manifest pattern is not. On a haystack without newline, where `.` matches
/// every character, the manifest pattern captures as `manifest_captures` says
/// (leftmost match, greedy groups).
#[verifier::external_body]
fn captures_pair(pattern: &str, haystack: &str, first: &str, second: &str) -> (r: Result<
    Option<(String, String)>,
    regex::Error,
>)
    ensures
        r matches Ok(p) ==> pair_view(p) == regex_named_pair(pattern@, haystack@, first@, second@),
        pattern@ == manifest_pattern() ==> r is Ok,
        r matches Ok(p) ==> (pattern@ == manifest_pattern() && first@ == "name"@ && second@ == "reference"@
            && !haystack@.contains('\n') ==> manifest_captures(haystack@, pair_view(p))),
{
    let re = regex::Regex::new(pattern)?;
    let caps = match re.captures(haystack) {
        Some(c) => c,
        None => return Ok(None),
    };
    match (caps.name(first), caps.name(second)) {
        (Some(a), Some(b)) => Ok(Some((a.as_str().to_string(), b.as_str().to_string()))),
        _ => Ok(None),
    }
}

/// Relies on `str::split_once` with a `char` delimiter: the parts before and
/// after the first occurrence of `delimiter`, or `None` where it does not occur.
#[verifier::external_body]
fn split_once_char<'a>(s: &'a str, delimiter: char) -> (r: Option<(&'a str, &'a str)>)
    ensures
        r matches Some(p) ==> s@ == p.0@ + seq![delimiter] + p.1@ && !p.0@.contains(delimiter),
        r is None ==> !s@.contains(delimiter),
{
    s.split_once(delimiter)
}

/// The path of a request target: everything before the first `?`.
pub open spec fn path_part(u: Seq<char>) -> Seq<char>
    decreases u.len(),
{
    if u.len() == 0 {
        u
    } else if u[0] == '?' {
        Seq::empty()
    } else {
        seq![u[0]] + path_part(u.drop_first())
    }
}

/// A target made of a path without `?` and a rest that is empty or starts
/// with `?` has that path.
proof fn lemma_path_part(a: Seq<char>, rest: Seq<char>)
    requires
        !a.contains('?'),
        rest.len() == 0 || rest[0] == '?',
    ensures
        path_part(a + rest) == a,
    decreases a.len(),
{
    if a.len() == 0 {
        assert(a + rest =~= rest);
    } else {
        let tail = a.drop_first();
        assert forall|i: int| 0 <= i < tail.len() implies tail[i] != '?' by {
            assert(tail[i] == a[i + 1]);
        }
        assert(a[0] != '?') by {
            assert(a[0] == a[0]);
        }
        lemma_path_part(tail, rest);
        assert((a + rest).drop_first() =~= tail + rest);
        assert(seq![a[0]] + tail =~= a);
    }
}

/// Cuts the query off a request target.
fn request_path(uri: &str) -> (r: &str)
    ensures
        r@ == path_part(uri@),
{
    match split_once_char(uri, '?') {
        Some((path, query)) => {
            proof {
                lemma_path_part(path@, seq!['?'] + query@);
                assert(path@ + (seq!['?'] + query@) =~= uri@);
            }
            path
        },
        None => {
            proof {
                lemma_path_part(uri@, Seq::empty());
                assert(uri@ + Seq::<char>::empty() =~= uri@);
            }
            uri
        },
    }
}

/// The manifest path pattern: `name` greedy (it may hold `/`), `reference`
/// the rest of the path.
pub open spec fn manifest_pattern() -> Seq<char> {
    "/v2/(?P<name>.*)/manifests/(?P<reference>.*)"@
}

/// The image an inbound manifest request is about.
#[derive(Debug, PartialEq, Eq)]
pub struct ImageCoordinate {
    pub name: String,
    pub reference: String,
}

impl ImageCoordinate {
    /// `<name>:<reference>`, the form the vulnerability service knows.
    pub fn qualified(&self) -> (r: String)
        ensures
            r@ == self.name@ + ":"@ + self.reference@,
    {
        let mut s = self.name.clone();
        push_str(&mut s, ":");
        push_str(&mut s, self.reference.as_str());
        s
    }
}

/// Where a request under `/v2/` goes.
#[derive(Debug, PartialEq, Eq)]
pub enum Route {
    /// GET or HEAD of a manifest: admission-checked, then proxied.
    ManifestRead(ImageCoordinate),
    /// PUT of a manifest: proxied, then a rescan is triggered.
    ManifestWrite(ImageCoordinate),
    /// Anything else: proxied unchecked.
    PassThrough,
}

/// A fault that the caller sees as `500 Internal Server Error`.
#[derive(Clone, Copy, Debug, PartialEq, Eq, Structural)]
pub enum Fault {
    /// The upstream registry could not be reached.
    Proxy,
    /// The vulnerability service failed.
    Api(ApiError),
}

/// Status of every fault.
pub const INTERNAL_SERVER_ERROR: u16 = 500;

/// Status of a policy refusal.
pub const FORBIDDEN: u16 = 403;

/// Status of the health probes.
pub const OK: u16 = 200;

impl Fault {
    /// The status the caller sees.
    pub fn status(&self) -> (r: u16)
        ensures
            r == 500,
    {
        INTERNAL_SERVER_ERROR
    }
}

/// Whether a method reads a manifest.
pub open spec fn is_read_method(m: Seq<char>) -> bool {
    m == "GET"@ || m == "HEAD"@
}

/// Whether a method writes a manifest.
pub open spec fn is_write_method(m: Seq<char>) -> bool {
    m == "PUT"@
}

/// Whether `r` is the route of a request with method `method` whose path
/// captured `captures` (name, reference).
pub open spec fn routes_to(r: Route, method: Seq<char>, captures: Option<(Seq<char>, Seq<char>)>) -> bool {
    match captures {
        Some((n, rf)) if is_read_method(method) => r matches Route::ManifestRead(c) && c.name@ == n
            && c.reference@ == rf,
        Some((n, rf)) if is_write_method(method) => r matches Route::ManifestWrite(c) && c.name@ == n
            && c.reference@ == rf,
        _ => r is PassThrough,
    }
}

/// Routes a request from its method and the (name, reference) its path captured.
pub fn dispatch(method: &str, captures: Option<(String, String)>) -> (r: Route)
    ensures
        routes_to(r, method@, pair_view(captures)),
{
    let m = String::from_str(method);
    match captures {
        Some((name, reference)) => {
            if m == String::from_str("GET") || m == String::from_str("HEAD") {
                Route::ManifestRead(ImageCoordinate { name, reference })
            } else if m == String::from_str("PUT") {
                Route::ManifestWrite(ImageCoordinate { name, reference })
            } else {
                Route::PassThrough
            }
        },
        None => Route::PassThrough,
    }
}

/// Routes a request under `/v2/` from its method and its target: the
/// manifest pattern is matched against the path, the query left out.
pub fn v2_routes(method: &str, uri: &str) -> (r: Route)
    ensures
        routes_to(r, method@, regex_named_pair(manifest_pattern(), path_part(uri@), "name"@, "reference"@)),
        !path_part(uri@).contains('\n') ==> manifest_captures(
            path_part(uri@),
            regex_named_pair(manifest_pattern(), path_part(uri@), "name"@, "reference"@),
        ),
{
    let pattern = "/v2/(?P<name>.*)/manifests/(?P<reference>.*)";
    let path = request_path(uri);
    match captures_pair(pattern, path, "name", "reference") {
        Ok(c) => dispatch(method, c),
        Err(_) => Route::PassThrough,
    }
}

/// What the manifest read path does once the project search answered.
#[derive(Debug, PartialEq, Eq)]
pub enum ReadDecision {
    /// Admitted: forward the request upstream.
    Forward,
    /// Refused: answer with this status and JSON body.
    Refuse { status: u16, body: String },
}

/// The body of a refusal, from the quoted code and message.
pub open spec fn refusal_json(code_json: Seq<char>, message_json: Seq<char>) -> Seq<char> {
    envelope_json(seq![error_entry_json(code_json, message_json)])
}

/// The JSON envelope of a refusal.
pub fn refusal_body(reason: &AdmitError) -> (r: String)
    ensures
        r@ == refusal_json(json_quoted("DENIED"@), json_quoted(reason_text(*reason))),
{
    let envelope = Response::denied(reason);
    let b = envelope.to_json();
    assert(crate::oci::entries_json(envelope.errors@) =~= seq![
        error_entry_json(json_quoted("DENIED"@), json_quoted(reason_text(*reason))),
    ]);
    b
}

/// The manifest read decision for a search answer: forward when the first
/// project found is admitted, else refuse with `403` and the envelope whose
/// one entry has code `DENIED` and the refusal's text.
pub fn read_decision(search: &organization_projects_post::Response) -> (r: ReadDecision)
    ensures
        admission(first_project(search)) is Ok ==> r == ReadDecision::Forward,
        admission(first_project(search)) matches Err(e) ==> (r matches ReadDecision::Refuse { status, body }
            && status == 403 && body@ == refusal_json(json_quoted("DENIED"@), json_quoted(reason_text(e)))),
{
    match admitted(search.first()) {
        Ok(()) => ReadDecision::Forward,
        Err(reason) => ReadDecision::Refuse { status: FORBIDDEN, body: refusal_body(&reason) },
    }
}

/// The answer of the manifest write path: the rescan's failure when it
/// failed, else the proxied answer. A failed rescan masks the upstream's
/// answer so that a client never takes an image as pushed and scanned when
/// it was not scanned.
pub fn write_outcome<T>(
    proxied: Result<T, Fault>,
    rescan: Result<organization_integration_import_post::Response, ApiError>,
) -> (r: Result<T, Fault>)
    ensures
        rescan matches Err(e) ==> r == Err::<T, Fault>(Fault::Api(e)),
        rescan is Ok ==> r == proxied,
{
    match rescan {
        Err(e) => Err(Fault::Api(e)),
        Ok(_) => proxied,
    }
}

/// Liveness probe: always `200`.
pub fn health_liveness_get() -> (r: u16)
    ensures
        r == 200,
{
    OK
}

/// Readiness probe: always `200`.
pub fn health_readiness_get() -> (r: u16)
    ensures
        r == 200,
{
    OK
}

} // verus!
