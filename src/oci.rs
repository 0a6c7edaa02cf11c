//! OCI distribution wire shapes, and the reverse proxy's request and
//! response transforms.

use vstd::prelude::*;
use crate::json::{json_quoted, push_str, quote};
use crate::policy::{reason_text, AdmitError};
use vstd::utf8::encode_utf8;

verus! {

/// The OCI error envelope.
#[derive(Debug, PartialEq, Eq)]
pub struct Response {
    pub errors: Vec<ResponseError>,
}

/// One entry of the OCI error envelope.
#[derive(Debug, PartialEq, Eq)]
pub struct ResponseError {
    pub code: String,
    pub message: String,
    pub details: Option<()>,
}

/// JSON of one error entry, from its already quoted code and message.
pub open spec fn error_entry_json(code_json: Seq<char>, message_json: Seq<char>) -> Seq<char> {
    "{\"code\":"@ + code_json + ",\"message\":"@ + message_json + ",\"details\":null}"@
}

/// Entries joined by commas.
pub open spec fn joined(items: Seq<Seq<char>>) -> Seq<char>
    decreases items.len(),
{
    if items.len() == 0 {
        Seq::empty()
    } else if items.len() == 1 {
        items[0]
    } else {
        joined(items.drop_last()) + ","@ + items.last()
    }
}

/// JSON of the envelope, from the JSON of its entries.
pub open spec fn envelope_json(items: Seq<Seq<char>>) -> Seq<char> {
    "{\"errors\":["@ + joined(items) + "]}"@
}

/// The JSON of each entry of an error list.
pub open spec fn entries_json(errors: Seq<ResponseError>) -> Seq<Seq<char>> {
    errors.map_values(|e: ResponseError| error_entry_json(json_quoted(e.code@), json_quoted(e.message@)))
}

/// Frames one error entry from its quoted code and message.
pub fn frame_error_entry(code_json: &str, message_json: &str) -> (r: String)
    ensures
        r@ == error_entry_json(code_json@, message_json@),
{
    let mut out = String::from_str("{\"code\":");
    push_str(&mut out, code_json);
    push_str(&mut out, ",\"message\":");
    push_str(&mut out, message_json);
    push_str(&mut out, ",\"details\":null}");
    out
}

/// Frames the envelope from the JSON of its entries.
pub fn frame_envelope(items: &Vec<String>) -> (r: String)
    ensures
        r@ == envelope_json(items.deep_view()),
{
    let mut body = String::new();
    let mut i: usize = 0;
    while i < items.len()
        invariant
            i <= items.len(),
            body@ == joined(items.deep_view().take(i as int)),
        decreases items.len() - i,
    {
        proof {
            let s = items.deep_view();
            assert(s.take(i as int + 1).drop_last() =~= s.take(i as int));
        }
        if i > 0 {
            push_str(&mut body, ",");
        }
        push_str(&mut body, items[i].as_str());
        i = i + 1;
    }
    proof {
        assert(items.deep_view().take(items.len() as int) =~= items.deep_view());
    }
    let mut out = String::from_str("{\"errors\":[");
    push_str(&mut out, body.as_str());
    push_str(&mut out, "]}");
    out
}

impl Response {
    /// The envelope for a policy refusal: one entry, code `DENIED`, the
    /// refusal's text as message, no details.
    pub fn denied(reason: &AdmitError) -> (r: Response)
        ensures
            r.errors@.len() == 1,
            r.errors@[0].code@ == "DENIED"@,
            r.errors@[0].message@ == reason_text(*reason),
            r.errors@[0].details is None,
    {
        let entry = ResponseError {
            code: String::from_str("DENIED"),
            message: reason.message(),
            details: None,
        };
        Response { errors: vec![entry] }
    }

    /// The envelope as JSON text.
    pub fn to_json(&self) -> (r: String)
        ensures
            r@ == envelope_json(entries_json(self.errors@)),
    {
        let mut items: Vec<String> = Vec::new();
        let mut i: usize = 0;
        while i < self.errors.len()
            invariant
                i <= self.errors.len(),
                items@.len() == i,
                forall|k: int| 0 <= k < i ==> #[trigger] items@[k]@ == entries_json(self.errors@)[k],
            decreases self.errors.len() - i,
        {
            let e = &self.errors[i];
            let code = quote(e.code.as_str());
            let message = quote(e.message.as_str());
            let entry = frame_error_entry(code.as_str(), message.as_str());
            items.push(entry);
            i = i + 1;
        }
        assert(items.deep_view() =~= entries_json(self.errors@));
        frame_envelope(&items)
    }
}

/// An HTTP header: its name in lower case, as HTTP libraries hand it out,
/// and its raw value bytes.
#[derive(Debug, PartialEq, Eq)]
pub struct Header {
    pub name: String,
    pub value: Vec<u8>,
}

impl View for Header {
    type V = (Seq<char>, Seq<u8>);

    open spec fn view(&self) -> (Seq<char>, Seq<u8>) {
        (self.name@, self.value@)
    }
}

/// The views of a list of headers.
pub open spec fn headers_view(hs: Seq<Header>) -> Seq<(Seq<char>, Seq<u8>)> {
    hs.map_values(|h: Header| h@)
}

/// Whether a header is `Host`.
pub open spec fn is_host(h: (Seq<char>, Seq<u8>)) -> bool {
    h.0 == "host"@
}

/// The headers that are forwarded upstream: all but `Host`, in their order.
pub open spec fn forwarded_headers(hs: Seq<(Seq<char>, Seq<u8>)>) -> Seq<(Seq<char>, Seq<u8>)> {
    hs.filter(|h: (Seq<char>, Seq<u8>)| !is_host(h))
}

/// A `Location` value with the upstream base removed when it starts with it.
pub open spec fn strip_base(base: Seq<u8>, v: Seq<u8>) -> Seq<u8> {
    if base.is_prefix_of(v) {
        v.subrange(base.len() as int, v.len() as int)
    } else {
        v
    }
}

/// A response header as handed back to the client.
pub open spec fn adapted_header(base: Seq<u8>, h: (Seq<char>, Seq<u8>)) -> (Seq<char>, Seq<u8>) {
    if h.0 == "location"@ {
        (h.0, strip_base(base, h.1))
    } else {
        h
    }
}

/// No forwarded header is `Host`; every other header of the inbound request
/// is forwarded, and the forwarded headers keep their relative order (they
/// are the inbound ones with each `Host` taken out).
pub proof fn forwarded_headers_drop_only_host(hs: Seq<(Seq<char>, Seq<u8>)>)
    ensures
        forall|k: int|
            0 <= k < forwarded_headers(hs).len() ==> !is_host(#[trigger] forwarded_headers(hs)[k]),
        forall|k: int| 0 <= k < hs.len() && !is_host(hs[k]) ==> #[trigger] forwarded_headers(hs).contains(hs[k]),
        forall|k: int| 0 <= k < hs.len() && is_host(hs[k]) ==> !#[trigger] forwarded_headers(hs).contains(hs[k]),
        forwarded_headers(hs.push(("host"@, Seq::<u8>::empty()))) == forwarded_headers(hs),
{
    broadcast use vstd::seq_lib::group_filter_ensures;

    let pushed = hs.push(("host"@, Seq::<u8>::empty()));
    reveal(Seq::filter);
    assert(pushed.drop_last() =~= hs);
}

/// A `Location` value that starts with the base address loses exactly that
/// prefix; one that does not start with it is kept byte for byte.
pub proof fn location_rewrite_strips_only_base(base: Seq<u8>, v: Seq<u8>, rest: Seq<u8>)
    ensures
        strip_base(base, base + rest) == rest,
        !base.is_prefix_of(v) ==> strip_base(base, v) == v,
        adapted_header(base, ("location"@, base + rest)) == ("location"@, rest),
        !base.is_prefix_of(v) ==> adapted_header(base, ("location"@, v)) == ("location"@, v),
{
    assert((base + rest).subrange(0, base.len() as int) =~= base);
    assert((base + rest).subrange(base.len() as int, (base + rest).len() as int) =~= rest);
}

/// A request to send upstream: method, absolute URI and headers.
#[derive(Debug, PartialEq, Eq)]
pub struct ProxyRequest {
    pub method: String,
    pub uri: String,
    pub headers: Vec<Header>,
}

/// Forwards requests to one upstream registry.
#[derive(Clone, Debug)]
pub struct Proxy {
    base_address: String,
}

/// Copies a byte string.
fn copy_bytes(v: &Vec<u8>) -> (r: Vec<u8>)
    ensures
        r@ == v@,
{
    let mut out: Vec<u8> = Vec::new();
    let mut i: usize = 0;
    while i < v.len()
        invariant
            i <= v.len(),
            out@ == v@.subrange(0, i as int),
        decreases v.len() - i,
    {
        out.push(v[i]);
        i = i + 1;
    }
    assert(out@ =~= v@);
    out
}

/// Copies a header.
fn copy_header(h: &Header) -> (r: Header)
    ensures
        r@ == h@,
{
    Header { name: h.name.clone(), value: copy_bytes(&h.value) }
}

/// Whether `prefix` is a prefix of `v`.
fn has_prefix(v: &[u8], prefix: &[u8]) -> (r: bool)
    ensures
        r == prefix@.is_prefix_of(v@),
{
    if prefix.len() > v.len() {
        return false;
    }
    let mut i: usize = 0;
    while i < prefix.len()
        invariant
            prefix@.len() <= v@.len(),
            i <= prefix@.len(),
            forall|k: int| 0 <= k < i ==> prefix@[k] == v@[k],
        decreases prefix.len() - i,
    {
        if prefix[i] != v[i] {
            assert(prefix@[i as int] != v@.subrange(0, prefix@.len() as int)[i as int]);
            return false;
        }
        i = i + 1;
    }
    assert(prefix@ =~= v@.subrange(0, prefix@.len() as int));
    true
}

/// The bytes of `v` from `start` on.
fn bytes_from(v: &Vec<u8>, start: usize) -> (r: Vec<u8>)
    requires
        start <= v@.len(),
    ensures
        r@ == v@.subrange(start as int, v@.len() as int),
{
    let mut out: Vec<u8> = Vec::new();
    let mut i: usize = start;
    while i < v.len()
        invariant
            start <= i <= v.len(),
            out@ == v@.subrange(start as int, i as int),
        decreases v.len() - i,
    {
        out.push(v[i]);
        i = i + 1;
    }
    out
}

impl Proxy {
    /// The upstream base address.
    pub closed spec fn base(&self) -> Seq<char> {
        self.base_address@
    }

    /// Creates a proxy to the upstream at `base_address`.
    pub fn new(base_address: String) -> (r: Proxy)
        ensures
            r.base() == base_address@,
    {
        Proxy { base_address }
    }

    /// The request to send upstream for an inbound request: same method, the
    /// base address followed by the inbound path and query, and every inbound
    /// header but `Host`, in order and unchanged.
    pub fn request(&self, method: &str, path_and_query: &str, headers: &Vec<Header>) -> (r: ProxyRequest)
        ensures
            r.method@ == method@,
            r.uri@ == self.base() + path_and_query@,
            headers_view(r.headers@) == forwarded_headers(headers_view(headers@)),
    {
        let mut uri = self.base_address.clone();
        push_str(&mut uri, path_and_query);
        let mut out: Vec<Header> = Vec::new();
        let mut i: usize = 0;
        while i < headers.len()
            invariant
                i <= headers.len(),
                headers_view(out@) == forwarded_headers(headers_view(headers@.take(i as int))),
            decreases headers.len() - i,
        {
            let h = &headers[i];
            proof {
                reveal(Seq::filter);
                let all = headers@;
                assert(headers_view(all.take(i as int + 1)).drop_last() =~= headers_view(all.take(i as int)));
                assert(headers_view(all.take(i as int + 1)).last() == h@);
            }
            if !(h.name == String::from_str("host")) {
                let c = copy_header(h);
                let ghost before = out@;
                out.push(c);
                proof {
                    assert(headers_view(out@) =~= headers_view(before).push(c@));
                }
            }
            i = i + 1;
        }
        proof {
            assert(headers@.take(headers@.len() as int) =~= headers@);
        }
        ProxyRequest { method: String::from_str(method), uri, headers: out }
    }

    /// The headers handed back to the client for an upstream response: each
    /// in order, a `Location` that starts with the base address losing that
    /// prefix, all others byte for byte.
    pub fn response(&self, headers: &Vec<Header>) -> (r: Vec<Header>)
        ensures
            headers_view(r@) == headers_view(headers@).map_values(
                |h: (Seq<char>, Seq<u8>)| adapted_header(encode_utf8(self.base()), h),
            ),
    {
        let base = self.base_address.as_str().as_bytes();
        let location = String::from_str("location");
        let mut out: Vec<Header> = Vec::new();
        let mut i: usize = 0;
        while i < headers.len()
            invariant
                i <= headers.len(),
                base@ == encode_utf8(self.base()),
                location@ == "location"@,
                out@.len() == i,
                forall|k: int|
                    0 <= k < i ==> #[trigger] out@[k]@ == adapted_header(
                        encode_utf8(self.base()),
                        headers@[k]@,
                    ),
            decreases headers.len() - i,
        {
            let h = &headers[i];
            let adapted = if h.name == location && has_prefix(h.value.as_slice(), base) {
                Header { name: h.name.clone(), value: bytes_from(&h.value, base.len()) }
            } else {
                copy_header(h)
            };
            out.push(adapted);
            i = i + 1;
        }
        proof {
            assert(headers_view(out@) =~= headers_view(headers@).map_values(
                |h: (Seq<char>, Seq<u8>)| adapted_header(encode_utf8(self.base()), h),
            ));
        }
        out
    }
}

} // verus!
