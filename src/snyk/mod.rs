//! Client protocol of the vulnerability service: how its two operations are
//! framed as HTTP requests and how their statuses are read.

pub mod organization_integration_import_post;
pub mod organization_projects_post;

use vstd::prelude::*;
use crate::json::push_str;
use crate::oci::{headers_view, Header};
use vstd::utf8::encode_utf8;

verus! {

/// Credentials and scope of the vulnerability service.
#[derive(Clone, Debug)]
pub struct Api {
    base_address: String,
    api_key: String,
    organization_id: String,
    integration_id: String,
}

/// A fault of the vulnerability service's protocol.
#[derive(Clone, Copy, Debug, PartialEq, Eq, Structural)]
pub enum ApiError {
    /// The service answered with a status other than the expected one.
    UnexpectedStatus(u16),
    /// The service could not be reached, or its answer could not be read.
    Transport,
}

/// A request to the vulnerability service: always a `POST` with a JSON body.
#[derive(Debug, PartialEq, Eq)]
pub struct ApiRequest {
    pub uri: String,
    pub headers: Vec<Header>,
    pub body: String,
}

/// The header views of a bearer-token authenticated JSON request.
pub open spec fn api_headers(api_key: Seq<char>) -> Seq<(Seq<char>, Seq<u8>)> {
    seq![
        ("authorization"@, encode_utf8("token "@ + api_key)),
        ("content-type"@, encode_utf8("application/json"@)),
    ]
}

/// The bytes of a string.
pub(crate) fn string_bytes(s: &str) -> (r: Vec<u8>)
    ensures
        r@ == encode_utf8(s@),
{
    let b = s.as_bytes();
    let mut out: Vec<u8> = Vec::new();
    let mut i: usize = 0;
    while i < b.len()
        invariant
            i <= b@.len(),
            b@ == encode_utf8(s@),
            out@ == b@.subrange(0, i as int),
        decreases b.len() - i,
    {
        out.push(b[i]);
        i = i + 1;
    }
    assert(out@ =~= b@);
    out
}

impl Api {
    pub closed spec fn spec_base_address(&self) -> Seq<char> {
        self.base_address@
    }

    pub closed spec fn spec_api_key(&self) -> Seq<char> {
        self.api_key@
    }

    pub closed spec fn spec_organization_id(&self) -> Seq<char> {
        self.organization_id@
    }

    pub closed spec fn spec_integration_id(&self) -> Seq<char> {
        self.integration_id@
    }

    /// Creates a client scoped to one organization and one integration.
    pub fn new(base_address: String, api_key: String, organization_id: String, integration_id: String) -> (r: Api)
        ensures
            r.spec_base_address() == base_address@,
            r.spec_api_key() == api_key@,
            r.spec_organization_id() == organization_id@,
            r.spec_integration_id() == integration_id@,
    {
        Api { base_address, api_key, organization_id, integration_id }
    }

    /// The authentication and content headers of every request.
    pub fn headers(&self) -> (r: Vec<Header>)
        ensures
            headers_view(r@) == api_headers(self.spec_api_key()),
    {
        let mut token = String::from_str("token ");
        push_str(&mut token, self.api_key.as_str());
        let authorization = Header {
            name: String::from_str("authorization"),
            value: string_bytes(token.as_str()),
        };
        let content_type = Header {
            name: String::from_str("content-type"),
            value: string_bytes("application/json"),
        };
        let r = vec![authorization, content_type];
        assert(headers_view(r@) =~= api_headers(self.spec_api_key()));
        r
    }

    /// The base address followed by `/api/v1/org/<organization>`.
    pub fn organization_uri(&self) -> (r: String)
        ensures
            r@ == self.spec_base_address() + "/api/v1/org/"@ + self.spec_organization_id(),
    {
        let mut uri = self.base_address.clone();
        push_str(&mut uri, "/api/v1/org/");
        push_str(&mut uri, self.organization_id.as_str());
        uri
    }
}

} // verus!
